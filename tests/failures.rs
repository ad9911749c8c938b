use errtrace::any::Request;
use errtrace::error::{return_trace, Error, DEPRECATED_DESCRIPTION};
use errtrace::result::Result;
use errtrace::site::CallSite;
use errtrace::traced::TracedError;
use errtrace::track::Track;

fn site(line: u32) -> CallSite {
    CallSite::new("src/main.rs", line, 1)
}

fn lines(sites: &[CallSite]) -> Vec<u32> {
    sites.iter().map(|s| s.line).collect()
}

/// `outer` wraps `middle`, which wraps `inner`; each recorded one call site.
fn three_levels() -> TracedError {
    let inner = TracedError::new(String::from("inner"), site(10));
    let mut middle = inner.wrap(String::from("middle"));
    middle.track(site(20));
    let mut outer = middle.wrap(String::from("outer"));
    outer.track(site(30));
    outer
}

struct Plain;

impl Error for Plain {
    fn message(&self) -> String {
        String::from("plain")
    }

    fn debug_message(&self) -> String {
        String::from("Plain")
    }

    fn source(&self) -> Option<&Plain> {
        None
    }

    fn provide_context<'a>(&'a self, _request: &mut Request<'a>) {}
}

#[test]
fn chain_yields_each_level_then_ends() {
    let e = three_levels();
    let mut chain = e.chain();
    let names: Vec<String> = std::iter::from_fn(|| chain.next().map(|x| x.message())).collect();
    assert_eq!(names, vec!["outer", "middle", "inner"]);
    assert!(chain.next().is_none());
    assert!(chain.next().is_none());
}

#[test]
fn chain_of_single_failure() {
    let e = TracedError::new(String::from("alone"), site(1));
    let mut chain = e.chain();
    assert!(std::ptr::eq(chain.next().unwrap(), &e));
    assert!(chain.next().is_none());
}

#[test]
fn return_trace_runs_outer_to_inner() {
    let e = three_levels();
    assert_eq!(lines(&return_trace(&e)), vec![30, 20, 10]);
}

#[test]
fn return_trace_skips_failures_without_context() {
    assert!(return_trace(&Plain).is_empty());
    let e = TracedError::new(String::from("x"), site(5)).wrap(String::from("y"));
    assert_eq!(lines(&return_trace(&e)), vec![5]);
}

#[test]
fn local_trace_by_vector_and_by_slice() {
    let e = three_levels();
    let v = e.context_ref::<Vec<CallSite>>().unwrap();
    assert!(std::ptr::eq(v, &e.frames));
    assert_eq!(lines(v), vec![30]);
    let s = e.context_ref::<[CallSite]>().unwrap();
    assert_eq!(lines(s), vec![30]);
    let inner = e.source().unwrap().source().unwrap();
    assert_eq!(lines(inner.context_ref::<[CallSite]>().unwrap()), vec![10]);
}

#[test]
fn unknown_context_is_absent() {
    let e = three_levels();
    assert!(e.context::<u64>().is_none());
    assert!(e.context::<Vec<CallSite>>().is_none());
    assert!(e.context_ref::<String>().is_none());
    assert!(e.context_ref::<CallSite>().is_none());
}

#[test]
fn context_query_is_repeatable() {
    let e = three_levels();
    let first = e.context_ref::<[CallSite]>().map(lines);
    let second = e.context_ref::<[CallSite]>().map(lines);
    assert_eq!(first, second);
    assert_eq!(e.context::<u64>(), e.context::<u64>());
}

#[test]
fn failure_without_context_answers_nothing() {
    let p = Plain;
    assert!(p.context::<u64>().is_none());
    assert!(p.context::<String>().is_none());
    assert!(p.context_ref::<Vec<CallSite>>().is_none());
    assert!(p.context_ref::<[CallSite]>().is_none());
    assert!(p.source().is_none());
}

#[test]
fn cause_and_description() {
    let e = three_levels();
    assert!(std::ptr::eq(e.cause().unwrap(), e.source().unwrap()));
    assert_eq!(e.description(), DEPRECATED_DESCRIPTION);
    assert_eq!(Plain.description(), "description() is deprecated; use Display");
    assert_eq!(e.message(), "outer");
    assert_eq!(e.debug_message(), "outer");
}

#[test]
fn new_and_wrap_set_the_trace() {
    let e = TracedError::new(String::from("a"), site(3));
    assert_eq!(lines(&e.frames), vec![3]);
    assert!(e.source.is_none());
    let w = e.wrap(String::from("b"));
    assert!(w.frames.is_empty());
    assert_eq!(w.source.as_ref().unwrap().name, "a");
}

#[test]
fn unwrap_err_gives_the_failure() {
    let r: Result<u8, u32> = Result::Failure(9);
    assert_eq!(r.unwrap_err(), 9);
}

#[test]
fn into_result_keeps_the_outcome() {
    let ok: Result<u8, u32> = Result::from_ok(4);
    assert_eq!(ok.into_result(), Ok(4));
    let err: Result<u8, u32> = Result::Failure(6);
    assert_eq!(err.into_result(), Err(6));
}

#[test]
fn propagation_records_call_sites() {
    let raised: Result<(), TracedError> =
        Result::from_error(TracedError::new(String::from("io"), site(1)), site(2));
    let passed = raised.propagate(site(3));
    let e = passed.unwrap_err();
    assert_eq!(lines(&e.frames), vec![1, 2, 3]);
}

#[test]
fn propagation_leaves_success_alone() {
    let r: Result<u8, TracedError> = Result::from_ok(8);
    match r.propagate(site(1)) {
        Result::Success(v) => assert_eq!(v, 8),
        Result::Failure(_) => panic!("success turned into failure"),
    }
}
