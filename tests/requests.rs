use errtrace::any::{request, request_mut, Provider, Request, Tagged};
use errtrace::site::CallSite;
use errtrace::tag::{Ref, RefMut, Value};
use std::cell::Cell;

struct Number(u64);

impl Provider for Number {
    fn provide<'a>(&'a self, request: &mut Request<'a>) {
        request.provide::<Value<u64>>(self.0);
    }
}

struct Twice(u64, u64);

impl Provider for Twice {
    fn provide<'a>(&'a self, request: &mut Request<'a>) {
        request
            .provide::<Value<u64>>(self.0)
            .provide::<Value<u64>>(self.1);
    }
}

struct Texts {
    label: String,
}

impl Provider for Texts {
    fn provide<'a>(&'a self, request: &mut Request<'a>) {
        request
            .provide_ref::<String>(&self.label)
            .provide::<Value<String>>(self.label.clone());
    }
}

struct Lazy {
    calls: Cell<u32>,
}

impl Provider for Lazy {
    fn provide<'a>(&'a self, request: &mut Request<'a>) {
        request.provide_with::<Value<u64>, _>(|| {
            self.calls.set(self.calls.get() + 1);
            42
        });
    }
}

struct Probe {
    saw_count: Cell<Option<bool>>,
    saw_text: Cell<Option<bool>>,
}

impl Provider for Probe {
    fn provide<'a>(&'a self, request: &mut Request<'a>) {
        self.saw_count.set(Some(request.is::<Value<u64>>()));
        self.saw_text.set(Some(Tagged::is::<Ref<String>>(&*request)));
    }
}

#[test]
fn provided_value_is_returned() {
    let r = request::<Value<u64>, _>(|slot| {
        slot.provide::<Value<u64>>(7);
    });
    assert_eq!(r, Some(7));
    let x: u64 = 5;
    let r = request::<Ref<u64>, _>(|slot| {
        slot.provide_ref::<u64>(&x);
    });
    assert!(std::ptr::eq(r.unwrap(), &x));
}

#[test]
fn other_marker_stays_empty() {
    let r = request::<Value<String>, _>(|slot| {
        slot.provide::<Value<u64>>(7);
    });
    assert_eq!(r, None);
    let r = request::<Ref<u64>, _>(|slot| {
        slot.provide::<Value<u64>>(7);
    });
    assert_eq!(r, None);
    let x: u64 = 7;
    let r = request::<Value<u64>, _>(|slot| {
        slot.provide_ref::<u64>(&x);
    });
    assert_eq!(r, None);
}

#[test]
fn nothing_provided_gives_none() {
    let r = request::<Value<u64>, _>(|_slot| {});
    assert_eq!(r, None);
}

#[test]
fn last_provide_wins() {
    let r = request::<Value<u64>, _>(|slot| {
        slot.provide::<Value<u64>>(1);
        slot.provide::<Value<u64>>(2);
    });
    assert_eq!(r, Some(2));
    let p = Twice(1, 2);
    assert_eq!(p.request::<Value<u64>>(), Some(2));
}

#[test]
fn provider_answers_its_marker() {
    let p = Number(7);
    assert_eq!(p.request::<Value<u64>>(), Some(7));
    assert_eq!(p.request::<Value<String>>(), None);
    assert_eq!(request::<Value<u64>, _>(|slot| p.provide(slot)), Some(7));
}

#[test]
fn exclusive_reference_reaches_the_caller() {
    let mut n: u64 = 3;
    let got = request::<RefMut<u64>, _>(|slot| {
        slot.provide::<RefMut<u64>>(&mut n);
    });
    *got.unwrap() += 1;
    assert_eq!(n, 4);
}

#[test]
fn exclusive_reference_comes_back_itself() {
    let mut n: u64 = 3;
    let got = request_mut::<u64, _>(|slot| {
        slot.provide_mut::<u64>(&mut n);
    });
    *got.unwrap() = 9;
    assert_eq!(n, 9);
}

#[test]
fn exclusive_reference_last_write_wins() {
    let mut a: u64 = 1;
    let mut b: u64 = 2;
    let got = request_mut::<u64, _>(|slot| {
        slot.provide_mut::<u64>(&mut a).provide_mut::<u64>(&mut b);
    });
    *got.unwrap() = 7;
    assert_eq!((a, b), (1, 7));
}

#[test]
fn exclusive_reference_under_other_marker_is_ignored() {
    let mut n: u64 = 3;
    let got = request_mut::<u64, _>(|slot| {
        slot.provide::<Value<u64>>(5);
    });
    assert!(got.is_none());
    let r = request::<Value<u64>, _>(|slot| {
        slot.provide_mut::<u64>(&mut n);
    });
    assert_eq!(r, None);
    assert_eq!(n, 3);
}

#[test]
fn shared_and_owned_shapes_are_distinct() {
    let p = Texts { label: String::from("disk full") };
    let by_ref = p.request::<Ref<String>>().unwrap();
    assert!(std::ptr::eq(by_ref, &p.label));
    assert_eq!(p.request::<Value<String>>(), Some(String::from("disk full")));
    assert_eq!(p.request::<Value<u64>>(), None);
}

#[test]
fn provide_with_runs_only_when_bound() {
    let p = Lazy { calls: Cell::new(0) };
    assert_eq!(p.request::<Value<String>>(), None);
    assert_eq!(p.calls.get(), 0);
    assert_eq!(p.request::<Value<u64>>(), Some(42));
    assert_eq!(p.calls.get(), 1);
}

#[test]
fn request_knows_its_marker() {
    let p = Probe { saw_count: Cell::new(None), saw_text: Cell::new(None) };
    assert_eq!(p.request::<Value<u64>>(), None);
    assert_eq!(p.saw_count.get(), Some(true));
    assert_eq!(p.saw_text.get(), Some(false));
    assert_eq!(p.request::<Ref<String>>(), None);
    assert_eq!(p.saw_count.get(), Some(false));
    assert_eq!(p.saw_text.get(), Some(true));
}

#[test]
fn call_site_keeps_its_fields() {
    let s = CallSite::new("src/io.rs", 12, 5);
    assert_eq!(s.file, "src/io.rs");
    assert_eq!(s.line, 12);
    assert_eq!(s.column, 5);
}
