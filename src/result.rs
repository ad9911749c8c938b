//! The ok-or-failure carrier, and propagation that records where a failure
//! was passed on.
use crate::site::CallSite;
use crate::track::Track;
use vstd::prelude::*;

verus! {

/// A success `Success(T)` or a failure `Failure(E)`.
pub enum Result<T, E> {
    Success(T),
    Failure(E),
}

impl<T, E> Result<T, E> {
    /// The failure held; only for a result that is a failure.
    pub fn unwrap_err(self) -> (r: E)
        requires
            self is Failure,
        ensures
            self == Result::<T, E>::Failure(r),
    {
        match self {
            Result::Success(_) => {
                proof {
                    assert(false);
                }
                unreached()
            },
            Result::Failure(e) => e,
        }
    }

    /// The same outcome as a standard result.
    pub fn into_result(self) -> (r: core::result::Result<T, E>)
        ensures
            match self {
                Result::Success(t) => r == core::result::Result::<T, E>::Ok(t),
                Result::Failure(e) => r == core::result::Result::<T, E>::Err(e),
            },
    {
        match self {
            Result::Success(t) => Ok(t),
            Result::Failure(e) => Err(e),
        }
    }

    /// A success holding `v`.
    pub fn from_ok(v: T) -> (r: Self)
        ensures
            r == Result::<T, E>::Success(v),
    {
        Result::Success(v)
    }
}

impl<T, E: Track> Result<T, E> {
    /// The failure path of propagation: records `site` on `v` and returns it
    /// as a failure.
    pub fn from_error(v: E, site: CallSite) -> (r: Self)
        ensures
            r matches Result::Failure(e) && E::records(v, e, site),
    {
        let mut v = v;
        v.track(site);
        Result::Failure(v)
    }

    /// Passes this result on from `site`: a success as it is, a failure with
    /// `site` recorded on it.
    pub fn propagate(self, site: CallSite) -> (r: Self)
        ensures
            self is Success ==> r == self,
            self matches Result::Failure(e) ==> (r matches Result::Failure(e2) && E::records(
                e,
                e2,
                site,
            )),
    {
        match self {
            Result::Success(t) => Result::Success(t),
            Result::Failure(e) => Self::from_error(e, site),
        }
    }
}

} // verus!
