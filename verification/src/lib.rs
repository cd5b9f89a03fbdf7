//! A three-state outcome type: an extension of the standard `Result` that
//! adds a "degraded success" state carrying both a usable value and an
//! explanation of why the computation fell short of full success.
//!
//! This is useful when a computation may fail but can still recommend a
//! reasonable value to use despite the failure — for instance a linear solve
//! whose accuracy is poor because of a large condition number: the computed
//! solution is still worth returning as a recommendation even though the
//! operation is technically a failure.

use vstd::prelude::*;

verus! {

/// Either full success (`Success`), failure with a recommended value
/// (`Degraded`), or complete failure (`Failure`).
///
/// * `T` - the type of the success value or recommended value
/// * `E` - the type of the error value
pub enum AdHocResult<T, E> {
    /// Contains the success value.
    Success(T),
    /// Contains both a recommended value and an error explaining why the
    /// computation failed.
    Degraded(T, E),
    /// Contains only the error value.
    Failure(E),
}

impl<T, E> AdHocResult<T, E> {
    /// The value extracted when only full success is accepted.
    pub open spec fn spec_unwrap(self) -> T
        recommends
            self is Success,
    {
        self->Success_0
    }

    /// The value extracted when a degraded success is accepted as well.
    pub open spec fn spec_unwrap_adhoc(self) -> T
        recommends
            self is Success || self is Degraded,
    {
        if self is Degraded {
            self->Degraded_0
        } else {
            self->Success_0
        }
    }

    /// The result of collapsing to a standard `Result`, treating a degraded
    /// success as an error and discarding its recommended value.
    pub open spec fn spec_to_result(self) -> Result<T, E> {
        match self {
            AdHocResult::Success(v) => Result::Ok(v),
            AdHocResult::Degraded(_, e) => Result::Err(e),
            AdHocResult::Failure(e) => Result::Err(e),
        }
    }

    /// The result of collapsing to a standard `Result`, treating a degraded
    /// success as a success and discarding its error.
    pub open spec fn spec_to_result_with_adhoc(self) -> Result<T, E> {
        match self {
            AdHocResult::Success(v) => Result::Ok(v),
            AdHocResult::Degraded(v, _) => Result::Ok(v),
            AdHocResult::Failure(e) => Result::Err(e),
        }
    }

    /// The embedding of a standard `Result`: `Ok` becomes `Success` and
    /// `Err` becomes `Failure`; nothing maps to `Degraded`.
    pub open spec fn spec_from(result: Result<T, E>) -> Self {
        match result {
            Result::Ok(v) => AdHocResult::Success(v),
            Result::Err(e) => AdHocResult::Failure(e),
        }
    }

    /// Creates a new `AdHocResult` in the `Success` variant.
    pub fn new_ok(value: T) -> (r: Self)
        ensures
            r == AdHocResult::<T, E>::Success(value),
    {
        AdHocResult::Success(value)
    }

    /// Creates a new `AdHocResult` in the `Degraded` variant with a
    /// recommended value and an error.
    pub fn new_adhoc(value: T, error: E) -> (r: Self)
        ensures
            r == AdHocResult::Degraded(value, error),
    {
        AdHocResult::Degraded(value, error)
    }

    /// Creates a new `AdHocResult` in the `Failure` variant.
    pub fn new_err(error: E) -> (r: Self)
        ensures
            r == AdHocResult::<T, E>::Failure(error),
    {
        AdHocResult::Failure(error)
    }

    /// Yields the content of a `Success`.
    ///
    /// The caller must hold a full success: a `Degraded` or `Failure` value
    /// is not accepted, so the diagnostic message is never emitted.
    pub fn expect(self, _message: &str) -> (value: T)
        requires
            self is Success,
        ensures
            value == self.spec_unwrap(),
    {
        match self {
            AdHocResult::Success(x) => x,
            _ => unreached(),
        }
    }

    /// Yields the content of a `Success`, with a default diagnostic.
    ///
    /// The caller must hold a full success: a `Degraded` or `Failure` value
    /// is not accepted.
    pub fn unwrap(self) -> (value: T)
        requires
            self is Success,
        ensures
            value == self.spec_unwrap(),
    {
        self.expect("Unwrap fails")
    }

    /// Yields the content of a `Success` or the recommended value of a
    /// `Degraded`.
    ///
    /// The caller must hold a usable value: a `Failure` is not accepted, so
    /// the diagnostic message is never emitted.
    pub fn expect_adhoc(self, _message: &str) -> (value: T)
        requires
            self is Success || self is Degraded,
        ensures
            value == self.spec_unwrap_adhoc(),
    {
        match self {
            AdHocResult::Success(x) => x,
            AdHocResult::Degraded(x, _) => x,
            _ => unreached(),
        }
    }

    /// Yields the content of a `Success` or the recommended value of a
    /// `Degraded`, with a default diagnostic.
    ///
    /// The caller must hold a usable value: a `Failure` is not accepted.
    pub fn unwrap_adhoc(self) -> (value: T)
        requires
            self is Success || self is Degraded,
        ensures
            value == self.spec_unwrap_adhoc(),
    {
        self.expect_adhoc("Unwrap fails")
    }

    /// Converts the `AdHocResult<T, E>` into a `Result<T, E>`.
    ///
    /// Both `Failure` and `Degraded` become errors; for `Degraded` the
    /// recommended value is discarded and only the error is kept. Callers
    /// that need the value should use `to_result_with_adhoc` instead, or
    /// inspect the value before converting.
    pub fn to_result(self) -> (r: Result<T, E>)
        ensures
            r == self.spec_to_result(),
    {
        match self {
            AdHocResult::Success(v) => Ok(v),
            AdHocResult::Degraded(_, e) => Err(e),
            AdHocResult::Failure(e) => Err(e),
        }
    }

    /// Converts the `AdHocResult<T, E>` into a `Result<T, E>` treating
    /// `Degraded` as success.
    ///
    /// Only `Failure` becomes an error; both `Success` and `Degraded`
    /// become successes, keeping the value but discarding any error
    /// information a `Degraded` carried.
    pub fn to_result_with_adhoc(self) -> (r: Result<T, E>)
        ensures
            r == self.spec_to_result_with_adhoc(),
    {
        match self {
            AdHocResult::Success(v) => Ok(v),
            AdHocResult::Degraded(v, _) => Ok(v),
            AdHocResult::Failure(e) => Err(e),
        }
    }
}

impl<T, E> From<Result<T, E>> for AdHocResult<T, E> {
    /// Converts a `Result<T, E>` into an `AdHocResult<T, E>`: `Ok` becomes
    /// `Success` and `Err` becomes `Failure`.
    fn from(result: Result<T, E>) -> (r: Self) {
        match result {
            Ok(v) => AdHocResult::Success(v),
            Err(e) => AdHocResult::Failure(e),
        }
    }
}

impl<T, E> vstd::std_specs::convert::FromSpecImpl<Result<T, E>> for AdHocResult<T, E> {
    open spec fn obeys_from_spec() -> bool {
        true
    }

    open spec fn from_spec(result: Result<T, E>) -> Self {
        Self::spec_from(result)
    }
}

impl<T, E> From<AdHocResult<T, E>> for Result<T, E> {
    /// Converts an `AdHocResult<T, E>` into a `Result<T, E>` with the
    /// semantics of `to_result`: `Success` becomes `Ok`, and both
    /// `Degraded` and `Failure` become `Err`, discarding the recommended
    /// value a `Degraded` carried.
    fn from(adhoc: AdHocResult<T, E>) -> (r: Self) {
        adhoc.to_result()
    }
}

impl<T, E> vstd::std_specs::convert::FromSpecImpl<AdHocResult<T, E>> for Result<T, E> {
    open spec fn obeys_from_spec() -> bool {
        true
    }

    open spec fn from_spec(adhoc: AdHocResult<T, E>) -> Self {
        adhoc.spec_to_result()
    }
}

/// A full success yields its value under either extraction policy, and
/// neither extraction refuses it.
pub proof fn lemma_success_extracts<T, E>(v: T)
    ensures
        AdHocResult::<T, E>::Success(v).spec_unwrap() == v,
        AdHocResult::<T, E>::Success(v).spec_unwrap_adhoc() == v,
{
}

/// A degraded success yields its recommended value under the lenient
/// extraction policy; the strict policy refuses it, since the value is not
/// a full success.
pub proof fn lemma_degraded_extracts<T, E>(v: T, e: E)
    ensures
        AdHocResult::Degraded(v, e).spec_unwrap_adhoc() == v,
        !(AdHocResult::Degraded(v, e) is Success),
{
}

/// A complete failure is refused by both extraction policies: it is neither
/// a full success nor a degraded one.
pub proof fn lemma_failure_extracts_nothing<T, E>(e: E)
    ensures
        !(AdHocResult::<T, E>::Failure(e) is Success),
        !(AdHocResult::<T, E>::Failure(e) is Degraded),
{
}

/// A full success collapses to `Ok` under either conversion policy.
pub proof fn lemma_success_to_result<T, E>(v: T)
    ensures
        AdHocResult::<T, E>::Success(v).spec_to_result() == Result::<T, E>::Ok(v),
        AdHocResult::<T, E>::Success(v).spec_to_result_with_adhoc() == Result::<T, E>::Ok(v),
{
}

/// A degraded success collapses to `Err` under the strict conversion,
/// which discards its value, and to `Ok` under the lenient one, which
/// discards its error.
pub proof fn lemma_degraded_to_result<T, E>(v: T, e: E)
    ensures
        AdHocResult::Degraded(v, e).spec_to_result() == Result::<T, E>::Err(e),
        AdHocResult::Degraded(v, e).spec_to_result_with_adhoc() == Result::<T, E>::Ok(v),
{
}

/// A complete failure collapses to `Err` under either conversion policy.
pub proof fn lemma_failure_to_result<T, E>(e: E)
    ensures
        AdHocResult::<T, E>::Failure(e).spec_to_result() == Result::<T, E>::Err(e),
        AdHocResult::<T, E>::Failure(e).spec_to_result_with_adhoc() == Result::<T, E>::Err(e),
{
}

/// Embedding a standard `Result` and collapsing back is the identity: the
/// round trip holds exactly on the two-state subset, since `Degraded` has
/// no `Result`-side preimage.
pub proof fn lemma_result_round_trip<T, E>(result: Result<T, E>)
    ensures
        AdHocResult::spec_from(result).spec_to_result() == result,
{
}

} // verus!
