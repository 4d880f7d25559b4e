//! The error adapter: turns the toolkit's raw status codes and its
//! out-parameter calling convention into ordinary results.

use vstd::prelude::*;

verus! {

/// A failure reported by the native toolkit, carrying the raw status code.
///
/// The success sentinel `0` is never stored here: every `UiError` that the
/// library hands out holds the nonzero code of the call that failed, so the
/// mapping from status code to error is one-to-one.
#[derive(Debug, Clone, Copy, PartialEq, Eq, Structural)]
pub struct UiError {
    pub code: i32,
}

/// A raw return value of a native call, converted into a success/failure
/// result. Status codes use `0` as the success sentinel; calls with no
/// failure channel return `()` and always convert to success.
pub trait IntoError: Sized {
    /// What converting this raw value yields.
    spec fn spec_result(self) -> Result<(), UiError>;

    fn into_error(self) -> (r: Result<(), UiError>)
        ensures
            r == self.spec_result(),
    ;
}

impl IntoError for i32 {
    open spec fn spec_result(self) -> Result<(), UiError> {
        if self == 0 {
            Ok(())
        } else {
            Err(UiError { code: self })
        }
    }

    fn into_error(self) -> (r: Result<(), UiError>) {
        if self == 0 {
            Ok(())
        } else {
            Err(UiError { code: self })
        }
    }
}

impl IntoError for () {
    open spec fn spec_result(self) -> Result<(), UiError> {
        Ok(())
    }

    fn into_error(self) -> (r: Result<(), UiError>) {
        Ok(())
    }
}

/// Adapter for the toolkit's out-parameter idiom: a native call writes its
/// result into caller-supplied storage and reports a status value. `call` is
/// the pair the native entry point hands back: the status value and the
/// storage it may have filled. On success the storage must have been fully
/// initialized and is returned by value; on failure the storage is discarded
/// without being read. Every native call of the "out-parameter plus status
/// code" shape goes through this helper.
pub fn pointer_init<T, E: IntoError>(call: (E, Option<T>)) -> (r: Result<T, UiError>)
    requires
        call.0.spec_result() is Ok ==> call.1 is Some,
    ensures
        match call.0.spec_result() {
            Ok(_) => call.1 matches Some(v) && r == Ok::<T, UiError>(v),
            Err(e) => r == Err::<T, UiError>(e),
        },
{
    let (status, storage) = call;
    match status.into_error() {
        Ok(()) => Ok(storage.unwrap()),
        Err(e) => Err(e),
    }
}

} // verus!
