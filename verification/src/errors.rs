//! Reporting the outcome of a call across the C boundary: a result code, and
//! the message of the error for the caller to fetch.
use vstd::prelude::*;
use crate::conversions::result_is;
use crate::conversions::CReprOf;
use crate::conversions::CReprOfError;
use crate::conversions::Model;
use crate::conversions::RawPointer;
use crate::strings::CString;

verus! {

/// Used as a return type of functions that can encounter errors.
#[derive(Debug, Clone, Copy, PartialEq, Eq, Structural)]
#[allow(non_camel_case_types)]
pub enum SNIPS_RESULT {
    /// The function returned successfully.
    SNIPS_RESULT_OK,
    /// The function encountered an error, whose message can be fetched.
    SNIPS_RESULT_KO,
}

/// Turns a result into the code that is handed across the boundary, and the
/// message that the caller may fetch after a failure.
pub fn wrap<T>(result: Result<T, String>) -> (out: (SNIPS_RESULT, Option<String>))
    ensures
        match result {
            Ok(_) => out.0 == SNIPS_RESULT::SNIPS_RESULT_OK && out.1 is None,
            Err(message) => out.0 == SNIPS_RESULT::SNIPS_RESULT_KO && out.1 == Some(message),
        },
{
    match result {
        Ok(_) => (SNIPS_RESULT::SNIPS_RESULT_OK, None),
        Err(message) => (SNIPS_RESULT::SNIPS_RESULT_KO, Some(message)),
    }
}

/// Makes a pointer point to the C string of a text. Where the text has no C
/// string, the pointer is left as it is.
pub fn point_to_string(pointer: &mut RawPointer<CString>, string: String) -> (out: Result<
    (),
    CReprOfError,
>)
    ensures
        match <CString as CReprOf<String>>::c_repr_of_spec(string@) {
            Ok(bytes) => out is Ok && final(pointer).model() == Some(bytes),
            Err(e) => out == Err::<(), CReprOfError>(e) && *final(pointer) == *old(pointer),
        },
{
    match <RawPointer<CString> as CReprOf<String>>::c_repr_of(string) {
        Ok(target) => {
            *pointer = target;
            Ok(())
        },
        Err(e) => Err(e),
    }
}

} // verus!
