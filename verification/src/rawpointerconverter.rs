//! The generated transfer of a struct into a raw pointer and back.
use vstd::prelude::*;
use vstd::string::StringExecFns;
use crate::syntax::DeriveInput;
use crate::text::push_text;

verus! {

/// The implementation of `RawPointerConverter` for a struct: each of the
/// four functions hands on to the library's function of the same purpose.
pub open spec fn raw_pointer_converter_impl(struct_name: Seq<char>) -> Seq<char> {
    "impl RawPointerConverter<"@ + struct_name + "> for "@ + struct_name
        + " { fn into_raw_pointer(self) -> *const "@ + struct_name
        + " { ffi_convert::convert_into_raw_pointer(self) } fn into_raw_pointer_mut(self) -> *mut "@
        + struct_name
        + " { ffi_convert::convert_into_raw_pointer_mut(self) } unsafe fn from_raw_pointer_mut(input: *mut "@
        + struct_name + ") -> Result<"@ + struct_name
        + ", ffi_convert::UnexpectedNullPointerError> { ffi_convert::take_back_from_raw_pointer_mut(input) } unsafe fn from_raw_pointer(input: *const "@
        + struct_name + ") -> Result<"@ + struct_name
        + ", ffi_convert::UnexpectedNullPointerError> { ffi_convert::take_back_from_raw_pointer(input) } }"@
}

/// Writes the implementation of `RawPointerConverter` for a struct.
pub fn impl_rawpointerconverter_macro(input: &DeriveInput) -> (out: String)
    ensures
        out@ == raw_pointer_converter_impl(input@.ident),
{
    let name = input.ident.as_str();
    let mut out = String::from_str("impl RawPointerConverter<");
    push_text(&mut out, name);
    push_text(&mut out, "> for ");
    push_text(&mut out, name);
    push_text(&mut out, " { fn into_raw_pointer(self) -> *const ");
    push_text(&mut out, name);
    push_text(
        &mut out,
        " { ffi_convert::convert_into_raw_pointer(self) } fn into_raw_pointer_mut(self) -> *mut ",
    );
    push_text(&mut out, name);
    push_text(
        &mut out,
        " { ffi_convert::convert_into_raw_pointer_mut(self) } unsafe fn from_raw_pointer_mut(input: *mut ",
    );
    push_text(&mut out, name);
    push_text(&mut out, ") -> Result<");
    push_text(&mut out, name);
    push_text(
        &mut out,
        ", ffi_convert::UnexpectedNullPointerError> { ffi_convert::take_back_from_raw_pointer_mut(input) } unsafe fn from_raw_pointer(input: *const ",
    );
    push_text(&mut out, name);
    push_text(&mut out, ") -> Result<");
    push_text(&mut out, name);
    push_text(
        &mut out,
        ", ffi_convert::UnexpectedNullPointerError> { ffi_convert::take_back_from_raw_pointer(input) } }",
    );
    assert(out@ =~= raw_pointer_converter_impl(input@.ident));
    out
}

} // verus!
