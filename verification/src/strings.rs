//! C strings: bytes without a nul byte, and their conversion from and to
//! owned strings.
use vstd::prelude::*;
use vstd::slice::slice_to_vec;
use vstd::string::StrSliceExecFns;
use vstd::string::StringExecFns;
use vstd::utf8::decode_utf8;
use vstd::utf8::encode_utf8;
use vstd::utf8::encode_utf8_decode_utf8;
use vstd::utf8::encode_utf8_valid_utf8;
use vstd::utf8::valid_utf8;
use crate::conversions::convert_into_raw_pointer;
use crate::conversions::convert_into_raw_pointer_mut;
use crate::conversions::round_trips;
use crate::conversions::take_back_from_raw_pointer;
use crate::conversions::take_back_from_raw_pointer_mut;
use crate::conversions::AsRust;
use crate::conversions::AsRustError;
use crate::conversions::CDrop;
use crate::conversions::CDropError;
use crate::conversions::CReprOf;
use crate::conversions::CReprOfError;
use crate::conversions::Model;
use crate::conversions::RawPointer;
use crate::conversions::RawPointerConverter;
use crate::conversions::UnexpectedNullPointerError;

verus! {

/// The error of `core::str::from_utf8`.
#[verifier::external_type_specification]
#[verifier::external_body]
pub struct ExUtf8Error(core::str::Utf8Error);

/// `core::str::from_utf8` succeeds exactly on valid UTF-8, and the string
/// slice that it then returns holds the bytes that it was given.
pub assume_specification[ core::str::from_utf8 ](v: &[u8]) -> (out: Result<
    &str,
    core::str::Utf8Error,
>)
    ensures
        out is Ok <==> valid_utf8(v@),
        out matches Ok(s) ==> encode_utf8(s@) == v@,
;

impl Model for String {
    type M = Seq<char>;

    open spec fn model(&self) -> Seq<char> {
        self@
    }
}

/// The position of the first nul byte, or the number of bytes if there is
/// none.
pub open spec fn first_nul(bytes: Seq<u8>) -> int
    decreases bytes.len(),
{
    if bytes.len() == 0 {
        0
    } else if bytes[0] == 0 {
        0
    } else {
        1 + first_nul(bytes.drop_first())
    }
}

/// Whether no byte is the nul byte.
pub open spec fn nul_free(bytes: Seq<u8>) -> bool {
    forall|i: int| 0 <= i < bytes.len() ==> bytes[i] != 0
}

/// An owned C string: the bytes in front of the terminating nul byte, none
/// of which is a nul byte.
#[derive(Debug, PartialEq, Eq)]
pub struct CString {
    bytes: Vec<u8>,
}

impl Model for CString {
    type M = Seq<u8>;

    closed spec fn model(&self) -> Seq<u8> {
        self.bytes@
    }
}

impl CString {
    #[verifier::type_invariant]
    spec fn well_formed(self) -> bool {
        nul_free(self.bytes@)
    }

    /// The C string with the given bytes in front of its terminator. Bytes
    /// that hold a nul byte are rejected, with the position of the first.
    pub fn new(bytes: Vec<u8>) -> (out: Result<CString, CReprOfError>)
        ensures
            out is Ok <==> nul_free(bytes@),
            out matches Ok(c) ==> c.model() == bytes@,
            out matches Err(e) ==> e == CReprOfError::StringContainsNullBit(
                first_nul(bytes@) as usize,
            ) && 0 <= first_nul(bytes@) < bytes@.len() && bytes@[first_nul(bytes@)] == 0,
    {
        let mut i: usize = 0;
        assert(bytes@.skip(0) =~= bytes@);
        while i < bytes.len()
            invariant
                i <= bytes@.len(),
                forall|k: int| 0 <= k < i ==> bytes@[k] != 0,
                first_nul(bytes@) == i + first_nul(bytes@.skip(i as int)),
            decreases bytes@.len() - i,
        {
            assert(bytes@.skip(i as int)[0] == bytes@[i as int]);
            assert(bytes@.skip(i as int).drop_first() =~= bytes@.skip(i + 1));
            if bytes[i] == 0 {
                return Err(CReprOfError::StringContainsNullBit(i));
            }
            i += 1;
        }
        Ok(CString { bytes })
    }

    /// The bytes in front of the terminator.
    pub fn as_bytes(&self) -> (out: &Vec<u8>)
        ensures
            out@ == self.model(),
            nul_free(out@),
    {
        proof {
            use_type_invariant(self);
        }
        &self.bytes
    }

    /// The bytes in front of the terminator.
    pub fn into_bytes(self) -> (out: Vec<u8>)
        ensures
            out@ == self.model(),
            nul_free(out@),
    {
        proof {
            use_type_invariant(&self);
        }
        self.bytes
    }
}

impl CDrop for CString {
    open spec fn released(&self) -> bool {
        true
    }

    open spec fn do_drop_result(&self) -> Result<(), CDropError> {
        Ok(())
    }

    /// A C string owns only its own bytes: there is nothing to release.
    fn do_drop(&mut self) -> (out: Result<(), CDropError>)
        ensures
            *final(self) == *old(self),
    {
        Ok(())
    }
}

impl CReprOf<String> for CString {
    open spec fn c_repr_of_spec(input: Seq<char>) -> Result<Seq<u8>, CReprOfError> {
        if nul_free(encode_utf8(input)) {
            Ok(encode_utf8(input))
        } else {
            Err(CReprOfError::StringContainsNullBit(first_nul(encode_utf8(input)) as usize))
        }
    }

    /// The UTF-8 encoding of the string; a string with a nul byte in its
    /// encoding has no C representation, and the error gives the position of
    /// the first nul byte in the encoding.
    fn c_repr_of(input: String) -> (out: Result<CString, CReprOfError>) {
        CString::new(input.as_str().as_bytes_vec())
    }
}

impl AsRust<String> for CString {
    open spec fn as_rust_spec(c: Seq<u8>) -> Result<Seq<char>, AsRustError> {
        if valid_utf8(c) {
            Ok(decode_utf8(c))
        } else {
            Err(AsRustError::Utf8Error)
        }
    }

    /// The text that the bytes encode; bytes that are not UTF-8 stand for no
    /// string.
    fn as_rust(&self) -> (out: Result<String, AsRustError>) {
        match core::str::from_utf8(self.bytes.as_slice()) {
            Ok(text) => {
                proof {
                    encode_utf8_decode_utf8(text@);
                }
                Ok(String::from_str(text))
            },
            Err(_) => Err(AsRustError::Utf8Error),
        }
    }
}

impl RawPointerConverter<CString> for CString {
    open spec fn as_pointee(self) -> CString {
        self
    }

    fn into_raw_pointer(self) -> (out: RawPointer<CString>) {
        convert_into_raw_pointer(self)
    }

    fn into_raw_pointer_mut(self) -> (out: RawPointer<CString>) {
        convert_into_raw_pointer_mut(self)
    }

    fn from_raw_pointer(input: RawPointer<CString>) -> (out: Result<
        Self,
        UnexpectedNullPointerError,
    >) {
        let out = take_back_from_raw_pointer(input);
        assert(out matches Ok(value) ==> value.as_pointee() == value);
        out
    }

    fn from_raw_pointer_mut(input: &mut RawPointer<CString>) -> (out: Result<
        Self,
        UnexpectedNullPointerError,
    >) {
        let out = take_back_from_raw_pointer_mut(input);
        assert(out matches Ok(value) ==> value.as_pointee() == value);
        out
    }
}

/// Every string that has a C representation comes back from it.
pub proof fn lemma_string_round_trips(value: Seq<char>)
    ensures
        round_trips::<CString, String>(value),
{
    encode_utf8_valid_utf8(value);
    encode_utf8_decode_utf8(value);
}

} // verus!
