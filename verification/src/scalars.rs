//! The conversions of the scalar types, which are their own C
//! representation, of `bool` as one byte, and of `usize` as a C `int`.
use vstd::prelude::*;
use crate::conversions::convert_into_raw_pointer;
use crate::conversions::convert_into_raw_pointer_mut;
use crate::conversions::round_trips;
use crate::conversions::take_back_from_raw_pointer;
use crate::conversions::take_back_from_raw_pointer_mut;
use crate::conversions::AsRust;
use crate::conversions::AsRustError;
use crate::conversions::CDrop;
use crate::conversions::CDropError;
use crate::conversions::CReprOf;
use crate::conversions::CReprOfError;
use crate::conversions::Model;
use crate::conversions::RawPointer;
use crate::conversions::RawPointerConverter;
use crate::conversions::UnexpectedNullPointerError;

verus! {

impl Model for usize {
    type M = usize;

    open spec fn model(&self) -> usize {
        *self
    }
}

impl CDrop for usize {
    open spec fn released(&self) -> bool {
        true
    }

    open spec fn do_drop_result(&self) -> Result<(), CDropError> {
        Ok(())
    }

    /// A scalar owns nothing: there is nothing to release.
    fn do_drop(&mut self) -> (out: Result<(), CDropError>)
        ensures
            *final(self) == *old(self),
    {
        Ok(())
    }
}

impl CReprOf<usize> for usize {
    open spec fn c_repr_of_spec(input: usize) -> Result<usize, CReprOfError> {
        Ok(input)
    }

    fn c_repr_of(input: usize) -> (out: Result<usize, CReprOfError>) {
        Ok(input)
    }
}

impl AsRust<usize> for usize {
    open spec fn as_rust_spec(c: usize) -> Result<usize, AsRustError> {
        Ok(c)
    }

    fn as_rust(&self) -> (out: Result<usize, AsRustError>) {
        Ok(*self)
    }
}

impl RawPointerConverter<usize> for usize {
    open spec fn as_pointee(self) -> usize {
        self
    }

    fn into_raw_pointer(self) -> (out: RawPointer<usize>) {
        convert_into_raw_pointer(self)
    }

    fn into_raw_pointer_mut(self) -> (out: RawPointer<usize>) {
        convert_into_raw_pointer_mut(self)
    }

    fn from_raw_pointer(input: RawPointer<usize>) -> (out: Result<Self, UnexpectedNullPointerError>) {
        let out = take_back_from_raw_pointer(input);
        assert(out matches Ok(value) ==> value.as_pointee() == value);
        out
    }

    fn from_raw_pointer_mut(input: &mut RawPointer<usize>) -> (out: Result<
        Self,
        UnexpectedNullPointerError,
    >) {
        let out = take_back_from_raw_pointer_mut(input);
        assert(out matches Ok(value) ==> value.as_pointee() == value);
        out
    }
}

/// Every `usize` comes back from its C representation.
pub proof fn lemma_usize_round_trips(value: usize)
    ensures
        round_trips::<usize, usize>(value),
{
}

impl Model for i16 {
    type M = i16;

    open spec fn model(&self) -> i16 {
        *self
    }
}

impl CDrop for i16 {
    open spec fn released(&self) -> bool {
        true
    }

    open spec fn do_drop_result(&self) -> Result<(), CDropError> {
        Ok(())
    }

    /// A scalar owns nothing: there is nothing to release.
    fn do_drop(&mut self) -> (out: Result<(), CDropError>)
        ensures
            *final(self) == *old(self),
    {
        Ok(())
    }
}

impl CReprOf<i16> for i16 {
    open spec fn c_repr_of_spec(input: i16) -> Result<i16, CReprOfError> {
        Ok(input)
    }

    fn c_repr_of(input: i16) -> (out: Result<i16, CReprOfError>) {
        Ok(input)
    }
}

impl AsRust<i16> for i16 {
    open spec fn as_rust_spec(c: i16) -> Result<i16, AsRustError> {
        Ok(c)
    }

    fn as_rust(&self) -> (out: Result<i16, AsRustError>) {
        Ok(*self)
    }
}

impl RawPointerConverter<i16> for i16 {
    open spec fn as_pointee(self) -> i16 {
        self
    }

    fn into_raw_pointer(self) -> (out: RawPointer<i16>) {
        convert_into_raw_pointer(self)
    }

    fn into_raw_pointer_mut(self) -> (out: RawPointer<i16>) {
        convert_into_raw_pointer_mut(self)
    }

    fn from_raw_pointer(input: RawPointer<i16>) -> (out: Result<Self, UnexpectedNullPointerError>) {
        let out = take_back_from_raw_pointer(input);
        assert(out matches Ok(value) ==> value.as_pointee() == value);
        out
    }

    fn from_raw_pointer_mut(input: &mut RawPointer<i16>) -> (out: Result<
        Self,
        UnexpectedNullPointerError,
    >) {
        let out = take_back_from_raw_pointer_mut(input);
        assert(out matches Ok(value) ==> value.as_pointee() == value);
        out
    }
}

/// Every `i16` comes back from its C representation.
pub proof fn lemma_i16_round_trips(value: i16)
    ensures
        round_trips::<i16, i16>(value),
{
}

impl Model for u16 {
    type M = u16;

    open spec fn model(&self) -> u16 {
        *self
    }
}

impl CDrop for u16 {
    open spec fn released(&self) -> bool {
        true
    }

    open spec fn do_drop_result(&self) -> Result<(), CDropError> {
        Ok(())
    }

    /// A scalar owns nothing: there is nothing to release.
    fn do_drop(&mut self) -> (out: Result<(), CDropError>)
        ensures
            *final(self) == *old(self),
    {
        Ok(())
    }
}

impl CReprOf<u16> for u16 {
    open spec fn c_repr_of_spec(input: u16) -> Result<u16, CReprOfError> {
        Ok(input)
    }

    fn c_repr_of(input: u16) -> (out: Result<u16, CReprOfError>) {
        Ok(input)
    }
}

impl AsRust<u16> for u16 {
    open spec fn as_rust_spec(c: u16) -> Result<u16, AsRustError> {
        Ok(c)
    }

    fn as_rust(&self) -> (out: Result<u16, AsRustError>) {
        Ok(*self)
    }
}

impl RawPointerConverter<u16> for u16 {
    open spec fn as_pointee(self) -> u16 {
        self
    }

    fn into_raw_pointer(self) -> (out: RawPointer<u16>) {
        convert_into_raw_pointer(self)
    }

    fn into_raw_pointer_mut(self) -> (out: RawPointer<u16>) {
        convert_into_raw_pointer_mut(self)
    }

    fn from_raw_pointer(input: RawPointer<u16>) -> (out: Result<Self, UnexpectedNullPointerError>) {
        let out = take_back_from_raw_pointer(input);
        assert(out matches Ok(value) ==> value.as_pointee() == value);
        out
    }

    fn from_raw_pointer_mut(input: &mut RawPointer<u16>) -> (out: Result<
        Self,
        UnexpectedNullPointerError,
    >) {
        let out = take_back_from_raw_pointer_mut(input);
        assert(out matches Ok(value) ==> value.as_pointee() == value);
        out
    }
}

/// Every `u16` comes back from its C representation.
pub proof fn lemma_u16_round_trips(value: u16)
    ensures
        round_trips::<u16, u16>(value),
{
}

impl Model for i32 {
    type M = i32;

    open spec fn model(&self) -> i32 {
        *self
    }
}

impl CDrop for i32 {
    open spec fn released(&self) -> bool {
        true
    }

    open spec fn do_drop_result(&self) -> Result<(), CDropError> {
        Ok(())
    }

    /// A scalar owns nothing: there is nothing to release.
    fn do_drop(&mut self) -> (out: Result<(), CDropError>)
        ensures
            *final(self) == *old(self),
    {
        Ok(())
    }
}

impl CReprOf<i32> for i32 {
    open spec fn c_repr_of_spec(input: i32) -> Result<i32, CReprOfError> {
        Ok(input)
    }

    fn c_repr_of(input: i32) -> (out: Result<i32, CReprOfError>) {
        assert(<i32 as CReprOf<i32>>::c_repr_of_spec(input) == Ok::<i32, CReprOfError>(input));
        Ok(input)
    }
}

impl AsRust<i32> for i32 {
    open spec fn as_rust_spec(c: i32) -> Result<i32, AsRustError> {
        Ok(c)
    }

    fn as_rust(&self) -> (out: Result<i32, AsRustError>) {
        assert(<i32 as AsRust<i32>>::as_rust_spec(*self) == Ok::<i32, AsRustError>(*self));
        Ok(*self)
    }
}

impl RawPointerConverter<i32> for i32 {
    open spec fn as_pointee(self) -> i32 {
        self
    }

    fn into_raw_pointer(self) -> (out: RawPointer<i32>) {
        convert_into_raw_pointer(self)
    }

    fn into_raw_pointer_mut(self) -> (out: RawPointer<i32>) {
        convert_into_raw_pointer_mut(self)
    }

    fn from_raw_pointer(input: RawPointer<i32>) -> (out: Result<Self, UnexpectedNullPointerError>) {
        let out = take_back_from_raw_pointer(input);
        assert(out matches Ok(value) ==> value.as_pointee() == value);
        out
    }

    fn from_raw_pointer_mut(input: &mut RawPointer<i32>) -> (out: Result<
        Self,
        UnexpectedNullPointerError,
    >) {
        let out = take_back_from_raw_pointer_mut(input);
        assert(out matches Ok(value) ==> value.as_pointee() == value);
        out
    }
}

/// Every `i32` comes back from its C representation.
pub proof fn lemma_i32_round_trips(value: i32)
    ensures
        round_trips::<i32, i32>(value),
{
}

impl Model for u32 {
    type M = u32;

    open spec fn model(&self) -> u32 {
        *self
    }
}

impl CDrop for u32 {
    open spec fn released(&self) -> bool {
        true
    }

    open spec fn do_drop_result(&self) -> Result<(), CDropError> {
        Ok(())
    }

    /// A scalar owns nothing: there is nothing to release.
    fn do_drop(&mut self) -> (out: Result<(), CDropError>)
        ensures
            *final(self) == *old(self),
    {
        Ok(())
    }
}

impl CReprOf<u32> for u32 {
    open spec fn c_repr_of_spec(input: u32) -> Result<u32, CReprOfError> {
        Ok(input)
    }

    fn c_repr_of(input: u32) -> (out: Result<u32, CReprOfError>) {
        Ok(input)
    }
}

impl AsRust<u32> for u32 {
    open spec fn as_rust_spec(c: u32) -> Result<u32, AsRustError> {
        Ok(c)
    }

    fn as_rust(&self) -> (out: Result<u32, AsRustError>) {
        Ok(*self)
    }
}

impl RawPointerConverter<u32> for u32 {
    open spec fn as_pointee(self) -> u32 {
        self
    }

    fn into_raw_pointer(self) -> (out: RawPointer<u32>) {
        convert_into_raw_pointer(self)
    }

    fn into_raw_pointer_mut(self) -> (out: RawPointer<u32>) {
        convert_into_raw_pointer_mut(self)
    }

    fn from_raw_pointer(input: RawPointer<u32>) -> (out: Result<Self, UnexpectedNullPointerError>) {
        let out = take_back_from_raw_pointer(input);
        assert(out matches Ok(value) ==> value.as_pointee() == value);
        out
    }

    fn from_raw_pointer_mut(input: &mut RawPointer<u32>) -> (out: Result<
        Self,
        UnexpectedNullPointerError,
    >) {
        let out = take_back_from_raw_pointer_mut(input);
        assert(out matches Ok(value) ==> value.as_pointee() == value);
        out
    }
}

/// Every `u32` comes back from its C representation.
pub proof fn lemma_u32_round_trips(value: u32)
    ensures
        round_trips::<u32, u32>(value),
{
}

impl Model for i64 {
    type M = i64;

    open spec fn model(&self) -> i64 {
        *self
    }
}

impl CDrop for i64 {
    open spec fn released(&self) -> bool {
        true
    }

    open spec fn do_drop_result(&self) -> Result<(), CDropError> {
        Ok(())
    }

    /// A scalar owns nothing: there is nothing to release.
    fn do_drop(&mut self) -> (out: Result<(), CDropError>)
        ensures
            *final(self) == *old(self),
    {
        Ok(())
    }
}

impl CReprOf<i64> for i64 {
    open spec fn c_repr_of_spec(input: i64) -> Result<i64, CReprOfError> {
        Ok(input)
    }

    fn c_repr_of(input: i64) -> (out: Result<i64, CReprOfError>) {
        Ok(input)
    }
}

impl AsRust<i64> for i64 {
    open spec fn as_rust_spec(c: i64) -> Result<i64, AsRustError> {
        Ok(c)
    }

    fn as_rust(&self) -> (out: Result<i64, AsRustError>) {
        Ok(*self)
    }
}

impl RawPointerConverter<i64> for i64 {
    open spec fn as_pointee(self) -> i64 {
        self
    }

    fn into_raw_pointer(self) -> (out: RawPointer<i64>) {
        convert_into_raw_pointer(self)
    }

    fn into_raw_pointer_mut(self) -> (out: RawPointer<i64>) {
        convert_into_raw_pointer_mut(self)
    }

    fn from_raw_pointer(input: RawPointer<i64>) -> (out: Result<Self, UnexpectedNullPointerError>) {
        let out = take_back_from_raw_pointer(input);
        assert(out matches Ok(value) ==> value.as_pointee() == value);
        out
    }

    fn from_raw_pointer_mut(input: &mut RawPointer<i64>) -> (out: Result<
        Self,
        UnexpectedNullPointerError,
    >) {
        let out = take_back_from_raw_pointer_mut(input);
        assert(out matches Ok(value) ==> value.as_pointee() == value);
        out
    }
}

/// Every `i64` comes back from its C representation.
pub proof fn lemma_i64_round_trips(value: i64)
    ensures
        round_trips::<i64, i64>(value),
{
}

impl Model for u64 {
    type M = u64;

    open spec fn model(&self) -> u64 {
        *self
    }
}

impl CDrop for u64 {
    open spec fn released(&self) -> bool {
        true
    }

    open spec fn do_drop_result(&self) -> Result<(), CDropError> {
        Ok(())
    }

    /// A scalar owns nothing: there is nothing to release.
    fn do_drop(&mut self) -> (out: Result<(), CDropError>)
        ensures
            *final(self) == *old(self),
    {
        Ok(())
    }
}

impl CReprOf<u64> for u64 {
    open spec fn c_repr_of_spec(input: u64) -> Result<u64, CReprOfError> {
        Ok(input)
    }

    fn c_repr_of(input: u64) -> (out: Result<u64, CReprOfError>) {
        Ok(input)
    }
}

impl AsRust<u64> for u64 {
    open spec fn as_rust_spec(c: u64) -> Result<u64, AsRustError> {
        Ok(c)
    }

    fn as_rust(&self) -> (out: Result<u64, AsRustError>) {
        Ok(*self)
    }
}

impl RawPointerConverter<u64> for u64 {
    open spec fn as_pointee(self) -> u64 {
        self
    }

    fn into_raw_pointer(self) -> (out: RawPointer<u64>) {
        convert_into_raw_pointer(self)
    }

    fn into_raw_pointer_mut(self) -> (out: RawPointer<u64>) {
        convert_into_raw_pointer_mut(self)
    }

    fn from_raw_pointer(input: RawPointer<u64>) -> (out: Result<Self, UnexpectedNullPointerError>) {
        let out = take_back_from_raw_pointer(input);
        assert(out matches Ok(value) ==> value.as_pointee() == value);
        out
    }

    fn from_raw_pointer_mut(input: &mut RawPointer<u64>) -> (out: Result<
        Self,
        UnexpectedNullPointerError,
    >) {
        let out = take_back_from_raw_pointer_mut(input);
        assert(out matches Ok(value) ==> value.as_pointee() == value);
        out
    }
}

/// Every `u64` comes back from its C representation.
pub proof fn lemma_u64_round_trips(value: u64)
    ensures
        round_trips::<u64, u64>(value),
{
}

impl Model for bool {
    type M = bool;

    open spec fn model(&self) -> bool {
        *self
    }
}

impl CDrop for bool {
    open spec fn released(&self) -> bool {
        true
    }

    open spec fn do_drop_result(&self) -> Result<(), CDropError> {
        Ok(())
    }

    /// A scalar owns nothing: there is nothing to release.
    fn do_drop(&mut self) -> (out: Result<(), CDropError>)
        ensures
            *final(self) == *old(self),
    {
        Ok(())
    }
}

impl CReprOf<bool> for bool {
    open spec fn c_repr_of_spec(input: bool) -> Result<bool, CReprOfError> {
        Ok(input)
    }

    fn c_repr_of(input: bool) -> (out: Result<bool, CReprOfError>) {
        Ok(input)
    }
}

impl AsRust<bool> for bool {
    open spec fn as_rust_spec(c: bool) -> Result<bool, AsRustError> {
        Ok(c)
    }

    fn as_rust(&self) -> (out: Result<bool, AsRustError>) {
        Ok(*self)
    }
}

impl RawPointerConverter<bool> for bool {
    open spec fn as_pointee(self) -> bool {
        self
    }

    fn into_raw_pointer(self) -> (out: RawPointer<bool>) {
        convert_into_raw_pointer(self)
    }

    fn into_raw_pointer_mut(self) -> (out: RawPointer<bool>) {
        convert_into_raw_pointer_mut(self)
    }

    fn from_raw_pointer(input: RawPointer<bool>) -> (out: Result<Self, UnexpectedNullPointerError>) {
        let out = take_back_from_raw_pointer(input);
        assert(out matches Ok(value) ==> value.as_pointee() == value);
        out
    }

    fn from_raw_pointer_mut(input: &mut RawPointer<bool>) -> (out: Result<
        Self,
        UnexpectedNullPointerError,
    >) {
        let out = take_back_from_raw_pointer_mut(input);
        assert(out matches Ok(value) ==> value.as_pointee() == value);
        out
    }
}

/// Every `bool` comes back from its C representation.
pub proof fn lemma_bool_round_trips(value: bool)
    ensures
        round_trips::<bool, bool>(value),
{
}

impl Model for u8 {
    type M = u8;

    open spec fn model(&self) -> u8 {
        *self
    }
}

impl CDrop for u8 {
    open spec fn released(&self) -> bool {
        true
    }

    open spec fn do_drop_result(&self) -> Result<(), CDropError> {
        Ok(())
    }

    /// A scalar owns nothing: there is nothing to release.
    fn do_drop(&mut self) -> (out: Result<(), CDropError>)
        ensures
            *final(self) == *old(self),
    {
        Ok(())
    }
}

impl CReprOf<bool> for u8 {
    open spec fn c_repr_of_spec(input: bool) -> Result<u8, CReprOfError> {
        Ok(if input {
            1u8
        } else {
            0u8
        })
    }

    /// `true` is the byte 1, `false` the byte 0.
    fn c_repr_of(input: bool) -> (out: Result<u8, CReprOfError>) {
        Ok(if input {
            1
        } else {
            0
        })
    }
}

impl AsRust<bool> for u8 {
    open spec fn as_rust_spec(c: u8) -> Result<bool, AsRustError> {
        Ok(c != 0)
    }

    /// Every byte but 0 is `true`.
    fn as_rust(&self) -> (out: Result<bool, AsRustError>) {
        Ok((*self) != 0)
    }
}

/// Every `bool` comes back from its byte.
pub proof fn lemma_bool_as_byte_round_trips(value: bool)
    ensures
        round_trips::<u8, bool>(value),
{
}

impl CReprOf<usize> for i32 {
    open spec fn c_repr_of_spec(input: usize) -> Result<i32, CReprOfError> {
        Ok(input as i32)
    }

    /// The low 32 bits of the number, read as a signed integer.
    fn c_repr_of(input: usize) -> (out: Result<i32, CReprOfError>) {
        Ok(#[verifier::truncate] (input as i32))
    }
}

impl AsRust<usize> for i32 {
    open spec fn as_rust_spec(c: i32) -> Result<usize, AsRustError> {
        Ok(c as usize)
    }

    /// The number as an unsigned integer of the machine's width, a negative
    /// one wrapping round.
    fn as_rust(&self) -> (out: Result<usize, AsRustError>) {
        Ok(#[verifier::truncate] (*self as usize))
    }
}

/// A `usize` that a C `int` can hold comes back from it.
pub proof fn lemma_usize_as_int_round_trips(value: usize)
    requires
        value <= i32::MAX,
    ensures
        round_trips::<i32, usize>(value),
{
}

} // verus!
