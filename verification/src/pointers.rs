//! The conversions of pointer fields: a pointer that must point to a value,
//! and a nullable pointer, which stands for an optional value.
use vstd::prelude::*;
use crate::conversions::convert_into_raw_pointer;
use crate::conversions::result_is;
use crate::conversions::round_trips;
use crate::conversions::take_back_from_raw_pointer_mut;
use crate::conversions::AsRust;
use crate::conversions::AsRustError;
use crate::conversions::CDrop;
use crate::conversions::CDropError;
use crate::conversions::CReprOf;
use crate::conversions::CReprOfError;
use crate::conversions::Model;
use crate::conversions::RawBorrow;
use crate::conversions::RawPointer;

verus! {

impl<C> CDrop for RawPointer<C> {
    open spec fn released(&self) -> bool {
        self@ is None
    }

    open spec fn do_drop_result(&self) -> Result<(), CDropError> {
        if self@ is Some {
            Ok(())
        } else {
            Err(CDropError::NullPointer)
        }
    }

    /// Releases what the pointer points to and leaves the null pointer. A
    /// pointer that is null already is an error: there is nothing that this
    /// release could free.
    fn do_drop(&mut self) -> (out: Result<(), CDropError>)
        ensures
            final(self)@ is None,
    {
        match take_back_from_raw_pointer_mut(self) {
            Ok(_) => Ok(()),
            Err(_) => Err(CDropError::NullPointer),
        }
    }
}

impl<C: CReprOf<T>, T: Model> CReprOf<T> for RawPointer<C> {
    open spec fn c_repr_of_spec(input: T::M) -> Result<Option<C::M>, CReprOfError> {
        match C::c_repr_of_spec(input) {
            Ok(c) => Ok(Some(c)),
            Err(e) => Err(e),
        }
    }

    /// The pointer to the C representation of the value, which is moved to
    /// the heap. The pointer is never null.
    fn c_repr_of(input: T) -> (out: Result<Self, CReprOfError>)
        ensures
            out matches Ok(pointer) ==> pointer@ is Some,
    {
        match C::c_repr_of(input) {
            Ok(c) => Ok(convert_into_raw_pointer(c)),
            Err(e) => Err(e),
        }
    }
}

impl<C: AsRust<T>, T: Model> AsRust<T> for RawPointer<C> {
    open spec fn as_rust_spec(c: Option<C::M>) -> Result<T::M, AsRustError> {
        match c {
            Some(pointee) => C::as_rust_spec(pointee),
            None => Err(AsRustError::NullPointer),
        }
    }

    /// The owned value of what the pointer points to, which is only
    /// borrowed. The null pointer stands for no value.
    fn as_rust(&self) -> (out: Result<T, AsRustError>) {
        match C::raw_borrow(self) {
            Ok(pointee) => pointee.as_rust(),
            Err(_) => Err(AsRustError::NullPointer),
        }
    }
}

/// The C representation of an optional value: the null pointer for an
/// absent value, the pointer to the representation of a present one.
pub open spec fn nullable_c_repr_of_spec<C: CReprOf<T>, T: Model>(input: Option<T::M>) -> Result<
    Option<C::M>,
    CReprOfError,
> {
    match input {
        None => Ok(None),
        Some(value) => match C::c_repr_of_spec(value) {
            Ok(c) => Ok(Some(c)),
            Err(e) => Err(e),
        },
    }
}

/// The optional value that a nullable pointer stands for: absent for the
/// null pointer, else the owned value of the pointee.
pub open spec fn nullable_as_rust_spec<C: AsRust<T>, T: Model>(c: Option<C::M>) -> Result<
    Option<T::M>,
    AsRustError,
> {
    match c {
        None => Ok(None),
        Some(pointee) => match C::as_rust_spec(pointee) {
            Ok(value) => Ok(Some(value)),
            Err(e) => Err(e),
        },
    }
}

/// Converts an optional value to a nullable pointer.
pub fn nullable_c_repr_of<C: CReprOf<T>, T: Model>(input: Option<T>) -> (out: Result<
    RawPointer<C>,
    CReprOfError,
>)
    ensures
        result_is(out, nullable_c_repr_of_spec::<C, T>(input.model())),
        out matches Ok(pointer) ==> (pointer@ is None <==> input is None),
{
    match input {
        None => Ok(RawPointer::null()),
        Some(value) => match C::c_repr_of(value) {
            Ok(c) => Ok(convert_into_raw_pointer(c)),
            Err(e) => Err(e),
        },
    }
}

/// Builds the optional value that a nullable pointer stands for.
pub fn nullable_as_rust<C: AsRust<T>, T: Model>(pointer: &RawPointer<C>) -> (out: Result<
    Option<T>,
    AsRustError,
>)
    ensures
        result_is(out, nullable_as_rust_spec::<C, T>(pointer.model())),
        out matches Ok(value) ==> (value is None <==> pointer@ is None),
{
    match C::raw_borrow(pointer) {
        Err(_) => Ok(None),
        Ok(pointee) => match pointee.as_rust() {
            Ok(value) => Ok(Some(value)),
            Err(e) => Err(e),
        },
    }
}

/// Releases what a nullable pointer points to, if it points to anything, and
/// leaves the null pointer.
pub fn nullable_do_drop<C>(pointer: &mut RawPointer<C>) -> (out: Result<(), CDropError>)
    ensures
        out == Ok::<(), CDropError>(()),
        final(pointer)@ is None,
{
    if !pointer.is_null() {
        let _ = take_back_from_raw_pointer_mut(pointer);
    }
    Ok(())
}

/// A value that comes back from its C representation comes back from the
/// pointer to it.
pub proof fn lemma_pointer_round_trips<C: CReprOf<T> + AsRust<T>, T: Model>(value: T::M)
    requires
        round_trips::<C, T>(value),
    ensures
        round_trips::<RawPointer<C>, T>(value),
{
}

/// An optional value whose present value comes back from its C
/// representation comes back from its nullable pointer, absent or present.
pub proof fn lemma_nullable_round_trips<C: CReprOf<T> + AsRust<T>, T: Model>(value: Option<T::M>)
    requires
        value matches Some(present) ==> round_trips::<C, T>(present),
    ensures
        nullable_c_repr_of_spec::<C, T>(value) matches Ok(pointer) ==> nullable_as_rust_spec::<
            C,
            T,
        >(pointer) == Ok::<Option<T::M>, AsRustError>(value),
{
}

/// A nullable pointer is faithful to the optional value. An absent value
/// becomes the null pointer and the null pointer an absent value. A present
/// value becomes a pointer that is not null and points to the value's C
/// representation, and where the value comes back from that representation,
/// the present value comes back from the pointer.
pub proof fn lemma_nullable_is_faithful<C: CReprOf<T> + AsRust<T>, T: Model>(value: Option<T::M>)
    ensures
        nullable_c_repr_of_spec::<C, T>(None) == Ok::<Option<C::M>, CReprOfError>(None),
        nullable_as_rust_spec::<C, T>(None) == Ok::<Option<T::M>, AsRustError>(None),
        value matches Some(present) ==> (nullable_c_repr_of_spec::<C, T>(value) matches Ok(
            pointer,
        ) ==> pointer == Some(C::c_repr_of_spec(present)->Ok_0)),
        value matches Some(present) ==> round_trips::<C, T>(present) ==> (
        nullable_c_repr_of_spec::<C, T>(value) matches Ok(pointer) ==> nullable_as_rust_spec::<
            C,
            T,
        >(pointer) == Ok::<Option<T::M>, AsRustError>(value)),
{
}

} // verus!
