//! The three conversions between an owned value and its C representation,
//! the handle that stands for a raw pointer, and the conversions of the
//! scalar types and of strings.
use vstd::prelude::*;
use vstd::std_specs::convert::FromSpecImpl;
use vstd::string::StringExecFns;

verus! {

/// A null pointer was found where a value was expected.
#[derive(Debug, Clone, Copy, PartialEq, Eq, Structural)]
pub struct UnexpectedNullPointerError;

/// Why an owned value has no C representation.
#[derive(Debug, Clone, Copy, PartialEq, Eq, Structural)]
pub enum CReprOfError {
    /// A string holds a nul byte, which ends a C string; the position of
    /// the first one among the bytes of the string is given.
    StringContainsNullBit(usize),
    /// Any other failure of a conversion.
    Other,
}

/// Why a C representation could not be released.
#[derive(Debug, Clone, Copy, PartialEq, Eq, Structural)]
pub enum CDropError {
    /// A pointer that should have been released is null.
    NullPointer,
    /// Any other failure of a release.
    Other,
}

/// Why a C representation stands for no owned value.
#[derive(Debug, Clone, Copy, PartialEq, Eq, Structural)]
pub enum AsRustError {
    /// A pointer that should have pointed to a value is null.
    NullPointer,
    /// A C string is not UTF-8.
    Utf8Error,
    /// Any other failure of a conversion.
    Other,
}

impl UnexpectedNullPointerError {
    /// What the error says.
    pub open spec fn spec_message(self) -> Seq<char> {
        "Could not use raw pointer: unexpected null pointer"@
    }

    /// What the error says.
    pub fn message(&self) -> (out: String)
        ensures
            out@ == self.spec_message(),
    {
        String::from_str("Could not use raw pointer: unexpected null pointer")
    }
}

impl CReprOfError {
    /// What the error says.
    pub open spec fn spec_message(self) -> Seq<char> {
        match self {
            CReprOfError::StringContainsNullBit(_) => "A string contains a nul bit"@,
            CReprOfError::Other => "An error occurred during conversion to C repr"@,
        }
    }

    /// What the error says.
    pub fn message(&self) -> (out: String)
        ensures
            out@ == self.spec_message(),
    {
        match self {
            CReprOfError::StringContainsNullBit(_) => String::from_str(
                "A string contains a nul bit",
            ),
            CReprOfError::Other => String::from_str(
                "An error occurred during conversion to C repr",
            ),
        }
    }
}

impl CDropError {
    /// What the error says.
    pub open spec fn spec_message(self) -> Seq<char> {
        match self {
            CDropError::NullPointer => "unexpected null pointer"@,
            CDropError::Other => "An error occurred while dropping C struct"@,
        }
    }

    /// What the error says.
    pub fn message(&self) -> (out: String)
        ensures
            out@ == self.spec_message(),
    {
        match self {
            CDropError::NullPointer => String::from_str("unexpected null pointer"),
            CDropError::Other => String::from_str("An error occurred while dropping C struct"),
        }
    }
}

impl AsRustError {
    /// What the error says.
    pub open spec fn spec_message(self) -> Seq<char> {
        match self {
            AsRustError::NullPointer => "unexpected null pointer"@,
            AsRustError::Utf8Error => "could not convert string as it is not UTF-8"@,
            AsRustError::Other => "An error occurred during conversion to Rust"@,
        }
    }

    /// What the error says.
    pub fn message(&self) -> (out: String)
        ensures
            out@ == self.spec_message(),
    {
        match self {
            AsRustError::NullPointer => String::from_str("unexpected null pointer"),
            AsRustError::Utf8Error => String::from_str(
                "could not convert string as it is not UTF-8",
            ),
            AsRustError::Other => String::from_str("An error occurred during conversion to Rust"),
        }
    }
}

impl From<UnexpectedNullPointerError> for CDropError {
    fn from(error: UnexpectedNullPointerError) -> (out: Self) {
        CDropError::NullPointer
    }
}

impl FromSpecImpl<UnexpectedNullPointerError> for CDropError {
    open spec fn obeys_from_spec() -> bool {
        true
    }

    open spec fn from_spec(error: UnexpectedNullPointerError) -> Self {
        CDropError::NullPointer
    }
}

impl From<UnexpectedNullPointerError> for AsRustError {
    fn from(error: UnexpectedNullPointerError) -> (out: Self) {
        AsRustError::NullPointer
    }
}

impl FromSpecImpl<UnexpectedNullPointerError> for AsRustError {
    open spec fn obeys_from_spec() -> bool {
        true
    }

    open spec fn from_spec(error: UnexpectedNullPointerError) -> Self {
        AsRustError::NullPointer
    }
}

/// The mathematical value that a piece of data stands for. Contracts
/// compare values by it: two strings are the same text, two vectors the
/// same sequence, whatever their storage.
pub trait Model {
    type M;

    spec fn model(&self) -> Self::M;
}

impl<T: Model> Model for Option<T> {
    type M = Option<T::M>;

    open spec fn model(&self) -> Option<T::M> {
        match self {
            Some(value) => Some(value.model()),
            None => None,
        }
    }
}

impl<T: Model> Model for Vec<T> {
    type M = Seq<T::M>;

    open spec fn model(&self) -> Seq<T::M> {
        Seq::new(self@.len(), |i: int| self@[i].model())
    }
}

/// Whether an executable result is the one that a contract's model gives:
/// the same error, or a value with the given model.
pub open spec fn result_is<C: Model, E>(out: Result<C, E>, model: Result<C::M, E>) -> bool {
    match (out, model) {
        (Ok(value), Ok(m)) => value.model() == m,
        (Err(e), Err(f)) => e == f,
        _ => false,
    }
}

/// A C representation that can release what it owns. Release is meant to
/// happen once: afterwards the value owns nothing more.
pub trait CDrop {
    /// Whether the value owns nothing that a release would free.
    spec fn released(&self) -> bool;

    /// What a release of the value returns.
    spec fn do_drop_result(&self) -> Result<(), CDropError>;

    /// Releases what the value owns.
    fn do_drop(&mut self) -> (out: Result<(), CDropError>)
        ensures
            out == old(self).do_drop_result(),
            out is Ok ==> final(self).released(),
    ;
}

/// Releases what a C representation owns and gives the value up: what was
/// released cannot be released again.
pub fn release<C: CDrop>(value: C) -> (out: Result<(), CDropError>)
    ensures
        out == value.do_drop_result(),
{
    let mut value = value;
    value.do_drop()
}

/// A C representation that can be built from an owned value of type `T`,
/// which it consumes.
pub trait CReprOf<T: Model>: Sized + CDrop + Model {
    /// The C representation of an owned value, or why it has none.
    spec fn c_repr_of_spec(input: T::M) -> Result<Self::M, CReprOfError>;

    fn c_repr_of(input: T) -> (out: Result<Self, CReprOfError>)
        ensures
            result_is(out, Self::c_repr_of_spec(input.model())),
    ;
}

/// A C representation from which an owned value of type `T` can be built.
/// The C representation is only read: building twice gives the same value.
pub trait AsRust<T: Model>: Model {
    /// The owned value that a C representation stands for, or why it
    /// stands for none.
    spec fn as_rust_spec(c: Self::M) -> Result<T::M, AsRustError>;

    fn as_rust(&self) -> (out: Result<T, AsRustError>)
        ensures
            result_is(out, Self::as_rust_spec(self.model())),
    ;
}

/// Whether an owned value comes back from its C representation: where the
/// conversion to C succeeds, the conversion back succeeds with the value.
pub open spec fn round_trips<C: CReprOf<T> + AsRust<T>, T: Model>(value: T::M) -> bool {
    C::c_repr_of_spec(value) matches Ok(c) ==> C::as_rust_spec(c) == Ok::<T::M, AsRustError>(
        value,
    )
}

/// Two values built from one unchanged C representation are the same.
pub proof fn lemma_as_rust_is_repeatable<C: AsRust<T>, T: Model>(
    c: C,
    first: Result<T, AsRustError>,
    second: Result<T, AsRustError>,
)
    requires
        result_is(first, C::as_rust_spec(c.model())),
        result_is(second, C::as_rust_spec(c.model())),
    ensures
        first is Ok <==> second is Ok,
        first matches Ok(a) ==> second matches Ok(b) && a.model() == b.model(),
        first matches Err(e) ==> second == Err::<T, AsRustError>(e),
{
}

/// The handle that stands for a raw pointer to a `T` on the heap: it is null
/// or owns its pointee. A handle cannot be copied, so what it points to can
/// be taken back only once.
#[derive(Debug, PartialEq, Eq)]
pub struct RawPointer<T> {
    pointee: Option<Box<T>>,
}

impl<T> View for RawPointer<T> {
    type V = Option<T>;

    closed spec fn view(&self) -> Option<T> {
        match self.pointee {
            Some(boxed) => Some(*boxed),
            None => None,
        }
    }
}

impl<T: Model> Model for RawPointer<T> {
    type M = Option<T::M>;

    open spec fn model(&self) -> Option<T::M> {
        match self@ {
            Some(pointee) => Some(pointee.model()),
            None => None,
        }
    }
}

impl<T> RawPointer<T> {
    /// The null pointer.
    pub fn null() -> (out: Self)
        ensures
            out@ is None,
    {
        RawPointer { pointee: None }
    }

    /// Whether the pointer is null.
    pub fn is_null(&self) -> (out: bool)
        ensures
            out == (self@ is None),
    {
        self.pointee.is_none()
    }

    /// The pointer to a value that is on the heap already.
    pub fn from_box(pointee: Option<Box<T>>) -> (out: Self)
        ensures
            out@ == match pointee {
                Some(boxed) => Some(*boxed),
                None => None,
            },
    {
        RawPointer { pointee }
    }

    /// Gives up the handle for what it owns.
    pub fn into_box(self) -> (out: Option<Box<T>>)
        ensures
            self@ == match out {
                Some(boxed) => Some(*boxed),
                None => None,
            },
    {
        self.pointee
    }
}

/// Moves a value to the heap and hands out the pointer to it.
pub fn convert_into_raw_pointer<T>(pointee: T) -> (out: RawPointer<T>)
    ensures
        out@ == Some(pointee),
{
    RawPointer { pointee: Some(Box::new(pointee)) }
}

/// Moves a value to the heap and hands out the pointer to it.
pub fn convert_into_raw_pointer_mut<T>(pointee: T) -> (out: RawPointer<T>)
    ensures
        out@ == Some(pointee),
{
    RawPointer { pointee: Some(Box::new(pointee)) }
}

/// Takes back the value that a pointer points to. The pointer is used up.
pub fn take_back_from_raw_pointer<T>(input: RawPointer<T>) -> (out: Result<
    T,
    UnexpectedNullPointerError,
>)
    ensures
        out == match input@ {
            Some(pointee) => Ok::<T, UnexpectedNullPointerError>(pointee),
            None => Err::<T, UnexpectedNullPointerError>(UnexpectedNullPointerError),
        },
{
    match input.pointee {
        Some(boxed) => Ok(*boxed),
        None => Err(UnexpectedNullPointerError),
    }
}

/// Takes the value that a pointer points to out of the place where the
/// pointer is kept, and leaves the null pointer there.
pub fn take_back_from_raw_pointer_mut<T>(input: &mut RawPointer<T>) -> (out: Result<
    T,
    UnexpectedNullPointerError,
>)
    ensures
        final(input)@ is None,
        out == match old(input)@ {
            Some(pointee) => Ok::<T, UnexpectedNullPointerError>(pointee),
            None => Err::<T, UnexpectedNullPointerError>(UnexpectedNullPointerError),
        },
{
    match input.pointee.take() {
        Some(boxed) => Ok(*boxed),
        None => Err(UnexpectedNullPointerError),
    }
}

/// Values that can be moved to the heap behind a raw pointer and taken
/// back. What `from_raw_pointer` takes must have come from
/// `into_raw_pointer`; a handle sees to it that it is taken back only once.
pub trait RawPointerConverter<T>: Sized {
    /// The value as the pointee of its pointer.
    spec fn as_pointee(self) -> T;

    /// Moves the value to the heap and hands out the pointer to it.
    fn into_raw_pointer(self) -> (out: RawPointer<T>)
        ensures
            out@ == Some(self.as_pointee()),
    ;

    /// Moves the value to the heap and hands out the pointer to it.
    fn into_raw_pointer_mut(self) -> (out: RawPointer<T>)
        ensures
            out@ == Some(self.as_pointee()),
    ;

    /// Takes back the value that a pointer points to; the null pointer is an
    /// error.
    fn from_raw_pointer(input: RawPointer<T>) -> (out: Result<Self, UnexpectedNullPointerError>)
        ensures
            out is Ok <==> input@ is Some,
            out matches Ok(value) ==> input@ == Some(value.as_pointee()),
    ;

    /// Takes the value that a pointer points to out of the place where the
    /// pointer is kept, and leaves the null pointer there.
    fn from_raw_pointer_mut(input: &mut RawPointer<T>) -> (out: Result<
        Self,
        UnexpectedNullPointerError,
    >)
        ensures
            final(input)@ is None,
            out is Ok <==> old(input)@ is Some,
            out matches Ok(value) ==> old(input)@ == Some(value.as_pointee()),
    ;

    /// Takes back the value that a pointer points to and drops it.
    fn drop_raw_pointer(input: RawPointer<T>) -> (out: Result<(), UnexpectedNullPointerError>)
        ensures
            out is Ok <==> input@ is Some,
    {
        match Self::from_raw_pointer(input) {
            Ok(_) => Ok(()),
            Err(e) => Err(e),
        }
    }

    /// Takes the value that a pointer points to out of its place and drops
    /// it; the null pointer is left there.
    fn drop_raw_pointer_mut(input: &mut RawPointer<T>) -> (out: Result<
        (),
        UnexpectedNullPointerError,
    >)
        ensures
            final(input)@ is None,
            out is Ok <==> old(input)@ is Some,
    {
        match Self::from_raw_pointer_mut(input) {
            Ok(_) => Ok(()),
            Err(e) => Err(e),
        }
    }
}

/// Borrowing what a raw pointer points to, without taking it over. The
/// pointee may be borrowed any number of times.
pub trait RawBorrow<T>: Sized {
    /// The pointee as the borrowed value.
    spec fn borrowed_as(pointee: T) -> Self;

    /// A reference to what the pointer points to; the null pointer is an
    /// error.
    fn raw_borrow<'a>(input: &'a RawPointer<T>) -> (out: Result<
        &'a Self,
        UnexpectedNullPointerError,
    >)
        ensures
            out is Ok <==> input@ is Some,
            out matches Ok(value) ==> *value == Self::borrowed_as(input@->0),
    ;
}

impl<T> RawBorrow<T> for T {
    open spec fn borrowed_as(pointee: T) -> T {
        pointee
    }

    fn raw_borrow<'a>(input: &'a RawPointer<T>) -> (out: Result<
        &'a Self,
        UnexpectedNullPointerError,
    >) {
        match &input.pointee {
            Some(boxed) => Ok(&**boxed),
            None => Err(UnexpectedNullPointerError),
        }
    }
}

/// Borrowing what a raw pointer points to in order to change it.
pub trait RawBorrowMut<T>: Sized {
    /// The pointee as the borrowed value.
    spec fn borrowed_mut_as(pointee: T) -> Self;

    /// The pointee of the borrowed value.
    spec fn pointee_of(self) -> T;

    /// A mutable reference to what the pointer points to; the null pointer
    /// is an error. The pointer then points to what the reference is left
    /// with.
    fn raw_borrow_mut<'a>(input: &'a mut RawPointer<T>) -> (out: Result<
        &'a mut Self,
        UnexpectedNullPointerError,
    >)
        ensures
            match old(input)@ {
                Some(pointee) => out matches Ok(value) && *value == Self::borrowed_mut_as(pointee)
                    && final(input)@ == Some((*final(value)).pointee_of()),
                None => out is Err && final(input)@ is None,
            },
    ;
}

impl<T> RawBorrowMut<T> for T {
    open spec fn borrowed_mut_as(pointee: T) -> T {
        pointee
    }

    open spec fn pointee_of(self) -> T {
        self
    }

    fn raw_borrow_mut<'a>(input: &'a mut RawPointer<T>) -> (out: Result<
        &'a mut Self,
        UnexpectedNullPointerError,
    >) {
        match &mut input.pointee {
            Some(boxed) => Ok(&mut **boxed),
            None => Err(UnexpectedNullPointerError),
        }
    }
}

} // verus!
