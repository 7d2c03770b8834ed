//! The C representations of sequences and ranges: an array of converted
//! elements, an array of C strings, and a pair of bounds.
use core::ops::Range;
use vstd::prelude::*;
use crate::conversions::convert_into_raw_pointer;
use crate::conversions::convert_into_raw_pointer_mut;
use crate::conversions::result_is;
use crate::conversions::round_trips;
use crate::conversions::take_back_from_raw_pointer;
use crate::conversions::take_back_from_raw_pointer_mut;
use crate::conversions::AsRust;
use crate::conversions::AsRustError;
use crate::conversions::CDrop;
use crate::conversions::CDropError;
use crate::conversions::CReprOf;
use crate::conversions::CReprOfError;
use crate::conversions::Model;
use crate::conversions::RawBorrow;
use crate::conversions::RawPointer;
use crate::conversions::RawPointerConverter;
use crate::conversions::UnexpectedNullPointerError;
use crate::pointers::lemma_pointer_round_trips;
use crate::sequence::lemma_try_map;
use crate::sequence::lemma_try_map_prefix_error;
use crate::sequence::lemma_try_map_step;
use crate::sequence::try_map;
use crate::strings::lemma_string_round_trips;
use crate::strings::CString;

verus! {

/// Converts every item of an owned sequence to its C representation, in
/// order; the first item that has none ends the conversion with its error.
pub fn c_repr_of_all<U: CReprOf<V>, V: Model>(input: Vec<V>) -> (out: Result<Vec<U>, CReprOfError>)
    ensures
        result_is(out, try_map(input.model(), |v: V::M| U::c_repr_of_spec(v))),
{
    let ghost all = input.model();
    let ghost f = |v: V::M| U::c_repr_of_spec(v);
    let mut converted: Vec<U> = Vec::new();
    assert(all.take(0) =~= Seq::empty());
    assert(converted.model() =~= Seq::empty());
    for item in iter: input
        invariant
            iter.seq() == input@,
            all == input.model(),
            f == |v: V::M| U::c_repr_of_spec(v),
            try_map(all.take(iter.index() as int), f) == Ok::<Seq<U::M>, CReprOfError>(
                converted.model(),
            ),
    {
        proof {
            lemma_try_map_step(all, f, iter.index() as int);
        }
        match U::c_repr_of(item) {
            Err(e) => {
                proof {
                    lemma_try_map_prefix_error(all, f, iter.index() + 1);
                }
                return Err(e);
            },
            Ok(value) => {
                let ghost before = converted.model();
                converted.push(value);
                assert(converted.model() =~= before.push(value.model()));
            },
        }
    }
    assert(all.take(all.len() as int) =~= all);
    Ok(converted)
}

/// Builds the owned value of every element of a block, in order; the first
/// element that stands for none ends the conversion with its error.
pub fn as_rust_all<U: AsRust<V>, V: Model>(values: &Vec<U>) -> (out: Result<Vec<V>, AsRustError>)
    ensures
        result_is(out, try_map(values.model(), |u: U::M| U::as_rust_spec(u))),
{
    let ghost all = values.model();
    let ghost f = |u: U::M| U::as_rust_spec(u);
    let mut owned: Vec<V> = Vec::with_capacity(values.len());
    let mut i: usize = 0;
    assert(all.take(0) =~= Seq::empty());
    assert(owned.model() =~= Seq::empty());
    while i < values.len()
        invariant
            i <= values@.len(),
            all == values.model(),
            f == |u: U::M| U::as_rust_spec(u),
            try_map(all.take(i as int), f) == Ok::<Seq<V::M>, AsRustError>(owned.model()),
        decreases values@.len() - i,
    {
        proof {
            lemma_try_map_step(all, f, i as int);
        }
        match values[i].as_rust() {
            Err(e) => {
                proof {
                    lemma_try_map_prefix_error(all, f, i + 1);
                }
                return Err(e);
            },
            Ok(value) => {
                let ghost before = owned.model();
                owned.push(value);
                assert(owned.model() =~= before.push(value.model()));
            },
        }
        i += 1;
    }
    assert(all.take(i as int) =~= all);
    Ok(owned)
}

/// A sequence whose items all come back from their C representation comes
/// back from the sequence of those representations.
pub proof fn lemma_all_round_trip<U: CReprOf<V> + AsRust<V>, V: Model>(input: Seq<V::M>)
    requires
        forall|i: int| 0 <= i < input.len() ==> round_trips::<U, V>(#[trigger] input[i]),
    ensures
        try_map(input, |v: V::M| U::c_repr_of_spec(v)) matches Ok(c) ==> try_map(
            c,
            |u: U::M| U::as_rust_spec(u),
        ) == Ok::<Seq<V::M>, AsRustError>(input),
{
    let to_c = |v: V::M| U::c_repr_of_spec(v);
    let from_c = |u: U::M| U::as_rust_spec(u);
    lemma_try_map(input, to_c);
    if let Ok(c) = try_map(input, to_c) {
        lemma_try_map(c, from_c);
        assert forall|i: int| 0 <= i < c.len() implies from_c(c[i]) == Ok::<V::M, AsRustError>(
            input[i],
        ) by {
            assert(round_trips::<U, V>(input[i]));
            assert(to_c(input[i]) == Ok::<U::M, CReprOfError>(c[i]));
        }
        match try_map(c, from_c) {
            Ok(back) => {
                assert(back =~= input);
            },
            Err(e) => {
                assert(from_c(c[crate::sequence::first_failure(c, from_c)]) is Ok);
            },
        }
    }
}

/// An array of C representations: a pointer to a block of `size` elements.
/// The pointer is null exactly when the array is empty.
#[derive(Debug)]
pub struct CArray<T> {
    data_ptr: RawPointer<Vec<T>>,
    size: usize,
}

impl<T> CArray<T> {
    #[verifier::type_invariant]
    spec fn well_formed(self) -> bool {
        match self.data_ptr@ {
            None => self.size == 0,
            Some(block) => self.size > 0 && block@.len() == self.size,
        }
    }

    /// The elements that the array points to.
    pub closed spec fn elements(self) -> Seq<T> {
        match self.data_ptr@ {
            None => Seq::empty(),
            Some(block) => block@,
        }
    }

    /// Whether the pointer to the elements is null.
    pub closed spec fn spec_is_null(self) -> bool {
        self.data_ptr@ is None
    }

    /// The recorded number of elements.
    pub closed spec fn spec_size(self) -> usize {
        self.size
    }

    /// The array of the given elements.
    pub fn from_vec(elements: Vec<T>) -> (out: Self)
        ensures
            out.elements() == elements@,
            out.spec_size() == elements@.len(),
            out.spec_is_null() <==> elements@.len() == 0,
    {
        let size = elements.len();
        if size > 0 {
            CArray { data_ptr: convert_into_raw_pointer(elements), size }
        } else {
            CArray { data_ptr: RawPointer::null(), size }
        }
    }

    /// The number of elements, which is that of the block pointed to.
    pub fn size(&self) -> (out: usize)
        ensures
            out == self.spec_size(),
            out == self.elements().len(),
            out == 0 <==> self.spec_is_null(),
    {
        proof {
            use_type_invariant(self);
        }
        self.size
    }

    /// Whether the pointer to the elements is null, which it is exactly for
    /// the empty array.
    pub fn is_null(&self) -> (out: bool)
        ensures
            out == self.spec_is_null(),
            out <==> self.spec_size() == 0,
            out <==> self.elements().len() == 0,
    {
        proof {
            use_type_invariant(self);
        }
        self.data_ptr.is_null()
    }

    /// Takes the elements out of the array, which releases its block, and
    /// leaves the empty array.
    pub fn take(&mut self) -> (out: Vec<T>)
        ensures
            out@ == old(self).elements(),
            final(self).spec_is_null(),
            final(self).spec_size() == 0,
            final(self).elements() == Seq::<T>::empty(),
    {
        let mut taken = CArray { data_ptr: RawPointer::null(), size: 0 };
        core::mem::swap(self, &mut taken);
        match take_back_from_raw_pointer(taken.data_ptr) {
            Ok(elements) => elements,
            Err(_) => Vec::new(),
        }
    }

    /// The elements, none for the empty array.
    pub fn as_slice(&self) -> (out: Option<&Vec<T>>)
        ensures
            out is None <==> self.spec_is_null(),
            out matches Some(block) ==> block@ == self.elements(),
    {
        match <Vec<T> as RawBorrow<Vec<T>>>::raw_borrow(&self.data_ptr) {
            Ok(block) => Some(block),
            Err(_) => None,
        }
    }
}

impl<T: Model> Model for CArray<T> {
    type M = Seq<T::M>;

    open spec fn model(&self) -> Seq<T::M> {
        Seq::new(self.elements().len(), |i: int| self.elements()[i].model())
    }
}

impl<T> CDrop for CArray<T> {
    open spec fn released(&self) -> bool {
        self.spec_is_null()
    }

    open spec fn do_drop_result(&self) -> Result<(), CDropError> {
        Ok(())
    }

    /// Releases the block of elements and leaves the empty array.
    fn do_drop(&mut self) -> (out: Result<(), CDropError>)
        ensures
            final(self).spec_is_null(),
            final(self).spec_size() == 0,
    {
        *self = CArray { data_ptr: RawPointer::null(), size: 0 };
        Ok(())
    }
}

impl<U: CReprOf<V>, V: Model> CReprOf<Vec<V>> for CArray<U> {
    open spec fn c_repr_of_spec(input: Seq<V::M>) -> Result<Seq<U::M>, CReprOfError> {
        try_map(input, |v: V::M| U::c_repr_of_spec(v))
    }

    /// The array of the C representations of the items. The empty sequence
    /// gives the null pointer.
    fn c_repr_of(input: Vec<V>) -> (out: Result<Self, CReprOfError>)
        ensures
            out matches Ok(array) ==> array.spec_size() == input@.len() && (array.spec_is_null()
                <==> input@.len() == 0),
    {
        match c_repr_of_all::<U, V>(input) {
            Err(e) => Err(e),
            Ok(converted) => {
                proof {
                    lemma_try_map(input.model(), |v: V::M| U::c_repr_of_spec(v));
                }
                let array = CArray::from_vec(converted);
                assert(array.model() =~= converted.model());
                Ok(array)
            },
        }
    }
}

impl<U: AsRust<V>, V: Model> AsRust<Vec<V>> for CArray<U> {
    open spec fn as_rust_spec(c: Seq<U::M>) -> Result<Seq<V::M>, AsRustError> {
        try_map(c, |u: U::M| U::as_rust_spec(u))
    }

    /// The owned values of the elements, in order.
    fn as_rust(&self) -> (out: Result<Vec<V>, AsRustError>) {
        match self.as_slice() {
            None => {
                let owned: Vec<V> = Vec::new();
                assert(self.model() =~= Seq::empty());
                assert(owned.model() =~= Seq::empty());
                Ok(owned)
            },
            Some(values) => {
                assert(values.model() =~= self.model());
                as_rust_all::<U, V>(values)
            },
        }
    }
}

impl<T> RawPointerConverter<CArray<T>> for CArray<T> {
    open spec fn as_pointee(self) -> CArray<T> {
        self
    }

    fn into_raw_pointer(self) -> (out: RawPointer<CArray<T>>) {
        convert_into_raw_pointer(self)
    }

    fn into_raw_pointer_mut(self) -> (out: RawPointer<CArray<T>>) {
        convert_into_raw_pointer_mut(self)
    }

    fn from_raw_pointer(input: RawPointer<CArray<T>>) -> (out: Result<
        Self,
        UnexpectedNullPointerError,
    >) {
        let out = take_back_from_raw_pointer(input);
        assert(out matches Ok(value) ==> value.as_pointee() == value);
        out
    }

    fn from_raw_pointer_mut(input: &mut RawPointer<CArray<T>>) -> (out: Result<
        Self,
        UnexpectedNullPointerError,
    >) {
        let out = take_back_from_raw_pointer_mut(input);
        assert(out matches Ok(value) ==> value.as_pointee() == value);
        out
    }
}

/// A sequence whose items all come back from their C representation comes
/// back from its array, the empty sequence included.
pub proof fn lemma_array_round_trips<U: CReprOf<V> + AsRust<V>, V: Model>(input: Seq<V::M>)
    requires
        forall|i: int| 0 <= i < input.len() ==> round_trips::<U, V>(#[trigger] input[i]),
    ensures
        round_trips::<CArray<U>, Vec<V>>(input),
{
    lemma_all_round_trip::<U, V>(input);
}

/// An array of C strings: a pointer to a block of `size` string pointers.
/// The pointer is null exactly when the array is empty.
#[derive(Debug)]
pub struct CStringArray {
    strings: CArray<RawPointer<CString>>,
}

impl CStringArray {
    /// The string pointers that the array points to.
    pub closed spec fn pointers(self) -> Seq<RawPointer<CString>> {
        self.strings.elements()
    }

    /// Whether the pointer to the string pointers is null.
    pub closed spec fn spec_is_null(self) -> bool {
        self.strings.spec_is_null()
    }

    /// The recorded number of strings.
    pub closed spec fn spec_size(self) -> usize {
        self.strings.spec_size()
    }

    /// The array of the given string pointers.
    pub fn from_vec(pointers: Vec<RawPointer<CString>>) -> (out: Self)
        ensures
            out.pointers() == pointers@,
            out.spec_size() == pointers@.len(),
            out.spec_is_null() <==> pointers@.len() == 0,
    {
        CStringArray { strings: CArray::from_vec(pointers) }
    }

    /// The number of strings, which is that of the block pointed to.
    pub fn size(&self) -> (out: usize)
        ensures
            out == self.spec_size(),
            out == self.pointers().len(),
            out == 0 <==> self.spec_is_null(),
    {
        self.strings.size()
    }

    /// Whether the pointer to the string pointers is null, which it is
    /// exactly for the empty array.
    pub fn is_null(&self) -> (out: bool)
        ensures
            out == self.spec_is_null(),
            out <==> self.spec_size() == 0,
            out <==> self.pointers().len() == 0,
    {
        self.strings.is_null()
    }

    /// The string pointers, none for the empty array.
    pub fn as_slice(&self) -> (out: Option<&Vec<RawPointer<CString>>>)
        ensures
            out is None <==> self.spec_is_null(),
            out matches Some(block) ==> block@ == self.pointers(),
    {
        self.strings.as_slice()
    }
}

impl Model for CStringArray {
    type M = Seq<Option<Seq<u8>>>;

    open spec fn model(&self) -> Seq<Option<Seq<u8>>> {
        Seq::new(self.pointers().len(), |i: int| self.pointers()[i].model())
    }
}

impl CDrop for CStringArray {
    open spec fn released(&self) -> bool {
        self.spec_is_null()
    }

    open spec fn do_drop_result(&self) -> Result<(), CDropError> {
        if forall|i: int| 0 <= i < self.pointers().len() ==> (#[trigger] self.pointers()[i])@ is Some {
            Ok(())
        } else {
            Err(CDropError::NullPointer)
        }
    }

    /// Releases every string and then the block of their pointers, and
    /// leaves the empty array. A null pointer among the string pointers is
    /// an error.
    fn do_drop(&mut self) -> (out: Result<(), CDropError>)
        ensures
            final(self).spec_is_null(),
            final(self).spec_size() == 0,
    {
        let ghost all = self.pointers();
        let mut pointers = self.strings.take();
        loop
            invariant
                self.spec_is_null(),
                self.spec_size() == 0,
                all == old(self).pointers(),
                pointers@.len() <= all.len(),
                pointers@ == all.take(pointers@.len() as int),
                forall|i: int| pointers@.len() <= i < all.len() ==> (#[trigger] all[i])@ is Some,
            decreases pointers@.len(),
        {
            match pointers.pop() {
                None => {
                    return Ok(());
                },
                Some(pointer) => {
                    assert(pointer == all[pointers@.len() as int]);
                    match take_back_from_raw_pointer(pointer) {
                        Ok(_) => {},
                        Err(_) => {
                            return Err(CDropError::NullPointer);
                        },
                    }
                },
            }
        }
    }
}

impl CReprOf<Vec<String>> for CStringArray {
    open spec fn c_repr_of_spec(input: Seq<Seq<char>>) -> Result<
        Seq<Option<Seq<u8>>>,
        CReprOfError,
    > {
        <CArray<RawPointer<CString>> as CReprOf<Vec<String>>>::c_repr_of_spec(input)
    }

    /// The array of the pointers to the C strings of the items. The empty
    /// sequence gives the null pointer.
    fn c_repr_of(input: Vec<String>) -> (out: Result<Self, CReprOfError>)
        ensures
            out matches Ok(array) ==> array.spec_size() == input@.len() && (array.spec_is_null()
                <==> input@.len() == 0),
    {
        match <CArray<RawPointer<CString>> as CReprOf<Vec<String>>>::c_repr_of(input) {
            Err(e) => Err(e),
            Ok(strings) => {
                let array = CStringArray { strings };
                assert(array.model() =~= strings.model());
                Ok(array)
            },
        }
    }
}

impl AsRust<Vec<String>> for CStringArray {
    open spec fn as_rust_spec(c: Seq<Option<Seq<u8>>>) -> Result<Seq<Seq<char>>, AsRustError> {
        <CArray<RawPointer<CString>> as AsRust<Vec<String>>>::as_rust_spec(c)
    }

    /// The owned strings, in order. A null pointer among the string
    /// pointers, and a C string that is not UTF-8, are errors.
    fn as_rust(&self) -> (out: Result<Vec<String>, AsRustError>) {
        assert(self.model() =~= self.strings.model());
        self.strings.as_rust()
    }
}

impl RawPointerConverter<CStringArray> for CStringArray {
    open spec fn as_pointee(self) -> CStringArray {
        self
    }

    fn into_raw_pointer(self) -> (out: RawPointer<CStringArray>) {
        convert_into_raw_pointer(self)
    }

    fn into_raw_pointer_mut(self) -> (out: RawPointer<CStringArray>) {
        convert_into_raw_pointer_mut(self)
    }

    fn from_raw_pointer(input: RawPointer<CStringArray>) -> (out: Result<
        Self,
        UnexpectedNullPointerError,
    >) {
        let out = take_back_from_raw_pointer(input);
        assert(out matches Ok(value) ==> value.as_pointee() == value);
        out
    }

    fn from_raw_pointer_mut(input: &mut RawPointer<CStringArray>) -> (out: Result<
        Self,
        UnexpectedNullPointerError,
    >) {
        let out = take_back_from_raw_pointer_mut(input);
        assert(out matches Ok(value) ==> value.as_pointee() == value);
        out
    }
}

/// Every sequence of strings that has a C representation comes back from
/// it, the empty sequence included.
pub proof fn lemma_string_array_round_trips(input: Seq<Seq<char>>)
    ensures
        round_trips::<CStringArray, Vec<String>>(input),
{
    assert forall|i: int| 0 <= i < input.len() implies round_trips::<RawPointer<CString>, String>(
        #[trigger] input[i],
    ) by {
        lemma_string_round_trips(input[i]);
        lemma_pointer_round_trips::<CString, String>(input[i]);
    }
    lemma_all_round_trip::<RawPointer<CString>, String>(input);
}

/// The two bounds of a range as the contracts see them.
pub struct RangeModel<M> {
    pub start: M,
    pub end: M,
}

impl<T: Model> Model for Range<T> {
    type M = RangeModel<T::M>;

    open spec fn model(&self) -> RangeModel<T::M> {
        RangeModel { start: self.start.model(), end: self.end.model() }
    }
}

/// The C representation of a half-open range: its two bounds.
#[derive(Debug, Clone, PartialEq, Eq)]
pub struct CRange<T> {
    pub start: T,
    pub end: T,
}

impl<T: Model> Model for CRange<T> {
    type M = RangeModel<T::M>;

    open spec fn model(&self) -> RangeModel<T::M> {
        RangeModel { start: self.start.model(), end: self.end.model() }
    }
}

impl<T> CDrop for CRange<T> {
    open spec fn released(&self) -> bool {
        true
    }

    open spec fn do_drop_result(&self) -> Result<(), CDropError> {
        Ok(())
    }

    /// The bounds are scalars: there is nothing to release.
    fn do_drop(&mut self) -> (out: Result<(), CDropError>)
        ensures
            *final(self) == *old(self),
    {
        Ok(())
    }
}

impl<U: CReprOf<V>, V: Model> CReprOf<Range<V>> for CRange<U> {
    open spec fn c_repr_of_spec(input: RangeModel<V::M>) -> Result<RangeModel<U::M>, CReprOfError> {
        match U::c_repr_of_spec(input.start) {
            Err(e) => Err(e),
            Ok(start) => match U::c_repr_of_spec(input.end) {
                Err(e) => Err(e),
                Ok(end) => Ok(RangeModel { start, end }),
            },
        }
    }

    /// The C representations of the two bounds, the start first.
    fn c_repr_of(input: Range<V>) -> (out: Result<Self, CReprOfError>) {
        let Range { start, end } = input;
        let start = match U::c_repr_of(start) {
            Err(e) => {
                return Err(e);
            },
            Ok(start) => start,
        };
        let end = match U::c_repr_of(end) {
            Err(e) => {
                return Err(e);
            },
            Ok(end) => end,
        };
        Ok(CRange { start, end })
    }
}

impl<U: AsRust<V>, V: Model> AsRust<Range<V>> for CRange<U> {
    open spec fn as_rust_spec(c: RangeModel<U::M>) -> Result<RangeModel<V::M>, AsRustError> {
        match U::as_rust_spec(c.start) {
            Err(e) => Err(e),
            Ok(start) => match U::as_rust_spec(c.end) {
                Err(e) => Err(e),
                Ok(end) => Ok(RangeModel { start, end }),
            },
        }
    }

    /// The range between the owned values of the two bounds, the start
    /// first.
    fn as_rust(&self) -> (out: Result<Range<V>, AsRustError>) {
        let start = match self.start.as_rust() {
            Err(e) => {
                return Err(e);
            },
            Ok(start) => start,
        };
        let end = match self.end.as_rust() {
            Err(e) => {
                return Err(e);
            },
            Ok(end) => end,
        };
        Ok(Range { start, end })
    }
}

/// A range whose bounds come back from their C representation comes back
/// from its own.
pub proof fn lemma_range_round_trips<U: CReprOf<V> + AsRust<V>, V: Model>(input: RangeModel<V::M>)
    requires
        round_trips::<U, V>(input.start),
        round_trips::<U, V>(input.end),
    ensures
        round_trips::<CRange<U>, Range<V>>(input),
{
}

} // verus!
