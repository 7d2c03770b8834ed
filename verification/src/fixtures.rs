//! Worked examples: owned structs and their C representations, with the
//! three conversions written by hand on pointer handles. They follow the
//! order of the fields and the choice by kind of field that the generator
//! makes for raw pointers: a value is converted as it is, a string and a
//! pointer through their pointee, a nullable pointer only where it is not
//! null; the first failure ends a conversion.
use core::ops::Range;
use vstd::prelude::*;
use crate::conversions::convert_into_raw_pointer;
use crate::conversions::convert_into_raw_pointer_mut;
use crate::conversions::round_trips;
use crate::conversions::take_back_from_raw_pointer;
use crate::conversions::take_back_from_raw_pointer_mut;
use crate::conversions::AsRust;
use crate::conversions::AsRustError;
use crate::conversions::CDrop;
use crate::conversions::CDropError;
use crate::conversions::CReprOf;
use crate::conversions::CReprOfError;
use crate::conversions::Model;
use crate::conversions::RawPointer;
use crate::conversions::RawPointerConverter;
use crate::conversions::UnexpectedNullPointerError;
use crate::pointers::lemma_nullable_round_trips;
use crate::pointers::lemma_pointer_round_trips;
use crate::pointers::nullable_as_rust;
use crate::pointers::nullable_as_rust_spec;
use crate::pointers::nullable_c_repr_of;
use crate::pointers::nullable_c_repr_of_spec;
use crate::pointers::nullable_do_drop;
use crate::strings::lemma_string_round_trips;
use crate::strings::CString;
use crate::types::lemma_array_round_trips;
use crate::types::CArray;
use crate::types::CRange;
use crate::types::RangeModel;

verus! {

/// What lies on a pancake.
#[derive(Clone, Debug, PartialEq)]
pub struct Topping {
    pub amount: i32,
}

/// The C representation of a topping: a value field.
#[derive(Debug)]
pub struct CTopping {
    pub amount: i32,
}

impl Model for Topping {
    type M = i32;

    open spec fn model(&self) -> i32 {
        self.amount
    }
}

impl Model for CTopping {
    type M = i32;

    open spec fn model(&self) -> i32 {
        self.amount
    }
}

impl CDrop for CTopping {
    open spec fn released(&self) -> bool {
        true
    }

    open spec fn do_drop_result(&self) -> Result<(), CDropError> {
        Ok(())
    }

    fn do_drop(&mut self) -> (out: Result<(), CDropError>)
        ensures
            *final(self) == *old(self),
    {
        Ok(())
    }
}

impl CReprOf<Topping> for CTopping {
    open spec fn c_repr_of_spec(input: i32) -> Result<i32, CReprOfError> {
        Ok(input)
    }

    fn c_repr_of(input: Topping) -> (out: Result<Self, CReprOfError>) {
        let amount = match <i32 as CReprOf<i32>>::c_repr_of(input.amount) {
            Err(e) => {
                return Err(e);
            },
            Ok(amount) => amount,
        };
        Ok(CTopping { amount })
    }
}

impl AsRust<Topping> for CTopping {
    open spec fn as_rust_spec(c: i32) -> Result<i32, AsRustError> {
        Ok(c)
    }

    fn as_rust(&self) -> (out: Result<Topping, AsRustError>) {
        let amount = match <i32 as AsRust<i32>>::as_rust(&self.amount) {
            Err(e) => {
                return Err(e);
            },
            Ok(amount) => amount,
        };
        Ok(Topping { amount })
    }
}

impl RawPointerConverter<CTopping> for CTopping {
    open spec fn as_pointee(self) -> CTopping {
        self
    }

    fn into_raw_pointer(self) -> (out: RawPointer<CTopping>) {
        convert_into_raw_pointer(self)
    }

    fn into_raw_pointer_mut(self) -> (out: RawPointer<CTopping>) {
        convert_into_raw_pointer_mut(self)
    }

    fn from_raw_pointer(input: RawPointer<CTopping>) -> (out: Result<
        Self,
        UnexpectedNullPointerError,
    >) {
        let out = take_back_from_raw_pointer(input);
        assert(out matches Ok(value) ==> value.as_pointee() == value);
        out
    }

    fn from_raw_pointer_mut(input: &mut RawPointer<CTopping>) -> (out: Result<
        Self,
        UnexpectedNullPointerError,
    >) {
        let out = take_back_from_raw_pointer_mut(input);
        assert(out matches Ok(value) ==> value.as_pointee() == value);
        out
    }
}

/// Every topping comes back from its C representation.
pub proof fn lemma_topping_round_trips(value: i32)
    ensures
        round_trips::<CTopping, Topping>(value),
{
}

/// One layer of a pancake, which may have a subtitle.
#[derive(Clone, Debug, PartialEq)]
pub struct Layer {
    pub number: i32,
    pub subtitle: Option<String>,
}

pub struct LayerModel {
    pub number: i32,
    pub subtitle: Option<Seq<char>>,
}

/// The C representation of a layer: a value field and a nullable string.
#[derive(Debug)]
pub struct CLayer {
    pub number: i32,
    pub subtitle: RawPointer<CString>,
}

pub struct CLayerModel {
    pub number: i32,
    pub subtitle: Option<Seq<u8>>,
}

impl Model for Layer {
    type M = LayerModel;

    open spec fn model(&self) -> LayerModel {
        LayerModel { number: self.number, subtitle: self.subtitle.model() }
    }
}

impl Model for CLayer {
    type M = CLayerModel;

    open spec fn model(&self) -> CLayerModel {
        CLayerModel { number: self.number, subtitle: self.subtitle.model() }
    }
}

impl CDrop for CLayer {
    open spec fn released(&self) -> bool {
        self.subtitle@ is None
    }

    open spec fn do_drop_result(&self) -> Result<(), CDropError> {
        Ok(())
    }

    /// Releases the subtitle, if there is one.
    fn do_drop(&mut self) -> (out: Result<(), CDropError>)
        ensures
            final(self).subtitle@ is None,
            final(self).number == old(self).number,
    {
        nullable_do_drop(&mut self.subtitle)
    }
}

impl CReprOf<Layer> for CLayer {
    open spec fn c_repr_of_spec(input: LayerModel) -> Result<CLayerModel, CReprOfError> {
        match nullable_c_repr_of_spec::<CString, String>(input.subtitle) {
            Err(e) => Err(e),
            Ok(subtitle) => Ok(CLayerModel { number: input.number, subtitle }),
        }
    }

    fn c_repr_of(input: Layer) -> (out: Result<Self, CReprOfError>)
        ensures
            out matches Ok(c) ==> (c.subtitle@ is None <==> input.subtitle is None),
    {
        let Layer { number, subtitle } = input;
        let number = match <i32 as CReprOf<i32>>::c_repr_of(number) {
            Err(e) => {
                return Err(e);
            },
            Ok(number) => number,
        };
        let subtitle = match nullable_c_repr_of::<CString, String>(subtitle) {
            Err(e) => {
                return Err(e);
            },
            Ok(subtitle) => subtitle,
        };
        Ok(CLayer { number, subtitle })
    }
}

impl AsRust<Layer> for CLayer {
    open spec fn as_rust_spec(c: CLayerModel) -> Result<LayerModel, AsRustError> {
        match nullable_as_rust_spec::<CString, String>(c.subtitle) {
            Err(e) => Err(e),
            Ok(subtitle) => Ok(LayerModel { number: c.number, subtitle }),
        }
    }

    fn as_rust(&self) -> (out: Result<Layer, AsRustError>) {
        let number = match <i32 as AsRust<i32>>::as_rust(&self.number) {
            Err(e) => {
                return Err(e);
            },
            Ok(number) => number,
        };
        let subtitle = match nullable_as_rust::<CString, String>(&self.subtitle) {
            Err(e) => {
                return Err(e);
            },
            Ok(subtitle) => subtitle,
        };
        Ok(Layer { number, subtitle })
    }
}

impl RawPointerConverter<CLayer> for CLayer {
    open spec fn as_pointee(self) -> CLayer {
        self
    }

    fn into_raw_pointer(self) -> (out: RawPointer<CLayer>) {
        convert_into_raw_pointer(self)
    }

    fn into_raw_pointer_mut(self) -> (out: RawPointer<CLayer>) {
        convert_into_raw_pointer_mut(self)
    }

    fn from_raw_pointer(input: RawPointer<CLayer>) -> (out: Result<
        Self,
        UnexpectedNullPointerError,
    >) {
        let out = take_back_from_raw_pointer(input);
        assert(out matches Ok(value) ==> value.as_pointee() == value);
        out
    }

    fn from_raw_pointer_mut(input: &mut RawPointer<CLayer>) -> (out: Result<
        Self,
        UnexpectedNullPointerError,
    >) {
        let out = take_back_from_raw_pointer_mut(input);
        assert(out matches Ok(value) ==> value.as_pointee() == value);
        out
    }
}

/// Every layer that has a C representation comes back from it, with its
/// subtitle or without.
pub proof fn lemma_layer_round_trips(value: LayerModel)
    ensures
        round_trips::<CLayer, Layer>(value),
{
    if let Some(subtitle) = value.subtitle {
        lemma_string_round_trips(subtitle);
    }
}

/// A counter with a description.
#[derive(Clone, Debug, PartialEq)]
pub struct Dummy {
    pub count: i32,
    pub describe: String,
}

pub struct DummyModel {
    pub count: i32,
    pub describe: Seq<char>,
}

/// The C representation of a dummy: a value field and a string.
#[derive(Debug)]
pub struct CDummy {
    pub count: i32,
    pub describe: RawPointer<CString>,
}

pub struct CDummyModel {
    pub count: i32,
    pub describe: Option<Seq<u8>>,
}

impl Model for Dummy {
    type M = DummyModel;

    open spec fn model(&self) -> DummyModel {
        DummyModel { count: self.count, describe: self.describe@ }
    }
}

impl Model for CDummy {
    type M = CDummyModel;

    open spec fn model(&self) -> CDummyModel {
        CDummyModel { count: self.count, describe: self.describe.model() }
    }
}

impl CDrop for CDummy {
    open spec fn released(&self) -> bool {
        self.describe@ is None
    }

    open spec fn do_drop_result(&self) -> Result<(), CDropError> {
        self.describe.do_drop_result()
    }

    /// Releases the description. A description that is null already is an
    /// error.
    fn do_drop(&mut self) -> (out: Result<(), CDropError>)
        ensures
            final(self).describe@ is None,
            final(self).count == old(self).count,
    {
        self.describe.do_drop()
    }
}

impl CReprOf<Dummy> for CDummy {
    open spec fn c_repr_of_spec(input: DummyModel) -> Result<CDummyModel, CReprOfError> {
        match <RawPointer<CString> as CReprOf<String>>::c_repr_of_spec(input.describe) {
            Err(e) => Err(e),
            Ok(describe) => Ok(CDummyModel { count: input.count, describe }),
        }
    }

    fn c_repr_of(input: Dummy) -> (out: Result<Self, CReprOfError>)
        ensures
            out matches Ok(c) ==> c.describe@ is Some,
    {
        let Dummy { count, describe } = input;
        let count = match <i32 as CReprOf<i32>>::c_repr_of(count) {
            Err(e) => {
                return Err(e);
            },
            Ok(count) => count,
        };
        let describe = match <RawPointer<CString> as CReprOf<String>>::c_repr_of(describe) {
            Err(e) => {
                return Err(e);
            },
            Ok(describe) => describe,
        };
        Ok(CDummy { count, describe })
    }
}

impl AsRust<Dummy> for CDummy {
    open spec fn as_rust_spec(c: CDummyModel) -> Result<DummyModel, AsRustError> {
        match <RawPointer<CString> as AsRust<String>>::as_rust_spec(c.describe) {
            Err(e) => Err(e),
            Ok(describe) => Ok(DummyModel { count: c.count, describe }),
        }
    }

    fn as_rust(&self) -> (out: Result<Dummy, AsRustError>) {
        let count = match <i32 as AsRust<i32>>::as_rust(&self.count) {
            Err(e) => {
                return Err(e);
            },
            Ok(count) => count,
        };
        let describe = match <RawPointer<CString> as AsRust<String>>::as_rust(&self.describe) {
            Err(e) => {
                return Err(e);
            },
            Ok(describe) => describe,
        };
        Ok(Dummy { count, describe })
    }
}

impl RawPointerConverter<CDummy> for CDummy {
    open spec fn as_pointee(self) -> CDummy {
        self
    }

    fn into_raw_pointer(self) -> (out: RawPointer<CDummy>) {
        convert_into_raw_pointer(self)
    }

    fn into_raw_pointer_mut(self) -> (out: RawPointer<CDummy>) {
        convert_into_raw_pointer_mut(self)
    }

    fn from_raw_pointer(input: RawPointer<CDummy>) -> (out: Result<
        Self,
        UnexpectedNullPointerError,
    >) {
        let out = take_back_from_raw_pointer(input);
        assert(out matches Ok(value) ==> value.as_pointee() == value);
        out
    }

    fn from_raw_pointer_mut(input: &mut RawPointer<CDummy>) -> (out: Result<
        Self,
        UnexpectedNullPointerError,
    >) {
        let out = take_back_from_raw_pointer_mut(input);
        assert(out matches Ok(value) ==> value.as_pointee() == value);
        out
    }
}

/// Every dummy that has a C representation comes back from it.
pub proof fn lemma_dummy_round_trips(value: DummyModel)
    ensures
        round_trips::<CDummy, Dummy>(value),
{
    lemma_string_round_trips(value.describe);
}

/// A pancake, as far as whole numbers and text describe it.
#[derive(Debug, PartialEq)]
pub struct Pancake {
    pub name: String,
    pub description: Option<String>,
    pub dummy: Dummy,
    pub toppings: Vec<Topping>,
    pub layers: Option<Vec<Layer>>,
    pub is_delicious: bool,
    pub range: Range<usize>,
    /// Has no place in the C representation: it comes back absent.
    pub some_futile_info: Option<String>,
    /// Stands in the C representation as two fields.
    pub flattened_range: Range<i64>,
    /// Stands in the C representation under another name.
    pub field_with_specific_rust_name: String,
}

impl Clone for Pancake {
    fn clone(&self) -> (out: Self) {
        Pancake {
            name: self.name.clone(),
            description: self.description.clone(),
            dummy: self.dummy.clone(),
            toppings: self.toppings.clone(),
            layers: self.layers.clone(),
            is_delicious: self.is_delicious,
            range: Range { start: self.range.start, end: self.range.end },
            some_futile_info: self.some_futile_info.clone(),
            flattened_range: Range {
                start: self.flattened_range.start,
                end: self.flattened_range.end,
            },
            field_with_specific_rust_name: self.field_with_specific_rust_name.clone(),
        }
    }
}

pub struct PancakeModel {
    pub name: Seq<char>,
    pub description: Option<Seq<char>>,
    pub dummy: DummyModel,
    pub toppings: Seq<i32>,
    pub layers: Option<Seq<LayerModel>>,
    pub is_delicious: bool,
    pub range: RangeModel<usize>,
    pub some_futile_info: Option<Seq<char>>,
    pub flattened_range: RangeModel<i64>,
    pub field_with_specific_rust_name: Seq<char>,
}

/// The C representation of a pancake: every kind of field that the
/// generator knows, but for the floating-point ones. The description and the
/// layers are nullable.
#[derive(Debug)]
pub struct CPancake {
    pub name: RawPointer<CString>,
    pub description: RawPointer<CString>,
    pub dummy: CDummy,
    pub toppings: RawPointer<CArray<CTopping>>,
    pub layers: RawPointer<CArray<CLayer>>,
    pub is_delicious: u8,
    pub range: CRange<i32>,
    pub flattened_range_start: i64,
    pub flattened_range_end: i64,
    pub field_with_specific_c_name: RawPointer<CString>,
}

pub struct CPancakeModel {
    pub name: Option<Seq<u8>>,
    pub description: Option<Seq<u8>>,
    pub dummy: CDummyModel,
    pub toppings: Option<Seq<i32>>,
    pub layers: Option<Seq<CLayerModel>>,
    pub is_delicious: u8,
    pub range: RangeModel<i32>,
    pub flattened_range_start: i64,
    pub flattened_range_end: i64,
    pub field_with_specific_c_name: Option<Seq<u8>>,
}

impl Model for Pancake {
    type M = PancakeModel;

    open spec fn model(&self) -> PancakeModel {
        PancakeModel {
            name: self.name@,
            description: self.description.model(),
            dummy: self.dummy.model(),
            toppings: self.toppings.model(),
            layers: self.layers.model(),
            is_delicious: self.is_delicious,
            range: self.range.model(),
            some_futile_info: self.some_futile_info.model(),
            flattened_range: self.flattened_range.model(),
            field_with_specific_rust_name: self.field_with_specific_rust_name@,
        }
    }
}

impl Model for CPancake {
    type M = CPancakeModel;

    open spec fn model(&self) -> CPancakeModel {
        CPancakeModel {
            name: self.name.model(),
            description: self.description.model(),
            dummy: self.dummy.model(),
            toppings: self.toppings.model(),
            layers: self.layers.model(),
            is_delicious: self.is_delicious,
            range: self.range.model(),
            flattened_range_start: self.flattened_range_start,
            flattened_range_end: self.flattened_range_end,
            field_with_specific_c_name: self.field_with_specific_c_name.model(),
        }
    }
}

impl CDrop for CPancake {
    open spec fn released(&self) -> bool {
        &&& self.name@ is None
        &&& self.description@ is None
        &&& self.dummy.released()
        &&& self.toppings@ is None
        &&& self.layers@ is None
        &&& self.field_with_specific_c_name@ is None
    }

    open spec fn do_drop_result(&self) -> Result<(), CDropError> {
        if self.name@ is Some && self.dummy.describe@ is Some && self.toppings@ is Some
            && self.field_with_specific_c_name@ is Some {
            Ok(())
        } else {
            Err(CDropError::NullPointer)
        }
    }

    /// Releases what every pointer field points to, in the order of
    /// declaration. A pointer that is not nullable and is null already is an
    /// error, which ends the release: the fields after it are left as they
    /// are.
    fn do_drop(&mut self) -> (out: Result<(), CDropError>)
        ensures
            final(self).name@ is None,
    {
        match self.name.do_drop() {
            Err(e) => {
                return Err(e);
            },
            Ok(_) => {},
        }
        match nullable_do_drop(&mut self.description) {
            Err(e) => {
                return Err(e);
            },
            Ok(_) => {},
        }
        match self.dummy.do_drop() {
            Err(e) => {
                return Err(e);
            },
            Ok(_) => {},
        }
        match self.toppings.do_drop() {
            Err(e) => {
                return Err(e);
            },
            Ok(_) => {},
        }
        match nullable_do_drop(&mut self.layers) {
            Err(e) => {
                return Err(e);
            },
            Ok(_) => {},
        }
        self.field_with_specific_c_name.do_drop()
    }
}

impl CReprOf<Pancake> for CPancake {
    open spec fn c_repr_of_spec(input: PancakeModel) -> Result<CPancakeModel, CReprOfError> {
        match <RawPointer<CString> as CReprOf<String>>::c_repr_of_spec(input.name) {
            Err(e) => Err(e),
            Ok(name) => match nullable_c_repr_of_spec::<CString, String>(input.description) {
                Err(e) => Err(e),
                Ok(description) => match <CDummy as CReprOf<Dummy>>::c_repr_of_spec(input.dummy) {
                    Err(e) => Err(e),
                    Ok(dummy) => match <RawPointer<CArray<CTopping>> as CReprOf<
                        Vec<Topping>,
                    >>::c_repr_of_spec(input.toppings) {
                        Err(e) => Err(e),
                        Ok(toppings) => match nullable_c_repr_of_spec::<CArray<CLayer>, Vec<Layer>>(
                            input.layers,
                        ) {
                            Err(e) => Err(e),
                            Ok(layers) => match <RawPointer<CString> as CReprOf<
                                String,
                            >>::c_repr_of_spec(input.field_with_specific_rust_name) {
                                Err(e) => Err(e),
                                Ok(renamed) => Ok(
                                    CPancakeModel {
                                        name,
                                        description,
                                        dummy,
                                        toppings,
                                        layers,
                                        is_delicious: if input.is_delicious {
                                            1u8
                                        } else {
                                            0u8
                                        },
                                        range: RangeModel {
                                            start: input.range.start as i32,
                                            end: input.range.end as i32,
                                        },
                                        flattened_range_start: input.flattened_range.start,
                                        flattened_range_end: input.flattened_range.end,
                                        field_with_specific_c_name: renamed,
                                    },
                                ),
                            },
                        },
                    },
                },
            },
        }
    }

    fn c_repr_of(input: Pancake) -> (out: Result<Self, CReprOfError>) {
        let Pancake {
            name,
            description,
            dummy,
            toppings,
            layers,
            is_delicious,
            range,
            some_futile_info,
            flattened_range,
            field_with_specific_rust_name,
        } = input;
        let name = match <RawPointer<CString> as CReprOf<String>>::c_repr_of(name) {
            Err(e) => {
                return Err(e);
            },
            Ok(name) => name,
        };
        let description = match nullable_c_repr_of::<CString, String>(description) {
            Err(e) => {
                return Err(e);
            },
            Ok(description) => description,
        };
        let dummy = match CDummy::c_repr_of(dummy) {
            Err(e) => {
                return Err(e);
            },
            Ok(dummy) => dummy,
        };
        let toppings = match <RawPointer<CArray<CTopping>> as CReprOf<Vec<Topping>>>::c_repr_of(
            toppings,
        ) {
            Err(e) => {
                return Err(e);
            },
            Ok(toppings) => toppings,
        };
        let layers = match nullable_c_repr_of::<CArray<CLayer>, Vec<Layer>>(layers) {
            Err(e) => {
                return Err(e);
            },
            Ok(layers) => layers,
        };
        let is_delicious = match <u8 as CReprOf<bool>>::c_repr_of(is_delicious) {
            Err(e) => {
                return Err(e);
            },
            Ok(is_delicious) => is_delicious,
        };
        let range = match <CRange<i32> as CReprOf<Range<usize>>>::c_repr_of(range) {
            Err(e) => {
                return Err(e);
            },
            Ok(range) => range,
        };
        let renamed = match <RawPointer<CString> as CReprOf<String>>::c_repr_of(
            field_with_specific_rust_name,
        ) {
            Err(e) => {
                return Err(e);
            },
            Ok(renamed) => renamed,
        };
        Ok(
            CPancake {
                name,
                description,
                dummy,
                toppings,
                layers,
                is_delicious,
                range,
                flattened_range_start: flattened_range.start,
                flattened_range_end: flattened_range.end,
                field_with_specific_c_name: renamed,
            },
        )
    }
}

impl AsRust<Pancake> for CPancake {
    open spec fn as_rust_spec(c: CPancakeModel) -> Result<PancakeModel, AsRustError> {
        match <RawPointer<CString> as AsRust<String>>::as_rust_spec(c.name) {
            Err(e) => Err(e),
            Ok(name) => match nullable_as_rust_spec::<CString, String>(c.description) {
                Err(e) => Err(e),
                Ok(description) => match <CDummy as AsRust<Dummy>>::as_rust_spec(c.dummy) {
                    Err(e) => Err(e),
                    Ok(dummy) => match <RawPointer<CArray<CTopping>> as AsRust<
                        Vec<Topping>,
                    >>::as_rust_spec(c.toppings) {
                        Err(e) => Err(e),
                        Ok(toppings) => match nullable_as_rust_spec::<CArray<CLayer>, Vec<Layer>>(
                            c.layers,
                        ) {
                            Err(e) => Err(e),
                            Ok(layers) => match <RawPointer<CString> as AsRust<
                                String,
                            >>::as_rust_spec(c.field_with_specific_c_name) {
                                Err(e) => Err(e),
                                Ok(renamed) => Ok(
                                    PancakeModel {
                                        name,
                                        description,
                                        dummy,
                                        toppings,
                                        layers,
                                        is_delicious: c.is_delicious != 0,
                                        range: RangeModel {
                                            start: c.range.start as usize,
                                            end: c.range.end as usize,
                                        },
                                        some_futile_info: None,
                                        flattened_range: RangeModel {
                                            start: c.flattened_range_start,
                                            end: c.flattened_range_end,
                                        },
                                        field_with_specific_rust_name: renamed,
                                    },
                                ),
                            },
                        },
                    },
                },
            },
        }
    }

    fn as_rust(&self) -> (out: Result<Pancake, AsRustError>) {
        let name = match <RawPointer<CString> as AsRust<String>>::as_rust(&self.name) {
            Err(e) => {
                return Err(e);
            },
            Ok(name) => name,
        };
        let description = match nullable_as_rust::<CString, String>(&self.description) {
            Err(e) => {
                return Err(e);
            },
            Ok(description) => description,
        };
        let dummy = match self.dummy.as_rust() {
            Err(e) => {
                return Err(e);
            },
            Ok(dummy) => dummy,
        };
        let toppings = match <RawPointer<CArray<CTopping>> as AsRust<Vec<Topping>>>::as_rust(
            &self.toppings,
        ) {
            Err(e) => {
                return Err(e);
            },
            Ok(toppings) => toppings,
        };
        let layers = match nullable_as_rust::<CArray<CLayer>, Vec<Layer>>(&self.layers) {
            Err(e) => {
                return Err(e);
            },
            Ok(layers) => layers,
        };
        let is_delicious = match <u8 as AsRust<bool>>::as_rust(&self.is_delicious) {
            Err(e) => {
                return Err(e);
            },
            Ok(is_delicious) => is_delicious,
        };
        let range = match <CRange<i32> as AsRust<Range<usize>>>::as_rust(&self.range) {
            Err(e) => {
                return Err(e);
            },
            Ok(range) => range,
        };
        let renamed = match <RawPointer<CString> as AsRust<String>>::as_rust(
            &self.field_with_specific_c_name,
        ) {
            Err(e) => {
                return Err(e);
            },
            Ok(renamed) => renamed,
        };
        Ok(
            Pancake {
                name,
                description,
                dummy,
                toppings,
                layers,
                is_delicious,
                range,
                field_with_specific_rust_name: renamed,
                some_futile_info: None,
                flattened_range: Range {
                    start: self.flattened_range_start,
                    end: self.flattened_range_end,
                },
            },
        )
    }
}

/// A pancake that has a C representation comes back from it, where the
/// bounds of its range are numbers that a C `int` can hold and its futile
/// information is absent.
pub proof fn lemma_pancake_round_trips(value: PancakeModel)
    requires
        value.range.start <= i32::MAX,
        value.range.end <= i32::MAX,
        value.some_futile_info is None,
    ensures
        round_trips::<CPancake, Pancake>(value),
{
    lemma_string_round_trips(value.name);
    lemma_string_round_trips(value.field_with_specific_rust_name);
    if let Some(description) = value.description {
        lemma_string_round_trips(description);
    }
    lemma_dummy_round_trips(value.dummy);
    assert forall|i: int| 0 <= i < value.toppings.len() implies round_trips::<CTopping, Topping>(
        #[trigger] value.toppings[i],
    ) by {
        lemma_topping_round_trips(value.toppings[i]);
    }
    lemma_array_round_trips::<CTopping, Topping>(value.toppings);
    if let Some(layers) = value.layers {
        assert forall|i: int| 0 <= i < layers.len() implies round_trips::<CLayer, Layer>(
            #[trigger] layers[i],
        ) by {
            lemma_layer_round_trips(layers[i]);
        }
        lemma_array_round_trips::<CLayer, Layer>(layers);
    }
    lemma_nullable_round_trips::<CArray<CLayer>, Vec<Layer>>(value.layers);
}

} // verus!
