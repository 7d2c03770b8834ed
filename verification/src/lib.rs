//! Conversions between owned values and their C-compatible representations,
//! and the generator that writes those conversions for annotated structs.
//!
//! The conversions are three: building a C representation from an owned
//! value ([`CReprOf`]), building the owned value back ([`AsRust`]), and
//! releasing what a C representation owns ([`CDrop`]). They are given for
//! the scalar types, for strings, for pointers and nullable pointers, and
//! for arrays, string arrays and ranges. A pointer is a [`RawPointer`]: a
//! handle that is null or owns its pointee and cannot be copied, so that what
//! was handed over is taken back at most once. Every conversion states the
//! value that it returns, and the laws that connect the conversions are
//! proved: an owned value comes back from its C representation, an absent
//! value is the null pointer, an array is the null pointer exactly when it
//! is empty.
//!
//! The generator reads the declaration of a struct whose fields are C
//! types, raw pointers among them, describes each field ([`parse_field`]),
//! and writes the three conversions of the struct as source text
//! ([`impl_creprof_macro`], [`impl_asrust_macro`], [`impl_cdrop_macro`]). The
//! functions of these names take a declaration that can be written for; each
//! has a companion whose name begins with `try_`, which takes any
//! declaration and returns the error of one that cannot. The
//! text is written for raw pointers and the C strings of `std`: it is
//! compiled in the crate that exposes the C interface, against conversions
//! of the same names on raw pointers, which this crate does not hold. What
//! is stated of the text is the text itself, not what it does when it runs.
pub mod asrust;
pub mod cdrop;
pub mod conversions;
pub mod creprof;
pub mod errors;
pub mod fixtures;
pub mod pointers;
pub mod rawpointerconverter;
pub mod scalars;
pub mod sequence;
pub mod strings;
pub mod syntax;
pub mod text;
pub mod time;
pub mod types;
pub mod utils;

pub use asrust::impl_asrust_macro;
pub use asrust::try_impl_asrust_macro;
pub use cdrop::impl_cdrop_macro;
pub use cdrop::try_impl_cdrop_macro;
pub use conversions::convert_into_raw_pointer;
pub use conversions::release;
pub use conversions::convert_into_raw_pointer_mut;
pub use conversions::take_back_from_raw_pointer;
pub use conversions::take_back_from_raw_pointer_mut;
pub use conversions::AsRust;
pub use conversions::AsRustError;
pub use conversions::CDrop;
pub use conversions::CDropError;
pub use conversions::CReprOf;
pub use conversions::CReprOfError;
pub use conversions::Model;
pub use conversions::RawBorrow;
pub use conversions::RawBorrowMut;
pub use conversions::RawPointer;
pub use conversions::RawPointerConverter;
pub use conversions::UnexpectedNullPointerError;
pub use creprof::impl_creprof_macro;
pub use creprof::try_impl_creprof_macro;
pub use errors::point_to_string;
pub use errors::wrap;
pub use errors::SNIPS_RESULT;
pub use fixtures::CDummy;
pub use fixtures::CLayer;
pub use fixtures::CPancake;
pub use fixtures::CTopping;
pub use fixtures::Dummy;
pub use fixtures::Layer;
pub use fixtures::Pancake;
pub use fixtures::Topping;
pub use pointers::nullable_as_rust;
pub use pointers::nullable_c_repr_of;
pub use pointers::nullable_do_drop;
pub use rawpointerconverter::impl_rawpointerconverter_macro;
pub use strings::CString;
pub use time::duration_span;
pub use types::CArray;
pub use types::CRange;
pub use types::CStringArray;
pub use utils::failure_message;
pub use utils::generic_path_to_concrete_type_path;
pub use utils::parse_field;
pub use utils::parse_no_drop_impl_flag;
pub use utils::parse_struct_fields;
pub use utils::parse_target_type;
pub use utils::try_parse_field;
pub use utils::try_parse_struct_fields;
pub use utils::try_parse_target_type;
pub use utils::ClassificationError;
pub use utils::Field;
pub use utils::TypeArrayOrTypePath;
