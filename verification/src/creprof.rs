//! The generated conversion from an owned value to its C representation.
use vstd::prelude::*;
use vstd::string::StringExecFns;
use crate::syntax::DeriveInput;
use crate::syntax::DeriveInputView;
use crate::text::concat_texts;
use crate::text::lemma_concat_texts_step;
use crate::text::push_repeated;
use crate::text::push_text;
use crate::text::push_turbofish;
use crate::text::push_type;
use crate::text::repeat_text;
use crate::text::turbofish_text;
use crate::text::type_text;
use crate::utils::fields_view;
use crate::utils::has_unmarked_pointer_to_pointer;
use crate::utils::lemma_pointer_to_pointer_is_rejected;
use crate::utils::parse_struct_fields;
use crate::utils::try_parse_struct_fields;
use crate::utils::try_parse_target_type;
use crate::utils::parse_target_type;
use crate::utils::spec_parse_struct_fields;
use crate::utils::spec_target_type;
use crate::utils::ClassificationError;
use crate::utils::Field;
use crate::utils::FieldView;

verus! {

/// The call that converts the owned value `field`: on the C string type for
/// a string field, else on the field's type with its generic arguments.
pub open spec fn c_repr_of_call(field: FieldView) -> Seq<char> {
    if field.is_string {
        "std::ffi::CString::c_repr_of(field)?"@
    } else {
        type_text(field.field_type) + (match field.type_params {
            Some(params) => turbofish_text(params),
            None => Seq::empty(),
        }) + "::c_repr_of(field)?"@
    }
}

/// How often the converted value is handed over to a raw pointer: once for
/// each level of indirection of a pointer field, never for a value field.
pub open spec fn transfers(field: FieldView) -> nat {
    if field.is_pointer {
        field.levels_of_indirection as nat
    } else {
        0
    }
}

/// The conversion of the owned value `field`: the call, then one transfer
/// into a raw pointer for each level of indirection.
pub open spec fn c_repr_of_conversion(field: FieldView) -> Seq<char> {
    c_repr_of_call(field) + repeat_text(".into_raw_pointer()"@, transfers(field))
}

/// The initialiser of one field of the C representation. An override
/// expression stands as it is. Else a nullable field converts a present
/// value and is the null pointer for an absent one, and any other field
/// converts the value of the owned field.
pub open spec fn c_repr_of_field(field: FieldView) -> Seq<char> {
    match field.c_repr_of_convert {
        Some(convert) => field.name + ": "@ + convert,
        None => if field.is_nullable {
            field.name + ": if let Some(field) = input."@ + field.target_name + " { "@
                + c_repr_of_conversion(field) + " } else { std::ptr::null() as _ }"@
        } else {
            field.name + ": { let field = input."@ + field.target_name + "; "@
                + c_repr_of_conversion(field) + " }"@
        },
    }
}

/// The initialisers of all fields, each followed by a comma.
pub open spec fn c_repr_of_fields(fields: Seq<FieldView>) -> Seq<char> {
    concat_texts(fields.map_values(|field: FieldView| c_repr_of_field(field) + ", "@))
}

/// The implementation of `CReprOf` for a struct: every field initialised in
/// the order of declaration, the first failing conversion ending the
/// function with its error.
pub open spec fn c_repr_of_impl(
    struct_name: Seq<char>,
    target_type: Seq<char>,
    fields: Seq<FieldView>,
) -> Seq<char> {
    "impl CReprOf<"@ + target_type + "> for "@ + struct_name + " { fn c_repr_of(input: "@
        + target_type
        + ") -> Result<Self, ffi_convert::CReprOfError> { use ffi_convert::RawPointerConverter; Ok(Self { "@
        + c_repr_of_fields(fields) + "}) } }"@
}

/// What the derive of `CReprOf` writes for a declaration, or why it writes
/// nothing.
pub open spec fn spec_impl_creprof(input: DeriveInputView) -> Result<
    Seq<char>,
    ClassificationError,
> {
    match spec_target_type(input.attrs) {
        Err(e) => Err(e),
        Ok(target_type) => match spec_parse_struct_fields(input.data) {
            Err(e) => Err(e),
            Ok(fields) => Ok(c_repr_of_impl(input.ident, target_type, fields)),
        },
    }
}

/// Appends the conversion of the owned value `field`.
pub fn push_c_repr_of_conversion(out: &mut String, field: &Field)
    ensures
        final(out)@ == old(out)@ + c_repr_of_conversion(field@),
{
    if field.is_string {
        push_text(out, "std::ffi::CString::c_repr_of(field)?");
    } else {
        push_type(out, &field.field_type);
        match &field.type_params {
            Some(params) => {
                push_turbofish(out, params);
            },
            None => {},
        }
        push_text(out, "::c_repr_of(field)?");
        assert(out@ =~= old(out)@ + c_repr_of_call(field@));
    }
    if field.is_pointer {
        push_repeated(out, ".into_raw_pointer()", field.levels_of_indirection);
    }
    assert(out@ =~= old(out)@ + c_repr_of_conversion(field@)) by {
        assert(repeat_text(".into_raw_pointer()"@, 0) =~= Seq::<char>::empty());
    }
}

/// Appends the initialiser of one field of the C representation.
pub fn push_c_repr_of_field(out: &mut String, field: &Field)
    ensures
        final(out)@ == old(out)@ + c_repr_of_field(field@),
{
    push_text(out, field.name.as_str());
    match &field.c_repr_of_convert {
        Some(convert) => {
            push_text(out, ": ");
            push_text(out, convert.as_str());
        },
        None => {
            if field.is_nullable {
                push_text(out, ": if let Some(field) = input.");
                push_text(out, field.target_name.as_str());
                push_text(out, " { ");
                push_c_repr_of_conversion(out, field);
                push_text(out, " } else { std::ptr::null() as _ }");
            } else {
                push_text(out, ": { let field = input.");
                push_text(out, field.target_name.as_str());
                push_text(out, "; ");
                push_c_repr_of_conversion(out, field);
                push_text(out, " }");
            }
        },
    }
    assert(out@ =~= old(out)@ + c_repr_of_field(field@));
}

/// Writes the implementation of `CReprOf` for a struct with the given name,
/// owned counterpart and fields.
pub fn c_repr_of_impl_text(struct_name: &str, target_type: &str, fields: &Vec<Field>) -> (out:
    String)
    ensures
        out@ == c_repr_of_impl(struct_name@, target_type@, fields_view(fields@)),
{
    let mut out = String::from_str("impl CReprOf<");
    push_text(&mut out, target_type);
    push_text(&mut out, "> for ");
    push_text(&mut out, struct_name);
    push_text(&mut out, " { fn c_repr_of(input: ");
    push_text(&mut out, target_type);
    push_text(
        &mut out,
        ") -> Result<Self, ffi_convert::CReprOfError> { use ffi_convert::RawPointerConverter; Ok(Self { ",
    );
    let ghost head = out@;
    let ghost parts = fields_view(fields@).map_values(
        |field: FieldView| c_repr_of_field(field) + ", "@,
    );
    let mut i: usize = 0;
    assert(parts.take(0) =~= Seq::empty());
    assert(head + concat_texts(parts.take(0)) =~= head);
    while i < fields.len()
        invariant
            i <= fields@.len(),
            parts.len() == fields@.len(),
            forall|k: int|
                0 <= k < parts.len() ==> #[trigger] parts[k] == c_repr_of_field(fields@[k]@) + ", "@,
            out@ == head + concat_texts(parts.take(i as int)),
        decreases fields@.len() - i,
    {
        proof {
            lemma_concat_texts_step(parts, i as int);
        }
        push_c_repr_of_field(&mut out, &fields[i]);
        push_text(&mut out, ", ");
        assert(out@ =~= head + concat_texts(parts.take(i + 1)));
        i += 1;
    }
    assert(parts.take(i as int) =~= parts);
    push_text(&mut out, "}) } }");
    assert(out@ =~= c_repr_of_impl(struct_name@, target_type@, fields_view(fields@)));
    out
}

/// Whether an executable result is the one that a contract's model gives.
pub open spec fn text_result_is(
    out: Result<String, ClassificationError>,
    model: Result<Seq<char>, ClassificationError>,
) -> bool {
    match out {
        Ok(text) => model == Ok::<Seq<char>, ClassificationError>(text@),
        Err(e) => model == Err::<Seq<char>, ClassificationError>(e),
    }
}

/// Writes the implementation of `CReprOf` for an annotated struct. The
/// declaration must be one that the implementation can be written for: it
/// names its owned counterpart and each of its fields has a descriptor.
pub fn impl_creprof_macro(input: &DeriveInput) -> (out: String)
    requires
        spec_impl_creprof(input@) is Ok,
    ensures
        spec_impl_creprof(input@) == Ok::<Seq<char>, ClassificationError>(out@),
        !has_unmarked_pointer_to_pointer(input@.data),
{
    assert(input@.attrs == crate::utils::attributes_view(input.attrs@));
    proof {
        if has_unmarked_pointer_to_pointer(input@.data) {
            lemma_pointer_to_pointer_is_rejected(input@.data);
        }
    }
    let target_type = parse_target_type(&input.attrs);
    let fields = parse_struct_fields(&input.data);
    c_repr_of_impl_text(input.ident.as_str(), target_type.as_str(), &fields)
}

/// Writes the implementation of `CReprOf` for an annotated struct, or says
/// why none is written: the declaration names no owned counterpart or a
/// field has no descriptor.
pub fn try_impl_creprof_macro(input: &DeriveInput) -> (out: Result<String, ClassificationError>)
    ensures
        text_result_is(out, spec_impl_creprof(input@)),
        has_unmarked_pointer_to_pointer(input@.data) ==> out is Err,
{
    assert(input@.attrs == crate::utils::attributes_view(input.attrs@));
    match try_parse_target_type(&input.attrs) {
        Err(e) => {
            return Err(e);
        },
        Ok(_) => {},
    }
    match try_parse_struct_fields(&input.data) {
        Err(e) => {
            return Err(e);
        },
        Ok(_) => {},
    }
    Ok(impl_creprof_macro(input))
}

} // verus!
