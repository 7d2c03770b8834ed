//! The generated release of what a C representation owns.
use vstd::prelude::*;
use vstd::string::StringExecFns;
use crate::asrust::as_rust_field;
use crate::asrust::derefs;
use crate::creprof::c_repr_of_field;
use crate::creprof::text_result_is;
use crate::creprof::transfers;
use crate::syntax::DeriveInput;
use crate::syntax::DeriveInputView;
use crate::text::concat_texts;
use crate::text::lemma_concat_texts_step;
use crate::text::push_repeated;
use crate::text::push_text;
use crate::text::push_type;
use crate::text::repeat_text;
use crate::text::type_text;
use crate::utils::attributes_view;
use crate::utils::fields_view;
use crate::utils::has_attribute;
use crate::utils::parse_no_drop_impl_flag;
use crate::utils::has_unmarked_pointer_to_pointer;
use crate::utils::lemma_pointer_to_pointer_is_rejected;
use crate::utils::parse_struct_fields;
use crate::utils::try_parse_struct_fields;
use crate::utils::spec_parse_struct_fields;
use crate::utils::ClassificationError;
use crate::utils::Field;
use crate::utils::FieldView;

verus! {

/// The pointer of the field `name`, taken out of the field, which is left
/// with the null pointer: what the field pointed to cannot be released
/// through it a second time.
pub open spec fn pointer_taken_out(name: Seq<char>) -> Seq<char> {
    "std::mem::replace(&mut self."@ + name + ", std::ptr::null() as _)"@
}

/// The pointer that stands `outer` levels below the field `name`. The
/// field's own pointer is taken out of the field, and each pointer above the
/// last is taken back on the way, which releases its block.
pub open spec fn pointer_taken_back(name: Seq<char>, outer: nat) -> Seq<char> {
    repeat_text("unsafe { ffi_convert::take_back_from_raw_pointer("@, outer) + pointer_taken_out(
        name,
    ) + repeat_text(" as *const _) }?"@, outer)
}

/// The release of what a field points to. The pointer is taken out of the
/// field, which is left null. A string field then releases its C string.
/// Any other pointer field releases one block for each level of
/// indirection, the last through the field's type. A value field is left
/// to the language.
pub open spec fn drop_field(field: FieldView) -> Seq<char> {
    if field.is_string {
        "{ use ffi_convert::RawPointerConverter; unsafe { std::ffi::CString::drop_raw_pointer("@
            + pointer_taken_out(field.name) + ") }? }"@
    } else if field.is_pointer {
        "unsafe { "@ + type_text(field.field_type) + "::drop_raw_pointer("@ + pointer_taken_back(
            field.name,
            derefs(field),
        ) + ") }?"@
    } else {
        Seq::empty()
    }
}

/// The statement that releases one field: for a nullable field the release
/// is skipped for the null pointer.
pub open spec fn do_drop_field(field: FieldView) -> Seq<char> {
    if field.is_nullable {
        "if !self."@ + field.name + ".is_null() { "@ + drop_field(field) + " }; "@
    } else {
        drop_field(field) + "; "@
    }
}

/// The statements that release all fields, in the order of declaration.
pub open spec fn do_drop_fields(fields: Seq<FieldView>) -> Seq<char> {
    concat_texts(fields.map_values(|field: FieldView| do_drop_field(field)))
}

/// The implementation of `CDrop` for a struct.
pub open spec fn c_drop_impl(struct_name: Seq<char>, fields: Seq<FieldView>) -> Seq<char> {
    "impl CDrop for "@ + struct_name
        + " { fn do_drop(&mut self) -> Result<(), ffi_convert::CDropError> { use ffi_convert::RawPointerConverter; "@
        + do_drop_fields(fields) + "Ok(()) } }"@
}

/// The release on scope exit, which drops the error of a release that
/// fails. After a release the pointer fields are null, so that this second
/// one finds nothing to free.
pub open spec fn drop_impl(struct_name: Seq<char>) -> Seq<char> {
    " impl Drop for "@ + struct_name + " { fn drop(&mut self) { let _ = self.do_drop(); } }"@
}

/// What the derive of `CDrop` writes for a struct: the implementation of
/// `CDrop`, and the release on scope exit unless the struct opts out.
pub open spec fn c_drop_impls(
    struct_name: Seq<char>,
    fields: Seq<FieldView>,
    disable_drop_impl: bool,
) -> Seq<char> {
    if disable_drop_impl {
        c_drop_impl(struct_name, fields)
    } else {
        c_drop_impl(struct_name, fields) + drop_impl(struct_name)
    }
}

/// What the derive of `CDrop` writes for a declaration, or why it writes
/// nothing.
pub open spec fn spec_impl_cdrop(input: DeriveInputView) -> Result<Seq<char>, ClassificationError> {
    match spec_parse_struct_fields(input.data) {
        Err(e) => Err(e),
        Ok(fields) => Ok(
            c_drop_impls(input.ident, fields, has_attribute(input.attrs, "no_drop_impl"@)),
        ),
    }
}

/// The three conversions of one field agree. A value field is never
/// handed over to a raw pointer and has nothing to release. A pointer field
/// is handed over once for each level of indirection, and as many pointers
/// are borrowed on the way back, or taken back on release: the field's own
/// and those that are followed to reach it. A field with an override
/// expression is initialised by that expression and is left out on the way
/// back.
pub proof fn lemma_conversions_agree(field: FieldView)
    requires
        field.well_formed(),
    ensures
        !field.is_pointer ==> transfers(field) == 0 && drop_field(field) == Seq::<char>::empty(),
        field.is_pointer ==> transfers(field) == field.levels_of_indirection && derefs(field) + 1
            == transfers(field),
        field.c_repr_of_convert matches Some(convert) ==> c_repr_of_field(field) == field.name
            + ": "@ + convert && as_rust_field(field) == Seq::<char>::empty(),
{
}

/// Appends the pointer of a field, taken out of the field.
pub fn push_pointer_taken_out(out: &mut String, name: &str)
    ensures
        final(out)@ == old(out)@ + pointer_taken_out(name@),
{
    push_text(out, "std::mem::replace(&mut self.");
    push_text(out, name);
    push_text(out, ", std::ptr::null() as _)");
    assert(out@ =~= old(out)@ + pointer_taken_out(name@));
}

/// Appends the statement that releases one field.
pub fn push_do_drop_field(out: &mut String, field: &Field)
    ensures
        final(out)@ == old(out)@ + do_drop_field(field@),
{
    if field.is_nullable {
        push_text(out, "if !self.");
        push_text(out, field.name.as_str());
        push_text(out, ".is_null() { ");
    }
    let ghost start = out@;
    if field.is_string {
        push_text(
            out,
            "{ use ffi_convert::RawPointerConverter; unsafe { std::ffi::CString::drop_raw_pointer(",
        );
        push_pointer_taken_out(out, field.name.as_str());
        push_text(out, ") }? }");
    } else if field.is_pointer {
        push_text(out, "unsafe { ");
        push_type(out, &field.field_type);
        push_text(out, "::drop_raw_pointer(");
        let outer: u32 = if field.levels_of_indirection > 1 {
            field.levels_of_indirection - 1
        } else {
            0
        };
        push_repeated(out, "unsafe { ffi_convert::take_back_from_raw_pointer(", outer);
        push_pointer_taken_out(out, field.name.as_str());
        push_repeated(out, " as *const _) }?", outer);
        push_text(out, ") }?");
    }
    assert(out@ =~= start + drop_field(field@));
    if field.is_nullable {
        push_text(out, " }; ");
    } else {
        push_text(out, "; ");
    }
    assert(out@ =~= old(out)@ + do_drop_field(field@));
}

/// Writes what the derive of `CDrop` writes for a struct with the given
/// name and fields.
pub fn c_drop_impls_text(struct_name: &str, fields: &Vec<Field>, disable_drop_impl: bool) -> (out:
    String)
    ensures
        out@ == c_drop_impls(struct_name@, fields_view(fields@), disable_drop_impl),
{
    let mut out = String::from_str("impl CDrop for ");
    push_text(&mut out, struct_name);
    push_text(
        &mut out,
        " { fn do_drop(&mut self) -> Result<(), ffi_convert::CDropError> { use ffi_convert::RawPointerConverter; ",
    );
    let ghost head = out@;
    let ghost parts = fields_view(fields@).map_values(|field: FieldView| do_drop_field(field));
    let mut i: usize = 0;
    assert(parts.take(0) =~= Seq::empty());
    assert(head + concat_texts(parts.take(0)) =~= head);
    while i < fields.len()
        invariant
            i <= fields@.len(),
            parts.len() == fields@.len(),
            forall|k: int| 0 <= k < parts.len() ==> #[trigger] parts[k] == do_drop_field(fields@[k]@),
            out@ == head + concat_texts(parts.take(i as int)),
        decreases fields@.len() - i,
    {
        proof {
            lemma_concat_texts_step(parts, i as int);
        }
        push_do_drop_field(&mut out, &fields[i]);
        assert(out@ =~= head + concat_texts(parts.take(i + 1)));
        i += 1;
    }
    assert(parts.take(i as int) =~= parts);
    push_text(&mut out, "Ok(()) } }");
    assert(out@ =~= c_drop_impl(struct_name@, fields_view(fields@)));
    if !disable_drop_impl {
        push_text(&mut out, " impl Drop for ");
        push_text(&mut out, struct_name);
        push_text(&mut out, " { fn drop(&mut self) { let _ = self.do_drop(); } }");
        assert(out@ =~= c_drop_impl(struct_name@, fields_view(fields@)) + drop_impl(struct_name@));
    }
    out
}

/// Writes the implementation of `CDrop` for an annotated struct, and the
/// release on scope exit unless the struct opts out with `no_drop_impl`. The
/// declaration must be a struct whose fields all have a descriptor.
pub fn impl_cdrop_macro(input: &DeriveInput) -> (out: String)
    requires
        spec_impl_cdrop(input@) is Ok,
    ensures
        spec_impl_cdrop(input@) == Ok::<Seq<char>, ClassificationError>(out@),
        !has_unmarked_pointer_to_pointer(input@.data),
{
    assert(input@.attrs == attributes_view(input.attrs@));
    proof {
        if has_unmarked_pointer_to_pointer(input@.data) {
            lemma_pointer_to_pointer_is_rejected(input@.data);
        }
    }
    let disable_drop_impl = parse_no_drop_impl_flag(&input.attrs);
    let fields = parse_struct_fields(&input.data);
    c_drop_impls_text(input.ident.as_str(), &fields, disable_drop_impl)
}

/// Writes the implementation of `CDrop` for an annotated struct, and the
/// release on scope exit unless the struct opts out with `no_drop_impl`, or
/// says why nothing is written: a field has no descriptor.
pub fn try_impl_cdrop_macro(input: &DeriveInput) -> (out: Result<String, ClassificationError>)
    ensures
        text_result_is(out, spec_impl_cdrop(input@)),
        has_unmarked_pointer_to_pointer(input@.data) ==> out is Err,
{
    assert(input@.attrs == attributes_view(input.attrs@));
    match try_parse_struct_fields(&input.data) {
        Err(e) => {
            return Err(e);
        },
        Ok(_) => {},
    }
    Ok(impl_cdrop_macro(input))
}

} // verus!
