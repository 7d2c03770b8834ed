//! The generated conversion from a C representation back to the owned value.
use vstd::pervasive::unreached;
use vstd::prelude::*;
use vstd::string::StrSliceExecFns;
use vstd::string::StringExecFns;
use crate::creprof::text_result_is;
use crate::sequence::lemma_try_map_prefix_error;
use crate::sequence::lemma_try_map_step;
use crate::sequence::try_map;
use crate::syntax::Attribute;
use crate::syntax::AttributeView;
use crate::syntax::DeriveInput;
use crate::syntax::DeriveInputView;
use crate::text::concat_texts;
use crate::text::lemma_concat_texts_step;
use crate::text::push_repeated;
use crate::text::push_text;
use crate::text::push_type;
use crate::text::repeat_text;
use crate::text::type_text;
use crate::utils::attribute_is;
use crate::utils::attribute_named;
use crate::utils::attributes_view;
use crate::utils::fields_view;
use crate::utils::has_unmarked_pointer_to_pointer;
use crate::utils::lemma_pointer_to_pointer_is_rejected;
use crate::utils::parse_struct_fields;
use crate::utils::try_parse_struct_fields;
use crate::utils::try_parse_target_type;
use crate::utils::parse_target_type;
use crate::utils::parses_as_expr;
use crate::utils::parses_as_ident;
use crate::utils::spec_parse_struct_fields;
use crate::utils::spec_target_type;
use crate::utils::syn_parses_expr;
use crate::utils::syn_parses_ident;
use crate::utils::ClassificationError;
use crate::utils::Field;
use crate::utils::FieldView;

verus! {

/// The pointer that stands `derefs` levels below the field `name`: the field
/// itself, or what a pointer one level up points to, a null pointer on the
/// way being an error.
pub open spec fn pointer_below(name: Seq<char>, derefs: nat) -> Seq<char> {
    repeat_text("(*unsafe { "@, derefs) + "self."@ + name + repeat_text(
        ".as_ref() }.ok_or(ffi_convert::UnexpectedNullPointerError)?)"@,
        derefs,
    )
}

/// How many pointers are followed before the last one is borrowed.
pub open spec fn derefs(field: FieldView) -> nat {
    if field.levels_of_indirection > 1 {
        (field.levels_of_indirection - 1) as nat
    } else {
        0
    }
}

/// The expression that builds the owned value of a field. A string field
/// borrows the pointer as a C string and converts it. Any other pointer
/// field borrows what it points to and converts that. A value field is
/// converted as it is.
pub open spec fn as_rust_conversion(field: FieldView) -> Seq<char> {
    if field.is_string {
        "{ use ffi_convert::RawBorrow; unsafe { std::ffi::CStr::raw_borrow(self."@ + field.name
            + ") }?.as_rust()? }"@
    } else if field.is_pointer {
        "{ let reference = unsafe { "@ + type_text(field.field_type) + "::raw_borrow("@
            + pointer_below(field.name, derefs(field)) + ")? }; reference.as_rust()? }"@
    } else {
        "self."@ + field.name + ".as_rust()?"@
    }
}

/// The initialiser of one field of the owned value, followed by a comma. A
/// field with an override expression has none. A nullable field is `None`
/// for the null pointer and else `Some` of the conversion.
pub open spec fn as_rust_field(field: FieldView) -> Seq<char> {
    if field.c_repr_of_convert is Some {
        Seq::empty()
    } else if field.is_nullable {
        field.target_name + ": if !self."@ + field.name + ".is_null() { Some("@
            + as_rust_conversion(field) + ") } else { None }, "@
    } else {
        field.target_name + ": "@ + as_rust_conversion(field) + ", "@
    }
}

/// The initialisers of all fields that have one.
pub open spec fn as_rust_fields(fields: Seq<FieldView>) -> Seq<char> {
    concat_texts(fields.map_values(|field: FieldView| as_rust_field(field)))
}

/// The position of the first `c` in a text, or the length of the text if
/// there is none.
pub open spec fn first_index_of(text: Seq<char>, c: char) -> int
    decreases text.len(),
{
    if text.len() == 0 {
        0
    } else if text[0] == c {
        0
    } else {
        1 + first_index_of(text.drop_first(), c)
    }
}

/// The two sides of `name = init`: the text before the first `=` and the
/// text after it, if there is a `=`.
pub open spec fn spec_split_assignment(text: Seq<char>) -> Option<(Seq<char>, Seq<char>)> {
    let i = first_index_of(text, '=');
    if i < text.len() {
        Some((text.take(i), text.skip(i + 1)))
    } else {
        None
    }
}

/// The initialiser of an extra field, followed by a comma, given what `syn`
/// says of the two sides of the clause.
pub open spec fn spec_extra_field_from(
    arguments: Option<Seq<char>>,
    name_is_ident: bool,
    init_is_expr: bool,
) -> Result<Seq<char>, ClassificationError> {
    match arguments {
        Some(text) => match spec_split_assignment(text) {
            Some((name, init)) if name_is_ident && init_is_expr => Ok(name + ": "@ + init + ", "@),
            _ => Err(ClassificationError::MalformedAttribute),
        },
        None => Err(ClassificationError::MalformedAttribute),
    }
}

/// The initialiser of an extra field: the arguments must read
/// `name = init`, with an identifier and an expression.
pub open spec fn spec_extra_field(arguments: Option<Seq<char>>) -> Result<
    Seq<char>,
    ClassificationError,
> {
    spec_extra_field_from(
        arguments,
        match arguments {
            Some(text) => match spec_split_assignment(text) {
                Some((name, _)) => syn_parses_ident(name),
                None => false,
            },
            None => false,
        },
        match arguments {
            Some(text) => match spec_split_assignment(text) {
                Some((_, init)) => syn_parses_expr(init),
                None => false,
            },
            None => false,
        },
    )
}

/// What an attribute adds to the owned value: an initialiser for an
/// `as_rust_extra_field` clause, nothing for any other attribute.
pub open spec fn spec_extra_field_of(attr: AttributeView) -> Result<
    Seq<char>,
    ClassificationError,
> {
    if attribute_is(attr, "as_rust_extra_field"@) {
        spec_extra_field(attr.arguments)
    } else {
        Ok(Seq::empty())
    }
}

/// The initialisers of all extra fields in the order of their clauses, or
/// the error of the first clause that is malformed.
pub open spec fn spec_extra_fields(attrs: Seq<AttributeView>) -> Result<
    Seq<char>,
    ClassificationError,
> {
    match try_map(attrs, |attr: AttributeView| spec_extra_field_of(attr)) {
        Ok(parts) => Ok(concat_texts(parts)),
        Err(e) => Err(e),
    }
}

/// The implementation of `AsRust` for a struct: the owned value built from
/// the fields that have an initialiser and from the extra fields.
pub open spec fn as_rust_impl(
    struct_name: Seq<char>,
    target_type: Seq<char>,
    fields: Seq<FieldView>,
    extra_fields: Seq<char>,
) -> Seq<char> {
    "impl AsRust<"@ + target_type + "> for "@ + struct_name + " { fn as_rust(&self) -> Result<"@
        + target_type + ", ffi_convert::AsRustError> { Ok("@ + target_type + " { "@
        + as_rust_fields(fields) + extra_fields + "}) } }"@
}

/// What the derive of `AsRust` writes for a declaration, or why it writes
/// nothing.
pub open spec fn spec_impl_asrust(input: DeriveInputView) -> Result<
    Seq<char>,
    ClassificationError,
> {
    match spec_target_type(input.attrs) {
        Err(e) => Err(e),
        Ok(target_type) => match spec_parse_struct_fields(input.data) {
            Err(e) => Err(e),
            Ok(fields) => match spec_extra_fields(input.attrs) {
                Err(e) => Err(e),
                Ok(extra_fields) => Ok(
                    as_rust_impl(input.ident, target_type, fields, extra_fields),
                ),
            },
        },
    }
}

/// Appends the expression that builds the owned value of a field.
pub fn push_as_rust_conversion(out: &mut String, field: &Field)
    ensures
        final(out)@ == old(out)@ + as_rust_conversion(field@),
{
    if field.is_string {
        push_text(out, "{ use ffi_convert::RawBorrow; unsafe { std::ffi::CStr::raw_borrow(self.");
        push_text(out, field.name.as_str());
        push_text(out, ") }?.as_rust()? }");
    } else if field.is_pointer {
        push_text(out, "{ let reference = unsafe { ");
        push_type(out, &field.field_type);
        push_text(out, "::raw_borrow(");
        let derefs: u32 = if field.levels_of_indirection > 1 {
            field.levels_of_indirection - 1
        } else {
            0
        };
        push_repeated(out, "(*unsafe { ", derefs);
        push_text(out, "self.");
        push_text(out, field.name.as_str());
        push_repeated(out, ".as_ref() }.ok_or(ffi_convert::UnexpectedNullPointerError)?)", derefs);
        push_text(out, ")? }; reference.as_rust()? }");
    } else {
        push_text(out, "self.");
        push_text(out, field.name.as_str());
        push_text(out, ".as_rust()?");
    }
    assert(out@ =~= old(out)@ + as_rust_conversion(field@));
}

/// Appends the initialiser of one field of the owned value, if it has one.
pub fn push_as_rust_field(out: &mut String, field: &Field)
    ensures
        final(out)@ == old(out)@ + as_rust_field(field@),
{
    if field.c_repr_of_convert.is_some() {
    } else if field.is_nullable {
        push_text(out, field.target_name.as_str());
        push_text(out, ": if !self.");
        push_text(out, field.name.as_str());
        push_text(out, ".is_null() { Some(");
        push_as_rust_conversion(out, field);
        push_text(out, ") } else { None }, ");
    } else {
        push_text(out, field.target_name.as_str());
        push_text(out, ": ");
        push_as_rust_conversion(out, field);
        push_text(out, ", ");
    }
    assert(out@ =~= old(out)@ + as_rust_field(field@));
}

/// Writes the implementation of `AsRust` for a struct with the given name,
/// owned counterpart, fields and extra initialisers.
pub fn as_rust_impl_text(
    struct_name: &str,
    target_type: &str,
    fields: &Vec<Field>,
    extra_fields: &str,
) -> (out: String)
    ensures
        out@ == as_rust_impl(struct_name@, target_type@, fields_view(fields@), extra_fields@),
{
    let mut out = String::from_str("impl AsRust<");
    push_text(&mut out, target_type);
    push_text(&mut out, "> for ");
    push_text(&mut out, struct_name);
    push_text(&mut out, " { fn as_rust(&self) -> Result<");
    push_text(&mut out, target_type);
    push_text(&mut out, ", ffi_convert::AsRustError> { Ok(");
    push_text(&mut out, target_type);
    push_text(&mut out, " { ");
    let ghost head = out@;
    let ghost parts = fields_view(fields@).map_values(|field: FieldView| as_rust_field(field));
    let mut i: usize = 0;
    assert(parts.take(0) =~= Seq::empty());
    assert(head + concat_texts(parts.take(0)) =~= head);
    while i < fields.len()
        invariant
            i <= fields@.len(),
            parts.len() == fields@.len(),
            forall|k: int| 0 <= k < parts.len() ==> #[trigger] parts[k] == as_rust_field(fields@[k]@),
            out@ == head + concat_texts(parts.take(i as int)),
        decreases fields@.len() - i,
    {
        proof {
            lemma_concat_texts_step(parts, i as int);
        }
        push_as_rust_field(&mut out, &fields[i]);
        assert(out@ =~= head + concat_texts(parts.take(i + 1)));
        i += 1;
    }
    assert(parts.take(i as int) =~= parts);
    push_text(&mut out, extra_fields);
    push_text(&mut out, "}) } }");
    assert(out@ =~= as_rust_impl(
        struct_name@,
        target_type@,
        fields_view(fields@),
        extra_fields@,
    ));
    out
}

/// Splits `name = init` at its first `=`.
pub fn split_assignment(text: &str) -> (out: Option<(String, String)>)
    ensures
        match out {
            Some((name, init)) => spec_split_assignment(text@) == Some((name@, init@)),
            None => spec_split_assignment(text@) is None,
        },
{
    let n = text.unicode_len();
    let mut i: usize = 0;
    assert(text@.skip(0) =~= text@);
    while i < n
        invariant
            i <= n,
            n == text@.len(),
            first_index_of(text@, '=') == i + first_index_of(text@.skip(i as int), '='),
        decreases n - i,
    {
        assert(text@.skip(i as int)[0] == text@[i as int]);
        assert(text@.skip(i as int).drop_first() =~= text@.skip(i + 1));
        if text.get_char(i) == '=' {
            let name = String::from_str(text.substring_char(0, i));
            let init = String::from_str(text.substring_char(i + 1, n));
            assert(name@ =~= text@.take(i as int));
            assert(init@ =~= text@.skip(i + 1));
            return Some((name, init));
        }
        i += 1;
    }
    assert(text@.skip(i as int).len() == 0);
    None
}

/// One `as_rust_extra_field` clause: a field of the owned value that no
/// field of the C representation stands for, and the expression that gives
/// its value.
#[derive(Debug, Clone, PartialEq, Eq)]
pub struct ExtraFieldsArgs {
    pub field_name: String,
    pub init: String,
}

impl ExtraFieldsArgs {
    /// The clause as an initialiser followed by a comma.
    pub open spec fn initialiser(self) -> Seq<char> {
        self.field_name@ + ": "@ + self.init@ + ", "@
    }

    /// The clause that the arguments hold, given what `syn` says of the two
    /// sides of their first `=`.
    pub fn from_verdicts(
        sides: Option<(String, String)>,
        name_is_ident: bool,
        init_is_expr: bool,
    ) -> (out: Result<Self, ClassificationError>)
        ensures
            out is Ok <==> sides is Some && name_is_ident && init_is_expr,
            out matches Ok(args) ==> sides == Some((args.field_name, args.init)),
            out matches Err(e) ==> e == ClassificationError::MalformedAttribute,
    {
        match sides {
            Some((field_name, init)) => {
                if name_is_ident && init_is_expr {
                    Ok(ExtraFieldsArgs { field_name, init })
                } else {
                    Err(ClassificationError::MalformedAttribute)
                }
            },
            None => Err(ClassificationError::MalformedAttribute),
        }
    }

    /// Reads the arguments of an `as_rust_extra_field` attribute, which must
    /// be `name = init` with an identifier and an expression.
    pub fn parse(arguments: &str) -> (out: Result<Self, ClassificationError>)
        ensures
            match out {
                Ok(args) => spec_extra_field(Some(arguments@)) == Ok::<
                    Seq<char>,
                    ClassificationError,
                >(args.initialiser()),
                Err(e) => spec_extra_field(Some(arguments@)) == Err::<
                    Seq<char>,
                    ClassificationError,
                >(e),
            },
            out matches Ok(args) ==> spec_split_assignment(arguments@) == Some(
                (args.field_name@, args.init@),
            ),
    {
        let sides = split_assignment(arguments);
        let (name_is_ident, init_is_expr) = match &sides {
            Some((name, init)) => (parses_as_ident(name.as_str()), parses_as_expr(init.as_str())),
            None => (false, false),
        };
        Self::from_verdicts(sides, name_is_ident, init_is_expr)
    }
}

/// What an attribute adds to the owned value.
pub fn extra_field_of(attr: &Attribute) -> (out: Result<String, ClassificationError>)
    ensures
        text_result_is(out, spec_extra_field_of(attr@)),
{
    if !attribute_named(attr, "as_rust_extra_field") {
        return Ok(String::new());
    }
    match &attr.arguments {
        None => Err(ClassificationError::MalformedAttribute),
        Some(arguments) => match ExtraFieldsArgs::parse(arguments.as_str()) {
            Err(e) => Err(e),
            Ok(args) => {
                let mut out = String::new();
                push_text(&mut out, args.field_name.as_str());
                push_text(&mut out, ": ");
                push_text(&mut out, args.init.as_str());
                push_text(&mut out, ", ");
                assert(out@ =~= args.initialiser());
                Ok(out)
            },
        },
    }
}

/// Writes the initialisers of all extra fields, in the order of their
/// clauses; the first malformed clause ends the work.
pub fn extra_fields_text(attrs: &Vec<Attribute>) -> (out: Result<String, ClassificationError>)
    ensures
        text_result_is(out, spec_extra_fields(attributes_view(attrs@))),
{
    let ghost all = attributes_view(attrs@);
    let ghost f = |attr: AttributeView| spec_extra_field_of(attr);
    let mut out = String::new();
    let mut i: usize = 0;
    assert(all.take(0) =~= Seq::empty());
    assert(out@ =~= concat_texts(Seq::empty()));
    while i < attrs.len()
        invariant
            i <= attrs@.len(),
            all == attributes_view(attrs@),
            f == |attr: AttributeView| spec_extra_field_of(attr),
            try_map(all.take(i as int), f) is Ok,
            out@ == concat_texts(try_map(all.take(i as int), f)->Ok_0),
        decreases attrs@.len() - i,
    {
        proof {
            lemma_try_map_step(all, f, i as int);
        }
        match extra_field_of(&attrs[i]) {
            Err(e) => {
                proof {
                    lemma_try_map_prefix_error(all, f, i + 1);
                }
                return Err(e);
            },
            Ok(part) => {
                push_text(&mut out, part.as_str());
                proof {
                    let parts = try_map(all.take(i + 1), f)->Ok_0;
                    assert(parts.drop_last() =~= try_map(all.take(i as int), f)->Ok_0);
                }
            },
        }
        i += 1;
    }
    assert(all.take(i as int) =~= all);
    Ok(out)
}

/// Writes the implementation of `AsRust` for an annotated struct. The
/// declaration must be one that the implementation can be written for: it
/// names its owned counterpart, each of its fields has a descriptor, and
/// each of its extra-field clauses reads `name = init`.
pub fn impl_asrust_macro(input: &DeriveInput) -> (out: String)
    requires
        spec_impl_asrust(input@) is Ok,
    ensures
        spec_impl_asrust(input@) == Ok::<Seq<char>, ClassificationError>(out@),
        !has_unmarked_pointer_to_pointer(input@.data),
{
    assert(input@.attrs == attributes_view(input.attrs@));
    proof {
        if has_unmarked_pointer_to_pointer(input@.data) {
            lemma_pointer_to_pointer_is_rejected(input@.data);
        }
    }
    let target_type = parse_target_type(&input.attrs);
    let fields = parse_struct_fields(&input.data);
    let extra_fields = match extra_fields_text(&input.attrs) {
        Ok(extra_fields) => extra_fields,
        Err(_) => unreached(),
    };
    as_rust_impl_text(input.ident.as_str(), target_type.as_str(), &fields, extra_fields.as_str())
}

/// Writes the implementation of `AsRust` for an annotated struct, or says
/// why none is written: the declaration names no owned counterpart, a field
/// has no descriptor, or an extra-field clause is malformed.
pub fn try_impl_asrust_macro(input: &DeriveInput) -> (out: Result<String, ClassificationError>)
    ensures
        text_result_is(out, spec_impl_asrust(input@)),
        has_unmarked_pointer_to_pointer(input@.data) ==> out is Err,
{
    assert(input@.attrs == attributes_view(input.attrs@));
    match try_parse_target_type(&input.attrs) {
        Err(e) => {
            return Err(e);
        },
        Ok(_) => {},
    }
    match try_parse_struct_fields(&input.data) {
        Err(e) => {
            return Err(e);
        },
        Ok(_) => {},
    }
    match extra_fields_text(&input.attrs) {
        Err(e) => {
            return Err(e);
        },
        Ok(_) => {},
    }
    Ok(impl_asrust_macro(input))
}

} // verus!
