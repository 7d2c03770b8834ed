//! Reading a struct declaration: its helper attributes, and the descriptor of
//! each field that the three generated conversions are written from.
use vstd::pervasive::unreached;
use vstd::prelude::*;
use vstd::string::StringExecFns;
use crate::sequence::lemma_try_map;
use crate::sequence::lemma_try_map_prefix_error;
use crate::sequence::lemma_try_map_step;
use crate::sequence::try_map;
use crate::syntax::AngleBracketedArguments;
use crate::syntax::Attribute;
use crate::syntax::AttributeView;
use crate::syntax::PathArguments;
use crate::syntax::PathArgumentsView;
use crate::syntax::PathSegment;
use crate::syntax::PathSegmentView;
use crate::syntax::Data;
use crate::syntax::DataView;
use crate::syntax::FieldSyntax;
use crate::syntax::FieldSyntaxView;
use crate::syntax::Type;
use crate::syntax::TypeArray;
use crate::syntax::TypeArrayView;
use crate::syntax::TypePath;
use crate::syntax::TypePathView;
use crate::syntax::TypeView;

verus! {

/// Why a declaration cannot be given generated conversions.
#[derive(Debug, Clone, Copy, PartialEq, Eq, Structural)]
pub enum ClassificationError {
    /// The struct names no owned counterpart.
    MissingTargetType,
    /// The arguments of a helper attribute are not what the attribute takes.
    MalformedAttribute,
    /// The derive is applied to an enum or a union.
    NotAStruct,
    /// A field has no name.
    UnnamedField,
    /// A field's type is neither a path, a pointer to one, nor an array.
    UnsupportedFieldType,
    /// A field's type is a path without segments.
    InvalidTypePath,
    /// A field is a pointer to a pointer and is not marked nullable.
    TooManyLevelsOfIndirection,
}

impl ClassificationError {
    /// What the error says.
    pub open spec fn spec_message(self) -> Seq<char> {
        match self {
            ClassificationError::MissingTargetType =>
                "Can't derive CReprOf without target_type helper attribute."@,
            ClassificationError::MalformedAttribute => "Could not parse the arguments of a helper attribute"@,
            ClassificationError::NotAStruct => "CReprOf / AsRust can only be derived for structs"@,
            ClassificationError::UnnamedField => "Field should have an ident"@,
            ClassificationError::UnsupportedFieldType =>
                "Field type used in this struct is not supported by the proc macro"@,
            ClassificationError::InvalidTypePath => "Invalid type path: no segments on the TypePath"@,
            ClassificationError::TooManyLevelsOfIndirection =>
                "The CReprOf, AsRust, and CDrop traits cannot be derived automatically: a pointer field has too many levels of indirection. Please implement those traits manually."@,
        }
    }

    /// What the error says.
    pub fn message(&self) -> (out: String)
        ensures
            out@ == self.spec_message(),
    {
        match self {
            ClassificationError::MissingTargetType => String::from_str(
                "Can't derive CReprOf without target_type helper attribute.",
            ),
            ClassificationError::MalformedAttribute => String::from_str(
                "Could not parse the arguments of a helper attribute",
            ),
            ClassificationError::NotAStruct => String::from_str(
                "CReprOf / AsRust can only be derived for structs",
            ),
            ClassificationError::UnnamedField => String::from_str("Field should have an ident"),
            ClassificationError::UnsupportedFieldType => String::from_str(
                "Field type used in this struct is not supported by the proc macro",
            ),
            ClassificationError::InvalidTypePath => String::from_str(
                "Invalid type path: no segments on the TypePath",
            ),
            ClassificationError::TooManyLevelsOfIndirection => String::from_str(
                "The CReprOf, AsRust, and CDrop traits cannot be derived automatically: a pointer field has too many levels of indirection. Please implement those traits manually.",
            ),
        }
    }
}

/// Whether `syn` reads the text as one identifier.
pub uninterp spec fn syn_parses_ident(text: Seq<char>) -> bool;

/// Whether `syn` reads the text as a path.
pub uninterp spec fn syn_parses_path(text: Seq<char>) -> bool;

/// Whether `syn` reads the text as an expression.
pub uninterp spec fn syn_parses_expr(text: Seq<char>) -> bool;

/// `syn::parse_str::<syn::Ident>`: says whether the text is one identifier.
/// Before the call `proc_macro2::fallback::force` has the text lexed by the
/// lexer that `proc_macro2` brings along, whatever process the call is made
/// in, so that the verdict depends on the text alone. After the call
/// `proc_macro2::fallback::unforce` lets `proc_macro2` choose its lexer
/// again: this is a setting of the whole process, and a caller that had
/// forced the lexer itself finds it undone.
#[verifier::external_body]
pub(crate) fn parses_as_ident(text: &str) -> (ok: bool)
    ensures
        ok == syn_parses_ident(text@),
{
    proc_macro2::fallback::force();
    let ok = syn::parse_str::<syn::Ident>(text).is_ok();
    proc_macro2::fallback::unforce();
    ok
}

/// `syn::parse_str::<syn::Path>`: says whether the text is a path. The lexer
/// is set before the call and let go after it as in `parses_as_ident`. A
/// literal among the generic arguments is taken as it is written, whatever
/// its kind.
#[verifier::external_body]
pub(crate) fn parses_as_path(text: &str) -> (ok: bool)
    ensures
        ok == syn_parses_path(text@),
{
    proc_macro2::fallback::force();
    let ok = syn::parse_str::<syn::Path>(text).is_ok();
    proc_macro2::fallback::unforce();
    ok
}

/// `syn::parse_str::<syn::Expr>`: says whether the text is an expression.
/// The lexer is set before the call and let go after it as in
/// `parses_as_ident`. A literal in the expression is taken as it is written,
/// whatever its kind.
#[verifier::external_body]
pub(crate) fn parses_as_expr(text: &str) -> (ok: bool)
    ensures
        ok == syn_parses_expr(text@),
{
    proc_macro2::fallback::force();
    let ok = syn::parse_str::<syn::Expr>(text).is_ok();
    proc_macro2::fallback::unforce();
    ok
}

/// Whether a string holds exactly the given text.
pub(crate) fn text_is(s: &String, text: &str) -> (same: bool)
    ensures
        same == (s@ == text@),
{
    let other = String::from_str(text);
    *s == other
}

/// The identifier that a path consists of, if it is a single identifier: no
/// self type, no leading colon, one segment, no arguments.
pub open spec fn spec_get_ident(path: TypePathView) -> Option<Seq<char>> {
    if path.qself is None && !path.leading_colon && path.segments.len() == 1
        && path.segments[0].arguments is Absent {
        Some(path.segments[0].ident)
    } else {
        None
    }
}

/// Whether the attribute's path is the single identifier `name`.
pub open spec fn attribute_is(attr: AttributeView, name: Seq<char>) -> bool {
    spec_get_ident(attr.path) == Some(name)
}

/// The position of the first attribute called `name`, or the number of
/// attributes if none is.
pub open spec fn first_attribute(attrs: Seq<AttributeView>, name: Seq<char>) -> int
    decreases attrs.len(),
{
    if attrs.len() == 0 {
        0
    } else if attribute_is(attrs[0], name) {
        0
    } else {
        1 + first_attribute(attrs.drop_first(), name)
    }
}

/// Whether some attribute is called `name`.
pub open spec fn has_attribute(attrs: Seq<AttributeView>, name: Seq<char>) -> bool {
    exists|i: int| 0 <= i < attrs.len() && attribute_is(#[trigger] attrs[i], name)
}

/// The first attribute called `name` stands before all others of that name,
/// and is past the end exactly when there is none.
pub proof fn lemma_first_attribute(attrs: Seq<AttributeView>, name: Seq<char>)
    ensures
        0 <= first_attribute(attrs, name) <= attrs.len(),
        forall|i: int|
            0 <= i < first_attribute(attrs, name) ==> !attribute_is(#[trigger] attrs[i], name),
        first_attribute(attrs, name) < attrs.len() ==> attribute_is(
            attrs[first_attribute(attrs, name)],
            name,
        ),
        has_attribute(attrs, name) <==> first_attribute(attrs, name) < attrs.len(),
    decreases attrs.len(),
{
    if attrs.len() > 0 && !attribute_is(attrs[0], name) {
        let rest = attrs.drop_first();
        lemma_first_attribute(rest, name);
        assert forall|i: int| 0 <= i < first_attribute(attrs, name) implies !attribute_is(
            #[trigger] attrs[i],
            name,
        ) by {
            if i > 0 {
                assert(attrs[i] == rest[i - 1]);
            }
        }
        if has_attribute(attrs, name) {
            let i = choose|i: int| 0 <= i < attrs.len() && attribute_is(#[trigger] attrs[i], name);
            assert(rest[i - 1] == attrs[i]);
        }
        if first_attribute(rest, name) < rest.len() {
            assert(attrs[first_attribute(attrs, name)] == rest[first_attribute(rest, name)]);
        }
    }
}

/// Whether the attribute's path is the single identifier `name`.
pub fn attribute_named(attr: &Attribute, name: &str) -> (same: bool)
    ensures
        same == attribute_is(attr@, name@),
{
    if attr.path.qself.is_some() || attr.path.leading_colon || attr.path.segments.len() != 1 {
        return false;
    }
    let segment = &attr.path.segments[0];
    match &segment.arguments {
        PathArguments::Absent => text_is(&segment.ident, name),
        _ => false,
    }
}

/// The position of the first attribute called `name`, if there is one.
pub fn find_attribute(attrs: &Vec<Attribute>, name: &str) -> (found: Option<usize>)
    ensures
        match found {
            Some(i) => i == first_attribute(attributes_view(attrs@), name@) && i < attrs@.len(),
            None => first_attribute(attributes_view(attrs@), name@) == attrs@.len(),
        },
{
    let ghost all = attributes_view(attrs@);
    let mut i: usize = 0;
    assert(all.skip(0) =~= all);
    while i < attrs.len()
        invariant
            i <= attrs@.len(),
            all == attributes_view(attrs@),
            first_attribute(all, name@) == i + first_attribute(all.skip(i as int), name@),
        decreases attrs@.len() - i,
    {
        assert(all.skip(i as int)[0] == attrs@[i as int]@);
        assert(all.skip(i as int).drop_first() =~= all.skip(i + 1));
        if attribute_named(&attrs[i], name) {
            return Some(i);
        }
        i += 1;
    }
    assert(all.skip(i as int).len() == 0);
    None
}

/// The attributes as the contracts see them.
pub open spec fn attributes_view(attrs: Seq<Attribute>) -> Seq<AttributeView> {
    Seq::new(attrs.len(), |i: int| attrs[i]@)
}

/// The owned type that the struct is the C representation of: the arguments
/// of the first `target_type` attribute, which must be a path.
pub open spec fn spec_target_type(attrs: Seq<AttributeView>) -> Result<
    Seq<char>,
    ClassificationError,
> {
    let i = first_attribute(attrs, "target_type"@);
    if i >= attrs.len() {
        Err(ClassificationError::MissingTargetType)
    } else {
        match attrs[i].arguments {
            Some(text) if syn_parses_path(text) => Ok(text),
            _ => Err(ClassificationError::MalformedAttribute),
        }
    }
}

/// What `parse_target_type` returns once `syn` has said whether the
/// arguments of the first `target_type` attribute are a path.
pub fn target_type_from(arguments: Option<&String>, is_path: bool) -> (out: Result<
    String,
    ClassificationError,
>)
    ensures
        match out {
            Ok(text) => is_path && arguments == Some(&text),
            Err(e) => e == ClassificationError::MalformedAttribute && (!is_path
                || arguments is None),
        },
{
    match arguments {
        Some(text) => {
            if is_path {
                Ok(text.clone())
            } else {
                Err(ClassificationError::MalformedAttribute)
            }
        },
        None => Err(ClassificationError::MalformedAttribute),
    }
}

/// Reads the struct's `target_type` attribute, which must be there and
/// hold a path.
pub fn parse_target_type(attrs: &Vec<Attribute>) -> (out: String)
    requires
        spec_target_type(attributes_view(attrs@)) is Ok,
    ensures
        spec_target_type(attributes_view(attrs@)) == Ok::<Seq<char>, ClassificationError>(out@),
{
    match find_attribute(attrs, "target_type") {
        None => unreached(),
        Some(i) => match &attrs[i].arguments {
            None => unreached(),
            Some(text) => {
                let is_path = parses_as_path(text.as_str());
                match target_type_from(Some(text), is_path) {
                    Ok(target_type) => target_type,
                    Err(_) => unreached(),
                }
            },
        },
    }
}

/// Reads the struct's `target_type` attribute, or says why the struct has
/// none that can be read: it is missing, or its arguments are no path.
pub fn try_parse_target_type(attrs: &Vec<Attribute>) -> (out: Result<String, ClassificationError>)
    ensures
        match out {
            Ok(text) => spec_target_type(attributes_view(attrs@)) == Ok::<
                Seq<char>,
                ClassificationError,
            >(text@),
            Err(e) => spec_target_type(attributes_view(attrs@)) == Err::<
                Seq<char>,
                ClassificationError,
            >(e),
        },
{
    match find_attribute(attrs, "target_type") {
        None => Err(ClassificationError::MissingTargetType),
        Some(i) => {
            let attr = &attrs[i];
            match &attr.arguments {
                Some(text) => {
                    let is_path = parses_as_path(text.as_str());
                    target_type_from(Some(text), is_path)
                },
                None => target_type_from(None, false),
            }
        },
    }
}

/// Whether the struct opts out of the release on scope exit: whether it has
/// a `no_drop_impl` attribute.
pub fn parse_no_drop_impl_flag(attrs: &Vec<Attribute>) -> (flag: bool)
    ensures
        flag == has_attribute(attributes_view(attrs@), "no_drop_impl"@),
{
    proof {
        lemma_first_attribute(attributes_view(attrs@), "no_drop_impl"@);
    }
    find_attribute(attrs, "no_drop_impl").is_some()
}

/// The type that a field's conversions are called on: the field's type
/// without its pointers and without the generic arguments of its last segment.
#[derive(Debug, Clone, PartialEq, Eq)]
pub enum TypeArrayOrTypePath {
    TypeArray(TypeArray),
    TypePath(TypePath),
}

pub enum TypeArrayOrTypePathView {
    TypeArray(TypeArrayView),
    TypePath(TypePathView),
}

impl View for TypeArrayOrTypePath {
    type V = TypeArrayOrTypePathView;

    open spec fn view(&self) -> TypeArrayOrTypePathView {
        match self {
            TypeArrayOrTypePath::TypeArray(array) => TypeArrayOrTypePathView::TypeArray(array@),
            TypeArrayOrTypePath::TypePath(path) => TypeArrayOrTypePathView::TypePath(path@),
        }
    }
}

/// What the generated conversions need to know of one field.
#[derive(Debug, Clone, PartialEq, Eq)]
pub struct Field {
    /// The field's name in the C representation.
    pub name: String,
    /// The field's name in the owned type.
    pub target_name: String,
    pub field_type: TypeArrayOrTypePath,
    /// The generic arguments taken off the last segment of the type's path.
    pub type_params: Option<AngleBracketedArguments>,
    pub is_nullable: bool,
    pub is_string: bool,
    pub is_pointer: bool,
    /// An expression that replaces the field's conversion to C.
    pub c_repr_of_convert: Option<String>,
    pub levels_of_indirection: u32,
}

pub struct FieldView {
    pub name: Seq<char>,
    pub target_name: Seq<char>,
    pub field_type: TypeArrayOrTypePathView,
    pub type_params: Option<Seq<Seq<char>>>,
    pub is_nullable: bool,
    pub is_string: bool,
    pub is_pointer: bool,
    pub c_repr_of_convert: Option<Seq<char>>,
    pub levels_of_indirection: u32,
}

impl View for Field {
    type V = FieldView;

    open spec fn view(&self) -> FieldView {
        FieldView {
            name: self.name@,
            target_name: self.target_name@,
            field_type: self.field_type@,
            type_params: match self.type_params {
                Some(params) => Some(params@),
                None => None,
            },
            is_nullable: self.is_nullable,
            is_string: self.is_string,
            is_pointer: self.is_pointer,
            c_repr_of_convert: self.c_repr_of_convert.deep_view(),
            levels_of_indirection: self.levels_of_indirection,
        }
    }
}

impl FieldView {
    /// What holds of every descriptor that the classifier hands out: a field
    /// is a pointer exactly when it has a level of indirection, a string is
    /// one level over a path, more than one level is only had by a nullable
    /// field, and a path has segments, the last without generic arguments.
    pub open spec fn well_formed(self) -> bool {
        &&& self.is_pointer <==> self.levels_of_indirection > 0
        &&& self.is_string ==> self.levels_of_indirection == 1 && self.field_type is TypePath
        &&& self.levels_of_indirection > 1 ==> self.is_nullable
        &&& self.field_type matches TypeArrayOrTypePathView::TypePath(path) ==> {
            &&& path.segments.len() > 0
            &&& !(path.segments.last().arguments is AngleBracketed)
        }
    }
}

/// A path without the generic arguments of its last segment, and those
/// arguments.
pub open spec fn spec_concrete_type_path(path: TypePathView) -> (
    TypePathView,
    Option<Seq<Seq<char>>>,
)
    recommends
        path.segments.len() > 0,
{
    let last = path.segments.last();
    match last.arguments {
        PathArgumentsView::AngleBracketed(params) => (
            TypePathView {
                qself: path.qself,
                leading_colon: path.leading_colon,
                segments: path.segments.drop_last().push(
                    PathSegmentView { ident: last.ident, arguments: PathArgumentsView::Absent },
                ),
            },
            Some(params),
        ),
        _ => (path, None),
    }
}

/// Takes the generic arguments off the last segment of a path:
/// `std::module1::module2::Vec<Hello>` becomes `std::module1::module2::Vec`
/// and `<Hello>`. The path must have a segment.
pub fn generic_path_to_concrete_type_path(path: TypePath) -> (out: (
    TypeArrayOrTypePath,
    Option<AngleBracketedArguments>,
))
    requires
        path@.segments.len() > 0,
    ensures
        out.0@ == TypeArrayOrTypePathView::TypePath(spec_concrete_type_path(path@).0),
        match out.1 {
            Some(p) => spec_concrete_type_path(path@).1 == Some(p@),
            None => spec_concrete_type_path(path@).1 is None,
        },
{
    let mut path = path;
    let ghost before = path@;
    match path.segments.pop() {
        None => unreached(),
        Some(last) => {
            assert(before.segments.last() == last@);
            let PathSegment { ident, arguments } = last;
            match arguments {
                PathArguments::AngleBracketed(params) => {
                    path.segments.push(PathSegment { ident, arguments: PathArguments::Absent });
                    assert(path@.segments =~= spec_concrete_type_path(before).0.segments);
                    (TypeArrayOrTypePath::TypePath(path), Some(params))
                },
                other => {
                    path.segments.push(PathSegment { ident, arguments: other });
                    assert(path@.segments =~= before.segments);
                    (TypeArrayOrTypePath::TypePath(path), None)
                },
            }
        },
    }
}

/// How many pointers stand in front of a type.
pub open spec fn pointer_depth(ty: TypeView) -> nat
    decreases ty,
{
    match ty {
        TypeView::Ptr { elem, .. } => 1 + pointer_depth(*elem),
        _ => 0,
    }
}

/// The type that is left when all leading pointers are taken off.
pub open spec fn pointee(ty: TypeView) -> TypeView
    decreases ty,
{
    match ty {
        TypeView::Ptr { elem, .. } => pointee(*elem),
        _ => ty,
    }
}

/// Whether a type is one pointer to a path whose last segment is `c_char`.
pub open spec fn is_c_string(ty: TypeView) -> bool {
    match ty {
        TypeView::Ptr { elem, .. } => match *elem {
            TypeView::Path(path) => path.segments.len() > 0 && path.segments.last().ident
                == "c_char"@,
            _ => false,
        },
        _ => false,
    }
}

/// The arguments of the first attribute called `name`: `None` where there is
/// no such attribute, `Some(None)` where it has no arguments.
pub open spec fn attribute_arguments(attrs: Seq<AttributeView>, name: Seq<char>) -> Option<
    Option<Seq<char>>,
> {
    let i = first_attribute(attrs, name);
    if i < attrs.len() {
        Some(attrs[i].arguments)
    } else {
        None
    }
}

/// The descriptor of a field, given what `syn` says of the arguments of its
/// `target_name` attribute (an identifier or not) and of its
/// `c_repr_of_convert` attribute (an expression or not). The checks come in
/// this order: the field's name, the `target_name` attribute, the number of
/// pointers that a descriptor can count, the shape of the type, the
/// `c_repr_of_convert` attribute, and the rule that only a nullable field
/// may be a pointer to a pointer.
pub open spec fn spec_classify(
    field: FieldSyntaxView,
    target_is_ident: bool,
    convert_is_expr: bool,
) -> Result<FieldView, ClassificationError> {
    let target = attribute_arguments(field.attrs, "target_name"@);
    let convert = attribute_arguments(field.attrs, "c_repr_of_convert"@);
    let is_nullable = has_attribute(field.attrs, "nullable"@);
    let depth = pointer_depth(field.ty);
    if field.ident is None {
        Err(ClassificationError::UnnamedField)
    } else if target is Some && !(target->0 is Some && target_is_ident) {
        Err(ClassificationError::MalformedAttribute)
    } else if depth > u32::MAX {
        Err(ClassificationError::TooManyLevelsOfIndirection)
    } else if !(pointee(field.ty) is Path || pointee(field.ty) is Array) {
        Err(ClassificationError::UnsupportedFieldType)
    } else if pointee(field.ty) is Path && pointee(field.ty)->Path_0.segments.len() == 0 {
        Err(ClassificationError::InvalidTypePath)
    } else if convert is Some && !(convert->0 is Some && convert_is_expr) {
        Err(ClassificationError::MalformedAttribute)
    } else if depth > 1 && !is_nullable {
        Err(ClassificationError::TooManyLevelsOfIndirection)
    } else {
        Ok(
            FieldView {
                name: field.ident->0,
                target_name: match target {
                    Some(Some(text)) => text,
                    _ => field.ident->0,
                },
                field_type: match pointee(field.ty) {
                    TypeView::Path(path) => TypeArrayOrTypePathView::TypePath(
                        spec_concrete_type_path(path).0,
                    ),
                    TypeView::Array(array) => TypeArrayOrTypePathView::TypeArray(array),
                    _ => arbitrary(),
                },
                type_params: match pointee(field.ty) {
                    TypeView::Path(path) => spec_concrete_type_path(path).1,
                    _ => None,
                },
                is_nullable,
                is_string: is_c_string(field.ty),
                is_pointer: field.ty is Ptr,
                c_repr_of_convert: match convert {
                    Some(Some(text)) => Some(text),
                    _ => None,
                },
                levels_of_indirection: depth as u32,
            },
        )
    }
}

/// The descriptor of a field: `spec_classify` with the verdicts of `syn` on
/// the arguments of the two attributes.
pub open spec fn spec_parse_field(field: FieldSyntaxView) -> Result<
    FieldView,
    ClassificationError,
> {
    spec_classify(
        field,
        match attribute_arguments(field.attrs, "target_name"@) {
            Some(Some(text)) => syn_parses_ident(text),
            _ => false,
        },
        match attribute_arguments(field.attrs, "c_repr_of_convert"@) {
            Some(Some(text)) => syn_parses_expr(text),
            _ => false,
        },
    )
}

/// Whether an executable result is the one that a contract's model gives.
pub open spec fn field_result_is(
    out: Result<Field, ClassificationError>,
    model: Result<FieldView, ClassificationError>,
) -> bool {
    match out {
        Ok(field) => model == Ok::<FieldView, ClassificationError>(field@),
        Err(e) => model == Err::<FieldView, ClassificationError>(e),
    }
}

/// Takes the leading pointers off a type and counts them; `None` where there
/// are more than the counter holds.
pub fn strip_pointers(ty: &Type) -> (out: Option<(&Type, u32)>)
    ensures
        out is None <==> pointer_depth(ty@) > u32::MAX,
        out matches Some((inner, levels)) ==> {
            &&& levels == pointer_depth(ty@)
            &&& inner@ == pointee(ty@)
            &&& !(inner@ is Ptr)
        },
{
    let mut inner: &Type = ty;
    let mut levels: u32 = 0;
    loop
        invariant
            pointer_depth(ty@) == levels + pointer_depth(inner@),
            pointee(ty@) == pointee(inner@),
        decreases inner,
    {
        match inner {
            Type::Ptr { elem, .. } => {
                if levels == u32::MAX {
                    return None;
                }
                inner = &**elem;
                levels += 1;
            },
            _ => {
                return Some((inner, levels));
            },
        }
    }
}

/// Whether a type is one pointer to a path whose last segment is `c_char`.
pub fn detect_c_string(ty: &Type) -> (out: bool)
    ensures
        out == is_c_string(ty@),
{
    match ty {
        Type::Ptr { elem, .. } => {
            assert(ty@->Ptr_elem == elem@);
            match &**elem {
                Type::Path(path) => {
                    assert(elem@ == TypeView::Path(path@));
                    let n = path.segments.len();
                    if n == 0 {
                        false
                    } else {
                        assert(path@.segments.last() == path.segments@[n - 1]@);
                        text_is(&path.segments[n - 1].ident, "c_char")
                    }
                },
                _ => false,
            }
        },
        _ => false,
    }
}

/// A string field is one pointer over a path.
pub proof fn lemma_c_string_shape(ty: TypeView)
    requires
        is_c_string(ty),
    ensures
        pointer_depth(ty) == 1,
        pointee(ty) is Path,
        pointee(ty)->Path_0.segments.len() > 0,
{
    reveal_with_fuel(pointer_depth, 2);
    reveal_with_fuel(pointee, 2);
}

/// The arguments of the first attribute called `name`.
pub fn find_arguments<'a>(attrs: &'a Vec<Attribute>, name: &str) -> (out: Option<
    &'a Option<String>,
>)
    ensures
        match out {
            Some(arguments) => attribute_arguments(attributes_view(attrs@), name@) == Some(
                arguments.deep_view(),
            ),
            None => attribute_arguments(attributes_view(attrs@), name@) is None,
        },
{
    match find_attribute(attrs, name) {
        Some(i) => Some(&attrs[i].arguments),
        None => None,
    }
}

/// Builds the descriptor of a field from its declaration and the two
/// verdicts of `syn`; see `spec_classify`.
pub fn classify_field(field: &FieldSyntax, target_is_ident: bool, convert_is_expr: bool) -> (out:
    Result<Field, ClassificationError>)
    ensures
        field_result_is(out, spec_classify(field@, target_is_ident, convert_is_expr)),
        out matches Ok(descriptor) ==> descriptor@.well_formed(),
        is_unmarked_pointer_to_pointer(field@) ==> out is Err,
{
    let ghost view = field@;
    assert(view.attrs == attributes_view(field.attrs@));
    let name = match &field.ident {
        None => {
            return Err(ClassificationError::UnnamedField);
        },
        Some(name) => name.clone(),
    };
    let target_name = match find_arguments(&field.attrs, "target_name") {
        None => name.clone(),
        Some(Some(text)) => {
            if !target_is_ident {
                return Err(ClassificationError::MalformedAttribute);
            }
            text.clone()
        },
        Some(None) => {
            return Err(ClassificationError::MalformedAttribute);
        },
    };
    let (inner, levels_of_indirection) = match strip_pointers(&field.ty) {
        None => {
            return Err(ClassificationError::TooManyLevelsOfIndirection);
        },
        Some(stripped) => stripped,
    };
    let (field_type, type_params) = match inner {
        Type::Path(path) => {
            if path.segments.len() == 0 {
                return Err(ClassificationError::InvalidTypePath);
            }
            generic_path_to_concrete_type_path(path.deep_clone())
        },
        Type::Array(array) => (TypeArrayOrTypePath::TypeArray(array.deep_clone()), None),
        _ => {
            return Err(ClassificationError::UnsupportedFieldType);
        },
    };
    proof {
        lemma_first_attribute(view.attrs, "nullable"@);
    }
    let is_nullable = find_attribute(&field.attrs, "nullable").is_some();
    let c_repr_of_convert = match find_arguments(&field.attrs, "c_repr_of_convert") {
        None => None,
        Some(Some(text)) => {
            if !convert_is_expr {
                return Err(ClassificationError::MalformedAttribute);
            }
            Some(text.clone())
        },
        Some(None) => {
            return Err(ClassificationError::MalformedAttribute);
        },
    };
    if levels_of_indirection > 1 && !is_nullable {
        return Err(ClassificationError::TooManyLevelsOfIndirection);
    }
    let is_string = detect_c_string(&field.ty);
    let is_pointer = matches!(&field.ty, Type::Ptr { .. });
    proof {
        if is_string {
            lemma_c_string_shape(view.ty);
        }
        if let TypeView::Path(path) = pointee(view.ty) {
            let concrete = spec_concrete_type_path(path).0;
            assert(concrete.segments.len() > 0);
            assert(!(concrete.segments.last().arguments is AngleBracketed));
        }
    }
    Ok(
        Field {
            name,
            target_name,
            field_type,
            type_params,
            is_nullable,
            is_string,
            is_pointer,
            c_repr_of_convert,
            levels_of_indirection,
        },
    )
}

/// What `syn` says of the arguments of a field's `target_name` attribute
/// and of its `c_repr_of_convert` attribute: an identifier or not, an
/// expression or not.
pub fn field_verdicts(field: &FieldSyntax) -> (out: (bool, bool))
    ensures
        spec_parse_field(field@) == spec_classify(field@, out.0, out.1),
{
    assert(field@.attrs == attributes_view(field.attrs@));
    let target_is_ident = match find_arguments(&field.attrs, "target_name") {
        Some(Some(text)) => parses_as_ident(text.as_str()),
        _ => false,
    };
    let convert_is_expr = match find_arguments(&field.attrs, "c_repr_of_convert") {
        Some(Some(text)) => parses_as_expr(text.as_str()),
        _ => false,
    };
    (target_is_ident, convert_is_expr)
}

/// Builds the descriptor of a field from its declaration. The field must be
/// one that has a descriptor: it has a name, its `target_name` is an
/// identifier, its `c_repr_of_convert` is an expression, its type is (under
/// its pointers) a path or an array, and it is no pointer to a pointer
/// unless it is marked nullable.
pub fn parse_field(field: &FieldSyntax) -> (out: Field)
    requires
        spec_parse_field(field@) is Ok,
    ensures
        spec_parse_field(field@) == Ok::<FieldView, ClassificationError>(out@),
        out@.well_formed(),
        !is_unmarked_pointer_to_pointer(field@),
{
    let (target_is_ident, convert_is_expr) = field_verdicts(field);
    match classify_field(field, target_is_ident, convert_is_expr) {
        Ok(descriptor) => descriptor,
        Err(_) => unreached(),
    }
}

/// Builds the descriptor of a field from its declaration, or says why the
/// field has none. Rejected are: a field without a name, a `target_name`
/// that is no identifier, a `c_repr_of_convert` that is no expression, a type
/// that is (under its pointers) neither a path nor an array, and a pointer
/// to a pointer that is not marked nullable.
pub fn try_parse_field(field: &FieldSyntax) -> (out: Result<Field, ClassificationError>)
    ensures
        field_result_is(out, spec_parse_field(field@)),
        out matches Ok(descriptor) ==> descriptor@.well_formed(),
        is_unmarked_pointer_to_pointer(field@) ==> out is Err,
{
    let (target_is_ident, convert_is_expr) = field_verdicts(field);
    match classify_field(field, target_is_ident, convert_is_expr) {
        Err(e) => Err(e),
        Ok(_) => Ok(parse_field(field)),
    }
}

/// The fields as the contracts see them.
pub open spec fn fields_view(fields: Seq<Field>) -> Seq<FieldView> {
    Seq::new(fields.len(), |i: int| fields[i]@)
}

/// The descriptors of all fields of a struct, in the order of declaration,
/// or the error of the first field that has none. An enum or a union has no
/// fields to describe.
pub open spec fn spec_parse_struct_fields(data: DataView) -> Result<
    Seq<FieldView>,
    ClassificationError,
> {
    match data {
        DataView::Struct(fields) => try_map(fields, |field: FieldSyntaxView| spec_parse_field(field)),
        _ => Err(ClassificationError::NotAStruct),
    }
}

/// Whether a field is a pointer to a pointer and is not marked nullable.
pub open spec fn is_unmarked_pointer_to_pointer(field: FieldSyntaxView) -> bool {
    pointer_depth(field.ty) > 1 && !has_attribute(field.attrs, "nullable"@)
}

/// Whether some field of a struct is a pointer to a pointer and is not
/// marked nullable.
pub open spec fn has_unmarked_pointer_to_pointer(data: DataView) -> bool {
    data matches DataView::Struct(fields) && exists|i: int|
        0 <= i < fields.len() && is_unmarked_pointer_to_pointer(#[trigger] fields[i])
}

/// A struct with a pointer to a pointer that is not marked nullable has no
/// descriptors, whatever its other fields are.
pub proof fn lemma_pointer_to_pointer_is_rejected(data: DataView)
    requires
        has_unmarked_pointer_to_pointer(data),
    ensures
        spec_parse_struct_fields(data) is Err,
{
    let fields = data->Struct_0;
    let f = |field: FieldSyntaxView| spec_parse_field(field);
    lemma_try_map(fields, f);
    let i = choose|i: int|
        0 <= i < fields.len() && is_unmarked_pointer_to_pointer(#[trigger] fields[i]);
    assert(f(fields[i]) is Err);
}

/// Whether an executable result is the one that a contract's model gives.
pub open spec fn fields_result_is(
    out: Result<Vec<Field>, ClassificationError>,
    model: Result<Seq<FieldView>, ClassificationError>,
) -> bool {
    match out {
        Ok(fields) => model == Ok::<Seq<FieldView>, ClassificationError>(fields_view(fields@)),
        Err(e) => model == Err::<Seq<FieldView>, ClassificationError>(e),
    }
}

/// Describes every field of a struct, in the order of declaration. The
/// declaration must be a struct whose fields all have a descriptor.
pub fn parse_struct_fields(data: &Data) -> (out: Vec<Field>)
    requires
        spec_parse_struct_fields(data@) is Ok,
    ensures
        spec_parse_struct_fields(data@) == Ok::<Seq<FieldView>, ClassificationError>(
            fields_view(out@),
        ),
        forall|i: int| 0 <= i < out@.len() ==> (#[trigger] out@[i])@.well_formed(),
        !has_unmarked_pointer_to_pointer(data@),
{
    match try_parse_struct_fields(data) {
        Ok(fields) => fields,
        Err(_) => unreached(),
    }
}

/// Describes every field of a struct, in the order of declaration; the first
/// field that cannot be described ends the work with its error, and so does
/// a declaration that is no struct.
pub fn try_parse_struct_fields(data: &Data) -> (out: Result<Vec<Field>, ClassificationError>)
    ensures
        fields_result_is(out, spec_parse_struct_fields(data@)),
        out matches Ok(fields) ==> forall|i: int|
            0 <= i < fields@.len() ==> (#[trigger] fields@[i])@.well_formed(),
        has_unmarked_pointer_to_pointer(data@) ==> out is Err,
{
    proof {
        if has_unmarked_pointer_to_pointer(data@) {
            lemma_pointer_to_pointer_is_rejected(data@);
        }
    }
    match data {
        Data::Struct(declared) => {
            let ghost all = data@->Struct_0;
            let ghost f = |field: FieldSyntaxView| spec_parse_field(field);
            let mut fields: Vec<Field> = Vec::new();
            let mut i: usize = 0;
            assert(all.take(0) =~= Seq::empty());
            assert(fields_view(fields@) =~= Seq::empty());
            while i < declared.len()
                invariant
                    i <= declared@.len(),
                    all.len() == declared@.len(),
                    data@ == DataView::Struct(all),
                    forall|k: int| 0 <= k < all.len() ==> all[k] == #[trigger] declared@[k]@,
                    f == |field: FieldSyntaxView| spec_parse_field(field),
                    try_map(all.take(i as int), f) == Ok::<Seq<FieldView>, ClassificationError>(
                        fields_view(fields@),
                    ),
                    forall|k: int| 0 <= k < fields@.len() ==> (#[trigger] fields@[k])@.well_formed(),
                decreases declared@.len() - i,
            {
                proof {
                    lemma_try_map_step(all, f, i as int);
                }
                match try_parse_field(&declared[i]) {
                    Err(e) => {
                        proof {
                            lemma_try_map_prefix_error(all, f, i + 1);
                        }
                        return Err(e);
                    },
                    Ok(field) => {
                        let ghost before = fields_view(fields@);
                        fields.push(field);
                        assert(fields_view(fields@) =~= before.push(field@));
                    },
                }
                i += 1;
            }
            assert(all.take(i as int) =~= all);
            Ok(fields)
        },
        _ => Err(ClassificationError::NotAStruct),
    }
}

/// One decimal digit.
pub open spec fn digit_text(digit: nat) -> Seq<char> {
    if digit == 0 {
        "0"@
    } else if digit == 1 {
        "1"@
    } else if digit == 2 {
        "2"@
    } else if digit == 3 {
        "3"@
    } else if digit == 4 {
        "4"@
    } else if digit == 5 {
        "5"@
    } else if digit == 6 {
        "6"@
    } else if digit == 7 {
        "7"@
    } else if digit == 8 {
        "8"@
    } else {
        "9"@
    }
}

/// A number in decimal digits, without leading zeros.
pub open spec fn decimal_text(n: nat) -> Seq<char>
    decreases n,
{
    if n < 10 {
        digit_text(n)
    } else {
        decimal_text(n / 10) + digit_text(n % 10)
    }
}

/// Appends a number in decimal digits.
pub fn push_decimal(out: &mut String, n: u32)
    ensures
        final(out)@ == old(out)@ + decimal_text(n as nat),
    decreases n,
{
    if n >= 10 {
        push_decimal(out, n / 10);
    }
    let digit = n % 10;
    let text = if digit == 0 {
        "0"
    } else if digit == 1 {
        "1"
    } else if digit == 2 {
        "2"
    } else if digit == 3 {
        "3"
    } else if digit == 4 {
        "4"
    } else if digit == 5 {
        "5"
    } else if digit == 6 {
        "6"
    } else if digit == 7 {
        "7"
    } else if digit == 8 {
        "8"
    } else {
        "9"
    };
    out.append(text);
    assert(out@ =~= old(out)@ + decimal_text(n as nat));
}

/// What is said of a field that is a pointer to a pointer and not marked
/// nullable: its name and the number of its levels of indirection.
pub open spec fn spec_too_many_levels_message(field: Seq<char>, levels: nat) -> Seq<char> {
    "The CReprOf, AsRust, and CDrop traits cannot be derived automatically: The field "@ + field
        + " is a pointer field has too many levels of indirection ("@ + decimal_text(levels)
        + " in this case). Please implements those traits manually."@
}

/// Says of a field that it has too many levels of indirection.
pub fn too_many_levels_message(field: &str, levels: u32) -> (out: String)
    ensures
        out@ == spec_too_many_levels_message(field@, levels as nat),
{
    let mut out = String::from_str(
        "The CReprOf, AsRust, and CDrop traits cannot be derived automatically: The field ",
    );
    out.append(field);
    out.append(" is a pointer field has too many levels of indirection (");
    push_decimal(&mut out, levels);
    out.append(" in this case). Please implements those traits manually.");
    assert(out@ =~= spec_too_many_levels_message(field@, levels as nat));
    out
}

/// The position of the first field that is a pointer to a pointer and not
/// marked nullable, or the number of fields if there is none.
pub open spec fn first_unmarked_pointer_to_pointer(fields: Seq<FieldSyntaxView>) -> int
    decreases fields.len(),
{
    if fields.len() == 0 {
        0
    } else if is_unmarked_pointer_to_pointer(fields[0]) {
        0
    } else {
        1 + first_unmarked_pointer_to_pointer(fields.drop_first())
    }
}

/// The levels of indirection of a field as a descriptor counts them: no
/// more than the counter holds.
pub open spec fn counted_levels(field: FieldSyntaxView) -> nat {
    if pointer_depth(field.ty) > u32::MAX {
        u32::MAX as nat
    } else {
        pointer_depth(field.ty)
    }
}

/// What is said of an error to the author of a declaration. Of too many
/// levels of indirection it is said which field has them and how many, where
/// that field has a name; of any other error, what the error says.
pub open spec fn spec_failure_message(data: DataView, error: ClassificationError) -> Seq<char> {
    match data {
        DataView::Struct(fields) => {
            let i = first_unmarked_pointer_to_pointer(fields);
            if error == ClassificationError::TooManyLevelsOfIndirection && i < fields.len()
                && fields[i].ident is Some {
                spec_too_many_levels_message(fields[i].ident->0, counted_levels(fields[i]))
            } else {
                error.spec_message()
            }
        },
        _ => error.spec_message(),
    }
}

/// Whether a field is a pointer to a pointer and not marked nullable, and
/// the number of its levels of indirection.
pub fn unmarked_pointer_to_pointer(field: &FieldSyntax) -> (out: (bool, u32))
    ensures
        out.0 == is_unmarked_pointer_to_pointer(field@),
        out.1 == counted_levels(field@),
{
    assert(field@.attrs == attributes_view(field.attrs@));
    proof {
        lemma_first_attribute(field@.attrs, "nullable"@);
    }
    let is_nullable = find_attribute(&field.attrs, "nullable").is_some();
    let levels: u32 = match strip_pointers(&field.ty) {
        Some((_, levels)) => levels,
        None => 0xffff_ffff,
    };
    (levels > 1 && !is_nullable, levels)
}

/// Says to the author of a declaration what an error means; see
/// `spec_failure_message`.
pub fn failure_message(data: &Data, error: ClassificationError) -> (out: String)
    ensures
        out@ == spec_failure_message(data@, error),
{
    match (data, error) {
        (Data::Struct(declared), ClassificationError::TooManyLevelsOfIndirection) => {
            let ghost all = data@->Struct_0;
            let mut i: usize = 0;
            assert(all.skip(0) =~= all);
            while i < declared.len()
                invariant
                    i <= declared@.len(),
                    data@ == DataView::Struct(all),
                    error == ClassificationError::TooManyLevelsOfIndirection,
                    all.len() == declared@.len(),
                    forall|k: int| 0 <= k < all.len() ==> all[k] == #[trigger] declared@[k]@,
                    first_unmarked_pointer_to_pointer(all) == i
                        + first_unmarked_pointer_to_pointer(all.skip(i as int)),
                decreases declared@.len() - i,
            {
                assert(all.skip(i as int)[0] == declared@[i as int]@);
                assert(all.skip(i as int).drop_first() =~= all.skip(i + 1));
                let (unmarked, levels) = unmarked_pointer_to_pointer(&declared[i]);
                if unmarked {
                    assert(first_unmarked_pointer_to_pointer(all) == i);
                    assert(all[i as int] == declared@[i as int]@);
                    return match &declared[i].ident {
                        Some(name) => too_many_levels_message(name.as_str(), levels),
                        None => error.message(),
                    };
                }
                i += 1;
            }
            assert(all.skip(i as int).len() == 0);
            error.message()
        },
        _ => error.message(),
    }
}

} // verus!
