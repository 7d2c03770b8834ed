//! The part of a struct declaration that the generator reads: field names,
//! field types down to the shape of pointers, paths and arrays, and the
//! helper attributes. Source text that the generator only passes on (an
//! array's element type, a generic argument) is kept as text.
use vstd::prelude::*;

verus! {

/// The generic arguments of a path segment, `<A, B>`, one text per argument.
#[derive(Debug, Clone, PartialEq, Eq)]
pub struct AngleBracketedArguments {
    pub args: Vec<String>,
}

impl View for AngleBracketedArguments {
    type V = Seq<Seq<char>>;

    open spec fn view(&self) -> Seq<Seq<char>> {
        self.args.deep_view()
    }
}

/// What follows the identifier of a path segment.
#[derive(Debug, Clone, PartialEq, Eq)]
pub enum PathArguments {
    Absent,
    AngleBracketed(AngleBracketedArguments),
    /// `(A, B) -> C`, kept as written.
    Parenthesized(String),
}

pub enum PathArgumentsView {
    Absent,
    AngleBracketed(Seq<Seq<char>>),
    Parenthesized(Seq<char>),
}

impl View for PathArguments {
    type V = PathArgumentsView;

    open spec fn view(&self) -> PathArgumentsView {
        match self {
            PathArguments::Absent => PathArgumentsView::Absent,
            PathArguments::AngleBracketed(args) => PathArgumentsView::AngleBracketed(args@),
            PathArguments::Parenthesized(text) => PathArgumentsView::Parenthesized(text@),
        }
    }
}

/// One segment of a path: `Foo` or `Foo<Bar>`.
#[derive(Debug, Clone, PartialEq, Eq)]
pub struct PathSegment {
    pub ident: String,
    pub arguments: PathArguments,
}

pub struct PathSegmentView {
    pub ident: Seq<char>,
    pub arguments: PathArgumentsView,
}

impl View for PathSegment {
    type V = PathSegmentView;

    open spec fn view(&self) -> PathSegmentView {
        PathSegmentView { ident: self.ident@, arguments: self.arguments@ }
    }
}

/// The self type of a qualified path: `T` in `<T as a::B>::C`, and how many
/// segments of the path stand inside the angle brackets.
#[derive(Debug, Clone, PartialEq, Eq)]
pub struct QSelf {
    /// The self type, kept as written.
    pub ty: String,
    pub position: usize,
}

pub struct QSelfView {
    pub ty: Seq<char>,
    pub position: usize,
}

impl View for QSelf {
    type V = QSelfView;

    open spec fn view(&self) -> QSelfView {
        QSelfView { ty: self.ty@, position: self.position }
    }
}

/// A type named by a path, `a::b::C<D>` or `<T as a::B>::C`.
#[derive(Debug, Clone, PartialEq, Eq)]
pub struct TypePath {
    pub qself: Option<QSelf>,
    pub leading_colon: bool,
    pub segments: Vec<PathSegment>,
}

pub struct TypePathView {
    pub qself: Option<QSelfView>,
    pub leading_colon: bool,
    pub segments: Seq<PathSegmentView>,
}

impl View for TypePath {
    type V = TypePathView;

    open spec fn view(&self) -> TypePathView {
        TypePathView {
            qself: match self.qself {
                Some(qself) => Some(qself@),
                None => None,
            },
            leading_colon: self.leading_colon,
            segments: Seq::new(self.segments@.len(), |i: int| self.segments@[i]@),
        }
    }
}

/// A fixed-size array type, `[elem; len]`.
#[derive(Debug, Clone, PartialEq, Eq)]
pub struct TypeArray {
    pub elem: String,
    pub len: String,
}

pub struct TypeArrayView {
    pub elem: Seq<char>,
    pub len: Seq<char>,
}

impl View for TypeArray {
    type V = TypeArrayView;

    open spec fn view(&self) -> TypeArrayView {
        TypeArrayView { elem: self.elem@, len: self.len@ }
    }
}

/// The type of a field, as far as the generator tells types apart.
#[derive(Debug, PartialEq, Eq)]
pub enum Type {
    /// `*const T` or `*mut T`.
    Ptr { mutable: bool, elem: Box<Type> },
    Path(TypePath),
    Array(TypeArray),
    /// Any other type, kept as written.
    Other(String),
}

pub enum TypeView {
    Ptr { mutable: bool, elem: Box<TypeView> },
    Path(TypePathView),
    Array(TypeArrayView),
    Other(Seq<char>),
}

impl View for Type {
    type V = TypeView;

    open spec fn view(&self) -> TypeView
        decreases self,
    {
        match self {
            Type::Ptr { mutable, elem } => TypeView::Ptr { mutable: *mutable, elem: Box::new((**elem)@) },
            Type::Path(path) => TypeView::Path(path@),
            Type::Array(array) => TypeView::Array(array@),
            Type::Other(text) => TypeView::Other(text@),
        }
    }
}

/// A helper attribute, `#[path(arguments)]`.
#[derive(Debug, Clone, PartialEq, Eq)]
pub struct Attribute {
    pub path: TypePath,
    /// The text between the parentheses, if there are any.
    pub arguments: Option<String>,
}

pub struct AttributeView {
    pub path: TypePathView,
    pub arguments: Option<Seq<char>>,
}

impl View for Attribute {
    type V = AttributeView;

    open spec fn view(&self) -> AttributeView {
        AttributeView { path: self.path@, arguments: self.arguments.deep_view() }
    }
}

/// One field of a struct declaration.
#[derive(Debug, PartialEq, Eq)]
pub struct FieldSyntax {
    /// `None` for the fields of a tuple struct.
    pub ident: Option<String>,
    pub ty: Type,
    pub attrs: Vec<Attribute>,
}

pub struct FieldSyntaxView {
    pub ident: Option<Seq<char>>,
    pub ty: TypeView,
    pub attrs: Seq<AttributeView>,
}

impl View for FieldSyntax {
    type V = FieldSyntaxView;

    open spec fn view(&self) -> FieldSyntaxView {
        FieldSyntaxView {
            ident: self.ident.deep_view(),
            ty: self.ty@,
            attrs: Seq::new(self.attrs@.len(), |i: int| self.attrs@[i]@),
        }
    }
}

/// The body of the item that a derive is applied to.
#[derive(Debug, PartialEq, Eq)]
pub enum Data {
    Struct(Vec<FieldSyntax>),
    Enum,
    Union,
}

pub enum DataView {
    Struct(Seq<FieldSyntaxView>),
    Enum,
    Union,
}

impl View for Data {
    type V = DataView;

    open spec fn view(&self) -> DataView {
        match self {
            Data::Struct(fields) => DataView::Struct(Seq::new(fields@.len(), |i: int| fields@[i]@)),
            Data::Enum => DataView::Enum,
            Data::Union => DataView::Union,
        }
    }
}

/// The item that a derive is applied to.
#[derive(Debug, PartialEq, Eq)]
pub struct DeriveInput {
    pub ident: String,
    pub attrs: Vec<Attribute>,
    pub data: Data,
}

pub struct DeriveInputView {
    pub ident: Seq<char>,
    pub attrs: Seq<AttributeView>,
    pub data: DataView,
}

impl View for DeriveInput {
    type V = DeriveInputView;

    open spec fn view(&self) -> DeriveInputView {
        DeriveInputView {
            ident: self.ident@,
            attrs: Seq::new(self.attrs@.len(), |i: int| self.attrs@[i]@),
            data: self.data@,
        }
    }
}

/// A copy of a list of texts.
pub fn clone_texts(texts: &Vec<String>) -> (out: Vec<String>)
    ensures
        out.deep_view() == texts.deep_view(),
{
    let mut out: Vec<String> = Vec::new();
    let mut i: usize = 0;
    while i < texts.len()
        invariant
            i <= texts@.len(),
            out@.len() == i,
            forall|k: int| 0 <= k < i ==> out@[k]@ == texts@[k]@,
        decreases texts@.len() - i,
    {
        out.push(texts[i].clone());
        i += 1;
    }
    assert(out.deep_view() =~= texts.deep_view());
    out
}

impl AngleBracketedArguments {
    /// A copy with the same view.
    pub fn deep_clone(&self) -> (out: Self)
        ensures
            out@ == self@,
    {
        AngleBracketedArguments { args: clone_texts(&self.args) }
    }
}

impl PathArguments {
    /// A copy with the same view.
    pub fn deep_clone(&self) -> (out: Self)
        ensures
            out@ == self@,
    {
        match self {
            PathArguments::Absent => PathArguments::Absent,
            PathArguments::AngleBracketed(args) => PathArguments::AngleBracketed(args.deep_clone()),
            PathArguments::Parenthesized(text) => PathArguments::Parenthesized(text.clone()),
        }
    }
}

impl PathSegment {
    /// A copy with the same view.
    pub fn deep_clone(&self) -> (out: Self)
        ensures
            out@ == self@,
    {
        PathSegment { ident: self.ident.clone(), arguments: self.arguments.deep_clone() }
    }
}

impl TypePath {
    /// A copy with the same view.
    pub fn deep_clone(&self) -> (out: Self)
        ensures
            out@ == self@,
    {
        let mut segments: Vec<PathSegment> = Vec::new();
        let mut i: usize = 0;
        while i < self.segments.len()
            invariant
                i <= self.segments@.len(),
                segments@.len() == i,
                forall|k: int| 0 <= k < i ==> segments@[k]@ == self.segments@[k]@,
            decreases self.segments@.len() - i,
        {
            segments.push(self.segments[i].deep_clone());
            i += 1;
        }
        let qself = match &self.qself {
            Some(qself) => Some(QSelf { ty: qself.ty.clone(), position: qself.position }),
            None => None,
        };
        let out = TypePath { qself, leading_colon: self.leading_colon, segments };
        assert(out@.segments =~= self@.segments);
        out
    }
}

impl TypeArray {
    /// A copy with the same view.
    pub fn deep_clone(&self) -> (out: Self)
        ensures
            out@ == self@,
    {
        TypeArray { elem: self.elem.clone(), len: self.len.clone() }
    }
}

} // verus!
