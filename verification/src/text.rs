//! Writing source text: the pieces that the generated conversions are put
//! together from.
use vstd::prelude::*;
use vstd::string::StringExecFns;
use crate::syntax::AngleBracketedArguments;
use crate::syntax::PathArguments;
use crate::syntax::PathArgumentsView;
use crate::syntax::PathSegmentView;
use crate::syntax::TypeArray;
use crate::syntax::TypeArrayView;
use crate::syntax::TypePath;
use crate::syntax::TypePathView;
use crate::utils::TypeArrayOrTypePath;
use crate::utils::TypeArrayOrTypePathView;

verus! {

/// `text` written `n` times.
pub open spec fn repeat_text(text: Seq<char>, n: nat) -> Seq<char>
    decreases n,
{
    if n == 0 {
        Seq::empty()
    } else {
        repeat_text(text, (n - 1) as nat) + text
    }
}

/// All parts one after the other.
pub open spec fn concat_texts(parts: Seq<Seq<char>>) -> Seq<char>
    decreases parts.len(),
{
    if parts.len() == 0 {
        Seq::empty()
    } else {
        concat_texts(parts.drop_last()) + parts.last()
    }
}

/// The parts with `separator` between each two.
pub open spec fn join_texts(parts: Seq<Seq<char>>, separator: Seq<char>) -> Seq<char>
    decreases parts.len(),
{
    if parts.len() == 0 {
        Seq::empty()
    } else if parts.len() == 1 {
        parts[0]
    } else {
        join_texts(parts.drop_last(), separator) + separator + parts.last()
    }
}

/// Generic arguments in the form that an expression takes: `::<A, B>`.
pub open spec fn turbofish_text(args: Seq<Seq<char>>) -> Seq<char> {
    "::<"@ + join_texts(args, ", "@) + ">"@
}

/// What follows a segment's identifier in an expression.
pub open spec fn arguments_text(arguments: PathArgumentsView) -> Seq<char> {
    match arguments {
        PathArgumentsView::Absent => Seq::empty(),
        PathArgumentsView::AngleBracketed(args) => turbofish_text(args),
        PathArgumentsView::Parenthesized(text) => text,
    }
}

/// One segment of a path in an expression.
pub open spec fn segment_text(segment: PathSegmentView) -> Seq<char> {
    segment.ident + arguments_text(segment.arguments)
}

/// The texts of the segments of a path.
pub open spec fn segment_texts(path: TypePathView) -> Seq<Seq<char>> {
    path.segments.map_values(|s: PathSegmentView| segment_text(s))
}

/// How many segments of a path stand inside the angle brackets of its self
/// type: none where it has no self type, and no more than it has segments.
pub open spec fn qualified_segments(path: TypePathView) -> int {
    match path.qself {
        Some(qself) => if qself.position <= path.segments.len() {
            qself.position as int
        } else {
            path.segments.len() as int
        },
        None => 0,
    }
}

/// The colons in front of a path that has a leading colon.
pub open spec fn leading_colon_text(path: TypePathView) -> Seq<char> {
    if path.leading_colon {
        "::"@
    } else {
        Seq::empty()
    }
}

/// A path in an expression: its segments with `::` between them, and `::` in
/// front where the path has a leading colon. A qualified path stands as
/// `<T as a::B>::C`: the self type, then the segments that name the trait,
/// if there are any, then the others.
pub open spec fn path_text(path: TypePathView) -> Seq<char> {
    let texts = segment_texts(path);
    let n = qualified_segments(path);
    match path.qself {
        None => leading_colon_text(path) + join_texts(texts, "::"@),
        Some(qself) => "<"@ + qself.ty + (if n > 0 {
            " as "@ + leading_colon_text(path) + join_texts(texts.subrange(0, n), "::"@)
        } else {
            Seq::empty()
        }) + ">::"@ + join_texts(texts.subrange(n, texts.len() as int), "::"@),
    }
}

/// An array type: `[elem; len]`.
pub open spec fn array_text(array: TypeArrayView) -> Seq<char> {
    "["@ + array.elem + "; "@ + array.len + "]"@
}

/// A type in the place where an associated function is called on it: a path
/// as it is, an array as `<[elem; len]>`.
pub open spec fn type_text(field_type: TypeArrayOrTypePathView) -> Seq<char> {
    match field_type {
        TypeArrayOrTypePathView::TypeArray(array) => "<"@ + array_text(array) + ">"@,
        TypeArrayOrTypePathView::TypePath(path) => path_text(path),
    }
}

/// Appends `text`.
pub fn push_text(out: &mut String, text: &str)
    ensures
        final(out)@ == old(out)@ + text@,
{
    out.append(text);
}

/// Appends `text` `n` times.
pub fn push_repeated(out: &mut String, text: &str, n: u32)
    ensures
        final(out)@ == old(out)@ + repeat_text(text@, n as nat),
{
    let mut i: u32 = 0;
    assert(old(out)@ + repeat_text(text@, 0) =~= old(out)@);
    while i < n
        invariant
            i <= n,
            out@ == old(out)@ + repeat_text(text@, i as nat),
        decreases n - i,
    {
        out.append(text);
        i += 1;
        assert(old(out)@ + repeat_text(text@, (i - 1) as nat) + text@ =~= old(out)@ + repeat_text(
            text@,
            i as nat,
        ));
    }
}

/// Appends the texts with `separator` between each two.
pub fn push_joined(out: &mut String, parts: &Vec<String>, separator: &str)
    ensures
        final(out)@ == old(out)@ + join_texts(parts.deep_view(), separator@),
{
    let ghost all = parts.deep_view();
    let mut i: usize = 0;
    assert(all.take(0) =~= Seq::empty());
    assert(old(out)@ + join_texts(all.take(0), separator@) =~= old(out)@);
    while i < parts.len()
        invariant
            i <= parts@.len(),
            all == parts.deep_view(),
            out@ == old(out)@ + join_texts(all.take(i as int), separator@),
        decreases parts@.len() - i,
    {
        let ghost before = out@;
        if i > 0 {
            out.append(separator);
        }
        out.append(parts[i].as_str());
        proof {
            let next = all.take(i + 1);
            assert(next.drop_last() =~= all.take(i as int));
            assert(next.last() == parts@[i as int]@);
            if i == 0 {
                assert(next.len() == 1);
                assert(out@ =~= old(out)@ + join_texts(next, separator@));
            } else {
                assert(out@ =~= old(out)@ + join_texts(next, separator@));
            }
        }
        i += 1;
    }
    assert(all.take(i as int) =~= all);
}

/// Appends what follows a segment's identifier in an expression.
pub fn push_arguments(out: &mut String, arguments: &PathArguments)
    ensures
        final(out)@ == old(out)@ + arguments_text(arguments@),
{
    match arguments {
        PathArguments::Absent => {
            assert(old(out)@ + Seq::<char>::empty() =~= old(out)@);
        },
        PathArguments::AngleBracketed(args) => {
            push_turbofish(out, args);
        },
        PathArguments::Parenthesized(text) => {
            out.append(text.as_str());
        },
    }
}

/// Appends generic arguments in the form that an expression takes.
pub fn push_turbofish(out: &mut String, args: &AngleBracketedArguments)
    ensures
        final(out)@ == old(out)@ + turbofish_text(args@),
{
    out.append("::<");
    push_joined(out, &args.args, ", ");
    out.append(">");
    assert(out@ =~= old(out)@ + turbofish_text(args@));
}

/// Appends the segments of a path from one position to another, with `::`
/// between them.
pub fn push_segments(out: &mut String, path: &TypePath, from: usize, to: usize)
    requires
        from <= to <= path.segments@.len(),
    ensures
        final(out)@ == old(out)@ + join_texts(
            segment_texts(path@).subrange(from as int, to as int),
            "::"@,
        ),
{
    let ghost start = out@;
    let ghost texts = segment_texts(path@);
    let mut i: usize = from;
    assert(texts.subrange(from as int, from as int) =~= Seq::empty());
    assert(start + join_texts(texts.subrange(from as int, from as int), "::"@) =~= start);
    while i < to
        invariant
            from <= i <= to <= path.segments@.len(),
            texts == segment_texts(path@),
            texts.len() == path.segments@.len(),
            out@ == start + join_texts(texts.subrange(from as int, i as int), "::"@),
        decreases to - i,
    {
        if i > from {
            out.append("::");
        }
        let segment = &path.segments[i];
        out.append(segment.ident.as_str());
        push_arguments(out, &segment.arguments);
        proof {
            let next = texts.subrange(from as int, i + 1);
            assert(next.drop_last() =~= texts.subrange(from as int, i as int));
            assert(next.last() == segment_text(segment@));
            assert(out@ =~= start + join_texts(next, "::"@));
        }
        i += 1;
    }
}

/// Appends a path in the form that an expression takes.
pub fn push_path(out: &mut String, path: &TypePath)
    ensures
        final(out)@ == old(out)@ + path_text(path@),
{
    let ghost texts = segment_texts(path@);
    let len = path.segments.len();
    match &path.qself {
        None => {
            if path.leading_colon {
                out.append("::");
            }
            push_segments(out, path, 0, len);
            assert(texts.subrange(0, len as int) =~= texts);
            assert(out@ =~= old(out)@ + path_text(path@));
        },
        Some(qself) => {
            let n = if qself.position <= len {
                qself.position
            } else {
                len
            };
            out.append("<");
            out.append(qself.ty.as_str());
            if n > 0 {
                out.append(" as ");
                if path.leading_colon {
                    out.append("::");
                }
                push_segments(out, path, 0, n);
            }
            out.append(">::");
            push_segments(out, path, n, len);
            assert(out@ =~= old(out)@ + path_text(path@));
        },
    }
}

/// Appends an array type.
pub fn push_array(out: &mut String, array: &TypeArray)
    ensures
        final(out)@ == old(out)@ + array_text(array@),
{
    out.append("[");
    out.append(array.elem.as_str());
    out.append("; ");
    out.append(array.len.as_str());
    out.append("]");
    assert(out@ =~= old(out)@ + array_text(array@));
}

/// Appends a type in the place where an associated function is called on it.
pub fn push_type(out: &mut String, field_type: &TypeArrayOrTypePath)
    ensures
        final(out)@ == old(out)@ + type_text(field_type@),
{
    match field_type {
        TypeArrayOrTypePath::TypeArray(array) => {
            out.append("<");
            push_array(out, array);
            out.append(">");
            assert(out@ =~= old(out)@ + type_text(field_type@));
        },
        TypeArrayOrTypePath::TypePath(path) => {
            push_path(out, path);
        },
    }
}

/// Appending the next part to the parts written so far.
pub proof fn lemma_concat_texts_step(parts: Seq<Seq<char>>, n: int)
    requires
        0 <= n < parts.len(),
    ensures
        concat_texts(parts.take(n + 1)) == concat_texts(parts.take(n)) + parts[n],
{
    assert(parts.take(n + 1).drop_last() =~= parts.take(n));
    assert(parts.take(n + 1).last() == parts[n]);
}

} // verus!
