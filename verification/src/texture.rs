//! Texture references: where a material's texture file is to be read from,
//! under which key it is stored, and what becomes of the attempt.
//!
//! Reading the file and decoding it are the caller's business. This module
//! decides the path and the key beforehand and the texture slot afterwards.

use vstd::prelude::*;

verus! {

/// `String::push` appends the character to the end of the string and
/// changes nothing else.
pub assume_specification[ String::push ](s: &mut String, c: char)
    ensures
        final(s)@ == old(s)@.push(c),
;

/// Whether `c` separates path segments in a texture reference: either slash.
pub open spec fn is_separator(c: char) -> bool {
    c == '/' || c == '\\'
}

/// The segment that `s` ends in: its longest suffix without a separator.
pub open spec fn open_segment(s: Seq<char>) -> Seq<char>
    decreases s.len(),
{
    if s.len() == 0 || is_separator(s.last()) {
        Seq::empty()
    } else {
        open_segment(s.drop_last()).push(s.last())
    }
}

/// The non-empty segments of `s` that a separator has ended, in order.
pub open spec fn closed_segments(s: Seq<char>) -> Seq<Seq<char>>
    decreases s.len(),
{
    if s.len() == 0 {
        Seq::empty()
    } else if is_separator(s.last()) && open_segment(s.drop_last()).len() > 0 {
        closed_segments(s.drop_last()).push(open_segment(s.drop_last()))
    } else {
        closed_segments(s.drop_last())
    }
}

/// `s` split at every separator, empty pieces dropped.
pub open spec fn segments(s: Seq<char>) -> Seq<Seq<char>> {
    if open_segment(s).len() > 0 {
        closed_segments(s).push(open_segment(s))
    } else {
        closed_segments(s)
    }
}

/// `path` with one more segment: a non-empty path that does not end in `/`
/// gets a `/` first.
pub open spec fn with_segment(path: Seq<char>, segment: Seq<char>) -> Seq<char> {
    if path.len() > 0 && path.last() != '/' {
        path.push('/') + segment
    } else {
        path + segment
    }
}

/// `base` with every segment of `parts` joined on, in order.
pub open spec fn joined(base: Seq<char>, parts: Seq<Seq<char>>) -> Seq<char>
    decreases parts.len(),
{
    if parts.len() == 0 {
        base
    } else {
        with_segment(joined(base, parts.drop_last()), parts.last())
    }
}

/// Where the file behind `reference` lies, seen from the directory `base`:
/// the reference is split at either slash, empty segments are dropped, and
/// what remains is joined onto `base`.
pub open spec fn resolved_path(base: Seq<char>, reference: Seq<char>) -> Seq<char> {
    joined(base, segments(reference))
}

/// No character of `segment` is a separator.
pub open spec fn separator_free(segment: Seq<char>) -> bool {
    forall|j: int| 0 <= j < segment.len() ==> !is_separator(#[trigger] segment[j])
}

/// Every segment of a reference is non-empty and free of separators.
pub proof fn lemma_segments_are_clean(s: Seq<char>)
    ensures
        forall|k: int|
            0 <= k < segments(s).len() ==> (#[trigger] segments(s)[k]).len() > 0
                && separator_free(segments(s)[k]),
{
    lemma_closed_segments_are_clean(s);
    lemma_open_segment_is_clean(s);
}

proof fn lemma_open_segment_is_clean(s: Seq<char>)
    ensures
        separator_free(open_segment(s)),
    decreases s.len(),
{
    if s.len() > 0 && !is_separator(s.last()) {
        lemma_open_segment_is_clean(s.drop_last());
        let rest = open_segment(s.drop_last());
        assert forall|j: int| 0 <= j < open_segment(s).len() implies !is_separator(
            #[trigger] open_segment(s)[j],
        ) by {
            if j < rest.len() {
                assert(open_segment(s)[j] == rest[j]);
            }
        }
    }
}

proof fn lemma_closed_segments_are_clean(s: Seq<char>)
    ensures
        forall|k: int|
            0 <= k < closed_segments(s).len() ==> (#[trigger] closed_segments(s)[k]).len() > 0
                && separator_free(closed_segments(s)[k]),
    decreases s.len(),
{
    if s.len() > 0 {
        let rest = closed_segments(s.drop_last());
        lemma_closed_segments_are_clean(s.drop_last());
        lemma_open_segment_is_clean(s.drop_last());
        assert forall|k: int| 0 <= k < closed_segments(s).len() implies (
        #[trigger] closed_segments(s)[k]).len() > 0 && separator_free(closed_segments(s)[k]) by {
            if k < rest.len() {
                assert(closed_segments(s)[k] == rest[k]);
            }
        }
    }
}

/// Computes [`resolved_path`]: joins the non-empty segments of `reference`
/// onto `base_dir`.
pub fn resolve_path(base_dir: &str, reference: &str) -> (path: String)
    ensures
        path@ == resolved_path(base_dir@, reference@),
{
    let mut path = String::new();
    let mut ends_open: bool = false;
    for c in it: base_dir.chars()
        invariant
            it.seq() == base_dir@,
            path@ == base_dir@.take(it.index()),
            ends_open == (path@.len() > 0 && path@.last() != '/'),
    {
        path.push(c);
        ends_open = c != '/';
        assert(base_dir@.take(it.index() + 1) =~= base_dir@.take(it.index()).push(c));
    }
    assert(base_dir@.take(base_dir@.len() as int) =~= base_dir@);
    let mut in_segment: bool = false;
    for c in it: reference.chars()
        invariant
            it.seq() == reference@,
            in_segment == (open_segment(reference@.take(it.index())).len() > 0),
            ends_open == (path@.len() > 0 && path@.last() != '/'),
            path@ == resolved_path(base_dir@, reference@.take(it.index())),
    {
        let ghost seen = reference@.take(it.index());
        let ghost head = joined(base_dir@, closed_segments(seen));
        proof {
            let next = reference@.take(it.index() + 1);
            assert(next.drop_last() =~= seen);
            assert(next.last() == c);
            if open_segment(seen).len() > 0 {
                assert(closed_segments(seen).push(open_segment(seen)).drop_last()
                    =~= closed_segments(seen));
            }
        }
        if c == '/' || c == '\\' {
            in_segment = false;
        } else {
            if !in_segment && ends_open {
                path.push('/');
            }
            path.push(c);
            in_segment = true;
            ends_open = true;
            proof {
                let next = reference@.take(it.index() + 1);
                assert(closed_segments(next).push(open_segment(next)).drop_last()
                    =~= closed_segments(next));
                assert(path@ =~= with_segment(head, open_segment(seen).push(c)));
            }
        }
    }
    assert(reference@.take(reference@.len() as int) =~= reference@);
    path
}

/// What the caller has to do for one texture reference: read the file at
/// `path` and store its bytes under `key`.
#[derive(Clone, Debug, PartialEq, Eq)]
pub struct TextureRequest {
    /// The reference exactly as the material record spells it.
    pub key: String,
    /// The file to read, seen from the directory of the source file.
    pub path: String,
}

/// Decides what is to be read for `reference`: nothing for an empty
/// reference, else the resolved path, to be stored under the reference
/// itself.
pub fn plan_texture(base_dir: &str, reference: &str) -> (request: Option<TextureRequest>)
    ensures
        request is None <==> reference@.len() == 0,
        request matches Some(r) ==> r.key@ == reference@ && r.path@ == resolved_path(
            base_dir@,
            reference@,
        ),
{
    if reference.is_empty() {
        None
    } else {
        Some(TextureRequest { key: reference.to_owned(), path: resolve_path(base_dir, reference) })
    }
}

/// How the attempt to load one requested texture ended.
#[derive(Clone, Debug, PartialEq, Eq)]
pub enum TextureOutcome<X> {
    /// The file was read and decoded.
    Decoded(X),
    /// The file is missing or could not be read.
    Unreadable,
    /// The file was read, but its bytes are no texture.
    Undecodable,
}

/// The texture that a material slot gets: the decoded one where the
/// reference is not empty and loading succeeded, none in every other case.
pub open spec fn resolved_texture<X>(
    reference: Seq<char>,
    outcome: Option<TextureOutcome<X>>,
) -> Option<X> {
    if reference.len() == 0 {
        None
    } else {
        match outcome {
            Some(TextureOutcome::Decoded(texture)) => Some(texture),
            _ => None,
        }
    }
}

/// Settles one texture slot from the reference and from what loading it
/// gave. A failed load leaves the slot empty; it is never an error.
pub fn resolve<X>(reference: &str, outcome: Option<TextureOutcome<X>>) -> (texture: Option<X>)
    ensures
        texture == resolved_texture(reference@, outcome),
{
    if reference.is_empty() {
        None
    } else {
        match outcome {
            Some(TextureOutcome::Decoded(texture)) => Some(texture),
            _ => None,
        }
    }
}

} // verus!
