//! Entity tags and conditional-request evaluation: a resource's strong ETag
//! combines its byte length and modification timestamp as a hexadecimal
//! pair, and `If-Match` / `If-None-Match` headers are judged against it.

use crate::strutil::push_char;
use crate::strutil::str_eq;
use vstd::prelude::*;

verus! {

/// The lowercase hexadecimal digit for `d`.
pub open spec fn hex_digit(d: int) -> char {
    if d == 0 {
        '0'
    } else if d == 1 {
        '1'
    } else if d == 2 {
        '2'
    } else if d == 3 {
        '3'
    } else if d == 4 {
        '4'
    } else if d == 5 {
        '5'
    } else if d == 6 {
        '6'
    } else if d == 7 {
        '7'
    } else if d == 8 {
        '8'
    } else if d == 9 {
        '9'
    } else if d == 10 {
        'a'
    } else if d == 11 {
        'b'
    } else if d == 12 {
        'c'
    } else if d == 13 {
        'd'
    } else if d == 14 {
        'e'
    } else {
        'f'
    }
}

/// Lowercase hexadecimal form of `n`, most significant digit first, with no
/// leading zeros (zero itself is `0`).
pub open spec fn hex_of(n: nat) -> Seq<char>
    decreases n,
{
    if n < 16 {
        seq![hex_digit(n as int)]
    } else {
        hex_of(n / 16).push(hex_digit((n % 16) as int))
    }
}

fn hex_digit_char(d: u64) -> (c: char)
    requires
        d < 16,
    ensures
        c == hex_digit(d as int),
{
    if d == 0 {
        '0'
    } else if d == 1 {
        '1'
    } else if d == 2 {
        '2'
    } else if d == 3 {
        '3'
    } else if d == 4 {
        '4'
    } else if d == 5 {
        '5'
    } else if d == 6 {
        '6'
    } else if d == 7 {
        '7'
    } else if d == 8 {
        '8'
    } else if d == 9 {
        '9'
    } else if d == 10 {
        'a'
    } else if d == 11 {
        'b'
    } else if d == 12 {
        'c'
    } else if d == 13 {
        'd'
    } else if d == 14 {
        'e'
    } else {
        'f'
    }
}

/// Appends the hexadecimal form of `n` to `out`.
pub fn push_hex(out: &mut String, n: u64)
    ensures
        final(out)@ == old(out)@ + hex_of(n as nat),
    decreases n,
{
    if n >= 16 {
        push_hex(out, n / 16);
        push_char(out, hex_digit_char(n % 16));
        proof {
            assert(old(out)@ + hex_of((n / 16) as nat) + seq![hex_digit((n % 16) as int)]
                =~= old(out)@ + hex_of(n as nat));
        }
    } else {
        push_char(out, hex_digit_char(n));
        proof {
            assert(old(out)@.push(hex_digit(n as int)) =~= old(out)@ + hex_of(n as nat));
        }
    }
}

/// The spec-level value of an entity tag.
pub struct EntityTagView {
    pub weak: bool,
    pub tag: Seq<char>,
}

/// An entity tag: an opaque validator token, optionally marked weak.
pub struct EntityTag {
    pub weak: bool,
    pub tag: String,
}

impl View for EntityTag {
    type V = EntityTagView;

    open spec fn view(&self) -> EntityTagView {
        EntityTagView { weak: self.weak, tag: self.tag@ }
    }
}

/// Two tags strong-match only if both are strong and their tokens are equal.
pub open spec fn strong_match(a: EntityTagView, b: EntityTagView) -> bool {
    !a.weak && !b.weak && a.tag == b.tag
}

/// Two tags weak-match whenever their tokens are equal, weak or not.
pub open spec fn weak_match(a: EntityTagView, b: EntityTagView) -> bool {
    a.tag == b.tag
}

impl EntityTag {
    /// A strong tag with the given token.
    pub fn new_strong(tag: String) -> (r: EntityTag)
        ensures
            r@ == (EntityTagView { weak: false, tag: tag@ }),
    {
        EntityTag { weak: false, tag }
    }

    /// A weak tag with the given token.
    pub fn new_weak(tag: String) -> (r: EntityTag)
        ensures
            r@ == (EntityTagView { weak: true, tag: tag@ }),
    {
        EntityTag { weak: true, tag }
    }

    pub fn strong_eq(&self, other: &EntityTag) -> (r: bool)
        ensures
            r == strong_match(self@, other@),
    {
        !self.weak && !other.weak && str_eq(self.tag.as_str(), other.tag.as_str())
    }

    pub fn weak_eq(&self, other: &EntityTag) -> (r: bool)
        ensures
            r == weak_match(self@, other@),
    {
        str_eq(self.tag.as_str(), other.tag.as_str())
    }

    pub fn clone_tag(&self) -> (r: EntityTag)
        ensures
            r@ == self@,
    {
        EntityTag { weak: self.weak, tag: self.tag.clone() }
    }
}

/// The token of the strong ETag computed for a resource of `len` bytes last
/// modified at `modified`: both numbers in hexadecimal, joined by a colon.
pub open spec fn etag_token(len: nat, modified: nat) -> Seq<char> {
    hex_of(len) + seq![':'] + hex_of(modified)
}

/// The strong ETag computed for a resource.
pub open spec fn resource_etag(len: nat, modified: nat) -> EntityTagView {
    EntityTagView { weak: false, tag: etag_token(len, modified) }
}

/// Computes the strong ETag for a resource of `len` bytes last modified at
/// `modified` seconds since the epoch.
pub fn compute_etag(len: u64, modified: u64) -> (r: EntityTag)
    ensures
        r@ == resource_etag(len as nat, modified as nat),
{
    let mut tag = String::new();
    push_hex(&mut tag, len);
    push_char(&mut tag, ':');
    push_hex(&mut tag, modified);
    proof {
        assert(Seq::<char>::empty() + hex_of(len as nat) =~= hex_of(len as nat));
        assert(hex_of(len as nat).push(':') + hex_of(modified as nat) =~= etag_token(
            len as nat,
            modified as nat,
        ));
    }
    EntityTag::new_strong(tag)
}

/// The value of an `If-Match` request header: `*` or a list of tags.
pub enum IfMatch {
    Any,
    Items(Vec<EntityTag>),
}

/// The value of an `If-None-Match` request header: `*` or a list of tags.
pub enum IfNoneMatch {
    Any,
    Items(Vec<EntityTag>),
}

/// The spec-level value of an `If-Match` header.
pub enum IfMatchView {
    Any,
    Items(Seq<EntityTagView>),
}

/// The spec-level value of an `If-None-Match` header.
pub enum IfNoneMatchView {
    Any,
    Items(Seq<EntityTagView>),
}

impl View for IfMatch {
    type V = IfMatchView;

    open spec fn view(&self) -> IfMatchView {
        match self {
            IfMatch::Any => IfMatchView::Any,
            IfMatch::Items(items) => IfMatchView::Items(
                items@.map_values(|t: EntityTag| t@),
            ),
        }
    }
}

impl View for IfNoneMatch {
    type V = IfNoneMatchView;

    open spec fn view(&self) -> IfNoneMatchView {
        match self {
            IfNoneMatch::Any => IfNoneMatchView::Any,
            IfNoneMatch::Items(items) => IfNoneMatchView::Items(
                items@.map_values(|t: EntityTag| t@),
            ),
        }
    }
}

/// The spec-level value of an optional `If-Match` header.
pub open spec fn if_match_view(o: Option<IfMatch>) -> Option<IfMatchView> {
    match o {
        Option::None => Option::None,
        Option::Some(m) => Option::Some(m@),
    }
}

/// The spec-level value of an optional `If-None-Match` header.
pub open spec fn if_none_match_view(o: Option<IfNoneMatch>) -> Option<IfNoneMatchView> {
    match o {
        Option::None => Option::None,
        Option::Some(m) => Option::Some(m@),
    }
}

/// The `If-Match` precondition passes: the header is absent or `*`, or some
/// listed tag strong-matches the resource's tag.
pub open spec fn any_match_spec(etag: EntityTagView, if_match: Option<IfMatchView>) -> bool {
    match if_match {
        Option::None => true,
        Option::Some(IfMatchView::Any) => true,
        Option::Some(IfMatchView::Items(items)) => exists|i: int|
            0 <= i < items.len() && #[trigger] strong_match(items[i], etag),
    }
}

/// The request carries no `If-None-Match` header that matches the resource:
/// `*` always matches an existing resource, and a tag list matches iff some
/// listed tag weak-matches the resource's tag.
pub open spec fn none_match_spec(etag: EntityTagView, if_none_match: Option<IfNoneMatchView>) -> bool {
    match if_none_match {
        Option::None => true,
        Option::Some(IfNoneMatchView::Any) => false,
        Option::Some(IfNoneMatchView::Items(items)) => !(exists|i: int|
            0 <= i < items.len() && #[trigger] weak_match(items[i], etag)),
    }
}

/// Returns true if the request has no `If-Match` header, or one which
/// matches `etag`.
pub fn any_match(etag: &EntityTag, if_match: &Option<IfMatch>) -> (r: bool)
    ensures
        r == any_match_spec(etag@, if_match_view(*if_match)),
{
    match if_match {
        Option::None => true,
        Option::Some(IfMatch::Any) => true,
        Option::Some(IfMatch::Items(items)) => {
            let ghost iv = items@.map_values(|t: EntityTag| t@);
            let mut found = false;
            let mut i: usize = 0;
            while i < items.len()
                invariant
                    iv == items@.map_values(|t: EntityTag| t@),
                    0 <= i <= items.len(),
                    found == exists|j: int| 0 <= j < i && #[trigger] strong_match(iv[j], etag@),
                decreases items.len() - i,
            {
                if items[i].strong_eq(etag) {
                    found = true;
                    proof {
                        assert(strong_match(iv[i as int], etag@));
                    }
                }
                i += 1;
            }
            proof {
                assert(found == any_match_spec(etag@, Option::Some(IfMatchView::Items(iv))));
                assert((*if_match)->Some_0@ == IfMatchView::Items(iv));
                assert(if_match_view(*if_match) == Option::Some(IfMatchView::Items(iv)));
            }
            found
        },
    }
}

/// Returns true if the request has no `If-None-Match` header matching
/// `etag`.
pub fn none_match(etag: &EntityTag, if_none_match: &Option<IfNoneMatch>) -> (r: bool)
    ensures
        r == none_match_spec(etag@, if_none_match_view(*if_none_match)),
{
    match if_none_match {
        Option::None => true,
        Option::Some(IfNoneMatch::Any) => false,
        Option::Some(IfNoneMatch::Items(items)) => {
            let ghost iv = items@.map_values(|t: EntityTag| t@);
            let mut found = false;
            let mut i: usize = 0;
            while i < items.len()
                invariant
                    iv == items@.map_values(|t: EntityTag| t@),
                    0 <= i <= items.len(),
                    found == exists|j: int| 0 <= j < i && #[trigger] weak_match(iv[j], etag@),
                decreases items.len() - i,
            {
                if items[i].weak_eq(etag) {
                    found = true;
                    proof {
                        assert(weak_match(iv[i as int], etag@));
                    }
                }
                i += 1;
            }
            proof {
                assert(!found == none_match_spec(etag@, Option::Some(IfNoneMatchView::Items(iv))));
                assert((*if_none_match)->Some_0@ == IfNoneMatchView::Items(iv));
                assert(if_none_match_view(*if_none_match) == Option::Some(
                    IfNoneMatchView::Items(iv),
                ));
            }
            !found
        },
    }
}

} // verus!
