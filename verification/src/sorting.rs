//! The order of a listing: by name, by time or by size, up or down.

use crate::gallery::{ImageInfo, SortDirection, SortField};
use std::cmp::Ordering;
use vstd::prelude::*;
use vstd::utf8::encode_utf8;

verus! {

/// Whether `left` is `right` or comes before it byte by byte, a shorter
/// sequence before its continuations: the order of strings.
pub open spec fn bytes_le(left: Seq<u8>, right: Seq<u8>) -> bool
    decreases left.len(),
{
    if left.len() == 0 {
        true
    } else if right.len() == 0 {
        false
    } else if left[0] != right[0] {
        left[0] < right[0]
    } else {
        bytes_le(left.drop_first(), right.drop_first())
    }
}

/// Whether `left` may stand before `right` where `field` goes up: its name,
/// time or size is no greater.
pub open spec fn key_le(left: ImageInfo, right: ImageInfo, field: SortField) -> bool {
    match field {
        SortField::Name => bytes_le(encode_utf8(left.name@), encode_utf8(right.name@)),
        SortField::Time => left.modified <= right.modified,
        SortField::Size => left.size <= right.size,
    }
}

/// Whether `left` may stand before `right` in a listing sorted by `field`
/// in the direction `direction`.
pub open spec fn in_order(
    left: ImageInfo,
    right: ImageInfo,
    field: SortField,
    direction: SortDirection,
) -> bool {
    match direction {
        SortDirection::Ascending => key_le(left, right, field),
        SortDirection::Descending => key_le(right, left, field),
    }
}

/// Whether any two images of `images` stand in order.
pub open spec fn is_sorted(
    images: Seq<ImageInfo>,
    field: SortField,
    direction: SortDirection,
) -> bool {
    forall|i: int, j: int|
        0 <= i < j < images.len() ==> in_order(
            #[trigger] images[i],
            #[trigger] images[j],
            field,
            direction,
        )
}

/// The images of `images` that tie with `probe` by `field`, in their order.
pub open spec fn ties_of(images: Seq<ImageInfo>, probe: ImageInfo, field: SortField) -> Seq<
    ImageInfo,
> {
    images.filter(|image: ImageInfo| key_le(probe, image, field) && key_le(image, probe, field))
}

/// Of two sequences of bytes one comes before the other, or they are equal.
pub proof fn lemma_bytes_le_total(left: Seq<u8>, right: Seq<u8>)
    ensures
        bytes_le(left, right) || bytes_le(right, left),
    decreases left.len(),
{
    if left.len() > 0 && right.len() > 0 && left[0] == right[0] {
        lemma_bytes_le_total(left.drop_first(), right.drop_first());
    }
}

/// The order of bytes goes on: what comes before a sequence comes before
/// all that this one comes before.
pub proof fn lemma_bytes_le_transitive(first: Seq<u8>, second: Seq<u8>, third: Seq<u8>)
    requires
        bytes_le(first, second),
        bytes_le(second, third),
    ensures
        bytes_le(first, third),
    decreases first.len(),
{
    if first.len() > 0 && second.len() > 0 && third.len() > 0 && first[0] == second[0] && second[0]
        == third[0] {
        lemma_bytes_le_transitive(first.drop_first(), second.drop_first(), third.drop_first());
    }
}

/// Any two images can be put in order, and the order goes on from one pair
/// to the next: the comparison orders the images as a sort needs it.
pub proof fn lemma_in_order(
    first: ImageInfo,
    second: ImageInfo,
    third: ImageInfo,
    field: SortField,
    direction: SortDirection,
)
    ensures
        in_order(first, second, field, direction) || in_order(second, first, field, direction),
        in_order(first, second, field, direction) && in_order(second, third, field, direction)
            ==> in_order(first, third, field, direction),
{
    let a = encode_utf8(first.name@);
    let b = encode_utf8(second.name@);
    let c = encode_utf8(third.name@);
    lemma_bytes_le_total(a, b);
    if bytes_le(a, b) && bytes_le(b, c) {
        lemma_bytes_le_transitive(a, b, c);
    }
    if bytes_le(c, b) && bytes_le(b, a) {
        lemma_bytes_le_transitive(c, b, a);
    }
}

/// Compares two sequences of bytes.
fn bytes_le_exec(left: &[u8], right: &[u8]) -> (le: bool)
    ensures
        le == bytes_le(left@, right@),
{
    let mut i: usize = 0;
    assert(left@.skip(0) =~= left@ && right@.skip(0) =~= right@);
    while i < left.len() && i < right.len()
        invariant
            i <= left@.len(),
            i <= right@.len(),
            bytes_le(left@, right@) == bytes_le(left@.skip(i as int), right@.skip(i as int)),
        decreases left@.len() - i,
    {
        assert(left@.skip(i as int).drop_first() =~= left@.skip(i + 1));
        assert(right@.skip(i as int).drop_first() =~= right@.skip(i + 1));
        if left[i] != right[i] {
            return left[i] < right[i];
        }
        i += 1;
    }
    i == left.len()
}

/// Whether `left` may stand before `right` where `field` goes up.
fn key_le_exec(left: &ImageInfo, right: &ImageInfo, field: SortField) -> (le: bool)
    ensures
        le == key_le(*left, *right, field),
{
    match field {
        SortField::Name => bytes_le_exec(
            left.name.as_str().as_bytes(),
            right.name.as_str().as_bytes(),
        ),
        SortField::Time => left.modified <= right.modified,
        SortField::Size => left.size <= right.size,
    }
}

/// Compares two images for a listing sorted by `field` in the direction
/// `direction`: `Less` where only `left` may stand first, `Greater` where
/// only `right` may, `Equal` where either may.
pub fn compare_images(
    left: &ImageInfo,
    right: &ImageInfo,
    field: SortField,
    direction: SortDirection,
) -> (order: Ordering)
    ensures
        order != Ordering::Greater <==> in_order(*left, *right, field, direction),
        order != Ordering::Less <==> in_order(*right, *left, field, direction),
{
    let (first, second) = match direction {
        SortDirection::Ascending => (left, right),
        SortDirection::Descending => (right, left),
    };
    let before = key_le_exec(first, second, field);
    let after = key_le_exec(second, first, field);
    proof {
        lemma_in_order(*left, *right, *left, field, direction);
    }
    if before && after {
        Ordering::Equal
    } else if before {
        Ordering::Less
    } else {
        Ordering::Greater
    }
}

/// Sorts with `slice::sort_by`, which is handed `compare_images`. Trusted:
/// the result holds the images that were there, each as often as before;
/// any two of them stand in order; and those that tie keep the order that
/// they had.
#[verifier::external_body]
fn sort_by_rule(images: &mut Vec<ImageInfo>, field: SortField, direction: SortDirection)
    ensures
        final(images)@.to_multiset() == old(images)@.to_multiset(),
        is_sorted(final(images)@, field, direction),
        forall|probe: ImageInfo| #[trigger]
            ties_of(final(images)@, probe, field) == ties_of(old(images)@, probe, field),
{
    images.sort_by(|left, right| compare_images(left, right, field, direction));
}

/// Sorts a listing by `rule`, a field and a direction. Images that tie
/// keep their order; without a rule the listing stays as it is.
pub fn sort_images(images: &mut Vec<ImageInfo>, rule: Option<(SortField, SortDirection)>)
    ensures
        final(images)@.to_multiset() == old(images)@.to_multiset(),
        final(images)@.len() == old(images)@.len(),
        rule is None ==> final(images)@ == old(images)@,
        rule matches Some((field, direction)) ==> {
            &&& is_sorted(final(images)@, field, direction)
            &&& forall|probe: ImageInfo| #[trigger]
                ties_of(final(images)@, probe, field) == ties_of(old(images)@, probe, field)
        },
{
    match rule {
        Some((field, direction)) => {
            sort_by_rule(images, field, direction);
            proof {
                old(images)@.to_multiset_ensures();
                images@.to_multiset_ensures();
            }
        },
        None => {},
    }
}

} // verus!
