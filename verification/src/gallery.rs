//! The files of a folder of cached images: which names are images, which
//! images are versions of one picture, and which of them is shown.

use crate::text::{
    alphanumeric, byte_len, chars_of, ends_with, ends_with_text, is_alphanumeric, lowercase,
    same_text, to_lowercase, trimmed_end, trimmed_len,
};
use vstd::hash_map::StringHashMap;
use vstd::prelude::*;

verus! {

/// The part of a file name that names the picture: the name without the
/// extension `.dat` and without the marks `_t` of a thumbnail and `_h` of
/// the full-size version, taken off in this order.
pub open spec fn file_hash(filename: Seq<char>) -> Seq<char> {
    trimmed_end(trimmed_end(trimmed_end(filename, ".dat"@), "_t"@), "_h"@)
}

/// The rank of a version by its lower-case file name: 0 for a thumbnail,
/// 2 for the full-size version, 1 for the one between them. The lower the
/// rank, the sooner the version is shown.
pub open spec fn priority_of(lower: Seq<char>) -> u8 {
    if ends_with(lower, "_t.dat"@) || ends_with(lower, "_t"@) {
        0
    } else if ends_with(lower, "_h.dat"@) || ends_with(lower, "_h"@) {
        2
    } else {
        1
    }
}

/// Whether a file name has the length of a name from the timeline cache:
/// without a mark `_t` at its end it is 30 or 32 bytes long.
pub open spec fn has_sns_name_length(filename: Seq<char>) -> bool {
    let name = trimmed_end(filename, "_t"@);
    byte_len(name) == 30 || byte_len(name) == 32
}

/// Whether a file name is that of an image from the timeline cache: without
/// a mark `_t` at its end it is 30 or 32 bytes long and made of letters and
/// digits only.
pub open spec fn is_sns_name(filename: Seq<char>) -> bool {
    let name = trimmed_end(filename, "_t"@);
    &&& has_sns_name_length(filename)
    &&& forall|i: int| 0 <= i < name.len() ==> alphanumeric(#[trigger] name[i])
}

/// An image file of the cache, as a folder listing shows it.
#[derive(Debug, Clone)]
pub struct ImageInfo {
    /// Path of the file, relative to the root folder.
    pub path: String,
    /// Name of the file.
    pub name: String,
    /// Size of the file in bytes.
    pub size: u64,
    /// Time of the last change, in seconds since 1970.
    pub modified: u64,
    /// Whether the file is a thumbnail.
    pub is_thumbnail: bool,
}

impl ImageInfo {
    /// The part of the name that names the picture.
    pub open spec fn spec_hash(&self) -> Seq<char> {
        file_hash(self.name@)
    }

    /// The rank of this version of the picture.
    pub open spec fn spec_priority(&self) -> u8 {
        priority_of(lowercase(self.name@))
    }
}

/// The index of the first image of `images` that shows the picture `hash`;
/// the length of `images` where there is none.
pub open spec fn group_index(images: Seq<ImageInfo>, hash: Seq<char>) -> int
    decreases images.len(),
{
    if images.len() == 0 {
        0
    } else if images[0].spec_hash() == hash {
        0
    } else {
        1 + group_index(images.drop_first(), hash)
    }
}

/// One version of each picture of `images`. The images are gone through in
/// order: the first version of a picture takes a place at the end, and a
/// later version takes the place of an earlier one where its rank is lower.
pub open spec fn deduplicated(images: Seq<ImageInfo>) -> Seq<ImageInfo>
    decreases images.len(),
{
    if images.len() == 0 {
        Seq::empty()
    } else {
        let kept = deduplicated(images.drop_last());
        let image = images.last();
        let at = group_index(kept, image.spec_hash());
        if at == kept.len() {
            kept.push(image)
        } else if image.spec_priority() < kept[at].spec_priority() {
            kept.update(at, image)
        } else {
            kept
        }
    }
}

/// Whether `images[k]` is the version that is shown of its picture: no
/// version of the picture has a lower rank, and none before it has the same.
pub open spec fn is_shown(images: Seq<ImageInfo>, k: int) -> bool {
    forall|j: int|
        0 <= j < images.len() && #[trigger] images[j].spec_hash() == images[k].spec_hash() ==> {
            ||| images[k].spec_priority() < images[j].spec_priority()
            ||| images[k].spec_priority() == images[j].spec_priority() && k <= j
        }
}

/// Whether no two images of `images` show the same picture.
pub open spec fn distinct_pictures(images: Seq<ImageInfo>) -> bool {
    forall|m: int, n: int|
        0 <= m < n < images.len() ==> #[trigger] images[m].spec_hash()
            != #[trigger] images[n].spec_hash()
}

/// What `group_index` finds: the first image with the hash, and no image
/// where it gives the length.
pub proof fn lemma_group_index(images: Seq<ImageInfo>, hash: Seq<char>)
    ensures
        0 <= group_index(images, hash) <= images.len(),
        group_index(images, hash) < images.len() ==> images[group_index(
            images,
            hash,
        )].spec_hash() == hash,
        forall|j: int|
            0 <= j < group_index(images, hash) ==> (#[trigger] images[j]).spec_hash() != hash,
    decreases images.len(),
{
    if images.len() > 0 && images[0].spec_hash() != hash {
        let rest = images.drop_first();
        lemma_group_index(rest, hash);
        assert forall|j: int| 0 <= j < group_index(images, hash) implies (
        #[trigger] images[j]).spec_hash() != hash by {
            if j > 0 {
                assert(rest[j - 1] == images[j]);
            }
        }
    }
}

/// Whether `kept` holds the version that is shown of each picture of
/// `images`, once each, and nothing else.
pub open spec fn shows_each_picture_once(images: Seq<ImageInfo>, kept: Seq<ImageInfo>) -> bool {
    &&& distinct_pictures(kept)
    &&& forall|m: int|
        0 <= m < kept.len() ==> exists|k: int|
            0 <= k < images.len() && is_shown(images, k) && images[k] == #[trigger] kept[m]
    &&& forall|j: int|
        0 <= j < images.len() ==> group_index(kept, (#[trigger] images[j]).spec_hash())
            < kept.len()
}

/// A shown version stays the shown one when an image is added that shows
/// another picture or has no lower rank.
proof fn lemma_shown_stays(images: Seq<ImageInfo>, k: int)
    requires
        images.len() > 0,
        0 <= k < images.len() - 1,
        is_shown(images.drop_last(), k),
        images.last().spec_hash() != images[k].spec_hash() || images[k].spec_priority()
            <= images.last().spec_priority(),
    ensures
        is_shown(images, k),
{
    let before = images.drop_last();
    assert forall|j: int|
        0 <= j < images.len() && #[trigger] images[j].spec_hash()
            == images[k].spec_hash() implies images[k].spec_priority() < images[j].spec_priority()
        || (images[k].spec_priority() == images[j].spec_priority() && k <= j) by {
        if j < before.len() {
            assert(before[j].spec_hash() == before[k].spec_hash());
        }
    }
}

/// Where a picture has a version in `kept`, `group_index` finds one.
proof fn lemma_group_found(kept: Seq<ImageInfo>, hash: Seq<char>, m: int)
    requires
        0 <= m < kept.len(),
        kept[m].spec_hash() == hash,
    ensures
        group_index(kept, hash) < kept.len(),
{
    lemma_group_index(kept, hash);
}

/// Deduplication keeps, of each picture, the version that is shown, once,
/// and nothing else; so it never returns more images than it was given.
pub proof fn lemma_deduplicated(images: Seq<ImageInfo>)
    ensures
        shows_each_picture_once(images, deduplicated(images)),
        deduplicated(images).len() <= images.len(),
    decreases images.len(),
{
    if images.len() > 0 {
        let before = images.drop_last();
        let image = images.last();
        let old_kept = deduplicated(before);
        let kept = deduplicated(images);
        let at = group_index(old_kept, image.spec_hash());
        lemma_deduplicated(before);
        lemma_group_index(old_kept, image.spec_hash());
        let replaced = at < old_kept.len() && image.spec_priority() < old_kept[at].spec_priority();
        // The hashes of the kept images stay; at most one is added.
        assert forall|m: int| 0 <= m < old_kept.len() implies (#[trigger] kept[m]).spec_hash()
            == old_kept[m].spec_hash() by {}
        assert(distinct_pictures(kept)) by {
            assert forall|m: int, n: int| 0 <= m < n < kept.len() implies (
            #[trigger] kept[m]).spec_hash() != (#[trigger] kept[n]).spec_hash() by {
                if n < old_kept.len() {
                    assert(old_kept[m].spec_hash() != old_kept[n].spec_hash());
                } else {
                    assert(old_kept[m].spec_hash() != image.spec_hash());
                }
            }
        }
        assert forall|m: int| 0 <= m < kept.len() implies exists|k: int|
            0 <= k < images.len() && is_shown(images, k) && images[k] == #[trigger] kept[m] by {
            if m < old_kept.len() && !(m == at && replaced) {
                let k = choose|k: int|
                    0 <= k < before.len() && is_shown(before, k) && before[k] == old_kept[m];
                if m != at {
                    if at < old_kept.len() {
                        assert(old_kept[m].spec_hash() != old_kept[at].spec_hash());
                    }
                }
                lemma_shown_stays(images, k);
                assert(images[k] == kept[m]);
            } else {
                let k = images.len() - 1;
                assert forall|j: int|
                    0 <= j < images.len() && #[trigger] images[j].spec_hash()
                        == images[k].spec_hash() implies images[k].spec_priority()
                    < images[j].spec_priority() || (images[k].spec_priority()
                    == images[j].spec_priority() && k <= j) by {
                    if j < k {
                        assert(before[j].spec_hash() == image.spec_hash());
                        assert(group_index(old_kept, before[j].spec_hash()) < old_kept.len());
                        let first = choose|first: int|
                            0 <= first < before.len() && is_shown(before, first) && before[first]
                                == old_kept[at];
                        assert(before[j].spec_hash() == before[first].spec_hash());
                    }
                }
                assert(is_shown(images, k));
                assert(images[k] == kept[m]);
            }
        }
        assert forall|j: int| 0 <= j < images.len() implies group_index(
            kept,
            (#[trigger] images[j]).spec_hash(),
        ) < kept.len() by {
            if j < before.len() {
                let found = group_index(old_kept, before[j].spec_hash());
                lemma_group_index(old_kept, before[j].spec_hash());
                assert(kept[found].spec_hash() == images[j].spec_hash());
                lemma_group_found(kept, images[j].spec_hash(), found);
            } else {
                assert(kept[at].spec_hash() == images[j].spec_hash());
                lemma_group_found(kept, images[j].spec_hash(), at);
            }
        }
    } else {
        assert(deduplicated(images).len() == 0);
    }
}

/// The version that is shown of a picture is among the deduplicated images,
/// where `group_index` finds its picture.
pub proof fn lemma_shown_version_is_kept(images: Seq<ImageInfo>, k: int)
    requires
        0 <= k < images.len(),
        is_shown(images, k),
    ensures
        group_index(deduplicated(images), images[k].spec_hash()) < deduplicated(images).len(),
        deduplicated(images)[group_index(deduplicated(images), images[k].spec_hash())]
            == images[k],
{
    let kept = deduplicated(images);
    lemma_deduplicated(images);
    let at = group_index(kept, images[k].spec_hash());
    lemma_group_index(kept, images[k].spec_hash());
    let other = choose|other: int|
        0 <= other < images.len() && is_shown(images, other) && images[other] == kept[at];
    assert(images[other].spec_hash() == images[k].spec_hash());
    assert(other == k);
}

/// Whether a file name is that of an image of the cache: it ends in
/// `.dat`, in any mix of upper and lower case, or is a name of the timeline
/// cache.
pub open spec fn is_image_name(filename: Seq<char>) -> bool {
    ends_with(lowercase(filename), ".dat"@) || is_sns_name(filename)
}

/// Whether a file name is that of a thumbnail: it ends in `_t.dat`, in any
/// mix of upper and lower case, or in `_t`.
pub open spec fn is_thumbnail_name(filename: Seq<char>) -> bool {
    ends_with(lowercase(filename), "_t.dat"@) || ends_with(filename, "_t"@)
}

/// Where the page `page` of a listing of `total` entries starts, with
/// `page_size` entries to a page and pages counted from zero.
pub open spec fn page_start(total: int, page: int, page_size: int) -> int {
    if page * page_size < total {
        page * page_size
    } else {
        total
    }
}

/// Where the page `page` of a listing of `total` entries ends.
pub open spec fn page_end(total: int, page: int, page_size: int) -> int {
    if page * page_size + page_size < total {
        page * page_size + page_size
    } else {
        total
    }
}

/// What a listing is sorted by.
#[derive(Debug, Clone, Copy, PartialEq, Eq, Structural)]
pub enum SortField {
    /// The name of the file.
    Name,
    /// The time of the last change.
    Time,
    /// The size of the file.
    Size,
}

/// The direction in which a listing is sorted.
#[derive(Debug, Clone, Copy, PartialEq, Eq, Structural)]
pub enum SortDirection {
    /// From the least to the greatest.
    Ascending,
    /// From the greatest to the least.
    Descending,
}

/// The field with the name `sort_by`: `name`, `time` or `size`.
pub open spec fn sort_field_named(sort_by: Seq<char>) -> Option<SortField> {
    if sort_by == "name"@ {
        Some(SortField::Name)
    } else if sort_by == "time"@ {
        Some(SortField::Time)
    } else if sort_by == "size"@ {
        Some(SortField::Size)
    } else {
        None
    }
}

/// The direction with the name `sort_order`: `asc` or `desc`.
pub open spec fn sort_direction_named(sort_order: Seq<char>) -> Option<SortDirection> {
    if sort_order == "asc"@ {
        Some(SortDirection::Ascending)
    } else if sort_order == "desc"@ {
        Some(SortDirection::Descending)
    } else {
        None
    }
}

/// How a listing is sorted: by a field in a direction where both names are
/// known, and not at all otherwise.
pub open spec fn sort_rule_named(sort_by: Seq<char>, sort_order: Seq<char>) -> Option<
    (SortField, SortDirection),
> {
    match (sort_field_named(sort_by), sort_direction_named(sort_order)) {
        (Some(field), Some(direction)) => Some((field, direction)),
        _ => None,
    }
}

/// Whether a file stands in the plain listing of a folder, and if so
/// whether as a thumbnail: it has the name of an image, and is a thumbnail
/// where that name ends in `_t.dat`, in any mix of upper and lower case.
pub open spec fn listed_in_folder_as(filename: Seq<char>) -> Option<bool> {
    if is_image_name(filename) {
        Some(ends_with(lowercase(filename), "_t.dat"@))
    } else {
        None
    }
}

/// Whether a file stands in a page of a listing, and if so whether as a
/// thumbnail: it has the name of an image, and is no thumbnail where
/// thumbnails are hidden.
pub open spec fn listed_as(filename: Seq<char>, hide_thumbnails: bool) -> Option<bool> {
    if !is_image_name(filename) {
        None
    } else if hide_thumbnails && is_thumbnail_name(filename) {
        None
    } else {
        Some(is_thumbnail_name(filename))
    }
}

/// The part of a file name that names the picture.
pub fn extract_hash_from_filename(filename: &str) -> (hash: String)
    ensures
        hash@ == file_hash(filename@),
{
    let chars = chars_of(filename);
    let extension = chars_of(".dat");
    let thumbnail = chars_of("_t");
    let full_size = chars_of("_h");
    assert(chars@.take(chars@.len() as int) =~= chars@);
    let kept = trimmed_len(chars.as_slice(), chars.len(), extension.as_slice());
    let kept = trimmed_len(chars.as_slice(), kept, thumbnail.as_slice());
    let kept = trimmed_len(chars.as_slice(), kept, full_size.as_slice());
    String::from_str(filename.substring_char(0, kept))
}

/// The rank of a version by its file name, in any mix of upper and lower
/// case.
pub fn get_image_priority(filename: &str) -> (priority: u8)
    ensures
        priority == priority_of(lowercase(filename@)),
{
    let lower = to_lowercase(filename);
    priority_of_lowercase(lower.as_str())
}

/// The rank of a version by its lower-case file name.
pub fn priority_of_lowercase(lower: &str) -> (priority: u8)
    ensures
        priority == priority_of(lower@),
{
    if ends_with_text(lower, "_t.dat") || ends_with_text(lower, "_t") {
        0
    } else if ends_with_text(lower, "_h.dat") || ends_with_text(lower, "_h") {
        2
    } else {
        1
    }
}

/// Whether a file name has the length of a name from the timeline cache.
pub fn has_sns_length(filename: &str) -> (fits: bool)
    ensures
        fits == has_sns_name_length(filename@),
{
    let chars = chars_of(filename);
    let thumbnail = chars_of("_t");
    assert(chars@.take(chars@.len() as int) =~= chars@);
    let kept = trimmed_len(chars.as_slice(), chars.len(), thumbnail.as_slice());
    let len = filename.substring_char(0, kept).as_bytes().len();
    len == 30 || len == 32
}

/// Whether a file name is that of an image from the timeline cache.
pub fn is_valid_sns_filename(filename: &str) -> (valid: bool)
    ensures
        valid == is_sns_name(filename@),
{
    if !has_sns_length(filename) {
        return false;
    }
    let chars = chars_of(filename);
    let thumbnail = chars_of("_t");
    assert(chars@.take(chars@.len() as int) =~= chars@);
    let kept = trimmed_len(chars.as_slice(), chars.len(), thumbnail.as_slice());
    let ghost name = trimmed_end(filename@, "_t"@);
    let mut i: usize = 0;
    while i < kept
        invariant
            i <= kept <= chars@.len(),
            name == chars@.take(kept as int),
            name == trimmed_end(filename@, "_t"@),
            forall|j: int| 0 <= j < i ==> alphanumeric(#[trigger] name[j]),
        decreases kept - i,
    {
        if !is_alphanumeric(chars[i]) {
            assert(name[i as int] == chars@[i as int]);
            return false;
        }
        i += 1;
    }
    true
}

/// Whether `index` tells for every picture of `kept` where its version
/// stands, and for no other.
spec fn index_matches(index: Map<Seq<char>, usize>, kept: Seq<ImageInfo>) -> bool {
    &&& forall|hash: Seq<char>| #[trigger]
        index.contains_key(hash) ==> index[hash] < kept.len()
            && kept[index[hash] as int].spec_hash() == hash
    &&& forall|m: int|
        0 <= m < kept.len() ==> index.contains_key((#[trigger] kept[m]).spec_hash())
            && index[kept[m].spec_hash()] == m
}

/// Under a matching index, `group_index` is what the index holds.
proof fn lemma_index_gives_group(
    index: Map<Seq<char>, usize>,
    kept: Seq<ImageInfo>,
    hash: Seq<char>,
)
    requires
        index_matches(index, kept),
    ensures
        index.contains_key(hash) ==> group_index(kept, hash) == index[hash],
        !index.contains_key(hash) ==> group_index(kept, hash) == kept.len(),
{
    lemma_group_index(kept, hash);
    let at = group_index(kept, hash);
    if at < kept.len() {
        assert(index.contains_key(kept[at].spec_hash()));
    }
    if index.contains_key(hash) {
        let m = index[hash] as int;
        assert(kept[m].spec_hash() == hash);
        assert(index[kept[at].spec_hash()] == at);
    }
}

/// Keeps one version of each picture: the one of the lowest rank, and of
/// several with that rank the first. The versions stand in the order in
/// which their pictures first occur.
pub fn deduplicate_images_by_hash(images: Vec<ImageInfo>) -> (kept: Vec<ImageInfo>)
    ensures
        kept@ == deduplicated(images@),
{
    let mut kept: Vec<ImageInfo> = Vec::new();
    let mut index: StringHashMap<usize> = StringHashMap::new();
    let ghost all = images@;
    for image in it: images
        invariant
            it.seq() == all,
            kept@ == deduplicated(all.take(it.index())),
            index_matches(index@, kept@),
    {
        let ghost before = all.take(it.index());
        let ghost after = all.take(it.index() + 1);
        proof {
            assert(after.drop_last() =~= before);
            assert(after.last() == image);
        }
        let hash = extract_hash_from_filename(image.name.as_str());
        proof {
            lemma_index_gives_group(index@, kept@, hash@);
        }
        let found = match index.get(hash.as_str()) {
            Some(at) => Some(*at),
            None => None,
        };
        match found {
            None => {
                index.insert(hash, kept.len());
                kept.push(image);
            },
            Some(at) => {
                let priority = get_image_priority(image.name.as_str());
                let existing = get_image_priority(kept[at].name.as_str());
                if priority < existing {
                    kept.set(at, image);
                }
            },
        }
    }
    assert(all.take(all.len() as int) =~= all);
    kept
}

/// Whether a file name is that of an image of the cache.
pub fn is_image_filename(filename: &str) -> (image: bool)
    ensures
        image == is_image_name(filename@),
{
    let lower = to_lowercase(filename);
    ends_with_text(lower.as_str(), ".dat") || is_valid_sns_filename(filename)
}

/// Whether a file name is that of a thumbnail.
pub fn is_thumbnail_filename(filename: &str) -> (thumbnail: bool)
    ensures
        thumbnail == is_thumbnail_name(filename@),
{
    let lower = to_lowercase(filename);
    ends_with_text(lower.as_str(), "_t.dat") || ends_with_text(filename, "_t")
}

/// Decides whether a file stands in the plain listing of a folder, and if
/// so whether as a thumbnail.
pub fn folder_entry(filename: &str) -> (listed: Option<bool>)
    ensures
        listed == listed_in_folder_as(filename@),
{
    if is_image_filename(filename) {
        let lower = to_lowercase(filename);
        Some(ends_with_text(lower.as_str(), "_t.dat"))
    } else {
        None
    }
}

/// Decides whether a file stands in a page of a listing, and if so whether
/// as a thumbnail.
pub fn list_entry(filename: &str, hide_thumbnails: bool) -> (listed: Option<bool>)
    ensures
        listed == listed_as(filename@, hide_thumbnails),
{
    if !is_image_filename(filename) {
        return None;
    }
    let thumbnail = is_thumbnail_filename(filename);
    if hide_thumbnails && thumbnail {
        None
    } else {
        Some(thumbnail)
    }
}

/// Reads how a listing is to be sorted from the two names that the user
/// interface sends.
pub fn sort_rule(sort_by: &str, sort_order: &str) -> (rule: Option<(SortField, SortDirection)>)
    ensures
        rule == sort_rule_named(sort_by@, sort_order@),
{
    let field = if same_text(sort_by, "name") {
        SortField::Name
    } else if same_text(sort_by, "time") {
        SortField::Time
    } else if same_text(sort_by, "size") {
        SortField::Size
    } else {
        return None;
    };
    if same_text(sort_order, "asc") {
        Some((field, SortDirection::Ascending))
    } else if same_text(sort_order, "desc") {
        Some((field, SortDirection::Descending))
    } else {
        None
    }
}

/// The entries of one page of a listing: the index of its first entry, the
/// index behind its last, and whether entries follow. A page behind the
/// end of the listing is empty.
pub fn page_range(total: usize, page: usize, page_size: usize) -> (range: (usize, usize, bool))
    ensures
        range.0 == page_start(total as int, page as int, page_size as int),
        range.1 == page_end(total as int, page as int, page_size as int),
        range.2 == (range.1 < total),
        range.0 <= range.1 <= total,
        range.1 - range.0 <= page_size,
{
    let start = match page.checked_mul(page_size) {
        Some(start) => start,
        None => {
            return (total, total, false);
        },
    };
    if start >= total {
        return (total, total, false);
    }
    let end = if page_size >= total - start {
        total
    } else {
        start + page_size
    };
    (start, end, end < total)
}

/// The images of one page of a listing, and whether images follow.
pub fn take_page(images: Vec<ImageInfo>, page: usize, page_size: usize) -> (taken: (
    Vec<ImageInfo>,
    bool,
))
    ensures
        taken.0@ == images@.subrange(
            page_start(images@.len() as int, page as int, page_size as int),
            page_end(images@.len() as int, page as int, page_size as int),
        ),
        taken.1 == (page_end(images@.len() as int, page as int, page_size as int)
            < images@.len()),
{
    let mut images = images;
    let (start, end, has_more) = page_range(images.len(), page, page_size);
    images.truncate(end);
    let page_images = images.split_off(start);
    (page_images, has_more)
}

} // verus!
