//! APPLICATIONS/GALLERY: shows the PNG images of the local storage,
//! sorted by name; swiping moves between them.

use vstd::prelude::*;
use vstd::string::StringSliceAdditionalSpecFns;
use super::Page;

verus! {

broadcast use vstd::seq_lib::group_to_multiset_ensures;

/// Opening the gallery shows the gallery page (after the caller has loaded
/// the image list).
pub fn open_app() -> (r: Page)
    ensures
        r == Page::Gallery,
{
    Page::Gallery
}

/// Byte-wise lexicographic order, the order of `str`: `a` sorts before `b`.
pub open spec fn bytes_lt(a: Seq<u8>, b: Seq<u8>) -> bool
    decreases a.len(),
{
    if a.len() == 0 {
        b.len() > 0
    } else if b.len() == 0 {
        false
    } else if a[0] != b[0] {
        a[0] < b[0]
    } else {
        bytes_lt(a.drop_first(), b.drop_first())
    }
}

pub open spec fn bytes_le(a: Seq<u8>, b: Seq<u8>) -> bool {
    a == b || bytes_lt(a, b)
}

/// Of two different byte strings one sorts before the other.
pub proof fn lemma_bytes_lt_total(a: Seq<u8>, b: Seq<u8>)
    ensures
        a == b || bytes_lt(a, b) || bytes_lt(b, a),
        !(bytes_lt(a, b) && bytes_lt(b, a)),
        !bytes_lt(a, a),
    decreases a.len(),
{
    if a.len() > 0 && b.len() > 0 {
        lemma_bytes_lt_total(a.drop_first(), b.drop_first());
        if a[0] == b[0] && a.drop_first() == b.drop_first() {
            assert(a =~= seq![a[0]] + a.drop_first());
            assert(b =~= seq![b[0]] + b.drop_first());
        }
    }
    if a.len() > 0 {
        lemma_bytes_lt_total(a.drop_first(), a.drop_first());
    }
}

/// The order is transitive.
pub proof fn lemma_bytes_lt_transitive(a: Seq<u8>, b: Seq<u8>, c: Seq<u8>)
    requires
        bytes_lt(a, b),
        bytes_lt(b, c),
    ensures
        bytes_lt(a, c),
    decreases a.len(),
{
    if a.len() > 0 && b.len() > 0 && c.len() > 0 && a[0] == b[0] && b[0] == c[0] {
        lemma_bytes_lt_transitive(a.drop_first(), b.drop_first(), c.drop_first());
    }
}

/// The UTF-8 bytes of a string.
pub open spec fn name_bytes(s: String) -> Seq<u8> {
    vstd::utf8::encode_utf8(s@)
}

/// Sorted by name, ties allowed.
pub open spec fn sorted_names(s: Seq<Seq<u8>>) -> bool {
    forall|i: int, j: int| 0 <= i < j < s.len() ==> bytes_le(#[trigger] s[i], #[trigger] s[j])
}

/// Whether `a` sorts no later than `b`.
fn name_le(a: &str, b: &str) -> (r: bool)
    ensures
        r == bytes_le(a.spec_bytes(), b.spec_bytes()),
{
    let x = a.as_bytes();
    let y = b.as_bytes();
    let mut i: usize = 0;
    proof {
        assert(x@.skip(0) =~= x@);
        assert(y@.skip(0) =~= y@);
    }
    while i < x.len() && i < y.len()
        invariant
            x@ == a.spec_bytes(),
            y@ == b.spec_bytes(),
            i <= x@.len(),
            i <= y@.len(),
            x@.take(i as int) == y@.take(i as int),
            bytes_lt(x@, y@) == bytes_lt(x@.skip(i as int), y@.skip(i as int)),
        decreases x@.len() - i,
    {
        if x[i] != y[i] {
            proof {
                assert(x@.skip(i as int)[0] == x@[i as int]);
                assert(y@.skip(i as int)[0] == y@[i as int]);
                if x@ == y@ {
                    assert(x@[i as int] == y@[i as int]);
                }
            }
            return x[i] < y[i];
        }
        proof {
            assert(x@.skip(i as int).drop_first() =~= x@.skip(i + 1));
            assert(y@.skip(i as int).drop_first() =~= y@.skip(i + 1));
            assert(x@.take(i + 1) =~= x@.take(i as int).push(x@[i as int]));
            assert(y@.take(i + 1) =~= y@.take(i as int).push(y@[i as int]));
        }
        i = i + 1;
    }
    proof {
        if i == x@.len() && i == y@.len() {
            assert(x@ =~= x@.take(i as int));
            assert(y@ =~= y@.take(i as int));
        }
        if x@ == y@ {
            lemma_bytes_lt_total(x@, y@);
        }
    }
    i == x.len()
}

/// Whether a file name ends in `.png`, in any letter case.
pub open spec fn is_png_name(b: Seq<u8>) -> bool {
    b.len() >= 4 && b[b.len() - 4] == 0x2e && (b[b.len() - 3] == 0x70 || b[b.len() - 3] == 0x50)
        && (b[b.len() - 2] == 0x6e || b[b.len() - 2] == 0x4e) && (b[b.len() - 1] == 0x67 || b[b.len()
        - 1] == 0x47)
}

fn png_name(s: &str) -> (r: bool)
    ensures
        r == is_png_name(s.spec_bytes()),
{
    let b = s.as_bytes();
    let n = b.len();
    if n < 4 {
        return false;
    }
    b[n - 4] == 0x2e && (b[n - 3] == 0x70 || b[n - 3] == 0x50) && (b[n - 2] == 0x6e || b[n - 2]
        == 0x4e) && (b[n - 1] == 0x67 || b[n - 1] == 0x47)
}

/// The names of the files (not directories) in a directory listing whose
/// names end in `.png`, in listing order.
pub open spec fn png_files(entries: Seq<(String, bool)>) -> Seq<Seq<u8>>
    decreases entries.len(),
{
    if entries.len() == 0 {
        seq![]
    } else {
        let rest = png_files(entries.drop_last());
        let (name, is_dir) = entries.last();
        if !is_dir && is_png_name(name_bytes(name)) {
            rest.push(name_bytes(name))
        } else {
            rest
        }
    }
}

/// Inserts `name` into the sorted `list`, after every name that sorts no
/// later than it.
fn insert_sorted(list: &mut Vec<String>, name: String)
    requires
        sorted_names(old(list)@.map_values(|s: String| name_bytes(s))),
    ensures
        sorted_names(final(list)@.map_values(|s: String| name_bytes(s))),
        final(list)@.map_values(|s: String| name_bytes(s)).to_multiset()
            == old(list)@.map_values(|s: String| name_bytes(s)).to_multiset().insert(name_bytes(name)),
{
    let ghost v0 = old(list)@.map_values(|s: String| name_bytes(s));
    let ghost x = name_bytes(name);
    let mut p: usize = 0;
    loop
        invariant
            list@ == old(list)@,
            p <= list@.len(),
            v0 == list@.map_values(|s: String| name_bytes(s)),
            x == name_bytes(name),
            forall|k: int| 0 <= k < p ==> bytes_le(#[trigger] v0[k], x),
        ensures
            p <= list@.len(),
            list@ == old(list)@,
            forall|k: int| 0 <= k < p ==> bytes_le(#[trigger] v0[k], x),
            p < list@.len() ==> !bytes_le(v0[p as int], x),
        decreases list@.len() - p,
    {
        if p >= list.len() {
            break;
        }
        let le = name_le(list[p].as_str(), name.as_str());
        proof {
            assert(v0[p as int] == name_bytes(list@[p as int]));
        }
        if !le {
            break;
        }
        p = p + 1;
    }
    proof {
        if p < v0.len() {
            assert(!bytes_le(v0[p as int], x));
            lemma_bytes_lt_total(v0[p as int], x);
            assert(bytes_lt(x, v0[p as int]));
        }
    }
    list.insert(p, name);
    proof {
        let v1 = list@.map_values(|s: String| name_bytes(s));
        assert(v1 =~= v0.insert(p as int, x));
        assert forall|i: int, j: int| 0 <= i < j < v1.len() implies bytes_le(#[trigger] v1[i], #[trigger] v1[j]) by {
            if j < p {
                assert(v1[i] == v0[i] && v1[j] == v0[j]);
            } else if j == p {
                assert(v1[i] == v0[i]);
            } else if i > p {
                assert(v1[i] == v0[i - 1] && v1[j] == v0[j - 1]);
            } else if i == p {
                assert(v1[j] == v0[j - 1]);
                if j - 1 > p {
                    assert(bytes_le(v0[p as int], v0[j - 1]));
                    if v0[p as int] != v0[j - 1] {
                        lemma_bytes_lt_transitive(x, v0[p as int], v0[j - 1]);
                    }
                }
            } else {
                assert(v1[i] == v0[i] && v1[j] == v0[j - 1]);
                assert(bytes_le(v0[i], x));
                if j - 1 >= p {
                    assert(bytes_lt(x, v0[p as int]));
                    if j - 1 > p {
                        assert(bytes_le(v0[p as int], v0[j - 1]));
                    }
                    lemma_bytes_lt_total(v0[i], x);
                    if v0[i] == x {
                        if v0[p as int] != v0[j - 1] {
                            lemma_bytes_lt_transitive(x, v0[p as int], v0[j - 1]);
                        }
                    } else {
                        lemma_bytes_lt_transitive(v0[i], x, v0[p as int]);
                        if v0[p as int] != v0[j - 1] {
                            lemma_bytes_lt_transitive(v0[i], v0[p as int], v0[j - 1]);
                        }
                    }
                }
            }
        }
        vstd::seq_lib::to_multiset_insert(v0, p as int, x);
    }
}

/// The gallery's images: the PNG files of a directory listing (files
/// whose names end in `.png` in any letter case), sorted by name.
pub fn png_images(entries: &[(String, bool)]) -> (r: Vec<String>)
    ensures
        sorted_names(r@.map_values(|s: String| name_bytes(s))),
        r@.map_values(|s: String| name_bytes(s)).to_multiset() == png_files(entries@).to_multiset(),
{
    let mut out: Vec<String> = Vec::new();
    let mut i: usize = 0;
    proof {
        assert(out@.map_values(|s: String| name_bytes(s)) =~= Seq::<Seq<u8>>::empty());
        assert(entries@.take(0) =~= Seq::<(String, bool)>::empty());
    }
    while i < entries.len()
        invariant
            i <= entries@.len(),
            sorted_names(out@.map_values(|s: String| name_bytes(s))),
            out@.map_values(|s: String| name_bytes(s)).to_multiset() == png_files(entries@.take(i as int)).to_multiset(),
        decreases entries@.len() - i,
    {
        let (name, is_dir) = &entries[i];
        proof {
            assert(entries@.take(i + 1).drop_last() =~= entries@.take(i as int));
        }
        if !*is_dir && png_name(name.as_str()) {
            let copy = name.clone();
            proof {
                vstd::seq_lib::to_multiset_build(png_files(entries@.take(i as int)), name_bytes(copy));
            }
            insert_sorted(&mut out, copy);
        }
        i = i + 1;
    }
    proof {
        assert(entries@.take(entries@.len() as int) =~= entries@);
    }
    out
}

/// `bytes_le` is a total order.
pub proof fn lemma_bytes_le_total_ordering()
    ensures
        vstd::relations::total_ordering(|a: Seq<u8>, b: Seq<u8>| bytes_le(a, b)),
{
    let leq = |a: Seq<u8>, b: Seq<u8>| bytes_le(a, b);
    assert forall|a: Seq<u8>, b: Seq<u8>| #[trigger] leq(a, b) && #[trigger] leq(b, a) implies a == b by {
        lemma_bytes_lt_total(a, b);
    }
    assert forall|a: Seq<u8>, b: Seq<u8>, c: Seq<u8>| #[trigger] leq(a, b) && #[trigger] leq(b, c) implies leq(a, c) by {
        if a != b && b != c {
            lemma_bytes_lt_transitive(a, b, c);
        }
    }
    assert forall|a: Seq<u8>, b: Seq<u8>| #[trigger] leq(a, b) || #[trigger] leq(b, a) by {
        lemma_bytes_lt_total(a, b);
    }
}

/// The gallery's order depends only on which PNG files the listing holds:
/// two listings with the same PNG files, in any order, give the same
/// image list.
pub proof fn lemma_gallery_order_independent(a: Seq<(String, bool)>, b: Seq<(String, bool)>, ra: Seq<Seq<u8>>, rb: Seq<Seq<u8>>)
    requires
        png_files(a).to_multiset() == png_files(b).to_multiset(),
        sorted_names(ra),
        ra.to_multiset() == png_files(a).to_multiset(),
        sorted_names(rb),
        rb.to_multiset() == png_files(b).to_multiset(),
    ensures
        ra == rb,
{
    let leq = |x: Seq<u8>, y: Seq<u8>| bytes_le(x, y);
    lemma_bytes_le_total_ordering();
    assert(vstd::relations::sorted_by(ra, leq));
    assert(vstd::relations::sorted_by(rb, leq));
    vstd::seq_lib::lemma_sorted_unique(ra, rb, leq);
}

/// The number of images as the gallery counts it, in a `u8` (wrapping).
pub fn gallery_image_count(images: &[String]) -> (r: u8)
    ensures
        r == images@.len() % 256,
{
    (images.len() % 256) as u8
}

/// The image at `index`, if there is one.
pub fn gallery_image_at(images: &[String], index: u8) -> (r: Option<String>)
    ensures
        index < images@.len() ==> (r matches Some(s) && s@ == images@[index as int]@),
        index >= images@.len() ==> r is None,
{
    if (index as usize) < images.len() {
        Some(images[index as usize].clone())
    } else {
        None
    }
}

/// The gallery index after the list is loaded: back to the first image
/// when it points past the end of a non-empty list.
pub fn index_after_load(index: u8, count: u8) -> (r: u8)
    ensures
        r == if index >= count && count > 0 { 0 } else { index },
{
    if index >= count && count > 0 {
        0
    } else {
        index
    }
}

/// The gallery after it is opened: its page, its images and the index of
/// the image shown.
pub struct GalleryOpened {
    pub page: Page,
    pub images: Vec<String>,
    pub index: u8,
}

/// Opens the gallery with the storage's listing (`None` when it could not
/// be read): the gallery page is shown; with a listing, the images become
/// its PNG files sorted by name and an index past the end of a non-empty
/// list goes back to the first image; without one, the images and the
/// index stay as they were.
pub fn open_gallery(listing: Option<&[(String, bool)]>, images: Vec<String>, index: u8) -> (r: GalleryOpened)
    ensures
        r.page == Page::Gallery,
        match listing {
            Some(entries) => {
                &&& sorted_names(r.images@.map_values(|s: String| name_bytes(s)))
                &&& r.images@.map_values(|s: String| name_bytes(s)).to_multiset() == png_files(entries@).to_multiset()
                &&& r.index == (if index >= r.images@.len() % 256 && r.images@.len() % 256 > 0 { 0 } else { index })
            },
            None => r.images@ == images@ && r.index == index,
        },
{
    match listing {
        Some(entries) => {
            let loaded = png_images(entries);
            let count = gallery_image_count(loaded.as_slice());
            GalleryOpened { page: open_app(), images: loaded, index: index_after_load(index, count) }
        },
        None => GalleryOpened { page: open_app(), images, index },
    }
}

} // verus!
