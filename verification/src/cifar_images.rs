//! The CIFAR-10 image folders as items: each image file decoded into RGB
//! pixel values and labelled with the class of its folder.

use vstd::prelude::*;
use image::ImageFormat;
use crate::cifar_data::{CifarItem, NUM_CLASSES};

verus! {

/// What decoding the image file `bytes` gives, its format told by its file
/// name extension `extension`: its pixels as RGB bytes, row after row, with
/// its width and height; `None` when the extension names no format that
/// the decoder knows or `bytes` is no image of that format.
pub uninterp spec fn decoded_rgb(bytes: Seq<u8>, extension: Seq<char>) -> Option<(Seq<u8>, u32, u32)>;

/// Decodes an image file held in memory into RGB pixels, its format told
/// by its extension (`ImageFormat::from_extension`, then
/// `image::load_from_memory_with_format`, which reads with the default
/// limits as `image::open` does, then `DynamicImage::to_rgb8`, whose buffer
/// `dimensions` and `into_raw` give). Stated: the result is the decoding of
/// `bytes` with `extension` (named by `decoded_rgb`), and the buffer holds
/// at least three bytes per pixel, as every `ImageBuffer` does. The
/// decoding itself is not stated.
#[verifier::external_body]
fn decode_rgb8(bytes: &[u8], extension: &str) -> (r: Option<(Vec<u8>, u32, u32)>)
    ensures
        match r {
            Some((px, w, h)) => decoded_rgb(bytes@, extension@) == Some((px@, w, h)) && px@.len() >= 3 * w * h,
            None => decoded_rgb(bytes@, extension@) is None,
        },
{
    let format = match ImageFormat::from_extension(extension) {
        Some(f) => f,
        None => return None,
    };
    let img = match image::load_from_memory_with_format(bytes, format) {
        Ok(i) => i,
        Err(_) => return None,
    };
    let rgb = img.to_rgb8();
    let (w, h) = rgb.dimensions();
    Some((rgb.into_raw(), w, h))
}

/// The pixel values of an image file: the RGB bytes of its `w * h` pixels,
/// row after row; `None` when it does not decode. (A decoded buffer always
/// holds at least `3 * w * h` bytes.)
pub open spec fn file_pixels(bytes: Seq<u8>, extension: Seq<char>) -> Option<Seq<u8>> {
    match decoded_rgb(bytes, extension) {
        Some((px, w, h)) => if px.len() >= 3 * w * h {
            Some(px.take(3 * w * h))
        } else {
            None
        },
        None => None,
    }
}

/// The pixel values of an image file of `w * h` pixels are `3 * w * h`
/// bytes: red, green and blue of each pixel.
pub proof fn lemma_file_pixels_len(bytes: Seq<u8>, extension: Seq<char>)
    ensures
        file_pixels(bytes, extension) matches Some(p) ==> (decoded_rgb(bytes, extension) matches Some(
            (_, w, h),
        ) && p.len() == 3 * w * h),
{
}

/// The item of an image file of class `label`: its pixel values and the
/// class; `None` when the file does not decode.
pub fn cifar_item(bytes: &[u8], extension: &str, label: usize) -> (item: Option<CifarItem<u8>>)
    requires
        label < NUM_CLASSES,
    ensures
        match item {
            Some(it) => {
                &&& file_pixels(bytes@, extension@) == Some(it.pixels@)
                &&& it.label == label
                &&& decoded_rgb(bytes@, extension@) matches Some((_, w, h)) && it.pixels@.len() == 3 * w * h
            },
            None => file_pixels(bytes@, extension@) is None,
        },
{
    match decode_rgb8(bytes, extension) {
        Some((px, w, h)) => {
            let mut pixels = px;
            let len = pixels.len();
            assert(3 * w * h <= len);
            let wu = w as usize;
            let hu = h as usize;
            assert(wu * hu <= 3 * w * h) by (nonlinear_arith)
                requires
                    wu == w,
                    hu == h,
            ;
            let wh = wu * hu;
            assert(wh * 3 == 3 * w * h) by (nonlinear_arith)
                requires
                    wh == wu * hu,
                    wu == w,
                    hu == h,
            ;
            let n = wh * 3;
            pixels.truncate(n);
            Some(CifarItem { pixels, label: label as i64 })
        },
        None => None,
    }
}

/// An image file of a class folder, as read: its bytes and the extension
/// of its name (empty when it has none).
pub struct ImageFile {
    pub bytes: Vec<u8>,
    pub extension: String,
}

/// The items, as (pixels, class), of the first `m` files of the folder of
/// class `label`, in order, leaving out the files that do not decode.
pub open spec fn class_items(files: Seq<ImageFile>, label: int, m: int) -> Seq<(Seq<u8>, i64)>
    decreases m,
{
    if m <= 0 {
        Seq::empty()
    } else {
        class_items(files, label, m - 1) + match file_pixels(files[m - 1].bytes@, files[m - 1].extension@) {
            Some(px) => seq![(px, label as i64)],
            None => Seq::empty(),
        }
    }
}

/// The positions (class, file) among the first `m` files of the folder of
/// class `label` of the files that do not decode.
pub open spec fn class_failures(files: Seq<ImageFile>, label: int, m: int) -> Seq<(int, int)>
    decreases m,
{
    if m <= 0 {
        Seq::empty()
    } else {
        class_failures(files, label, m - 1) + if file_pixels(files[m - 1].bytes@, files[m - 1].extension@) is None {
            seq![(label, m - 1)]
        } else {
            Seq::empty()
        }
    }
}

/// The items of the first `k` class folders, class after class.
pub open spec fn folder_items(classes: Seq<Vec<ImageFile>>, k: int) -> Seq<(Seq<u8>, i64)>
    decreases k,
{
    if k <= 0 {
        Seq::empty()
    } else {
        folder_items(classes, k - 1) + class_items(classes[k - 1]@, k - 1, classes[k - 1]@.len() as int)
    }
}

/// The files of the first `k` class folders that do not decode.
pub open spec fn folder_failures(classes: Seq<Vec<ImageFile>>, k: int) -> Seq<(int, int)>
    decreases k,
{
    if k <= 0 {
        Seq::empty()
    } else {
        folder_failures(classes, k - 1) + class_failures(classes[k - 1]@, k - 1, classes[k - 1]@.len() as int)
    }
}

/// File `j` of `files` decodes into the pixels `px`.
pub open spec fn decodes_to(files: Seq<ImageFile>, j: int, px: Seq<u8>) -> bool {
    file_pixels(files[j].bytes@, files[j].extension@) == Some(px)
}

/// Each item of a class folder comes from one of its files that decodes
/// into the item's pixels, and carries the folder's class.
pub proof fn lemma_class_items_origin(files: Seq<ImageFile>, label: int, m: int)
    requires
        0 <= m <= files.len(),
    ensures
        forall|i: int|
            #![trigger class_items(files, label, m)[i]]
            0 <= i < class_items(files, label, m).len() ==> {
                &&& class_items(files, label, m)[i].1 == label as i64
                &&& exists|j: int| 0 <= j < m && #[trigger] decodes_to(files, j, class_items(files, label, m)[i].0)
            },
    decreases m,
{
    if m > 0 {
        lemma_class_items_origin(files, label, m - 1);
        let prev = class_items(files, label, m - 1);
        let cur = class_items(files, label, m);
        assert forall|i: int| #![trigger cur[i]] 0 <= i < cur.len() implies {
            &&& cur[i].1 == label as i64
            &&& exists|j: int| 0 <= j < m && #[trigger] decodes_to(files, j, cur[i].0)
        } by {
            if i < prev.len() {
                assert(cur[i] == prev[i]);
                let j = choose|j: int| 0 <= j < m - 1 && #[trigger] decodes_to(files, j, prev[i].0);
                assert(decodes_to(files, j, cur[i].0));
            } else {
                assert(decodes_to(files, m - 1, cur[i].0));
            }
        }
    }
}

/// Each item of the dataset comes from a file of the folder of its class
/// that decodes into the item's pixels; with `lemma_file_pixels_len`, the
/// item holds three values per pixel of that image.
pub proof fn lemma_folder_items_origin(classes: Seq<Vec<ImageFile>>, k: int)
    requires
        0 <= k <= classes.len(),
        classes.len() <= NUM_CLASSES,
    ensures
        forall|i: int|
            #![trigger folder_items(classes, k)[i]]
            0 <= i < folder_items(classes, k).len() ==> {
                let c = folder_items(classes, k)[i].1 as int;
                &&& 0 <= c < k
                &&& exists|j: int|
                    0 <= j < classes[c]@.len() && #[trigger] decodes_to(classes[c]@, j, folder_items(classes, k)[i].0)
            },
    decreases k,
{
    if k > 0 {
        lemma_folder_items_origin(classes, k - 1);
        let files = classes[k - 1]@;
        lemma_class_items_origin(files, k - 1, files.len() as int);
        let prev = folder_items(classes, k - 1);
        let tail = class_items(files, k - 1, files.len() as int);
        let cur = folder_items(classes, k);
        assert(cur == prev + tail);
        assert forall|i: int| #![trigger cur[i]] 0 <= i < cur.len() implies {
            let c = cur[i].1 as int;
            &&& 0 <= c < k
            &&& exists|j: int| 0 <= j < classes[c]@.len() && #[trigger] decodes_to(classes[c]@, j, cur[i].0)
        } by {
            if i < prev.len() {
                assert(cur[i] == prev[i]);
                let c = prev[i].1 as int;
                let j = choose|j: int| 0 <= j < classes[c]@.len() && #[trigger] decodes_to(classes[c]@, j, prev[i].0);
                assert(decodes_to(classes[c]@, j, cur[i].0));
            } else {
                let t = i - prev.len();
                assert(cur[i] == tail[t]);
                let j = choose|j: int| 0 <= j < files.len() && #[trigger] decodes_to(files, j, tail[t].0);
                assert(decodes_to(classes[k - 1]@, j, cur[i].0));
            }
        }
    }
}

/// An item as plain values: its pixels and its class.
pub open spec fn item_view(it: CifarItem<u8>) -> (Seq<u8>, i64) {
    (it.pixels@, it.label)
}

/// A position as plain values.
pub open spec fn position_view(p: (usize, usize)) -> (int, int) {
    (p.0 as int, p.1 as int)
}

/// Builds the dataset from the files of the class folders, `classes[c]`
/// holding the files of the folder of class `c`: each file that decodes
/// becomes an item labelled `c`, folder after folder and file after file.
/// Also returns the positions (class, file) of the files left out because
/// they do not decode.
pub fn items_from_folders(classes: &Vec<Vec<ImageFile>>) -> (r: (Vec<CifarItem<u8>>, Vec<(usize, usize)>))
    requires
        classes@.len() <= NUM_CLASSES,
    ensures
        r.0@.map_values(|it: CifarItem<u8>| item_view(it)) == folder_items(classes@, classes@.len() as int),
        r.1@.map_values(|p: (usize, usize)| position_view(p)) == folder_failures(
            classes@,
            classes@.len() as int,
        ),
        forall|i: int|
            #![trigger r.0@[i]]
            0 <= i < r.0@.len() ==> {
                let c = r.0@[i].label as int;
                &&& 0 <= c < classes@.len()
                &&& exists|j: int|
                    0 <= j < classes@[c]@.len() && #[trigger] decodes_to(classes@[c]@, j, r.0@[i].pixels@)
            },
{
    let mut items: Vec<CifarItem<u8>> = Vec::new();
    let mut failures: Vec<(usize, usize)> = Vec::new();
    let mut c: usize = 0;
    while c < classes.len()
        invariant
            classes@.len() <= NUM_CLASSES,
            0 <= c <= classes@.len(),
            items@.map_values(|it: CifarItem<u8>| item_view(it)) == folder_items(classes@, c as int),
            failures@.map_values(|p: (usize, usize)| position_view(p)) == folder_failures(classes@, c as int),
        decreases classes@.len() - c,
    {
        let files = &classes[c];
        let ghost items0 = items@.map_values(|it: CifarItem<u8>| item_view(it));
        let ghost fails0 = failures@.map_values(|p: (usize, usize)| position_view(p));
        let mut j: usize = 0;
        while j < files.len()
            invariant
                c < classes@.len(),
                classes@.len() <= NUM_CLASSES,
                files == classes@[c as int],
                0 <= j <= files@.len(),
                items@.map_values(|it: CifarItem<u8>| item_view(it)) == items0 + class_items(
                    files@,
                    c as int,
                    j as int,
                ),
                failures@.map_values(|p: (usize, usize)| position_view(p)) == fails0 + class_failures(
                    files@,
                    c as int,
                    j as int,
                ),
            decreases files@.len() - j,
        {
            let file = &files[j];
            let ghost before_items = items@;
            let ghost before_fails = failures@;
            match cifar_item(file.bytes.as_slice(), file.extension.as_str(), c) {
                Some(it) => {
                    let ghost v = item_view(it);
                    items.push(it);
                    assert(items@.map_values(|it: CifarItem<u8>| item_view(it)) =~= before_items.map_values(
                        |it: CifarItem<u8>| item_view(it),
                    ).push(v));
                    assert(class_items(files@, c as int, j + 1) =~= class_items(files@, c as int, j as int).push(v));
                    assert(class_failures(files@, c as int, j + 1) =~= class_failures(files@, c as int, j as int));
                },
                None => {
                    failures.push((c, j));
                    assert(failures@.map_values(|p: (usize, usize)| position_view(p)) =~= before_fails.map_values(
                        |p: (usize, usize)| position_view(p),
                    ).push((c as int, j as int)));
                    assert(class_items(files@, c as int, j + 1) =~= class_items(files@, c as int, j as int));
                    assert(class_failures(files@, c as int, j + 1) =~= class_failures(files@, c as int, j as int).push(
                        (c as int, j as int),
                    ));
                },
            }
            j = j + 1;
        }
        assert(folder_items(classes@, c + 1) =~= items0 + class_items(files@, c as int, files@.len() as int));
        assert(folder_failures(classes@, c + 1) =~= fails0 + class_failures(files@, c as int, files@.len() as int));
        c = c + 1;
    }
    proof {
        lemma_folder_items_origin(classes@, classes@.len() as int);
        assert forall|i: int| #![trigger items@[i]] 0 <= i < items@.len() implies {
            let c = items@[i].label as int;
            &&& 0 <= c < classes@.len()
            &&& exists|j: int|
                0 <= j < classes@[c]@.len() && #[trigger] decodes_to(classes@[c]@, j, items@[i].pixels@)
        } by {
            assert(items@.map_values(|it: CifarItem<u8>| item_view(it))[i] == item_view(items@[i]));
            assert(folder_items(classes@, classes@.len() as int)[i] == item_view(items@[i]));
        }
    }
    (items, failures)
}

} // verus!
