//! CIFAR-10 data: the training constants, the class folders, and how a
//! batch of images is laid out before it becomes tensors.

use vstd::prelude::*;

verus! {

/// Images per batch.
pub const BATCH_SIZE: usize = 64;

/// Epochs between two evaluations with confusion matrices.
pub const VALIDATION_INTERVAL: usize = 2;

/// Epochs between two checkpoints saved to disk.
pub const CHECKPOINT_INTERVAL: usize = 5;

/// Classes of CIFAR-10, the side of the confusion matrix.
pub const NUM_CLASSES: usize = 10;

/// Values of one flattened image: 3 channels of 32 x 32 pixels.
pub const IMAGE_VALUES: usize = 3072;

/// Folder of the training images, one subfolder per class.
pub const TRAIN_DATASET_PATH: &'static str = "cifar10_images/train";

/// Folder of the test images, one subfolder per class.
pub const TEST_DATASET_PATH: &'static str = "cifar10_images/test";

/// The name of the subfolder that holds the images of class `label`.
pub open spec fn spec_class_folder(label: nat) -> Seq<char> {
    if label == 0 {
        "airplane"@
    } else if label == 1 {
        "automobile"@
    } else if label == 2 {
        "bird"@
    } else if label == 3 {
        "cat"@
    } else if label == 4 {
        "deer"@
    } else if label == 5 {
        "dog"@
    } else if label == 6 {
        "frog"@
    } else if label == 7 {
        "horse"@
    } else if label == 8 {
        "ship"@
    } else {
        "truck"@
    }
}

/// The subfolder of the images of class `label`; the class of an image is
/// the position of its folder in this list.
pub fn class_folder(label: usize) -> (name: &'static str)
    requires
        label < NUM_CLASSES,
    ensures
        name@ == spec_class_folder(label as nat),
{
    match label {
        0 => "airplane",
        1 => "automobile",
        2 => "bird",
        3 => "cat",
        4 => "deer",
        5 => "dog",
        6 => "frog",
        7 => "horse",
        8 => "ship",
        _ => "truck",
    }
}

/// One image of the dataset: its flattened pixel values and its class.
#[derive(Clone, Debug)]
pub struct CifarItem<P> {
    pub pixels: Vec<P>,
    pub label: i64,
}

/// The pixel values of `items`, one image after the other.
pub open spec fn concat_pixels<P>(items: Seq<CifarItem<P>>) -> Seq<P>
    decreases items.len(),
{
    if items.len() == 0 {
        Seq::empty()
    } else {
        concat_pixels(items.drop_last()) + items.last().pixels@
    }
}

/// Every image of `items` has exactly `IMAGE_VALUES` values.
pub open spec fn all_full_images<P>(items: Seq<CifarItem<P>>) -> bool {
    forall|i: int| 0 <= i < items.len() ==> (#[trigger] items[i]).pixels@.len() == IMAGE_VALUES
}

/// A batch before it becomes tensors: the images as rows of
/// `IMAGE_VALUES` values, one after the other, and the class of each.
pub struct CifarBatch<P> {
    pub images: Vec<P>,
    pub targets: Vec<i32>,
}

/// Turns dataset items into batches.
pub struct CifarBatcher {}

impl CifarBatcher {
    /// Lays the images of `items` out as one row each, in order, and takes
    /// the class of each as an `i32` (as the cast `label as i32` does).
    pub fn batch<P: Copy>(&self, items: &Vec<CifarItem<P>>) -> (b: CifarBatch<P>)
        requires
            all_full_images(items@),
            items@.len() * IMAGE_VALUES <= usize::MAX,
        ensures
            b.images@ == concat_pixels(items@),
            b.images@.len() == items@.len() * IMAGE_VALUES,
            b.targets@.len() == items@.len(),
            forall|i: int| 0 <= i < items@.len() ==> #[trigger] b.targets@[i] == items@[i].label as i32,
    {
        let n = items.len();
        let mut images: Vec<P> = Vec::new();
        let mut targets: Vec<i32> = Vec::new();
        let mut i: usize = 0;
        while i < n
            invariant
                n == items@.len(),
                all_full_images(items@),
                n * IMAGE_VALUES <= usize::MAX,
                0 <= i <= n,
                images@ == concat_pixels(items@.take(i as int)),
                images@.len() == i * IMAGE_VALUES,
                targets@.len() == i,
                forall|j: int| 0 <= j < i ==> #[trigger] targets@[j] == items@[j].label as i32,
            decreases n - i,
        {
            let item = &items[i];
            assert(item.pixels@.len() == IMAGE_VALUES);
            let ghost before = images@;
            let mut k: usize = 0;
            while k < IMAGE_VALUES
                invariant
                    item.pixels@.len() == IMAGE_VALUES,
                    0 <= k <= IMAGE_VALUES,
                    images@ == before + item.pixels@.take(k as int),
                decreases IMAGE_VALUES - k,
            {
                images.push(item.pixels[k]);
                k = k + 1;
                assert(item.pixels@.take(k as int) =~= item.pixels@.take(k - 1).push(item.pixels@[k - 1]));
            }
            assert(item.pixels@.take(IMAGE_VALUES as int) =~= item.pixels@);
            assert(items@.take(i + 1).drop_last() =~= items@.take(i as int));
            targets.push(item.label as i32);
            assert(i * IMAGE_VALUES + IMAGE_VALUES == (i + 1) * IMAGE_VALUES) by (nonlinear_arith);
            i = i + 1;
        }
        assert(items@.take(n as int) =~= items@);
        CifarBatch { images, targets }
    }
}

/// In a batch of full images, value `k` of image `i` stands at
/// `i * IMAGE_VALUES + k`.
pub proof fn lemma_batch_layout<P>(items: Seq<CifarItem<P>>, i: int, k: int)
    requires
        all_full_images(items),
        0 <= i < items.len(),
        0 <= k < IMAGE_VALUES,
    ensures
        concat_pixels(items).len() == items.len() * IMAGE_VALUES,
        concat_pixels(items)[i * IMAGE_VALUES + k] == items[i].pixels@[k],
    decreases items.len(),
{
    let n = items.len();
    let front = items.drop_last();
    assert(all_full_images(front)) by {
        assert forall|j: int| 0 <= j < front.len() implies (#[trigger] front[j]).pixels@.len() == IMAGE_VALUES by {
            assert(front[j] == items[j]);
        }
    }
    lemma_concat_len(front);
    assert((n - 1) * IMAGE_VALUES + IMAGE_VALUES == n * IMAGE_VALUES) by (nonlinear_arith);
    if i < n - 1 {
        lemma_batch_layout(front, i, k);
        assert(i * IMAGE_VALUES + k < (n - 1) * IMAGE_VALUES) by (nonlinear_arith)
            requires
                i < n - 1,
                0 <= k < IMAGE_VALUES,
        ;
        assert(front[i] == items[i]);
    } else {
        assert(items.last() == items[i]);
    }
}

proof fn lemma_concat_len<P>(items: Seq<CifarItem<P>>)
    requires
        all_full_images(items),
    ensures
        concat_pixels(items).len() == items.len() * IMAGE_VALUES,
    decreases items.len(),
{
    if items.len() > 0 {
        let front = items.drop_last();
        assert(all_full_images(front)) by {
            assert forall|j: int| 0 <= j < front.len() implies (#[trigger] front[j]).pixels@.len() == IMAGE_VALUES by {
                assert(front[j] == items[j]);
            }
        }
        lemma_concat_len(front);
        assert(items[items.len() - 1].pixels@.len() == IMAGE_VALUES);
        assert((items.len() - 1) * IMAGE_VALUES + IMAGE_VALUES == items.len() * IMAGE_VALUES) by (nonlinear_arith);
    }
}

} // verus!
