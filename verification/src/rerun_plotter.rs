//! What the Iris plots show: which pairs of features are drawn, in which
//! colours the species appear, and which flowers were classified right.

use vstd::prelude::*;
use crate::iris_dataset::{FEATURE_COUNT, IrisClass, class_index, min_len};
use crate::text::str_equal;

verus! {

/// A colour, red green blue.
#[derive(Clone, Copy, Debug, PartialEq, Eq, Structural)]
pub struct Rgb {
    pub r: u8,
    pub g: u8,
    pub b: u8,
}

/// The pairs of features drawn against each other: every pair of distinct
/// features once, the first before the second.
pub open spec fn spec_feature_pairs() -> Seq<(usize, usize)> {
    seq![(0usize, 1usize), (0, 2), (0, 3), (1, 2), (1, 3), (2, 3)]
}

/// The pairs of features drawn against each other, in drawing order.
pub fn feature_pairs() -> (pairs: Vec<(usize, usize)>)
    ensures
        pairs@ == spec_feature_pairs(),
{
    let mut pairs: Vec<(usize, usize)> = Vec::new();
    let mut i: usize = 0;
    while i < FEATURE_COUNT
        invariant
            0 <= i <= FEATURE_COUNT,
            pairs@ == spec_feature_pairs().take(
                if i == 0 {
                    0int
                } else if i == 1 {
                    3int
                } else if i == 2 {
                    5int
                } else {
                    6int
                },
            ),
        decreases FEATURE_COUNT - i,
    {
        let ghost start = pairs@;
        let mut j: usize = i + 1;
        while j < FEATURE_COUNT
            invariant
                i < FEATURE_COUNT,
                i + 1 <= j <= FEATURE_COUNT,
                pairs@ == start + Seq::new((j - i - 1) as nat, |k: int| (i, (i + 1 + k) as usize)),
            decreases FEATURE_COUNT - j,
        {
            pairs.push((i, j));
            assert(Seq::new((j + 1 - i - 1) as nat, |k: int| (i, (i + 1 + k) as usize)) =~= Seq::new(
                (j - i - 1) as nat,
                |k: int| (i, (i + 1 + k) as usize),
            ).push((i, j)));
            j = j + 1;
        }
        assert(pairs@ =~= spec_feature_pairs().take(
            if i + 1 == 1 {
                3int
            } else if i + 1 == 2 {
                5int
            } else {
                6int
            },
        ));
        i = i + 1;
    }
    assert(pairs@ =~= spec_feature_pairs());
    pairs
}

/// Every pair of distinct features is drawn.
pub proof fn lemma_every_pair_drawn(i: usize, j: usize)
    requires
        i < j < FEATURE_COUNT,
    ensures
        spec_feature_pairs().contains((i, j)),
{
    if i == 0 && j == 1 {
        assert(spec_feature_pairs()[0] == (i, j));
    } else if i == 0 && j == 2 {
        assert(spec_feature_pairs()[1] == (i, j));
    } else if i == 0 && j == 3 {
        assert(spec_feature_pairs()[2] == (i, j));
    } else if i == 1 && j == 2 {
        assert(spec_feature_pairs()[3] == (i, j));
    } else if i == 1 && j == 3 {
        assert(spec_feature_pairs()[4] == (i, j));
    } else {
        assert(spec_feature_pairs()[5] == (i, j));
    }
}

/// The grey of the species that are not the target.
pub open spec fn grey() -> Rgb {
    Rgb { r: 100, g: 100, b: 100 }
}

/// The own colour of a species.
pub open spec fn species_colour(c: IrisClass) -> Rgb {
    match c {
        IrisClass::Setosa => Rgb { r: 255, g: 50, b: 50 },
        IrisClass::Versicolour => Rgb { r: 50, g: 255, b: 50 },
        IrisClass::Virginica => Rgb { r: 50, g: 100, b: 255 },
    }
}

/// The colour of species `c` in a plot whose target is `target`: its own
/// colour when there is no target or it is the target, grey otherwise.
pub open spec fn shown_colour(c: IrisClass, target: Option<IrisClass>) -> Rgb {
    match target {
        None => species_colour(c),
        Some(t) => if t == c {
            species_colour(c)
        } else {
            grey()
        },
    }
}

/// The species of a dataset plot, as the data file names them, each with
/// its colour: all in their own colours without a target, only the target
/// in its own colour otherwise.
pub open spec fn spec_palette(target: Option<IrisClass>) -> Seq<(Seq<char>, Rgb)> {
    seq![
        ("Iris-setosa"@, shown_colour(IrisClass::Setosa, target)),
        ("Iris-versicolor"@, shown_colour(IrisClass::Versicolour, target)),
        ("Iris-virginica"@, shown_colour(IrisClass::Virginica, target)),
    ]
}

/// A plot with a target shows the same species, in the same order, as the
/// plain dataset plot; the target's species keeps its own colour and each
/// other species turns grey, a colour that no species has of its own.
pub proof fn lemma_plot_dataset_with_target_colours(t: IrisClass, k: int)
    requires
        0 <= k < 3,
    ensures
        spec_palette(Some(t)).len() == spec_palette(None).len(),
        spec_palette(Some(t))[k].0 == spec_palette(None)[k].0,
        spec_palette(Some(t))[k].1 == (if k == class_index(t) as int {
            spec_palette(None)[k].1
        } else {
            grey()
        }),
        spec_palette(None)[k].1 != grey(),
{
}

fn colour_of(c: IrisClass, target: Option<IrisClass>) -> (rgb: Rgb)
    ensures
        rgb == shown_colour(c, target),
{
    let own = match c {
        IrisClass::Setosa => Rgb { r: 255, g: 50, b: 50 },
        IrisClass::Versicolour => Rgb { r: 50, g: 255, b: 50 },
        IrisClass::Virginica => Rgb { r: 50, g: 100, b: 255 },
    };
    match target {
        None => own,
        Some(t) => if t == c {
            own
        } else {
            Rgb { r: 100, g: 100, b: 100 }
        },
    }
}

/// The species of a dataset plot with their colours.
pub fn species_palette(target: Option<IrisClass>) -> (palette: Vec<(&'static str, Rgb)>)
    ensures
        palette@.len() == 3,
        forall|k: int| 0 <= k < 3 ==> #[trigger] palette@[k].0@ == spec_palette(target)[k].0,
        forall|k: int| 0 <= k < 3 ==> #[trigger] palette@[k].1 == spec_palette(target)[k].1,
{
    let mut palette: Vec<(&'static str, Rgb)> = Vec::new();
    palette.push(("Iris-setosa", colour_of(IrisClass::Setosa, target)));
    palette.push(("Iris-versicolor", colour_of(IrisClass::Versicolour, target)));
    palette.push(("Iris-virginica", colour_of(IrisClass::Virginica, target)));
    palette
}

/// The points `(x[k], y[k])` of the first `m` rows whose species is
/// `name`, in row order.
pub open spec fn spec_species_points<F>(
    x: Seq<F>,
    y: Seq<F>,
    species: Seq<Seq<char>>,
    name: Seq<char>,
    m: int,
) -> Seq<(F, F)>
    decreases m,
{
    if m <= 0 {
        Seq::empty()
    } else {
        spec_species_points(x, y, species, name, m - 1) + if species[m - 1] == name {
            seq![(x[m - 1], y[m - 1])]
        } else {
            Seq::empty()
        }
    }
}

/// The rows that the three columns all have.
pub open spec fn rows_of<F>(x: Seq<F>, y: Seq<F>, species: Seq<Seq<char>>) -> int {
    min_len(min_len(x.len() as int, y.len() as int), species.len() as int)
}

/// The points (feature `x`, feature `y`) of the flowers of species `name`,
/// in the order of the rows: what a dataset plot draws for one species.
pub fn species_points<F: Copy>(x: &Vec<F>, y: &Vec<F>, species: &Vec<String>, name: &str) -> (points: Vec<(F, F)>)
    ensures
        points@ == spec_species_points(
            x@,
            y@,
            species@.map_values(|s: String| s@),
            name@,
            rows_of(x@, y@, species@.map_values(|s: String| s@)),
        ),
{
    let ghost sp = species@.map_values(|s: String| s@);
    let mut n = x.len();
    if y.len() < n {
        n = y.len();
    }
    if species.len() < n {
        n = species.len();
    }
    let mut points: Vec<(F, F)> = Vec::new();
    let mut k: usize = 0;
    while k < n
        invariant
            sp == species@.map_values(|s: String| s@),
            n == rows_of(x@, y@, sp),
            0 <= k <= n,
            points@ == spec_species_points(x@, y@, sp, name@, k as int),
        decreases n - k,
    {
        assert(sp[k as int] == species@[k as int]@);
        if str_equal(species[k].as_str(), name) {
            points.push((x[k], y[k]));
        } else {
            assert(points@ =~= spec_species_points(x@, y@, sp, name@, k + 1));
        }
        k = k + 1;
    }
    points
}

/// The points `(feature i, feature j)` of the first `m` flowers (four
/// features per flower) whose mark in `mask` is `want`, in order.
pub open spec fn select_points<T>(
    features: Seq<T>,
    mask: Seq<bool>,
    want: bool,
    i: int,
    j: int,
    m: int,
) -> Seq<(T, T)>
    decreases m,
{
    if m <= 0 {
        Seq::empty()
    } else {
        select_points(features, mask, want, i, j, m - 1) + if mask[m - 1] == want {
            seq![(features[4 * (m - 1) + i], features[4 * (m - 1) + j])]
        } else {
            Seq::empty()
        }
    }
}

/// Which of the first `n` flowers were classified right: predicted class
/// equal to the true one.
pub open spec fn correct_mask(predicted: Seq<i32>, targets: Seq<i32>, n: int) -> Seq<bool> {
    Seq::new(n as nat, |k: int| predicted[k] == targets[k])
}

/// Each of the first `m` flowers falls on exactly one side.
pub proof fn lemma_points_partition<T>(features: Seq<T>, mask: Seq<bool>, i: int, j: int, m: int)
    requires
        0 <= m,
    ensures
        select_points(features, mask, true, i, j, m).len() + select_points(features, mask, false, i, j, m).len()
            == m,
    decreases m,
{
    if m > 0 {
        lemma_points_partition(features, mask, i, j, m - 1);
    }
}

fn collect_points<T: Copy>(features: &Vec<T>, mask: &Vec<bool>, m: usize, i: usize, j: usize) -> (r: (
    Vec<(T, T)>,
    Vec<(T, T)>,
))
    requires
        m <= mask@.len(),
        4 * m <= features@.len(),
        i < FEATURE_COUNT,
        j < FEATURE_COUNT,
    ensures
        r.0@ == select_points(features@, mask@, true, i as int, j as int, m as int),
        r.1@ == select_points(features@, mask@, false, i as int, j as int, m as int),
{
    let flen = features.len();
    let mut good: Vec<(T, T)> = Vec::new();
    let mut bad: Vec<(T, T)> = Vec::new();
    let mut k: usize = 0;
    while k < m
        invariant
            flen == features@.len(),
            m <= mask@.len(),
            4 * m <= features@.len(),
            i < FEATURE_COUNT,
            j < FEATURE_COUNT,
            0 <= k <= m,
            good@ == select_points(features@, mask@, true, i as int, j as int, k as int),
            bad@ == select_points(features@, mask@, false, i as int, j as int, k as int),
        decreases m - k,
    {
        let x = features[k * 4 + i];
        let y = features[k * 4 + j];
        if mask[k] {
            good.push((x, y));
            assert(bad@ =~= select_points(features@, mask@, false, i as int, j as int, k + 1));
        } else {
            bad.push((x, y));
            assert(good@ =~= select_points(features@, mask@, true, i as int, j as int, k + 1));
        }
        k = k + 1;
    }
    (good, bad)
}

/// Splits the flowers of one batch into those classified right and those
/// classified wrong, as points (feature `idx_x`, feature `idx_y`).
/// `predicted` holds the class predicted for each flower (the network's
/// output thresholded at 0.5); the batch has as many flowers as
/// predictions, with four features each.
pub fn classified_points<T: Copy>(
    features: &Vec<T>,
    predicted: &Vec<i32>,
    targets: &Vec<i32>,
    idx_x: usize,
    idx_y: usize,
) -> (r: (Vec<(T, T)>, Vec<(T, T)>))
    requires
        predicted@.len() <= targets@.len(),
        4 * predicted@.len() <= features@.len(),
        idx_x < FEATURE_COUNT,
        idx_y < FEATURE_COUNT,
    ensures
        r.0@ == select_points(
            features@,
            correct_mask(predicted@, targets@, predicted@.len() as int),
            true,
            idx_x as int,
            idx_y as int,
            predicted@.len() as int,
        ),
        r.1@ == select_points(
            features@,
            correct_mask(predicted@, targets@, predicted@.len() as int),
            false,
            idx_x as int,
            idx_y as int,
            predicted@.len() as int,
        ),
{
    let n = predicted.len();
    let mut mask: Vec<bool> = Vec::new();
    let mut k: usize = 0;
    while k < n
        invariant
            n == predicted@.len(),
            n <= targets@.len(),
            0 <= k <= n,
            mask@ =~= correct_mask(predicted@, targets@, k as int),
        decreases n - k,
    {
        mask.push(predicted[k] == targets[k]);
        k = k + 1;
    }
    collect_points(features, &mask, n, idx_x, idx_y)
}

/// The flowers of an epoch, batch after batch: their features (four per
/// flower) and whether each was classified right.
pub struct ClassificationPlotter<T> {
    pub epoch_features: Vec<T>,
    pub epoch_is_correct: Vec<bool>,
}

impl<T: Copy> ClassificationPlotter<T> {
    /// An empty record.
    pub fn new() -> (p: Self)
        ensures
            p.epoch_features@.len() == 0,
            p.epoch_is_correct@.len() == 0,
    {
        ClassificationPlotter { epoch_features: Vec::new(), epoch_is_correct: Vec::new() }
    }

    /// Records a batch: all its feature values, and for each prediction
    /// whether it equals the true class.
    pub fn accumulate_batch(&mut self, features: &Vec<T>, predicted: &Vec<i32>, targets: &Vec<i32>)
        requires
            predicted@.len() <= targets@.len(),
        ensures
            final(self).epoch_features@ == old(self).epoch_features@ + features@,
            final(self).epoch_is_correct@ == old(self).epoch_is_correct@ + correct_mask(
                predicted@,
                targets@,
                predicted@.len() as int,
            ),
    {
        let ghost f0 = self.epoch_features@;
        let ghost c0 = self.epoch_is_correct@;
        let mut k: usize = 0;
        while k < features.len()
            invariant
                0 <= k <= features@.len(),
                self.epoch_features@ == f0 + features@.take(k as int),
                self.epoch_is_correct@ == c0,
            decreases features@.len() - k,
        {
            self.epoch_features.push(features[k]);
            k = k + 1;
            assert(features@.take(k as int) =~= features@.take(k - 1).push(features@[k - 1]));
        }
        assert(features@.take(features@.len() as int) =~= features@);
        let n = predicted.len();
        let mut i: usize = 0;
        while i < n
            invariant
                n == predicted@.len(),
                n <= targets@.len(),
                0 <= i <= n,
                self.epoch_features@ == f0 + features@,
                self.epoch_is_correct@ =~= c0 + correct_mask(predicted@, targets@, i as int),
            decreases n - i,
        {
            self.epoch_is_correct.push(predicted[i] == targets[i]);
            i = i + 1;
        }
    }

    /// The recorded flowers as points (feature `i`, feature `j`): those
    /// classified right, then those classified wrong.
    pub fn pair_points(&self, i: usize, j: usize) -> (r: (Vec<(T, T)>, Vec<(T, T)>))
        requires
            4 * self.epoch_is_correct@.len() <= self.epoch_features@.len(),
            i < FEATURE_COUNT,
            j < FEATURE_COUNT,
        ensures
            r.0@ == select_points(
                self.epoch_features@,
                self.epoch_is_correct@,
                true,
                i as int,
                j as int,
                self.epoch_is_correct@.len() as int,
            ),
            r.1@ == select_points(
                self.epoch_features@,
                self.epoch_is_correct@,
                false,
                i as int,
                j as int,
                self.epoch_is_correct@.len() as int,
            ),
    {
        collect_points(&self.epoch_features, &self.epoch_is_correct, self.epoch_is_correct.len(), i, j)
    }
}

} // verus!
