//! The Iris dataset: its classes and features, how a row becomes an item,
//! how items are laid out in a batch, and how they are shuffled and split
//! into training and validation sets.

use vstd::prelude::*;
use rand::rngs::StdRng;
use rand::seq::SliceRandom;
use rand::SeedableRng;
use crate::text::str_equal;

verus! {

/// The file of the dataset: rows `sepal_length,sepal_width,petal_length,petal_width,species`.
pub const DATASET_SOURCE_FILE: &'static str = "data/iris.data";

/// Items per batch.
pub const BATCH_SIZE: usize = 16;

/// Epochs between two validations.
pub const VALIDATION_INTERVAL: usize = 1;

/// Epochs between two checkpoints.
pub const CHECKPOINT_INTERVAL: usize = 5;

/// Features measured on each flower.
pub const FEATURE_COUNT: usize = 4;

/// A species of iris.
#[derive(Clone, Copy, Debug, PartialEq, Eq, Structural)]
pub enum IrisClass {
    Setosa,
    Versicolour,
    Virginica,
}

/// The name under which the class is trained and saved.
pub open spec fn spec_target_name(c: IrisClass) -> Seq<char> {
    match c {
        IrisClass::Setosa => "Iris-setosa"@,
        IrisClass::Versicolour => "Iris-versicolour"@,
        IrisClass::Virginica => "Iris-virginica"@,
    }
}

/// The name under which the class is shown.
pub open spec fn spec_display_name(c: IrisClass) -> Seq<char> {
    match c {
        IrisClass::Setosa => "Setosa"@,
        IrisClass::Versicolour => "Versicolour"@,
        IrisClass::Virginica => "Virginica"@,
    }
}

/// The position of the class among the classes (0, 1, 2).
pub open spec fn class_index(c: IrisClass) -> i32 {
    match c {
        IrisClass::Setosa => 0,
        IrisClass::Versicolour => 1,
        IrisClass::Virginica => 2,
    }
}

impl IrisClass {
    /// The name under which the class is trained and saved.
    pub fn target_name(&self) -> (s: String)
        ensures
            s@ == spec_target_name(*self),
    {
        match self {
            IrisClass::Setosa => String::from_str("Iris-setosa"),
            IrisClass::Versicolour => String::from_str("Iris-versicolour"),
            IrisClass::Virginica => String::from_str("Iris-virginica"),
        }
    }

    /// The name under which the class is shown (its `Display` text).
    pub fn display_name(&self) -> (s: String)
        ensures
            s@ == spec_display_name(*self),
    {
        match self {
            IrisClass::Setosa => String::from_str("Setosa"),
            IrisClass::Versicolour => String::from_str("Versicolour"),
            IrisClass::Virginica => String::from_str("Virginica"),
        }
    }

    /// All classes, in their order.
    pub fn all() -> (v: Vec<IrisClass>)
        ensures
            v@ == seq![IrisClass::Setosa, IrisClass::Versicolour, IrisClass::Virginica],
    {
        let mut v: Vec<IrisClass> = Vec::new();
        v.push(IrisClass::Setosa);
        v.push(IrisClass::Versicolour);
        v.push(IrisClass::Virginica);
        assert(v@ =~= seq![IrisClass::Setosa, IrisClass::Versicolour, IrisClass::Virginica]);
        v
    }
}

/// A measured feature of a flower.
#[derive(Clone, Copy, Debug, PartialEq, Eq, Structural)]
pub enum Feature {
    SepalLength,
    SepalWidth,
    PetalLength,
    PetalWidth,
}

/// The column name of feature number `i`.
pub open spec fn spec_feature_label(i: int) -> Seq<char> {
    if i == 0 {
        "sepal_length"@
    } else if i == 1 {
        "sepal_width"@
    } else if i == 2 {
        "petal_length"@
    } else {
        "petal_width"@
    }
}

/// The position of a feature among the features.
pub open spec fn feature_index(f: Feature) -> int {
    match f {
        Feature::SepalLength => 0,
        Feature::SepalWidth => 1,
        Feature::PetalLength => 2,
        Feature::PetalWidth => 3,
    }
}

/// `name` is the column name of one of the features.
pub open spec fn is_feature_name(name: Seq<char>) -> bool {
    exists|i: int| 0 <= i < FEATURE_COUNT && name == #[trigger] spec_feature_label(i)
}

/// The column names of the features, in their order.
pub fn feature_labels() -> (labels: [&'static str; 4])
    ensures
        forall|i: int| 0 <= i < FEATURE_COUNT ==> #[trigger] labels@[i]@ == spec_feature_label(i),
{
    ["sepal_length", "sepal_width", "petal_length", "petal_width"]
}

impl Feature {
    /// The feature whose column is called `name`.
    pub fn from_str(name: &str) -> (f: Self)
        requires
            is_feature_name(name@),
        ensures
            spec_feature_label(feature_index(f)) == name@,
    {
        if str_equal(name, "sepal_length") {
            Feature::SepalLength
        } else if str_equal(name, "sepal_width") {
            Feature::SepalWidth
        } else if str_equal(name, "petal_length") {
            Feature::PetalLength
        } else {
            assert(name@ == "petal_width"@) by {
                let i = choose|i: int| 0 <= i < FEATURE_COUNT && name@ == #[trigger] spec_feature_label(i);
            }
            Feature::PetalWidth
        }
    }

    /// The position of the feature among the features.
    pub fn index(self) -> (i: usize)
        ensures
            i == feature_index(self),
    {
        match self {
            Feature::SepalLength => 0,
            Feature::SepalWidth => 1,
            Feature::PetalLength => 2,
            Feature::PetalWidth => 3,
        }
    }
}

/// The class number of a species as the data file writes it: 0 for
/// `Iris-setosa`, 1 for `Iris-versicolor`, 2 for anything else.
pub open spec fn spec_species_label(species: Seq<char>) -> i32 {
    if species == "Iris-setosa"@ {
        0
    } else if species == "Iris-versicolor"@ {
        1
    } else {
        2
    }
}

/// The class number of a species as the data file writes it.
pub fn species_label(species: &str) -> (label: i32)
    ensures
        label == spec_species_label(species@),
{
    if str_equal(species, "Iris-setosa") {
        0
    } else if str_equal(species, "Iris-versicolor") {
        1
    } else {
        2
    }
}

/// One flower: its four features in the order of `feature_labels`, and
/// its class number.
#[derive(Clone, Copy, Debug)]
pub struct IrisItem<F> {
    pub features: [F; 4],
    pub label: i32,
}

/// The shorter of two lengths.
pub open spec fn min_len(a: int, b: int) -> int {
    if a <= b {
        a
    } else {
        b
    }
}

/// Builds one item per row from the dataset's columns, taken side by side
/// up to the shortest column; the class comes from the species.
pub fn items_from_columns<F: Copy>(
    sepal_length: &Vec<F>,
    sepal_width: &Vec<F>,
    petal_length: &Vec<F>,
    petal_width: &Vec<F>,
    species: &Vec<String>,
) -> (items: Vec<IrisItem<F>>)
    ensures
        items@.len() == min_len(
            min_len(min_len(sepal_length@.len() as int, sepal_width@.len() as int), min_len(petal_length@.len() as int, petal_width@.len() as int)),
            species@.len() as int,
        ),
        forall|k: int|
            0 <= k < items@.len() ==> {
                &&& (#[trigger] items@[k]).features@ == seq![
                    sepal_length@[k],
                    sepal_width@[k],
                    petal_length@[k],
                    petal_width@[k],
                ]
                &&& items@[k].label == spec_species_label(species@[k]@)
            },
{
    let mut n = sepal_length.len();
    if sepal_width.len() < n {
        n = sepal_width.len();
    }
    if petal_length.len() < n {
        n = petal_length.len();
    }
    if petal_width.len() < n {
        n = petal_width.len();
    }
    if species.len() < n {
        n = species.len();
    }
    let mut items: Vec<IrisItem<F>> = Vec::new();
    let mut k: usize = 0;
    while k < n
        invariant
            n <= sepal_length@.len(),
            n <= sepal_width@.len(),
            n <= petal_length@.len(),
            n <= petal_width@.len(),
            n <= species@.len(),
            0 <= k <= n,
            items@.len() == k,
            forall|j: int|
                0 <= j < k ==> {
                    &&& (#[trigger] items@[j]).features@ == seq![
                        sepal_length@[j],
                        sepal_width@[j],
                        petal_length@[j],
                        petal_width@[j],
                    ]
                    &&& items@[j].label == spec_species_label(species@[j]@)
                },
        decreases n - k,
    {
        let features = [sepal_length[k], sepal_width[k], petal_length[k], petal_width[k]];
        assert(features@ =~= seq![sepal_length@[k as int], sepal_width@[k as int], petal_length@[k as int], petal_width@[k as int]]);
        let label = species_label(species[k].as_str());
        items.push(IrisItem { features, label });
        k = k + 1;
    }
    items
}

/// The feature values of `items`, one flower after the other.
pub open spec fn concat_features<F>(items: Seq<IrisItem<F>>) -> Seq<F>
    decreases items.len(),
{
    if items.len() == 0 {
        Seq::empty()
    } else {
        concat_features(items.drop_last()) + items.last().features@
    }
}

/// The target of a flower of class number `label` when the perceptron
/// learns to tell `target` apart: 1 for the chosen class, 0 for the other
/// two.
pub open spec fn binary_target(label: i32, target: IrisClass) -> i32 {
    if label == class_index(target) {
        1
    } else {
        0
    }
}

/// A batch before it becomes tensors: the features as rows of four values,
/// one flower after the other, and the target of each (1 for the chosen
/// class, 0 for the other two).
pub struct IrisBatch<F> {
    pub inputs: Vec<F>,
    pub targets: Vec<i32>,
}

/// Turns dataset items into batches whose targets single out one class.
pub struct IrisBatcher {
    /// The class that the targets single out.
    pub target_class: IrisClass,
}

impl IrisBatcher {
    /// A batcher whose targets single out `target_class`.
    pub fn new(target_class: IrisClass) -> (b: Self)
        ensures
            b.target_class == target_class,
    {
        IrisBatcher { target_class }
    }

    /// Lays the features of `items` out as one row of four each, in order,
    /// with the target of each: 1 when its class is the batcher's class, 0
    /// otherwise.
    pub fn batch<F: Copy>(&self, items: &Vec<IrisItem<F>>) -> (b: IrisBatch<F>)
        requires
            items@.len() * FEATURE_COUNT <= usize::MAX,
        ensures
            b.inputs@ == concat_features(items@),
            b.inputs@.len() == items@.len() * FEATURE_COUNT,
            b.targets@.len() == items@.len(),
            forall|i: int|
                0 <= i < items@.len() ==> #[trigger] b.targets@[i] == binary_target(
                    items@[i].label,
                    self.target_class,
                ),
    {
        let chosen: i32 = match self.target_class {
            IrisClass::Setosa => 0,
            IrisClass::Versicolour => 1,
            IrisClass::Virginica => 2,
        };
        let n = items.len();
        let mut inputs: Vec<F> = Vec::new();
        let mut targets: Vec<i32> = Vec::new();
        let mut i: usize = 0;
        while i < n
            invariant
                n == items@.len(),
                n * FEATURE_COUNT <= usize::MAX,
                0 <= i <= n,
                inputs@ == concat_features(items@.take(i as int)),
                inputs@.len() == i * FEATURE_COUNT,
                targets@.len() == i,
                chosen == class_index(self.target_class),
                forall|j: int| 0 <= j < i ==> #[trigger] targets@[j] == binary_target(items@[j].label, self.target_class),
            decreases n - i,
        {
            let item = &items[i];
            let ghost before = inputs@;
            inputs.push(item.features[0]);
            inputs.push(item.features[1]);
            inputs.push(item.features[2]);
            inputs.push(item.features[3]);
            assert(inputs@ =~= before + item.features@);
            assert(items@.take(i + 1).drop_last() =~= items@.take(i as int));
            targets.push(if item.label == chosen { 1 } else { 0 });
            assert(i * FEATURE_COUNT + FEATURE_COUNT == (i + 1) * FEATURE_COUNT) by (nonlinear_arith);
            i = i + 1;
        }
        assert(items@.take(n as int) =~= items@);
        IrisBatch { inputs, targets }
    }
}

/// In a batch, feature `j` of flower `i` stands at `i * 4 + j`.
pub proof fn lemma_batch_layout<F>(items: Seq<IrisItem<F>>, i: int, j: int)
    requires
        0 <= i < items.len(),
        0 <= j < FEATURE_COUNT,
    ensures
        concat_features(items).len() == items.len() * FEATURE_COUNT,
        concat_features(items)[i * FEATURE_COUNT + j] == items[i].features@[j],
    decreases items.len(),
{
    let n = items.len();
    let front = items.drop_last();
    lemma_concat_features_len(front);
    assert((n - 1) * FEATURE_COUNT + FEATURE_COUNT == n * FEATURE_COUNT) by (nonlinear_arith);
    if i < n - 1 {
        lemma_batch_layout(front, i, j);
        assert(i * FEATURE_COUNT + j < (n - 1) * FEATURE_COUNT) by (nonlinear_arith)
            requires
                i < n - 1,
                0 <= j < FEATURE_COUNT,
        ;
        assert(front[i] == items[i]);
    } else {
        assert(items.last() == items[i]);
    }
}

proof fn lemma_concat_features_len<F>(items: Seq<IrisItem<F>>)
    ensures
        concat_features(items).len() == items.len() * FEATURE_COUNT,
    decreases items.len(),
{
    if items.len() > 0 {
        lemma_concat_features_len(items.drop_last());
        assert((items.len() - 1) * FEATURE_COUNT + FEATURE_COUNT == items.len() * FEATURE_COUNT) by (nonlinear_arith);
    }
}

/// Shuffles `items` in place with a generator seeded from `seed`
/// (`StdRng::seed_from_u64` and `SliceRandom::shuffle` of `rand`). Stated:
/// the items are only reordered. Not stated: which order comes out; `rand`
/// documents the generator as deterministic but not as reproducible across
/// platforms or versions.
#[verifier::external_body]
fn shuffle_with_seed<T>(items: &mut Vec<T>, seed: u64)
    ensures
        final(items)@.to_multiset() == old(items)@.to_multiset(),
{
    let mut rng = StdRng::seed_from_u64(seed);
    items.shuffle(&mut rng);
}

/// Splits `items` in order: the first `split_idx` form the training set,
/// the rest the validation set.
pub fn split_items<T>(items: Vec<T>, split_idx: usize) -> (sets: (Vec<T>, Vec<T>))
    requires
        split_idx <= items@.len(),
    ensures
        sets.0@ == items@.take(split_idx as int),
        sets.1@ == items@.skip(split_idx as int),
        sets.0@ + sets.1@ == items@,
{
    let ghost given = items@;
    let mut train = items;
    let val = train.split_off(split_idx);
    assert(train@ =~= given.take(split_idx as int));
    assert(val@ =~= given.skip(split_idx as int));
    assert(train@ + val@ =~= given);
    (train, val)
}

/// Shuffles `items` with a generator seeded from `seed`, then splits them
/// with [`split_items`]: the first `split_idx` of the shuffled items form
/// the training set, the rest the validation set. Together the two sets
/// hold exactly the items given.
pub fn shuffle_and_split<T>(items: Vec<T>, seed: u64, split_idx: usize) -> (sets: (Vec<T>, Vec<T>))
    requires
        split_idx <= items@.len(),
    ensures
        sets.0@.len() == split_idx,
        sets.1@.len() == items@.len() - split_idx,
        (sets.0@ + sets.1@).to_multiset() == items@.to_multiset(),
{
    let ghost given = items@;
    let mut items = items;
    shuffle_with_seed(&mut items, seed);
    proof {
        items@.to_multiset_ensures();
        given.to_multiset_ensures();
    }
    split_items(items, split_idx)
}

/// The class names under which a class is trained read back as its class
/// number, but for `Versicolour`, whose name (`Iris-versicolour`) differs
/// from the data file's spelling (`Iris-versicolor`) and reads as 2.
pub proof fn lemma_target_name_labels(c: IrisClass)
    ensures
        c != IrisClass::Versicolour ==> spec_species_label(spec_target_name(c)) == class_index(c),
        c == IrisClass::Versicolour ==> spec_species_label(spec_target_name(c)) == 2,
{
    reveal_strlit("Iris-setosa");
    reveal_strlit("Iris-versicolor");
    reveal_strlit("Iris-versicolour");
    reveal_strlit("Iris-virginica");
    if c == IrisClass::Virginica {
        assert(spec_target_name(c)[5] != "Iris-setosa"@[5]);
        assert(spec_target_name(c)[6] != "Iris-versicolor"@[6]);
    }
    if c == IrisClass::Versicolour {
        assert(spec_target_name(c).len() != "Iris-setosa"@.len());
        assert(spec_target_name(c).len() != "Iris-versicolor"@.len());
    }
}

/// A feature's column name leads back to the feature, and to its position.
pub proof fn lemma_feature_name_roundtrip(i: int)
    requires
        0 <= i < FEATURE_COUNT,
    ensures
        is_feature_name(spec_feature_label(i)),
        forall|f: Feature| spec_feature_label(feature_index(f)) == spec_feature_label(i) ==> feature_index(f) == i,
{
    reveal_strlit("sepal_length");
    reveal_strlit("sepal_width");
    reveal_strlit("petal_length");
    reveal_strlit("petal_width");
    assert forall|f: Feature| spec_feature_label(feature_index(f)) == spec_feature_label(i) implies feature_index(f) == i by {
        let k = feature_index(f);
        if k != i {
            let a = spec_feature_label(k);
            let b = spec_feature_label(i);
            if (k == 0 && i == 1) || (k == 1 && i == 0) {
                assert(a.len() != b.len());
            } else if (k == 2 && i == 3) || (k == 3 && i == 2) {
                assert(a.len() != b.len());
            } else {
                assert(a[0] != b[0]);
            }
        }
    }
}

} // verus!
