//! Shape of the dense CIFAR-10 network: which linear layers it is made of.

use vstd::prelude::*;
use crate::text::{decimal, format_usize};

verus! {

/// Inputs of one CIFAR-10 image: 32 x 32 pixels, 3 channels.
pub const CIFAR10_INPUT_SIZE: usize = 3072;

/// Classes of CIFAR-10.
pub const CIFAR10_NUM_CLASSES: usize = 10;

/// Sizes of a dense network: its input, its hidden layers in order, and its
/// output classes.
pub struct ModelConfig {
    input_size: usize,
    hidden_sizes: Vec<usize>,
    num_classes: usize,
}

impl ModelConfig {
    /// The input size.
    pub closed spec fn spec_input_size(&self) -> usize {
        self.input_size
    }

    /// The hidden layer sizes.
    pub closed spec fn spec_hidden_sizes(&self) -> Seq<usize> {
        self.hidden_sizes@
    }

    /// The number of output classes.
    pub closed spec fn spec_num_classes(&self) -> usize {
        self.num_classes
    }

    /// The widths of the network from input to output: the input size, each
    /// hidden size, and the number of classes.
    pub open spec fn widths(&self) -> Seq<usize> {
        seq![self.spec_input_size()] + self.spec_hidden_sizes() + seq![self.spec_num_classes()]
    }

    /// The (inputs, outputs) of each linear layer, in order: layer `k` maps
    /// width `k` to width `k + 1`.
    pub open spec fn spec_layer_shapes(&self) -> Seq<(usize, usize)> {
        Seq::new(
            (self.spec_hidden_sizes().len() + 1) as nat,
            |k: int| (self.widths()[k], self.widths()[k + 1]),
        )
    }

    /// The configuration for CIFAR-10 with the given hidden layers: 3072
    /// inputs and 10 classes.
    pub fn new_cifar10(hidden_sizes: Vec<usize>) -> (c: Self)
        ensures
            c.spec_input_size() == CIFAR10_INPUT_SIZE,
            c.spec_hidden_sizes() == hidden_sizes@,
            c.spec_num_classes() == CIFAR10_NUM_CLASSES,
    {
        Self { input_size: CIFAR10_INPUT_SIZE, hidden_sizes: hidden_sizes, num_classes: CIFAR10_NUM_CLASSES }
    }

    /// The input size.
    pub fn input_size(&self) -> (r: usize)
        ensures
            r == self.spec_input_size(),
    {
        self.input_size
    }

    /// The hidden layer sizes.
    pub fn hidden_sizes(&self) -> (r: &Vec<usize>)
        ensures
            r@ == self.spec_hidden_sizes(),
    {
        &self.hidden_sizes
    }

    /// The number of output classes.
    pub fn num_classes(&self) -> (r: usize)
        ensures
            r == self.spec_num_classes(),
    {
        self.num_classes
    }

    /// The (inputs, outputs) of each linear layer that the network is built
    /// of: a single layer from the inputs to the classes when there is no
    /// hidden layer, else one into the first hidden layer, one between each
    /// two consecutive hidden layers, and one from the last hidden layer to
    /// the classes.
    pub fn layer_shapes(&self) -> (shapes: Vec<(usize, usize)>)
        requires
            self.spec_hidden_sizes().len() + 1 <= usize::MAX,
        ensures
            shapes@ == self.spec_layer_shapes(),
    {
        let mut shapes: Vec<(usize, usize)> = Vec::new();
        let n = self.hidden_sizes.len();
        let ghost w = self.widths();
        if n == 0 {
            shapes.push((self.input_size, self.num_classes));
        } else {
            shapes.push((self.input_size, self.hidden_sizes[0]));
            let mut i: usize = 0;
            while i + 1 < n
                invariant
                    n == self.hidden_sizes@.len(),
                    n > 0,
                    w == self.widths(),
                    0 <= i < n,
                    shapes@.len() == i + 1,
                    forall|k: int| 0 <= k <= i ==> #[trigger] shapes@[k] == (w[k], w[k + 1]),
                decreases n - i,
            {
                shapes.push((self.hidden_sizes[i], self.hidden_sizes[i + 1]));
                i = i + 1;
            }
            shapes.push((self.hidden_sizes[n - 1], self.num_classes));
        }
        assert(shapes@ =~= self.spec_layer_shapes());
        shapes
    }
}

/// The name under which the weights of linear layer `index` are shown.
pub open spec fn spec_weight_name(index: nat) -> Seq<char> {
    "capa_"@ + decimal(index)
}

/// The name of the weights of linear layer `index`: `capa_` and the index.
pub fn weight_name(index: usize) -> (name: String)
    ensures
        name@ == spec_weight_name(index as nat),
{
    let mut name = String::from_str("capa_");
    let digits = format_usize(index);
    name.append(digits.as_str());
    name
}

/// Consecutive layers fit together: each layer takes as many inputs as the
/// one before gives outputs, the first takes the network's inputs, and the
/// last gives its classes.
pub proof fn lemma_layers_chain(c: &ModelConfig)
    ensures
        c.spec_layer_shapes().len() == c.spec_hidden_sizes().len() + 1,
        c.spec_layer_shapes()[0].0 == c.spec_input_size(),
        c.spec_layer_shapes().last().1 == c.spec_num_classes(),
        forall|k: int|
            0 <= k < c.spec_layer_shapes().len() - 1 ==> #[trigger] c.spec_layer_shapes()[k].1
                == c.spec_layer_shapes()[k + 1].0,
{
    let w = c.widths();
    assert(w[0] == c.spec_input_size());
    assert(w[c.spec_hidden_sizes().len() + 1int] == c.spec_num_classes());
}

} // verus!
