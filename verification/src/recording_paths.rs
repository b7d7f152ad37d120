//! Where the workers record their plots and metrics: the entity paths of
//! the recordings that carry no learning rate.

use vstd::prelude::*;
use crate::text::{decimal, format_u64};

verus! {

/// `metricas/seed_<seed>/loss_<label>`: the mean loss of the CIFAR-10
/// network on the dataset `label`.
pub open spec fn spec_loss_path(seed: u64, label: Seq<char>) -> Seq<char> {
    "metricas/seed_"@ + decimal(seed as nat) + "/loss_"@ + label
}

/// `evaluacion/seed_<seed>/matriz_confusion_<label>`: the confusion matrix
/// of the CIFAR-10 network on the dataset `label`.
pub open spec fn spec_confusion_path(seed: u64, label: Seq<char>) -> Seq<char> {
    "evaluacion/seed_"@ + decimal(seed as nat) + "/matriz_confusion_"@ + label
}

/// `visualizacion/seed_<seed>/pesos/pesos_<layer>_heatmap`: the weights of
/// one layer of the CIFAR-10 network.
pub open spec fn spec_weights_path(seed: u64, layer: Seq<char>) -> Seq<char> {
    "visualizacion/seed_"@ + decimal(seed as nat) + "/pesos/pesos_"@ + layer + "_heatmap"@
}

/// `dataset/<x> (cm) vs <y> (cm)/<rest>`: a plot of feature `x` against
/// feature `y` of the Iris dataset.
pub open spec fn spec_pair_path(x: Seq<char>, y: Seq<char>, rest: Seq<char>) -> Seq<char> {
    "dataset/"@ + x + " (cm) vs "@ + y + " (cm)/"@ + rest
}

/// The path of the mean loss of the CIFAR-10 network on dataset `label`.
pub fn loss_path(seed: u64, label: &str) -> (p: String)
    ensures
        p@ == spec_loss_path(seed, label@),
{
    let mut p = String::from_str("metricas/seed_");
    let s = format_u64(seed);
    p.append(s.as_str());
    p.append("/loss_");
    p.append(label);
    p
}

/// The path of the confusion matrix of the CIFAR-10 network on dataset
/// `label`.
pub fn confusion_path(seed: u64, label: &str) -> (p: String)
    ensures
        p@ == spec_confusion_path(seed, label@),
{
    let mut p = String::from_str("evaluacion/seed_");
    let s = format_u64(seed);
    p.append(s.as_str());
    p.append("/matriz_confusion_");
    p.append(label);
    p
}

/// The path of the weights of layer `layer` of the CIFAR-10 network.
pub fn weights_path(seed: u64, layer: &str) -> (p: String)
    ensures
        p@ == spec_weights_path(seed, layer@),
{
    let mut p = String::from_str("visualizacion/seed_");
    let s = format_u64(seed);
    p.append(s.as_str());
    p.append("/pesos/pesos_");
    p.append(layer);
    p.append("_heatmap");
    p
}

/// The path of a plot of feature `x` against feature `y`, under `rest`
/// (a species, a target name, or `correct/...` and `incorrect/...`).
pub fn pair_path(x: &str, y: &str, rest: &str) -> (p: String)
    ensures
        p@ == spec_pair_path(x@, y@, rest@),
{
    let mut p = String::from_str("dataset/");
    p.append(x);
    p.append(" (cm) vs ");
    p.append(y);
    p.append(" (cm)/");
    p.append(rest);
    p
}

/// The path of the plot of the flowers classified right (`correct`) or
/// wrong (`incorrect`) for `target`, feature `x` against feature `y`.
pub open spec fn spec_classification_path(x: Seq<char>, y: Seq<char>, correct: bool, target: Seq<char>) -> Seq<char> {
    spec_pair_path(x, y, (if correct { "correct/"@ } else { "incorrect/"@ }) + target)
}

/// The path of the plot of the flowers classified right or wrong for
/// `target`, feature `x` against feature `y`.
pub fn classification_path(x: &str, y: &str, correct: bool, target: &str) -> (p: String)
    ensures
        p@ == spec_classification_path(x@, y@, correct, target@),
{
    let mut rest = if correct {
        String::from_str("correct/")
    } else {
        String::from_str("incorrect/")
    };
    rest.append(target);
    pair_path(x, y, rest.as_str())
}

} // verus!
