//! Messages between the CIFAR-10 control window and its training worker.
//!
//! A learning rate or a loss is an `f32` that the library carries without
//! reading it: it travels here as its IEEE-754 bit pattern (`f32::to_bits`).

use vstd::prelude::*;

verus! {

/// What the window asks the worker to train with.
#[derive(Clone, Debug)]
pub struct WorkerConfig {
    pub seed: u64,
    /// Learning rate, as `f32` bits.
    pub lr_bits: u32,
    pub target_epochs: usize,
    pub validation_interval: usize,
}

/// What a checkpoint records of the training, besides the weights.
#[derive(Clone, Copy, Debug, PartialEq, Eq, Structural)]
pub struct TrainingMeta {
    pub epoch: usize,
    pub seed: u64,
    /// Learning rate, as `f32` bits.
    pub lr_bits: u32,
}

/// Commands from the window to the worker.
#[derive(Clone, Debug)]
pub enum ToWorker {
    Start(WorkerConfig),
    Pause,
    Stop,
    LoadCheckpoint(String),
    Exit,
}

/// Reports from the worker to the window.
#[derive(Clone, Debug)]
pub enum FromWorker {
    /// An epoch ended; `loss_bits` is its mean loss as `f32` bits.
    EpochDone { epoch: usize, loss_bits: u32 },
    CheckpointSaved { path: String, epoch: usize },
    Finished,
    Error(String),
    CheckpointLoaded(TrainingMeta),
    WorkerExited,
    BatchProgress { epoch: usize, current_batch: usize, total_batches: usize },
}

/// What the window learns about its worker.
#[derive(Clone, Debug)]
pub enum WorkerEvent {
    /// The worker is up and takes commands.
    Ready,
    Update(FromWorker),
}

/// Where a training series stands, as the window shows it.
#[derive(Clone, Copy, Debug, PartialEq, Eq, Structural)]
pub enum TrainingStatus {
    Idle,
    Training,
    Paused,
}

} // verus!
