//! The decisions of the CIFAR-10 training worker.
//!
//! The worker holds a model, an optimizer and data loaders that live with
//! the tensor library; [`TrainingState`] holds what the worker decides on,
//! and its methods say what each command and each epoch does to it and what
//! the worker must do next.

use vstd::prelude::*;
use crate::cifar_data::{BATCH_SIZE, CHECKPOINT_INTERVAL, VALIDATION_INTERVAL};
use crate::training_state::{FromWorker, ToWorker, TrainingMeta, WorkerConfig};

verus! {

/// What the worker knows of its training run.
#[derive(Clone, Copy, Debug, PartialEq, Eq, Structural)]
pub struct TrainingState {
    pub is_training: bool,
    pub current_epoch: usize,
    pub target_epochs: usize,
    /// Learning rate, as `f32` bits.
    pub current_lr_bits: u32,
    pub current_seed: u64,
    /// The training data loader must be rebuilt (with the current seed)
    /// before it is used again.
    pub reset_dataloader: bool,
    /// A model and its optimizer exist; they are made and dropped together.
    pub has_model: bool,
}

/// What the worker does after a command read at the top of its loop.
#[derive(Clone, Debug)]
pub enum CommandOutcome {
    /// Go on to this turn's training; first seed the backend with the
    /// current seed and make a fresh model and optimizer if `init_model`.
    Continue { init_model: bool },
    /// Send `reply` and begin the next turn.
    Restart { reply: FromWorker },
    /// Read the checkpoint at this path, hand it to
    /// [`TrainingState::load_checkpoint`], send `CheckpointLoaded`, and go on
    /// to this turn's training.
    Load(String),
    /// Flush the recordings, send `WorkerExited` and stop the worker.
    Exit,
}

/// What the worker does after a command read in the middle of an epoch.
#[derive(Clone, Debug)]
pub enum EpochOutcome {
    /// Carry on with this epoch.
    Continue,
    /// Send `reply` if there is one and end the epoch here.
    Abort { reply: Option<FromWorker> },
    /// Read the checkpoint at this path, hand it to
    /// [`TrainingState::load_checkpoint`], send `CheckpointLoaded`, and end
    /// the epoch here without reporting it (`end_epoch` with
    /// `cut_by_load`).
    Load(String),
    /// Flush the recordings, send `WorkerExited` and stop the worker.
    Exit,
}

/// What follows the end of an epoch.
#[derive(Clone, Copy, Debug, PartialEq, Eq, Structural)]
pub struct EpochReport {
    /// Send the epoch's mean loss.
    pub report: bool,
    /// Evaluate with confusion matrices on both datasets.
    pub validate: bool,
    /// Save a checkpoint and show the weights.
    pub checkpoint: bool,
    /// The series reached its target: send `Finished`.
    pub finished: bool,
}

impl TrainingState {
    /// The state after `start(config)`.
    pub open spec fn started(self, config: WorkerConfig) -> Self {
        TrainingState {
            is_training: true,
            target_epochs: config.target_epochs,
            current_lr_bits: config.lr_bits,
            current_seed: config.seed,
            reset_dataloader: self.reset_dataloader || self.current_seed != config.seed,
            ..self
        }
    }

    /// The state after `init_model()`.
    pub open spec fn with_model(self) -> Self {
        TrainingState { has_model: true, current_epoch: 0, ..self }
    }

    /// The state after `pause()`.
    pub open spec fn paused(self) -> Self {
        TrainingState { is_training: false, ..self }
    }

    /// The state after `stop()`.
    pub open spec fn stopped(self) -> Self {
        TrainingState {
            is_training: false,
            has_model: false,
            current_epoch: 0,
            reset_dataloader: true,
            ..self
        }
    }

    /// The state after `load_checkpoint(meta)`.
    pub open spec fn loaded(self, meta: TrainingMeta) -> Self {
        TrainingState {
            current_epoch: meta.epoch,
            current_seed: meta.seed,
            current_lr_bits: meta.lr_bits,
            is_training: false,
            reset_dataloader: true,
            has_model: true,
            ..self
        }
    }

    /// What a checkpoint of this state records.
    pub open spec fn meta(self) -> TrainingMeta {
        TrainingMeta { epoch: self.current_epoch, seed: self.current_seed, lr_bits: self.current_lr_bits }
    }

    /// The state and the outcome of a command read at the top of the loop.
    pub open spec fn after_command(self, cmd: ToWorker) -> (Self, CommandOutcome) {
        match cmd {
            ToWorker::Start(c) => {
                let s = self.started(c);
                if s.has_model {
                    (s, CommandOutcome::Continue { init_model: false })
                } else {
                    (s.with_model(), CommandOutcome::Continue { init_model: true })
                }
            },
            ToWorker::Pause => (self.paused(), CommandOutcome::Continue { init_model: false }),
            ToWorker::Stop => (self.stopped(), CommandOutcome::Restart { reply: FromWorker::Finished }),
            ToWorker::LoadCheckpoint(p) => (self, CommandOutcome::Load(p)),
            ToWorker::Exit => (self, CommandOutcome::Exit),
        }
    }

    /// The state and the outcome of a command read between two batches.
    pub open spec fn after_epoch_command(self, cmd: ToWorker) -> (Self, EpochOutcome) {
        match cmd {
            ToWorker::Start(c) => {
                let s = self.started(c);
                if s.reset_dataloader {
                    (s, EpochOutcome::Abort { reply: None })
                } else {
                    (s, EpochOutcome::Continue)
                }
            },
            ToWorker::Pause => (self.paused(), EpochOutcome::Continue),
            ToWorker::Stop => (self.stopped(), EpochOutcome::Abort { reply: Some(FromWorker::Finished) }),
            ToWorker::LoadCheckpoint(p) => (self, EpochOutcome::Load(p)),
            ToWorker::Exit => (self, EpochOutcome::Exit),
        }
    }

    /// The state and the outcome of a command read while paused in the
    /// middle of an epoch.
    pub open spec fn after_paused_command(self, cmd: ToWorker) -> (Self, EpochOutcome) {
        match cmd {
            ToWorker::Pause => (self, EpochOutcome::Continue),
            _ => self.after_epoch_command(cmd),
        }
    }

    /// The worker's state before any command: not training, no model, at
    /// epoch 0 with seed 0 and the given learning rate.
    pub fn new(initial_lr_bits: u32) -> (s: Self)
        ensures
            s == (TrainingState {
                is_training: false,
                current_epoch: 0,
                target_epochs: 0,
                current_lr_bits: initial_lr_bits,
                current_seed: 0,
                reset_dataloader: false,
                has_model: false,
            }),
    {
        TrainingState {
            is_training: false,
            current_epoch: 0,
            target_epochs: 0,
            current_lr_bits: initial_lr_bits,
            current_seed: 0,
            reset_dataloader: false,
            has_model: false,
        }
    }

    /// Takes the settings of a new series; a seed other than the current
    /// one asks for the training data to be reloaded in the new order.
    pub fn start(&mut self, config: &WorkerConfig)
        ensures
            *final(self) == old(self).started(*config),
    {
        self.is_training = true;
        self.target_epochs = config.target_epochs;
        self.current_lr_bits = config.lr_bits;
        if self.current_seed != config.seed {
            self.current_seed = config.seed;
            self.reset_dataloader = true;
        }
    }

    /// Records a fresh model and optimizer, at epoch 0. The caller seeds the
    /// backend with the current seed and makes them.
    pub fn init_model(&mut self)
        ensures
            *final(self) == old(self).with_model(),
    {
        self.has_model = true;
        self.current_epoch = 0;
    }

    /// Stops training and keeps the model and the epoch.
    pub fn pause(&mut self)
        ensures
            *final(self) == old(self).paused(),
    {
        self.is_training = false;
    }

    /// Stops training, drops the model, goes back to epoch 0, and asks for
    /// the training data to be reloaded before the next series.
    pub fn stop(&mut self)
        ensures
            *final(self) == old(self).stopped(),
    {
        self.is_training = false;
        self.has_model = false;
        self.current_epoch = 0;
        self.reset_dataloader = true;
    }

    /// Takes the epoch, seed and learning rate of a checkpoint whose model
    /// and optimizer the caller restored; stays paused and asks for the
    /// training data to be reloaded with the checkpoint's seed. Returns the
    /// checkpoint's record.
    pub fn load_checkpoint(&mut self, meta: &TrainingMeta) -> (r: TrainingMeta)
        ensures
            *final(self) == old(self).loaded(*meta),
            r == *meta,
    {
        self.current_epoch = meta.epoch;
        self.current_seed = meta.seed;
        self.current_lr_bits = meta.lr_bits;
        self.is_training = false;
        self.reset_dataloader = true;
        self.has_model = true;
        *meta
    }

    /// What a checkpoint of the current model records.
    pub fn save_checkpoint(&self) -> (m: TrainingMeta)
        requires
            self.has_model,
        ensures
            m == self.meta(),
    {
        TrainingMeta { epoch: self.current_epoch, seed: self.current_seed, lr_bits: self.current_lr_bits }
    }

    /// At the top of the loop: whether the training data loader must be
    /// dropped now; the request is then cleared.
    pub fn take_dataloader_reset(&mut self) -> (drop_loader: bool)
        ensures
            drop_loader == old(self).reset_dataloader,
            *final(self) == (TrainingState { reset_dataloader: false, ..*old(self) }),
    {
        let r = self.reset_dataloader;
        self.reset_dataloader = false;
        r
    }

    /// Whether the worker waits for the next command (when not training)
    /// rather than only looking for one.
    pub fn waits_for_command(&self) -> (r: bool)
        ensures
            r == !self.is_training,
    {
        !self.is_training
    }

    /// Carries out a command read at the top of the loop.
    pub fn handle_command(&mut self, cmd: ToWorker) -> (out: CommandOutcome)
        ensures
            (*final(self), out) == old(self).after_command(cmd),
    {
        match cmd {
            ToWorker::Start(config) => {
                self.start(&config);
                if self.has_model {
                    CommandOutcome::Continue { init_model: false }
                } else {
                    self.init_model();
                    CommandOutcome::Continue { init_model: true }
                }
            },
            ToWorker::Pause => {
                self.pause();
                CommandOutcome::Continue { init_model: false }
            },
            ToWorker::Stop => {
                self.stop();
                CommandOutcome::Restart { reply: FromWorker::Finished }
            },
            ToWorker::LoadCheckpoint(path) => CommandOutcome::Load(path),
            ToWorker::Exit => CommandOutcome::Exit,
        }
    }

    /// Whether this turn trains an epoch: training is on and a model exists.
    pub fn trains_this_turn(&self) -> (r: bool)
        ensures
            r == (self.is_training && self.has_model),
    {
        self.is_training && self.has_model
    }

    /// Begins the next epoch and returns its number.
    pub fn begin_epoch(&mut self) -> (epoch: usize)
        requires
            old(self).is_training,
            old(self).has_model,
            old(self).current_epoch < usize::MAX,
        ensures
            epoch == old(self).current_epoch + 1,
            *final(self) == (TrainingState { current_epoch: epoch, ..*old(self) }),
    {
        self.current_epoch = self.current_epoch + 1;
        self.current_epoch
    }

    /// Carries out a command read between two batches.
    pub fn handle_epoch_command(&mut self, cmd: ToWorker) -> (out: EpochOutcome)
        ensures
            (*final(self), out) == old(self).after_epoch_command(cmd),
    {
        match cmd {
            ToWorker::Start(config) => {
                self.start(&config);
                if self.reset_dataloader {
                    EpochOutcome::Abort { reply: None }
                } else {
                    EpochOutcome::Continue
                }
            },
            ToWorker::Pause => {
                self.pause();
                EpochOutcome::Continue
            },
            ToWorker::Stop => {
                self.stop();
                EpochOutcome::Abort { reply: Some(FromWorker::Finished) }
            },
            ToWorker::LoadCheckpoint(path) => EpochOutcome::Load(path),
            ToWorker::Exit => EpochOutcome::Exit,
        }
    }

    /// Whether the worker, in the middle of an epoch, waits for a command
    /// before the next batch: it is paused and still has its model.
    pub fn waits_while_paused(&self) -> (r: bool)
        ensures
            r == (!self.is_training && self.has_model),
    {
        !self.is_training && self.has_model
    }

    /// Carries out a command read while paused in the middle of an epoch;
    /// a further pause changes nothing.
    pub fn handle_paused_command(&mut self, cmd: ToWorker) -> (out: EpochOutcome)
        ensures
            (*final(self), out) == old(self).after_paused_command(cmd),
    {
        match cmd {
            ToWorker::Pause => EpochOutcome::Continue,
            other => self.handle_epoch_command(other),
        }
    }

    /// Ends an epoch in which `n_batches` batches were trained;
    /// `cut_by_load` tells that a checkpoint was loaded in the middle of it.
    /// An epoch with a model and at least one batch, not cut by a load, is
    /// reported; it is evaluated every `VALIDATION_INTERVAL` epochs,
    /// checkpointed at epoch 1 and every `CHECKPOINT_INTERVAL` epochs, and
    /// ends the series (training stops) once the target epoch is reached.
    /// An epoch cut by a load is dropped: nothing is reported, evaluated,
    /// saved or finished, and the state stays as the load left it.
    pub fn end_epoch(&mut self, n_batches: usize, cut_by_load: bool) -> (r: EpochReport)
        ensures
            r == epoch_report(*old(self), n_batches, cut_by_load),
            r.report == (!cut_by_load && old(self).has_model && n_batches > 0),
            r.validate == (r.report && old(self).current_epoch % VALIDATION_INTERVAL == 0),
            r.checkpoint == (r.report && (old(self).current_epoch % CHECKPOINT_INTERVAL == 0
                || old(self).current_epoch == 1)),
            r.finished == (r.report && old(self).current_epoch >= old(self).target_epochs),
            *final(self) == (if r.finished {
                old(self).paused()
            } else {
                *old(self)
            }),
    {
        let report = !cut_by_load && self.has_model && n_batches > 0;
        let validate = report && self.current_epoch % VALIDATION_INTERVAL == 0;
        let checkpoint = report && (self.current_epoch % CHECKPOINT_INTERVAL == 0
            || self.current_epoch == 1);
        let finished = report && self.current_epoch >= self.target_epochs;
        if finished {
            self.is_training = false;
        }
        EpochReport { report, validate, checkpoint, finished }
    }
}

/// Batches that a loader of `num_items` items counts per epoch, as shown in
/// the progress reports.
pub fn batches_in_epoch(num_items: usize) -> (n: usize)
    ensures
        n == num_items / BATCH_SIZE,
{
    num_items / BATCH_SIZE
}

/// After a stop, the next start makes a fresh model and trains it from
/// epoch 0 on data reloaded for the new series.
pub proof fn lemma_stop_then_start_is_fresh(s: TrainingState, config: WorkerConfig)
    ensures
        ({
            let (t, out) = s.stopped().after_command(ToWorker::Start(config));
            &&& out == CommandOutcome::Continue { init_model: true }
            &&& t.has_model
            &&& t.is_training
            &&& t.current_epoch == 0
            &&& t.reset_dataloader
            &&& t.current_seed == config.seed
        }),
{
}

/// Pausing and starting again with the same seed resumes the same model at
/// the same epoch, without reloading the data.
pub proof fn lemma_pause_then_resume(s: TrainingState, config: WorkerConfig)
    requires
        s.has_model,
        !s.reset_dataloader,
        config.seed == s.current_seed,
    ensures
        ({
            let (t, out) = s.paused().after_command(ToWorker::Start(config));
            &&& out == CommandOutcome::Continue { init_model: false }
            &&& t.has_model
            &&& t.is_training
            &&& t.current_epoch == s.current_epoch
            &&& !t.reset_dataloader
        }),
{
}

/// A checkpoint saved right after loading one records what was loaded.
pub proof fn lemma_checkpoint_roundtrip(s: TrainingState, meta: TrainingMeta)
    ensures
        s.loaded(meta).has_model,
        s.loaded(meta).meta() == meta,
{
}

/// Starting again after loading a checkpoint, with its seed, goes on from
/// the checkpoint's epoch with the restored model.
pub proof fn lemma_resume_after_checkpoint(s: TrainingState, meta: TrainingMeta, config: WorkerConfig)
    requires
        config.seed == meta.seed,
    ensures
        ({
            let (t, out) = s.loaded(meta).after_command(ToWorker::Start(config));
            &&& out == CommandOutcome::Continue { init_model: false }
            &&& t.current_epoch == meta.epoch
            &&& t.current_seed == meta.seed
            &&& t.is_training
        }),
{
}

/// A start with another seed in the middle of an epoch ends that epoch and
/// has the training data reloaded in the new seed's order; a start with the
/// same seed, when no reload is pending, carries on with the epoch.
pub proof fn lemma_new_seed_aborts_epoch(s: TrainingState, config: WorkerConfig)
    ensures
        config.seed != s.current_seed ==> {
            let (t, out) = s.after_epoch_command(ToWorker::Start(config));
            &&& out == EpochOutcome::Abort { reply: None }
            &&& t.reset_dataloader
            &&& t.current_seed == config.seed
            &&& t.is_training
        },
        config.seed == s.current_seed && !s.reset_dataloader ==> {
            let (t, out) = s.after_epoch_command(ToWorker::Start(config));
            &&& out == EpochOutcome::Continue
            &&& t.is_training
            &&& t.current_epoch == s.current_epoch
        },
        config.seed != s.current_seed ==> {
            let (t, out) = s.after_paused_command(ToWorker::Start(config));
            &&& out == EpochOutcome::Abort { reply: None }
            &&& t.reset_dataloader
            &&& t.current_seed == config.seed
            &&& t.is_training
        },
{
}

/// The report at the end of an epoch, as `end_epoch` gives it.
pub open spec fn epoch_report(s: TrainingState, n_batches: usize, cut_by_load: bool) -> EpochReport {
    let report = !cut_by_load && s.has_model && n_batches > 0;
    EpochReport {
        report,
        validate: report && s.current_epoch % VALIDATION_INTERVAL == 0,
        checkpoint: report && (s.current_epoch % CHECKPOINT_INTERVAL == 0 || s.current_epoch == 1),
        finished: report && s.current_epoch >= s.target_epochs,
    }
}

/// A checkpoint loaded in the middle of an epoch drops that epoch: it is
/// not reported, evaluated, saved or finished, and the worker is left
/// paused at the checkpoint's epoch with its seed, waiting for a command.
pub proof fn lemma_load_mid_epoch_is_silent(s: TrainingState, p: String, meta: TrainingMeta, n_batches: usize)
    ensures
        ({
            let (t, out) = s.after_epoch_command(ToWorker::LoadCheckpoint(p));
            let u = t.loaded(meta);
            let r = epoch_report(u, n_batches, true);
            &&& out == EpochOutcome::Load(p)
            &&& !r.report && !r.validate && !r.checkpoint && !r.finished
            &&& !u.is_training
            &&& u.current_epoch == meta.epoch
            &&& u.current_seed == meta.seed
            &&& u.reset_dataloader
        }),
{
}

/// A start takes the series' settings whatever came before: training is
/// on with the given seed, learning rate and number of epochs, wherever
/// the command is read (at the top of the loop, between two batches, or
/// while paused in an epoch); the data is reloaded when the seed changes
/// or a reload was already pending.
pub proof fn lemma_start_takes_settings(s: TrainingState, config: WorkerConfig)
    ensures
        ({
            let t = s.after_command(ToWorker::Start(config)).0;
            &&& t.is_training
            &&& t.current_seed == config.seed
            &&& t.current_lr_bits == config.lr_bits
            &&& t.target_epochs == config.target_epochs
            &&& t.reset_dataloader == (s.reset_dataloader || s.current_seed != config.seed)
            &&& t.has_model
        }),
        ({
            let t = s.after_epoch_command(ToWorker::Start(config)).0;
            &&& t.is_training
            &&& t.current_seed == config.seed
            &&& t.current_lr_bits == config.lr_bits
            &&& t.target_epochs == config.target_epochs
            &&& t.current_epoch == s.current_epoch
            &&& t.has_model == s.has_model
            &&& t.reset_dataloader == (s.reset_dataloader || s.current_seed != config.seed)
        }),
        s.after_paused_command(ToWorker::Start(config)).0 == s.after_epoch_command(ToWorker::Start(config)).0,
{
}

/// Resuming a series paused in the middle of an epoch with its seed, when
/// no reload is pending, goes on with that epoch: training is on again at
/// the same epoch with the same model. A further pause while paused
/// changes nothing.
pub proof fn lemma_resume_mid_epoch(s: TrainingState, config: WorkerConfig)
    requires
        config.seed == s.current_seed,
        !s.reset_dataloader,
    ensures
        ({
            let (t, out) = s.after_paused_command(ToWorker::Start(config));
            &&& out == EpochOutcome::Continue
            &&& t.is_training
            &&& t.current_epoch == s.current_epoch
            &&& t.has_model == s.has_model
            &&& !t.reset_dataloader
        }),
        s.after_paused_command(ToWorker::Pause) == (s, EpochOutcome::Continue),
{
}

/// An exit request leaves the state as it is, wherever it is read.
pub proof fn lemma_exit_keeps_state(s: TrainingState)
    ensures
        s.after_command(ToWorker::Exit) == (s, CommandOutcome::Exit),
        s.after_epoch_command(ToWorker::Exit) == (s, EpochOutcome::Exit),
        s.after_paused_command(ToWorker::Exit) == (s, EpochOutcome::Exit),
{
}

} // verus!
