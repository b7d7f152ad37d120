//! The messages and the decisions of the Iris training worker.
//!
//! The worker holds a perceptron, an optimizer and data loaders that live
//! with the tensor library; [`Trainer`] and [`IrisWorker`] hold what it
//! decides on, and their methods say what each command and each epoch does
//! and what the worker must do next. A learning rate travels as its `f64`
//! bits, a loss as its `f32` bits.

use vstd::prelude::*;
use crate::iris_dataset::{BATCH_SIZE, IrisClass, VALIDATION_INTERVAL};

verus! {

/// The settings and progress of a training series.
#[derive(Clone, Copy, Debug, PartialEq, Eq, Structural)]
pub struct TrainingConfig {
    /// The class that the perceptron learns to tell apart.
    pub target_class: IrisClass,
    pub seed: u64,
    /// Learning rate, as `f64` bits.
    pub lr_bits: u64,
    pub target_epochs: usize,
    pub current_epoch: usize,
    pub current_batch: usize,
}

/// Commands from the window to the worker.
#[derive(Clone, Debug)]
pub enum ToWorker {
    TargetSelected(IrisClass),
    Start(TrainingConfig),
    Pause,
    Stop,
    LoadCheckpoint(String),
    Exit,
}

/// Reports from the worker to the window.
#[derive(Clone, Debug)]
pub enum FromWorker {
    /// An epoch ended; `loss_bits` is its mean loss as `f32` bits.
    EpochDone { epoch: usize, loss_bits: u32 },
    CheckpointSaved { path: String, epoch: usize },
    TrainingFinished,
    Error(String),
    CheckpointLoaded(TrainingConfig),
    WorkerExited,
    BatchProgress { epoch: usize, current_batch: usize, total_batches: usize },
}

/// What the window learns about its worker.
#[derive(Clone, Debug)]
pub enum WorkerEvent {
    /// The worker is up and takes commands.
    Ready,
    Update(FromWorker),
}

/// What the trainer holds, besides the tensors.
#[derive(Clone, Copy, Debug, PartialEq, Eq, Structural)]
pub struct Trainer {
    /// Plots are recorded (a recording stream exists).
    pub has_recording: bool,
    /// The time step of the next recorded plot.
    pub rerun_time: i64,
    /// The dataset was read.
    pub has_dataset: bool,
    pub has_model: bool,
    pub has_train_loader: bool,
    pub has_val_loader: bool,
    /// The dataset with the target class is still to be plotted when
    /// training starts.
    pub plot_at_start: bool,
}

/// What starting a series asks for.
#[derive(Clone, Copy, Debug, PartialEq, Eq, Structural)]
pub struct StartPlan {
    /// Seed the backend with the series' seed, make a fresh perceptron, and
    /// shuffle and split the dataset into new loaders with that seed.
    pub rebuild: bool,
    /// Plot the dataset with the target class at this time step.
    pub plot_at: Option<i64>,
}

impl Trainer {
    /// The trainer after `stop()`.
    pub open spec fn stopped(self) -> Self {
        Trainer { has_model: false, has_train_loader: false, has_val_loader: false, ..self }
    }

    /// Whether a plot can be made: there is a recording and a dataset.
    pub open spec fn can_plot(self) -> bool {
        self.has_recording && self.has_dataset
    }

    /// The trainer after plotting the original dataset, and the time step
    /// of the plot if one is made.
    pub open spec fn plotted(self) -> (Self, Option<i64>) {
        if self.can_plot() {
            (Trainer { rerun_time: (self.rerun_time + 1) as i64, ..self }, Some(self.rerun_time))
        } else {
            (self, None)
        }
    }

    /// The trainer after plotting the dataset with the target class, and the
    /// time step of the plot if one is made.
    pub open spec fn plotted_with_target(self) -> (Self, Option<i64>) {
        if self.can_plot() {
            (
                Trainer { rerun_time: (self.rerun_time + 1) as i64, plot_at_start: false, ..self },
                Some(self.rerun_time),
            )
        } else {
            (self, None)
        }
    }

    /// The trainer after starting a series, and what the start asks for.
    pub open spec fn started(self) -> (Self, StartPlan) {
        let rebuild = !(self.has_train_loader && self.has_val_loader && self.has_model);
        let built = Trainer { has_model: true, has_train_loader: true, has_val_loader: true, ..self };
        if self.plot_at_start {
            let (t, at) = built.plotted_with_target();
            (t, StartPlan { rebuild, plot_at: at })
        } else {
            (built, StartPlan { rebuild, plot_at: None })
        }
    }

    /// A trainer with nothing loaded yet; its plots are recorded when
    /// `has_recording`.
    pub fn new(has_recording: bool) -> (t: Self)
        ensures
            t == (Trainer {
                has_recording,
                rerun_time: 0,
                has_dataset: false,
                has_model: false,
                has_train_loader: false,
                has_val_loader: false,
                plot_at_start: true,
            }),
    {
        Trainer {
            has_recording,
            rerun_time: 0,
            has_dataset: false,
            has_model: false,
            has_train_loader: false,
            has_val_loader: false,
            plot_at_start: true,
        }
    }

    /// Records that the dataset was read.
    pub fn dataset_loaded(&mut self)
        ensures
            *final(self) == (Trainer { has_dataset: true, ..*old(self) }),
    {
        self.has_dataset = true;
    }

    /// Drops the model and the loaders; the dataset and the plot time stay.
    pub fn stop(&mut self)
        ensures
            *final(self) == old(self).stopped(),
    {
        self.has_model = false;
        self.has_train_loader = false;
        self.has_val_loader = false;
    }

    /// Plots the original dataset when it can (with a recording and a
    /// dataset): returns the time step to plot at, and moves to the next.
    pub fn plot_original_dataset(&mut self) -> (at: Option<i64>)
        requires
            old(self).rerun_time < i64::MAX,
        ensures
            (*final(self), at) == old(self).plotted(),
    {
        if self.has_recording && self.has_dataset {
            let at = self.rerun_time;
            self.rerun_time = self.rerun_time + 1;
            Some(at)
        } else {
            None
        }
    }

    /// Plots the dataset with the target class when it can: returns the
    /// time step to plot at, moves to the next, and no longer plots it at
    /// the start of training.
    pub fn plot_dataset_with_target(&mut self) -> (at: Option<i64>)
        requires
            old(self).rerun_time < i64::MAX,
        ensures
            (*final(self), at) == old(self).plotted_with_target(),
    {
        if self.has_recording && self.has_dataset {
            let at = self.rerun_time;
            self.rerun_time = self.rerun_time + 1;
            self.plot_at_start = false;
            Some(at)
        } else {
            None
        }
    }

    /// Starts a series: the model and both loaders are rebuilt unless all
    /// three exist (rebuilding needs the dataset), and the dataset with the
    /// target is plotted if that is still due.
    pub fn start(&mut self) -> (plan: StartPlan)
        requires
            !(old(self).has_train_loader && old(self).has_val_loader && old(self).has_model)
                ==> old(self).has_dataset,
            old(self).rerun_time < i64::MAX,
        ensures
            (*final(self), plan) == old(self).started(),
    {
        let rebuild = !(self.has_train_loader && self.has_val_loader && self.has_model);
        if rebuild {
            self.has_model = true;
            self.has_train_loader = true;
            self.has_val_loader = true;
        }
        let plot_at = if self.plot_at_start {
            self.plot_dataset_with_target()
        } else {
            None
        };
        StartPlan { rebuild, plot_at }
    }
}

/// What the worker does with a command read while idle.
#[derive(Clone, Debug)]
pub enum TopAction {
    /// The target class changed: plot the dataset with it at this time
    /// step, if given.
    Retarget { target: IrisClass, plot_at: Option<i64> },
    /// Run a series with these settings, following the plan.
    Train { config: TrainingConfig, plan: StartPlan },
    /// Nothing to do.
    Ignore,
    /// Send `WorkerExited` and stop.
    Exit,
}

/// What the worker does with what it finds between two batches.
#[derive(Clone, Debug)]
pub enum BatchAction {
    /// Train on the batch and report progress.
    Train,
    /// Send `reply` if there is one and end the series here.
    EndRun { reply: Option<FromWorker> },
    /// Send `WorkerExited` as the last message and stop the worker.
    Exit,
}

/// What follows an epoch.
#[derive(Clone, Copy, Debug, PartialEq, Eq, Structural)]
pub struct EpochEnd {
    /// Record the epoch's loss and the weights at this time step.
    pub log_at: Option<i64>,
    /// Validate and plot the classification.
    pub validate: bool,
}

/// The worker: its trainer and whether the current series was stopped.
#[derive(Clone, Copy, Debug, PartialEq, Eq, Structural)]
pub struct IrisWorker {
    pub trainer: Trainer,
    pub stop_training: bool,
}

impl IrisWorker {
    /// The worker and the action after a command read while idle.
    pub open spec fn after_message(self, msg: ToWorker) -> (Self, TopAction) {
        match msg {
            ToWorker::TargetSelected(target) => {
                let (t, at) = self.trainer.stopped().plotted_with_target();
                (IrisWorker { trainer: t, stop_training: false }, TopAction::Retarget { target, plot_at: at })
            },
            ToWorker::Start(config) => {
                let (t, plan) = self.trainer.started();
                (IrisWorker { trainer: t, ..self }, TopAction::Train { config, plan })
            },
            ToWorker::Exit => (self, TopAction::Exit),
            _ => (self, TopAction::Ignore),
        }
    }

    /// The worker and the action after what was found between two batches.
    pub open spec fn after_batch_command(self, msg: Option<ToWorker>, total_batches: usize) -> (Self, BatchAction) {
        match msg {
            Some(ToWorker::Pause) => (self, BatchAction::EndRun { reply: None }),
            Some(ToWorker::Stop) => (
                IrisWorker { stop_training: true, ..self },
                BatchAction::EndRun {
                    reply: Some(FromWorker::BatchProgress { epoch: 0, current_batch: 0, total_batches }),
                },
            ),
            Some(ToWorker::Exit) => (self, BatchAction::Exit),
            _ => (self, BatchAction::Train),
        }
    }

    /// The worker and what follows after epoch `epoch` ran to its end.
    pub open spec fn after_epoch(self, epoch: usize) -> (Self, EpochEnd) {
        if self.trainer.has_recording {
            let t = Trainer { rerun_time: (self.trainer.rerun_time + 1) as i64, ..self.trainer };
            (
                IrisWorker { trainer: t, ..self },
                EpochEnd { log_at: Some(t.rerun_time), validate: epoch % VALIDATION_INTERVAL == 0 },
            )
        } else {
            (self, EpochEnd { log_at: None, validate: epoch % VALIDATION_INTERVAL == 0 })
        }
    }

    /// The worker after a series ended.
    pub open spec fn finished(self) -> Self {
        if self.stop_training {
            IrisWorker { trainer: self.trainer.stopped(), stop_training: false }
        } else {
            self
        }
    }

    /// A worker with this trainer.
    pub fn new(trainer: Trainer) -> (w: Self)
        ensures
            w == (IrisWorker { trainer, stop_training: false }),
    {
        IrisWorker { trainer, stop_training: false }
    }

    /// Carries out a command read while idle. A new target drops the model
    /// and loaders, clears the stop mark and plots the dataset with the
    /// target; a start runs a series; an exit stops the worker; anything
    /// else is ignored.
    pub fn handle_message(&mut self, msg: ToWorker) -> (a: TopAction)
        requires
            old(self).trainer.rerun_time < i64::MAX,
            msg is Start ==> !(old(self).trainer.has_train_loader && old(self).trainer.has_val_loader
                && old(self).trainer.has_model) ==> old(self).trainer.has_dataset,
        ensures
            (*final(self), a) == old(self).after_message(msg),
    {
        match msg {
            ToWorker::TargetSelected(target) => {
                self.trainer.stop();
                self.stop_training = false;
                let plot_at = self.trainer.plot_dataset_with_target();
                TopAction::Retarget { target, plot_at }
            },
            ToWorker::Start(config) => {
                let plan = self.trainer.start();
                TopAction::Train { config, plan }
            },
            ToWorker::Exit => TopAction::Exit,
            _ => TopAction::Ignore,
        }
    }

    /// Looks at what was found between two batches (a command, or nothing):
    /// a pause ends the series; a stop ends it, reports zero progress and
    /// marks the series stopped; an exit stops the worker at once; any
    /// other command is dropped and training goes on.
    pub fn batch_command(&mut self, msg: Option<ToWorker>, total_batches: usize) -> (a: BatchAction)
        ensures
            (*final(self), a) == old(self).after_batch_command(msg, total_batches),
    {
        match msg {
            Some(ToWorker::Pause) => BatchAction::EndRun { reply: None },
            Some(ToWorker::Stop) => {
                self.stop_training = true;
                BatchAction::EndRun {
                    reply: Some(FromWorker::BatchProgress { epoch: 0, current_batch: 0, total_batches }),
                }
            },
            Some(ToWorker::Exit) => BatchAction::Exit,
            _ => BatchAction::Train,
        }
    }

    /// Ends an epoch that ran to its last batch: with a recording, the loss
    /// is recorded at the next time step; the epoch is validated every
    /// `VALIDATION_INTERVAL` epochs.
    pub fn end_epoch(&mut self, epoch: usize) -> (e: EpochEnd)
        requires
            old(self).trainer.rerun_time < i64::MAX,
        ensures
            (*final(self), e) == old(self).after_epoch(epoch),
    {
        let log_at = if self.trainer.has_recording {
            self.trainer.rerun_time = self.trainer.rerun_time + 1;
            Some(self.trainer.rerun_time)
        } else {
            None
        };
        EpochEnd { log_at, validate: epoch % VALIDATION_INTERVAL == 0 }
    }

    /// Ends a series: a stopped series drops the model and loaders and
    /// clears the stop mark. The worker then reports `TrainingFinished`.
    pub fn finish_run(&mut self) -> (reply: FromWorker)
        ensures
            *final(self) == old(self).finished(),
            reply == FromWorker::TrainingFinished,
    {
        if self.stop_training {
            self.trainer.stop();
            self.stop_training = false;
        }
        FromWorker::TrainingFinished
    }
}

/// Batches that a loader of `num_items` items yields per epoch: full
/// batches of `BATCH_SIZE`, and one more for the items left over.
pub fn loader_batches(num_items: usize) -> (n: usize)
    ensures
        n == num_items / BATCH_SIZE + if num_items % BATCH_SIZE == 0 {
            0int
        } else {
            1int
        },
        (n - 1) * BATCH_SIZE < num_items <= n * BATCH_SIZE || (n == 0 && num_items == 0),
{
    if num_items % BATCH_SIZE == 0 {
        num_items / BATCH_SIZE
    } else {
        num_items / BATCH_SIZE + 1
    }
}

/// The settings of a series moved on to its next epoch.
pub open spec fn advanced(config: TrainingConfig) -> TrainingConfig {
    TrainingConfig { current_epoch: (config.current_epoch + 1) as usize, ..config }
}

/// Moves a series to its next epoch while the target is not reached:
/// returns whether there is one.
pub fn next_epoch(config: &mut TrainingConfig) -> (more: bool)
    ensures
        more == (old(config).current_epoch < old(config).target_epochs),
        *final(config) == if more {
            advanced(*old(config))
        } else {
            *old(config)
        },
{
    if config.current_epoch < config.target_epochs {
        config.current_epoch = config.current_epoch + 1;
        true
    } else {
        false
    }
}

/// The settings after `k` further epochs.
pub open spec fn after_epochs(config: TrainingConfig, k: nat) -> TrainingConfig
    decreases k,
{
    if k == 0 {
        config
    } else {
        advanced(after_epochs(config, (k - 1) as nat))
    }
}

/// A series that is not interrupted trains exactly the epochs after the
/// current one up to the target, one at a time, and then ends: the
/// `k`-th step goes on while `k` is below the epochs left, and after all of
/// them the series stands at its target.
pub proof fn lemma_series_runs_to_target(config: TrainingConfig, k: nat)
    requires
        config.current_epoch <= config.target_epochs,
        k <= config.target_epochs - config.current_epoch,
    ensures
        after_epochs(config, k).current_epoch == config.current_epoch + k,
        after_epochs(config, k).target_epochs == config.target_epochs,
        (after_epochs(config, k).current_epoch < after_epochs(config, k).target_epochs) <==> k
            < config.target_epochs - config.current_epoch,
    decreases k,
{
    if k > 0 {
        lemma_series_runs_to_target(config, (k - 1) as nat);
    }
}

/// A stop between two batches ends the series and, once it has ended,
/// leaves no model and no loaders (the next start rebuilds them) but keeps
/// the dataset that was read.
pub proof fn lemma_stop_drops_model(w: IrisWorker, total_batches: usize)
    ensures
        ({
            let (s, a) = w.after_batch_command(Some(ToWorker::Stop), total_batches);
            let f = s.finished();
            &&& a matches BatchAction::EndRun { .. }
            &&& !f.stop_training
            &&& !f.trainer.has_model
            &&& f.trainer.has_dataset == w.trainer.has_dataset
            &&& f.trainer.started().1.rebuild
        }),
{
}

/// A pause between two batches ends the series but keeps the model and
/// loaders: the next start does not rebuild them.
pub proof fn lemma_pause_keeps_model(w: IrisWorker, total_batches: usize)
    requires
        !w.stop_training,
        w.trainer.has_model,
        w.trainer.has_train_loader,
        w.trainer.has_val_loader,
    ensures
        ({
            let (s, a) = w.after_batch_command(Some(ToWorker::Pause), total_batches);
            let f = s.finished();
            &&& a == BatchAction::EndRun { reply: None }
            &&& f.trainer.has_model
            &&& !f.trainer.started().1.rebuild
        }),
{
}

/// An exit, whether read while idle or between two batches, stops the
/// worker without changing what it holds.
pub proof fn lemma_exit_stops_worker(w: IrisWorker, total_batches: usize)
    ensures
        w.after_message(ToWorker::Exit) == (w, TopAction::Exit),
        w.after_batch_command(Some(ToWorker::Exit), total_batches) == (w, BatchAction::Exit),
{
}

/// Choosing a new target always makes the next start rebuild the model.
pub proof fn lemma_retarget_rebuilds(w: IrisWorker, c: IrisClass)
    ensures
        w.after_message(ToWorker::TargetSelected(c)).0.trainer.started().1.rebuild,
{
}

} // verus!
