//! The CIFAR-10 control window: what each message does to its state, what
//! it asks of the worker, and which buttons it offers.

use vstd::prelude::*;
use crate::controls::{Button, ButtonKind, spec_checkpoint_lines};
use crate::text::{decimal, format_u64, parse_u64, parse_usize, parse_unsigned};
use crate::training_state::{FromWorker, ToWorker, TrainingStatus, WorkerConfig, WorkerEvent};

verus! {

/// Seed of a series when the seed field does not read as a number.
pub const DEFAULT_SEED: u64 = 42;

/// Epochs of a series when the epochs field does not read as a number.
pub const DEFAULT_EPOCHS: usize = 10;

/// Epochs between evaluations that the window asks for.
pub const REQUESTED_VALIDATION_INTERVAL: usize = 2;

/// Messages of the window. The learning rate field is read as an `f32`
/// outside the library: `BtnStartPressed` carries what it reads as (or the
/// default learning rate), as `f32` bits.
#[derive(Clone, Debug)]
pub enum UiMessage {
    InputSeedChanged(String),
    InputLrChanged(String),
    InputEpochsChanged(String),
    BtnStartPressed(u32),
    BtnPausePressed,
    BtnStopPressed,
    BtnLoadPressed(String),
    WorkerStatusChanged(WorkerEvent),
    WindowCloseRequested,
    BtnLoadCheckpointPressed,
    CheckpointSelected(Option<String>),
}

/// What the window does besides changing its state.
#[derive(Clone, Debug)]
pub enum UiAction {
    Nothing,
    /// Send this command to the worker.
    Send(ToWorker),
    /// Ask for a checkpoint folder and answer with `CheckpointSelected`.
    PickCheckpointFolder,
    /// Write this learning rate (`f32` bits) into the learning rate field,
    /// as `InputLrChanged` with its text.
    ShowLearningRate(u32),
    /// End the program.
    ExitProcess,
}

/// The window's state.
pub struct CifarExperimenter {
    pub status: TrainingStatus,
    pub input_seed: String,
    pub input_lr: String,
    pub input_epochs: String,
    pub current_epoch: usize,
    /// Loss of the last epoch, as `f32` bits.
    pub current_loss_bits: u32,
    pub current_batch: usize,
    pub total_batches: usize,
    pub checkpoints_disponibles: Vec<String>,
    /// The worker has sent its `Ready`.
    pub worker_connected: bool,
}

/// The window's state as plain values.
pub struct CifarExperimenterView {
    pub status: TrainingStatus,
    pub input_seed: Seq<char>,
    pub input_lr: Seq<char>,
    pub input_epochs: Seq<char>,
    pub current_epoch: usize,
    pub current_loss_bits: u32,
    pub current_batch: usize,
    pub total_batches: usize,
    pub checkpoints: Seq<Seq<char>>,
    pub worker_connected: bool,
}

impl View for CifarExperimenter {
    type V = CifarExperimenterView;

    open spec fn view(&self) -> CifarExperimenterView {
        CifarExperimenterView {
            status: self.status,
            input_seed: self.input_seed@,
            input_lr: self.input_lr@,
            input_epochs: self.input_epochs@,
            current_epoch: self.current_epoch,
            current_loss_bits: self.current_loss_bits,
            current_batch: self.current_batch,
            total_batches: self.total_batches,
            checkpoints: self.checkpoints_disponibles@.map_values(|p: String| p@),
            worker_connected: self.worker_connected,
        }
    }
}

/// The number that `text` reads as, or `default`.
pub open spec fn u64_or(text: Seq<char>, default: u64) -> u64 {
    match parse_unsigned(text, u64::MAX as nat) {
        Some(v) => v as u64,
        None => default,
    }
}

/// The number that `text` reads as, or `default`.
pub open spec fn usize_or(text: Seq<char>, default: usize) -> usize {
    match parse_unsigned(text, usize::MAX as nat) {
        Some(v) => v as usize,
        None => default,
    }
}

/// Sends `cmd` when a worker is connected.
pub open spec fn send_if(connected: bool, cmd: ToWorker) -> UiAction {
    if connected {
        UiAction::Send(cmd)
    } else {
        UiAction::Nothing
    }
}

impl CifarExperimenterView {
    /// What a report of the worker does.
    pub open spec fn after_report(self, msg: FromWorker) -> (Self, UiAction) {
        match msg {
            FromWorker::BatchProgress { epoch, current_batch, total_batches } => (
                CifarExperimenterView { current_epoch: epoch, current_batch, total_batches, ..self },
                UiAction::Nothing,
            ),
            FromWorker::EpochDone { epoch, loss_bits } => (
                CifarExperimenterView {
                    current_epoch: epoch,
                    current_loss_bits: loss_bits,
                    current_batch: self.total_batches,
                    ..self
                },
                UiAction::Nothing,
            ),
            FromWorker::CheckpointSaved { path, epoch } => (
                CifarExperimenterView { checkpoints: self.checkpoints.push(path@), ..self },
                UiAction::Nothing,
            ),
            FromWorker::CheckpointLoaded(meta) => (
                CifarExperimenterView {
                    current_epoch: meta.epoch,
                    input_seed: decimal(meta.seed as nat),
                    status: TrainingStatus::Paused,
                    ..self
                },
                UiAction::ShowLearningRate(meta.lr_bits),
            ),
            FromWorker::Finished => (CifarExperimenterView { status: TrainingStatus::Idle, ..self }, UiAction::Nothing),
            FromWorker::Error(e) => (CifarExperimenterView { status: TrainingStatus::Idle, ..self }, UiAction::Nothing),
            FromWorker::WorkerExited => (self, UiAction::ExitProcess),
        }
    }

    /// What a message does to the window.
    pub open spec fn after(self, msg: UiMessage) -> (Self, UiAction) {
        match msg {
            UiMessage::BtnLoadCheckpointPressed => (self, UiAction::PickCheckpointFolder),
            UiMessage::CheckpointSelected(Some(path)) => (
                self,
                send_if(self.worker_connected, ToWorker::LoadCheckpoint(path)),
            ),
            UiMessage::CheckpointSelected(None) => (self, UiAction::Nothing),
            UiMessage::InputSeedChanged(v) => (CifarExperimenterView { input_seed: v@, ..self }, UiAction::Nothing),
            UiMessage::InputLrChanged(v) => (CifarExperimenterView { input_lr: v@, ..self }, UiAction::Nothing),
            UiMessage::InputEpochsChanged(v) => (CifarExperimenterView { input_epochs: v@, ..self }, UiAction::Nothing),
            UiMessage::BtnStartPressed(lr_bits) => (
                CifarExperimenterView { status: TrainingStatus::Training, ..self },
                send_if(
                    self.worker_connected,
                    ToWorker::Start(
                        WorkerConfig {
                            seed: u64_or(self.input_seed, DEFAULT_SEED),
                            lr_bits,
                            target_epochs: usize_or(self.input_epochs, DEFAULT_EPOCHS),
                            validation_interval: REQUESTED_VALIDATION_INTERVAL,
                        },
                    ),
                ),
            ),
            UiMessage::BtnPausePressed => (
                CifarExperimenterView { status: TrainingStatus::Paused, ..self },
                send_if(self.worker_connected, ToWorker::Pause),
            ),
            UiMessage::BtnStopPressed => (
                CifarExperimenterView { status: TrainingStatus::Idle, ..self },
                send_if(self.worker_connected, ToWorker::Stop),
            ),
            UiMessage::BtnLoadPressed(path) => (self, send_if(self.worker_connected, ToWorker::LoadCheckpoint(path))),
            UiMessage::WorkerStatusChanged(WorkerEvent::Ready) => (
                CifarExperimenterView { worker_connected: true, ..self },
                UiAction::Nothing,
            ),
            UiMessage::WorkerStatusChanged(WorkerEvent::Update(m)) => self.after_report(m),
            UiMessage::WindowCloseRequested => (
                self,
                if self.worker_connected {
                    UiAction::Send(ToWorker::Exit)
                } else {
                    UiAction::ExitProcess
                },
            ),
        }
    }

    /// The buttons offered: while idle, start and load (pressable once the
    /// worker is connected); while training, pause and stop; while paused,
    /// resume and load another (pressable once the worker is connected) and
    /// stop.
    pub open spec fn buttons(self) -> Seq<Button> {
        match self.status {
            TrainingStatus::Idle => seq![
                Button { kind: ButtonKind::StartSeries, enabled: self.worker_connected },
                Button { kind: ButtonKind::LoadCheckpoint, enabled: self.worker_connected },
            ],
            TrainingStatus::Training => seq![
                Button { kind: ButtonKind::Pause, enabled: true },
                Button { kind: ButtonKind::Stop, enabled: true },
            ],
            TrainingStatus::Paused => seq![
                Button { kind: ButtonKind::Resume, enabled: self.worker_connected },
                Button { kind: ButtonKind::LoadOther, enabled: self.worker_connected },
                Button { kind: ButtonKind::Stop, enabled: true },
            ],
        }
    }
}

fn send_when(connected: bool, cmd: ToWorker) -> (a: UiAction)
    ensures
        a == send_if(connected, cmd),
{
    if connected {
        UiAction::Send(cmd)
    } else {
        UiAction::Nothing
    }
}

impl CifarExperimenter {
    /// The window as it opens: idle, seed "42", learning rate "0.001", 10
    /// epochs, no progress, no checkpoint, no worker yet.
    pub fn new() -> (w: Self)
        ensures
            w@.status == TrainingStatus::Idle,
            w@.input_seed == "42"@,
            w@.input_lr == "0.001"@,
            w@.input_epochs == "10"@,
            w@.current_epoch == 0,
            w@.current_loss_bits == 0,
            w@.current_batch == 0,
            w@.total_batches == 0,
            w@.checkpoints.len() == 0,
            !w@.worker_connected,
    {
        let w = CifarExperimenter {
            status: TrainingStatus::Idle,
            input_seed: String::from_str("42"),
            input_lr: String::from_str("0.001"),
            input_epochs: String::from_str("10"),
            current_epoch: 0,
            current_loss_bits: 0,
            current_batch: 0,
            total_batches: 0,
            checkpoints_disponibles: Vec::new(),
            worker_connected: false,
        };
        assert(w@.checkpoints =~= Seq::<Seq<char>>::empty());
        w
    }

    fn apply_report(&mut self, msg: FromWorker) -> (a: UiAction)
        ensures
            (final(self)@, a) == old(self)@.after_report(msg),
    {
        match msg {
            FromWorker::BatchProgress { epoch, current_batch, total_batches } => {
                self.current_epoch = epoch;
                self.current_batch = current_batch;
                self.total_batches = total_batches;
                UiAction::Nothing
            },
            FromWorker::EpochDone { epoch, loss_bits } => {
                self.current_epoch = epoch;
                self.current_loss_bits = loss_bits;
                self.current_batch = self.total_batches;
                UiAction::Nothing
            },
            FromWorker::CheckpointSaved { path, epoch } => {
                let ghost before = self.checkpoints_disponibles@;
                let ghost p = path@;
                self.checkpoints_disponibles.push(path);
                assert(self.checkpoints_disponibles@.map_values(|q: String| q@) =~= before.map_values(
                    |q: String| q@,
                ).push(p));
                UiAction::Nothing
            },
            FromWorker::CheckpointLoaded(meta) => {
                self.current_epoch = meta.epoch;
                self.input_seed = format_u64(meta.seed);
                self.status = TrainingStatus::Paused;
                UiAction::ShowLearningRate(meta.lr_bits)
            },
            FromWorker::Finished => {
                self.status = TrainingStatus::Idle;
                UiAction::Nothing
            },
            FromWorker::Error(e) => {
                self.status = TrainingStatus::Idle;
                UiAction::Nothing
            },
            FromWorker::WorkerExited => UiAction::ExitProcess,
        }
    }

    /// Carries out a message of the window.
    pub fn update(&mut self, message: UiMessage) -> (a: UiAction)
        ensures
            (final(self)@, a) == old(self)@.after(message),
    {
        match message {
            UiMessage::BtnLoadCheckpointPressed => UiAction::PickCheckpointFolder,
            UiMessage::CheckpointSelected(Some(path)) => send_when(
                self.worker_connected,
                ToWorker::LoadCheckpoint(path),
            ),
            UiMessage::CheckpointSelected(None) => UiAction::Nothing,
            UiMessage::InputSeedChanged(val) => {
                self.input_seed = val;
                UiAction::Nothing
            },
            UiMessage::InputLrChanged(val) => {
                self.input_lr = val;
                UiAction::Nothing
            },
            UiMessage::InputEpochsChanged(val) => {
                self.input_epochs = val;
                UiAction::Nothing
            },
            UiMessage::BtnStartPressed(lr_bits) => {
                self.status = TrainingStatus::Training;
                let seed = match parse_u64(self.input_seed.as_str()) {
                    Some(v) => v,
                    None => DEFAULT_SEED,
                };
                let epochs = match parse_usize(self.input_epochs.as_str()) {
                    Some(v) => v,
                    None => DEFAULT_EPOCHS,
                };
                let config = WorkerConfig {
                    seed,
                    lr_bits,
                    target_epochs: epochs,
                    validation_interval: REQUESTED_VALIDATION_INTERVAL,
                };
                send_when(self.worker_connected, ToWorker::Start(config))
            },
            UiMessage::BtnPausePressed => {
                self.status = TrainingStatus::Paused;
                send_when(self.worker_connected, ToWorker::Pause)
            },
            UiMessage::BtnStopPressed => {
                self.status = TrainingStatus::Idle;
                send_when(self.worker_connected, ToWorker::Stop)
            },
            UiMessage::BtnLoadPressed(path) => send_when(self.worker_connected, ToWorker::LoadCheckpoint(path)),
            UiMessage::WorkerStatusChanged(event) => match event {
                WorkerEvent::Ready => {
                    self.worker_connected = true;
                    UiAction::Nothing
                },
                WorkerEvent::Update(m) => self.apply_report(m),
            },
            UiMessage::WindowCloseRequested => {
                if self.worker_connected {
                    UiAction::Send(ToWorker::Exit)
                } else {
                    UiAction::ExitProcess
                }
            },
        }
    }

    /// The buttons of the window, in order.
    pub fn buttons(&self) -> (b: Vec<Button>)
        ensures
            b@ == self@.buttons(),
    {
        let c = self.worker_connected;
        let mut b: Vec<Button> = Vec::new();
        match self.status {
            TrainingStatus::Idle => {
                b.push(Button { kind: ButtonKind::StartSeries, enabled: c });
                b.push(Button { kind: ButtonKind::LoadCheckpoint, enabled: c });
            },
            TrainingStatus::Training => {
                b.push(Button { kind: ButtonKind::Pause, enabled: true });
                b.push(Button { kind: ButtonKind::Stop, enabled: true });
            },
            TrainingStatus::Paused => {
                b.push(Button { kind: ButtonKind::Resume, enabled: c });
                b.push(Button { kind: ButtonKind::LoadOther, enabled: c });
                b.push(Button { kind: ButtonKind::Stop, enabled: true });
            },
        }
        assert(b@ =~= self@.buttons());
        b
    }

    /// The lines of the list of saved checkpoints: each path, or a note
    /// that there is none yet.
    pub fn checkpoint_lines(&self) -> (lines: Vec<String>)
        ensures
            lines@.map_values(|l: String| l@) == spec_checkpoint_lines(self@.checkpoints),
    {
        if self.checkpoints_disponibles.len() == 0 {
            let mut lines: Vec<String> = Vec::new();
            lines.push(String::from_str("Ninguno todavía..."));
            assert(lines@.map_values(|l: String| l@) =~= spec_checkpoint_lines(self@.checkpoints));
            lines
        } else {
            let lines = self.checkpoints_disponibles.clone();
            assert(lines@.map_values(|l: String| l@) =~= spec_checkpoint_lines(self@.checkpoints));
            lines
        }
    }
}

/// After a checkpoint is loaded, starting again asks the worker for the
/// checkpoint's seed: the seed field shows it in a form that reads back as
/// the same number.
pub proof fn lemma_checkpoint_seed_restarts(v: CifarExperimenterView, meta: crate::training_state::TrainingMeta, lr_bits: u32)
    requires
        v.worker_connected,
    ensures
        ({
            let (w, _) = v.after(UiMessage::WorkerStatusChanged(WorkerEvent::Update(FromWorker::CheckpointLoaded(meta))));
            let (x, a) = w.after(UiMessage::BtnStartPressed(lr_bits));
            &&& w.status == TrainingStatus::Paused
            &&& w.current_epoch == meta.epoch
            &&& x.status == TrainingStatus::Training
            &&& a matches UiAction::Send(ToWorker::Start(c)) && c.seed == meta.seed && c.lr_bits == lr_bits
        }),
{
    crate::text::lemma_parse_decimal(meta.seed as nat, u64::MAX as nat);
}

/// Pressing Start with a connected worker starts a series with what the
/// fields read as: the seed and the number of epochs typed when they read
/// as numbers (42 and 10 otherwise), the learning rate given, and an
/// evaluation every 2 epochs; the window then shows the series training.
pub proof fn lemma_start_sends_typed_settings(v: CifarExperimenterView, lr_bits: u32)
    requires
        v.worker_connected,
    ensures
        ({
            let (w, a) = v.after(UiMessage::BtnStartPressed(lr_bits));
            &&& w.status == TrainingStatus::Training
            &&& a matches UiAction::Send(ToWorker::Start(c)) && {
                &&& c.lr_bits == lr_bits
                &&& c.validation_interval == 2
                &&& (parse_unsigned(v.input_epochs, usize::MAX as nat) matches Some(n) ==> c.target_epochs == n)
                &&& (parse_unsigned(v.input_epochs, usize::MAX as nat) is None ==> c.target_epochs == 10)
                &&& (parse_unsigned(v.input_seed, u64::MAX as nat) matches Some(n) ==> c.seed == n)
                &&& (parse_unsigned(v.input_seed, u64::MAX as nat) is None ==> c.seed == 42)
            }
        }),
{
}

/// Pause, Stop and Start tell a connected worker (and nothing else), and
/// tell a worker that is not connected nothing; Pause leaves the window
/// paused and Stop idle, whatever it was showing.
pub proof fn lemma_commands_reach_the_worker(v: CifarExperimenterView, lr_bits: u32)
    ensures
        v.after(UiMessage::BtnPausePressed).0.status == TrainingStatus::Paused,
        v.after(UiMessage::BtnPausePressed).1 == (if v.worker_connected {
            UiAction::Send(ToWorker::Pause)
        } else {
            UiAction::Nothing
        }),
        v.after(UiMessage::BtnStopPressed).0.status == TrainingStatus::Idle,
        v.after(UiMessage::BtnStopPressed).1 == (if v.worker_connected {
            UiAction::Send(ToWorker::Stop)
        } else {
            UiAction::Nothing
        }),
        v.after(UiMessage::BtnStartPressed(lr_bits)).1 is Send <==> v.worker_connected,
{
}

/// Stop always leaves the window idle, and tells a connected worker.
pub proof fn lemma_stop_goes_idle(v: CifarExperimenterView)
    ensures
        v.after(UiMessage::BtnStopPressed).0.status == TrainingStatus::Idle,
        v.worker_connected ==> v.after(UiMessage::BtnStopPressed).1 == UiAction::Send(ToWorker::Stop),
{
}

/// Until the worker is connected, nothing can be started or loaded.
pub proof fn lemma_disconnected_buttons(v: CifarExperimenterView, i: int)
    requires
        !v.worker_connected,
        0 <= i < v.buttons().len(),
        v.buttons()[i].enabled,
    ensures
        v.buttons()[i].kind == ButtonKind::Pause || v.buttons()[i].kind == ButtonKind::Stop,
{
}

} // verus!
