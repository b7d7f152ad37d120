//! The Iris control window: what each message does to its state, what it
//! asks of the worker, and which buttons it offers.

use vstd::prelude::*;
use crate::controls::{Button, ButtonKind, spec_checkpoint_lines};
use crate::iris_dataset::IrisClass;
use crate::text::{decimal, format_u64, parse_u64, parse_usize, parse_unsigned};
use crate::training_worker::{FromWorker, ToWorker, TrainingConfig, WorkerEvent};

verus! {

/// Seed of a series when the seed field does not read as a number.
pub const DEFAULT_SEED: u64 = 42;

/// Epochs of a series when the epochs field does not read as a number.
pub const DEFAULT_EPOCHS: usize = 10;

/// Where a training series stands, as the window shows it.
#[derive(Clone, Copy, Debug, PartialEq, Eq, Structural)]
pub enum TrainingStatus {
    Idle,
    Training,
    Paused,
}

/// Messages of the window. The learning rate field is read as an `f64`
/// outside the library: `BtnStartPressed` carries what it reads as (or the
/// default learning rate), as `f64` bits.
#[derive(Clone, Debug)]
pub enum UiMessage {
    TargetClassSelected(IrisClass),
    InputSeedChanged(String),
    InputLrChanged(String),
    InputEpochsChanged(String),
    BtnStartPressed(u64),
    BtnPausePressed,
    BtnStopPressed,
    BtnLoadPressed(String),
    WindowCloseRequested,
    BtnLoadCheckpointPressed,
    CheckpointSelected(Option<String>),
    WorkerStatusChanged(WorkerEvent),
}

/// What the window does besides changing its state.
#[derive(Clone, Debug)]
pub enum UiAction {
    Nothing,
    /// Send this command to the worker.
    Send(ToWorker),
    /// Write this learning rate (`f64` bits) into the learning rate field,
    /// as `InputLrChanged` with its text.
    ShowLearningRate(u64),
    /// End the program.
    ExitProcess,
}

/// The warning of the status bar when Start is pressed before the worker
/// is connected.
pub open spec fn spec_not_connected_warning() -> Seq<char> {
    "⚠️ Advertencia: Se presionó Start pero el Worker no está conectado aún."@
}

/// The window's state.
pub struct PerceptronExperimenter {
    /// The class chosen to be told apart.
    pub target_class: Option<IrisClass>,
    /// An error that replaces the whole window.
    pub error_message: Option<String>,
    pub status_bar_message: Option<String>,
    pub status: TrainingStatus,
    pub input_seed: String,
    pub input_lr: String,
    pub input_epochs: String,
    pub current_epoch: usize,
    /// Loss of the last epoch, as `f32` bits.
    pub current_loss_bits: u32,
    pub current_batch: usize,
    pub total_batches: usize,
    pub checkpoints_disponibles: Vec<String>,
    /// The worker has sent its `Ready`.
    pub worker_connected: bool,
}

/// The window's state as plain values.
pub struct PerceptronExperimenterView {
    pub target_class: Option<IrisClass>,
    pub error_message: Option<Seq<char>>,
    pub status_bar_message: Option<Seq<char>>,
    pub status: TrainingStatus,
    pub input_seed: Seq<char>,
    pub input_lr: Seq<char>,
    pub input_epochs: Seq<char>,
    pub current_epoch: usize,
    pub current_loss_bits: u32,
    pub current_batch: usize,
    pub total_batches: usize,
    pub checkpoints: Seq<Seq<char>>,
    pub worker_connected: bool,
}

/// The text of an optional string.
pub open spec fn opt_text(s: Option<String>) -> Option<Seq<char>> {
    match s {
        Some(t) => Some(t@),
        None => None,
    }
}

impl View for PerceptronExperimenter {
    type V = PerceptronExperimenterView;

    open spec fn view(&self) -> PerceptronExperimenterView {
        PerceptronExperimenterView {
            target_class: self.target_class,
            error_message: opt_text(self.error_message),
            status_bar_message: opt_text(self.status_bar_message),
            status: self.status,
            input_seed: self.input_seed@,
            input_lr: self.input_lr@,
            input_epochs: self.input_epochs@,
            current_epoch: self.current_epoch,
            current_loss_bits: self.current_loss_bits,
            current_batch: self.current_batch,
            total_batches: self.total_batches,
            checkpoints: self.checkpoints_disponibles@.map_values(|p: String| p@),
            worker_connected: self.worker_connected,
        }
    }
}

/// The number that `text` reads as, or `default`.
pub open spec fn u64_or(text: Seq<char>, default: u64) -> u64 {
    match parse_unsigned(text, u64::MAX as nat) {
        Some(v) => v as u64,
        None => default,
    }
}

/// The number that `text` reads as, or `default`.
pub open spec fn usize_or(text: Seq<char>, default: usize) -> usize {
    match parse_unsigned(text, usize::MAX as nat) {
        Some(v) => v as usize,
        None => default,
    }
}

/// Sends `cmd` when a worker is connected.
pub open spec fn send_if(connected: bool, cmd: ToWorker) -> UiAction {
    if connected {
        UiAction::Send(cmd)
    } else {
        UiAction::Nothing
    }
}

/// The settings of a series started from the window: the chosen class (or
/// Setosa), the seed and epochs that the fields read as (or their
/// defaults), the given learning rate, from epoch 0 and batch 0.
pub open spec fn requested_config(v: PerceptronExperimenterView, lr_bits: u64) -> TrainingConfig {
    TrainingConfig {
        target_class: match v.target_class {
            Some(c) => c,
            None => IrisClass::Setosa,
        },
        seed: u64_or(v.input_seed, DEFAULT_SEED),
        lr_bits,
        target_epochs: usize_or(v.input_epochs, DEFAULT_EPOCHS),
        current_epoch: 0,
        current_batch: 0,
    }
}

impl PerceptronExperimenterView {
    /// What a report of the worker does.
    pub open spec fn after_report(self, msg: FromWorker) -> (Self, UiAction) {
        match msg {
            FromWorker::BatchProgress { epoch, current_batch, total_batches } => (
                PerceptronExperimenterView { current_epoch: epoch, current_batch, total_batches, ..self },
                UiAction::Nothing,
            ),
            FromWorker::EpochDone { epoch, loss_bits } => (
                PerceptronExperimenterView {
                    current_epoch: epoch,
                    current_loss_bits: loss_bits,
                    current_batch: self.total_batches,
                    ..self
                },
                UiAction::Nothing,
            ),
            FromWorker::CheckpointSaved { path, epoch } => (
                PerceptronExperimenterView { checkpoints: self.checkpoints.push(path@), ..self },
                UiAction::Nothing,
            ),
            FromWorker::CheckpointLoaded(meta) => (
                PerceptronExperimenterView {
                    current_epoch: meta.current_epoch,
                    input_seed: decimal(meta.seed as nat),
                    status: TrainingStatus::Paused,
                    ..self
                },
                UiAction::ShowLearningRate(meta.lr_bits),
            ),
            FromWorker::TrainingFinished => (
                PerceptronExperimenterView { status: TrainingStatus::Idle, ..self },
                UiAction::Nothing,
            ),
            FromWorker::Error(e) => (
                PerceptronExperimenterView { status: TrainingStatus::Idle, ..self },
                UiAction::Nothing,
            ),
            FromWorker::WorkerExited => (self, UiAction::ExitProcess),
        }
    }

    /// What a message does to the window. `BtnLoadCheckpointPressed`
    /// (picking a checkpoint folder) is not served by this window: `update`
    /// does not take it, and it is written here as changing nothing only to
    /// keep the definition total.
    pub open spec fn after(self, msg: UiMessage) -> (Self, UiAction) {
        match msg {
            UiMessage::TargetClassSelected(c) => (
                PerceptronExperimenterView { target_class: Some(c), ..self },
                send_if(self.worker_connected, ToWorker::TargetSelected(c)),
            ),
            UiMessage::InputSeedChanged(v) => (PerceptronExperimenterView { input_seed: v@, ..self }, UiAction::Nothing),
            UiMessage::InputLrChanged(v) => (PerceptronExperimenterView { input_lr: v@, ..self }, UiAction::Nothing),
            UiMessage::InputEpochsChanged(v) => (
                PerceptronExperimenterView { input_epochs: v@, ..self },
                UiAction::Nothing,
            ),
            UiMessage::BtnLoadPressed(path) => (
                PerceptronExperimenterView { status: TrainingStatus::Idle, ..self },
                send_if(self.worker_connected, ToWorker::LoadCheckpoint(path)),
            ),
            UiMessage::BtnLoadCheckpointPressed => (self, UiAction::Nothing),
            UiMessage::CheckpointSelected(Some(path)) => (
                self,
                send_if(self.worker_connected, ToWorker::LoadCheckpoint(path)),
            ),
            UiMessage::CheckpointSelected(None) => (self, UiAction::Nothing),
            UiMessage::BtnStartPressed(lr_bits) => if self.worker_connected {
                (
                    PerceptronExperimenterView { status: TrainingStatus::Training, ..self },
                    UiAction::Send(ToWorker::Start(requested_config(self, lr_bits))),
                )
            } else {
                (
                    PerceptronExperimenterView {
                        status: TrainingStatus::Training,
                        status_bar_message: Some(spec_not_connected_warning()),
                        ..self
                    },
                    UiAction::Nothing,
                )
            },
            UiMessage::BtnPausePressed => (
                PerceptronExperimenterView { status: TrainingStatus::Paused, ..self },
                send_if(self.worker_connected, ToWorker::Pause),
            ),
            UiMessage::BtnStopPressed => (
                PerceptronExperimenterView { status: TrainingStatus::Idle, ..self },
                send_if(self.worker_connected, ToWorker::Stop),
            ),
            UiMessage::WindowCloseRequested => (
                self,
                if self.worker_connected {
                    UiAction::Send(ToWorker::Exit)
                } else {
                    UiAction::ExitProcess
                },
            ),
            UiMessage::WorkerStatusChanged(WorkerEvent::Ready) => (
                PerceptronExperimenterView { worker_connected: true, ..self },
                UiAction::Nothing,
            ),
            UiMessage::WorkerStatusChanged(WorkerEvent::Update(m)) => self.after_report(m),
        }
    }

    /// The buttons offered: while idle, start and load (pressable once the
    /// worker is connected); while training, pause and stop; while paused,
    /// resume and load another (pressable once the worker is connected) and
    /// stop.
    pub open spec fn buttons(self) -> Seq<Button> {
        match self.status {
            TrainingStatus::Idle => seq![
                Button { kind: ButtonKind::StartSeries, enabled: self.worker_connected },
                Button { kind: ButtonKind::LoadCheckpoint, enabled: self.worker_connected },
            ],
            TrainingStatus::Training => seq![
                Button { kind: ButtonKind::Pause, enabled: true },
                Button { kind: ButtonKind::Stop, enabled: true },
            ],
            TrainingStatus::Paused => seq![
                Button { kind: ButtonKind::Resume, enabled: self.worker_connected },
                Button { kind: ButtonKind::LoadOther, enabled: self.worker_connected },
                Button { kind: ButtonKind::Stop, enabled: true },
            ],
        }
    }
}

fn send_when(connected: bool, cmd: ToWorker) -> (a: UiAction)
    ensures
        a == send_if(connected, cmd),
{
    if connected {
        UiAction::Send(cmd)
    } else {
        UiAction::Nothing
    }
}

impl PerceptronExperimenter {
    /// The window as it opens: Setosa chosen, no error, idle, seed "42",
    /// learning rate "0.001", 10 epochs, no progress, no checkpoint, no
    /// worker yet.
    pub fn new() -> (w: Self)
        ensures
            w@.target_class == Some(IrisClass::Setosa),
            w@.error_message is None,
            w@.status_bar_message is None,
            w@.status == TrainingStatus::Idle,
            w@.input_seed == "42"@,
            w@.input_lr == "0.001"@,
            w@.input_epochs == "10"@,
            w@.current_epoch == 0,
            w@.current_loss_bits == 0,
            w@.current_batch == 0,
            w@.total_batches == 0,
            w@.checkpoints.len() == 0,
            !w@.worker_connected,
    {
        let w = PerceptronExperimenter {
            target_class: Some(IrisClass::Setosa),
            error_message: None,
            status_bar_message: None,
            status: TrainingStatus::Idle,
            input_seed: String::from_str("42"),
            input_lr: String::from_str("0.001"),
            input_epochs: String::from_str("10"),
            current_epoch: 0,
            current_loss_bits: 0,
            current_batch: 0,
            total_batches: 0,
            checkpoints_disponibles: Vec::new(),
            worker_connected: false,
        };
        assert(w@.checkpoints =~= Seq::<Seq<char>>::empty());
        w
    }

    fn apply_report(&mut self, msg: FromWorker) -> (a: UiAction)
        ensures
            (final(self)@, a) == old(self)@.after_report(msg),
    {
        match msg {
            FromWorker::BatchProgress { epoch, current_batch, total_batches } => {
                self.current_epoch = epoch;
                self.current_batch = current_batch;
                self.total_batches = total_batches;
                UiAction::Nothing
            },
            FromWorker::EpochDone { epoch, loss_bits } => {
                self.current_epoch = epoch;
                self.current_loss_bits = loss_bits;
                self.current_batch = self.total_batches;
                UiAction::Nothing
            },
            FromWorker::CheckpointSaved { path, epoch } => {
                let ghost before = self.checkpoints_disponibles@;
                let ghost p = path@;
                self.checkpoints_disponibles.push(path);
                assert(self.checkpoints_disponibles@.map_values(|q: String| q@) =~= before.map_values(
                    |q: String| q@,
                ).push(p));
                UiAction::Nothing
            },
            FromWorker::CheckpointLoaded(meta) => {
                self.current_epoch = meta.current_epoch;
                self.input_seed = format_u64(meta.seed);
                self.status = TrainingStatus::Paused;
                UiAction::ShowLearningRate(meta.lr_bits)
            },
            FromWorker::TrainingFinished => {
                self.status = TrainingStatus::Idle;
                UiAction::Nothing
            },
            FromWorker::Error(e) => {
                self.status = TrainingStatus::Idle;
                UiAction::Nothing
            },
            FromWorker::WorkerExited => UiAction::ExitProcess,
        }
    }

    /// Carries out a message of the window. Asking to pick a checkpoint
    /// folder is not available in this window.
    pub fn update(&mut self, message: UiMessage) -> (a: UiAction)
        requires
            !(message is BtnLoadCheckpointPressed),
        ensures
            (final(self)@, a) == old(self)@.after(message),
    {
        match message {
            UiMessage::TargetClassSelected(c) => {
                self.target_class = Some(c);
                send_when(self.worker_connected, ToWorker::TargetSelected(c))
            },
            UiMessage::InputSeedChanged(val) => {
                self.input_seed = val;
                UiAction::Nothing
            },
            UiMessage::InputLrChanged(val) => {
                self.input_lr = val;
                UiAction::Nothing
            },
            UiMessage::InputEpochsChanged(val) => {
                self.input_epochs = val;
                UiAction::Nothing
            },
            UiMessage::BtnLoadPressed(path) => {
                let a = send_when(self.worker_connected, ToWorker::LoadCheckpoint(path));
                self.status = TrainingStatus::Idle;
                a
            },
            UiMessage::BtnLoadCheckpointPressed => UiAction::Nothing,
            UiMessage::CheckpointSelected(Some(path)) => send_when(
                self.worker_connected,
                ToWorker::LoadCheckpoint(path),
            ),
            UiMessage::CheckpointSelected(None) => UiAction::Nothing,
            UiMessage::BtnStartPressed(lr_bits) => {
                self.status = TrainingStatus::Training;
                let target_class = match self.target_class {
                    Some(c) => c,
                    None => IrisClass::Setosa,
                };
                let seed = match parse_u64(self.input_seed.as_str()) {
                    Some(v) => v,
                    None => DEFAULT_SEED,
                };
                let epochs = match parse_usize(self.input_epochs.as_str()) {
                    Some(v) => v,
                    None => DEFAULT_EPOCHS,
                };
                if self.worker_connected {
                    let config = TrainingConfig {
                        target_class,
                        seed,
                        lr_bits,
                        target_epochs: epochs,
                        current_epoch: 0,
                        current_batch: 0,
                    };
                    UiAction::Send(ToWorker::Start(config))
                } else {
                    self.status_bar_message = Some(
                        String::from_str(
                            "⚠️ Advertencia: Se presionó Start pero el Worker no está conectado aún.",
                        ),
                    );
                    UiAction::Nothing
                }
            },
            UiMessage::BtnPausePressed => {
                self.status = TrainingStatus::Paused;
                send_when(self.worker_connected, ToWorker::Pause)
            },
            UiMessage::BtnStopPressed => {
                self.status = TrainingStatus::Idle;
                send_when(self.worker_connected, ToWorker::Stop)
            },
            UiMessage::WindowCloseRequested => {
                if self.worker_connected {
                    UiAction::Send(ToWorker::Exit)
                } else {
                    UiAction::ExitProcess
                }
            },
            UiMessage::WorkerStatusChanged(event) => match event {
                WorkerEvent::Ready => {
                    self.worker_connected = true;
                    UiAction::Nothing
                },
                WorkerEvent::Update(m) => self.apply_report(m),
            },
        }
    }

    /// The buttons of the window, in order.
    pub fn buttons(&self) -> (b: Vec<Button>)
        ensures
            b@ == self@.buttons(),
    {
        let c = self.worker_connected;
        let mut b: Vec<Button> = Vec::new();
        match self.status {
            TrainingStatus::Idle => {
                b.push(Button { kind: ButtonKind::StartSeries, enabled: c });
                b.push(Button { kind: ButtonKind::LoadCheckpoint, enabled: c });
            },
            TrainingStatus::Training => {
                b.push(Button { kind: ButtonKind::Pause, enabled: true });
                b.push(Button { kind: ButtonKind::Stop, enabled: true });
            },
            TrainingStatus::Paused => {
                b.push(Button { kind: ButtonKind::Resume, enabled: c });
                b.push(Button { kind: ButtonKind::LoadOther, enabled: c });
                b.push(Button { kind: ButtonKind::Stop, enabled: true });
            },
        }
        assert(b@ =~= self@.buttons());
        b
    }

    /// The lines of the list of saved checkpoints: each path, or a note
    /// that there is none yet.
    pub fn checkpoint_lines(&self) -> (lines: Vec<String>)
        ensures
            lines@.map_values(|l: String| l@) == spec_checkpoint_lines(self@.checkpoints),
    {
        if self.checkpoints_disponibles.len() == 0 {
            let mut lines: Vec<String> = Vec::new();
            lines.push(String::from_str("Ninguno todavía..."));
            assert(lines@.map_values(|l: String| l@) =~= spec_checkpoint_lines(self@.checkpoints));
            lines
        } else {
            let lines = self.checkpoints_disponibles.clone();
            assert(lines@.map_values(|l: String| l@) =~= spec_checkpoint_lines(self@.checkpoints));
            lines
        }
    }
}

/// What the window shows.
#[derive(Clone, Debug)]
pub enum Screen {
    /// An error that replaces the whole window.
    ErrorScreen(String),
    /// The controls and the network's state, over a status bar with this
    /// text.
    MainScreen { status_bar: String },
}

/// The text of the status bar: its message, or nothing.
pub open spec fn status_bar_text(v: PerceptronExperimenterView) -> Seq<char> {
    match v.status_bar_message {
        Some(m) => m,
        None => Seq::empty(),
    }
}

impl PerceptronExperimenter {
    /// What the window shows: the error screen when there is an error, else
    /// the main layout with the status bar's message (or an empty bar).
    pub fn screen(&self) -> (s: Screen)
        ensures
            match self@.error_message {
                Some(e) => s matches Screen::ErrorScreen(t) && t@ == e,
                None => s matches Screen::MainScreen { status_bar } && status_bar@ == status_bar_text(self@),
            },
    {
        match &self.error_message {
            Some(e) => Screen::ErrorScreen(e.clone()),
            None => {
                let status_bar = match &self.status_bar_message {
                    Some(m) => m.clone(),
                    None => String::new(),
                };
                Screen::MainScreen { status_bar }
            },
        }
    }
}

/// After a checkpoint is loaded, starting again asks the worker for the
/// checkpoint's seed and the chosen class.
pub proof fn lemma_checkpoint_seed_restarts(v: PerceptronExperimenterView, meta: TrainingConfig, lr_bits: u64)
    requires
        v.worker_connected,
    ensures
        ({
            let (w, _) = v.after(UiMessage::WorkerStatusChanged(WorkerEvent::Update(FromWorker::CheckpointLoaded(meta))));
            let (x, a) = w.after(UiMessage::BtnStartPressed(lr_bits));
            &&& w.status == TrainingStatus::Paused
            &&& w.current_epoch == meta.current_epoch
            &&& x.status == TrainingStatus::Training
            &&& a matches UiAction::Send(ToWorker::Start(c)) && c.seed == meta.seed && c.target_class == (
                match v.target_class {
                    Some(t) => t,
                    None => IrisClass::Setosa,
                }) && c.current_epoch == 0
        }),
{
    crate::text::lemma_parse_decimal(meta.seed as nat, u64::MAX as nat);
}

/// Pressing Start with a connected worker starts a series from epoch 0
/// and batch 0 with what the window holds: the chosen class (Setosa when
/// none), the seed and the number of epochs typed when they read as
/// numbers (42 and 10 otherwise), and the learning rate given; the window
/// then shows the series training.
pub proof fn lemma_start_sends_typed_settings(v: PerceptronExperimenterView, lr_bits: u64)
    requires
        v.worker_connected,
    ensures
        ({
            let (w, a) = v.after(UiMessage::BtnStartPressed(lr_bits));
            &&& w.status == TrainingStatus::Training
            &&& a matches UiAction::Send(ToWorker::Start(c)) && {
                &&& c.lr_bits == lr_bits
                &&& c.current_epoch == 0
                &&& c.current_batch == 0
                &&& (v.target_class matches Some(t) ==> c.target_class == t)
                &&& (v.target_class is None ==> c.target_class == IrisClass::Setosa)
                &&& (parse_unsigned(v.input_epochs, usize::MAX as nat) matches Some(n) ==> c.target_epochs == n)
                &&& (parse_unsigned(v.input_epochs, usize::MAX as nat) is None ==> c.target_epochs == 10)
                &&& (parse_unsigned(v.input_seed, u64::MAX as nat) matches Some(n) ==> c.seed == n)
                &&& (parse_unsigned(v.input_seed, u64::MAX as nat) is None ==> c.seed == 42)
            }
        }),
{
}

/// Pause and Stop tell a connected worker (and nothing else), and tell a
/// worker that is not connected nothing; Pause leaves the window paused
/// and Stop idle, whatever it was showing.
pub proof fn lemma_commands_reach_the_worker(v: PerceptronExperimenterView)
    ensures
        v.after(UiMessage::BtnPausePressed).0.status == TrainingStatus::Paused,
        v.after(UiMessage::BtnPausePressed).1 == (if v.worker_connected {
            UiAction::Send(ToWorker::Pause)
        } else {
            UiAction::Nothing
        }),
        v.after(UiMessage::BtnStopPressed).0.status == TrainingStatus::Idle,
        v.after(UiMessage::BtnStopPressed).1 == (if v.worker_connected {
            UiAction::Send(ToWorker::Stop)
        } else {
            UiAction::Nothing
        }),
{
}

/// A class chosen in the window is the class of the next series.
pub proof fn lemma_chosen_class_is_trained(v: PerceptronExperimenterView, c: IrisClass, lr_bits: u64)
    requires
        v.worker_connected,
    ensures
        ({
            let (w, a1) = v.after(UiMessage::TargetClassSelected(c));
            let (x, a2) = w.after(UiMessage::BtnStartPressed(lr_bits));
            &&& a1 == UiAction::Send(ToWorker::TargetSelected(c))
            &&& a2 matches UiAction::Send(ToWorker::Start(cfg)) && cfg.target_class == c
        }),
{
}

/// Until the worker is connected, nothing can be started or loaded.
pub proof fn lemma_disconnected_buttons(v: PerceptronExperimenterView, i: int)
    requires
        !v.worker_connected,
        0 <= i < v.buttons().len(),
        v.buttons()[i].enabled,
    ensures
        v.buttons()[i].kind == ButtonKind::Pause || v.buttons()[i].kind == ButtonKind::Stop,
{
}

} // verus!
