use experimenters::cifar_data::{class_folder, CifarBatcher, CifarItem, BATCH_SIZE, IMAGE_VALUES, NUM_CLASSES};
use experimenters::cifar_net::{weight_name, ModelConfig};
use experimenters::cifar_window::{CifarExperimenter, UiAction, UiMessage};
use experimenters::cifar_worker::{batches_in_epoch, CommandOutcome, EpochOutcome, TrainingState};
use experimenters::confusion::{accumulate_confusion, new_confusion_matrix, ConfusionError, MATRIX_CELLS};
use experimenters::controls::ButtonKind;
use experimenters::training_state::{FromWorker, ToWorker, TrainingMeta, TrainingStatus, WorkerConfig, WorkerEvent};

fn lr(x: f32) -> u32 {
    x.to_bits()
}

fn config(seed: u64, epochs: usize) -> WorkerConfig {
    WorkerConfig { seed, lr_bits: lr(0.01), target_epochs: epochs, validation_interval: 2 }
}

#[test]
fn new_cifar10_has_cifar_sizes() {
    let c = ModelConfig::new_cifar10(vec![1024, 512]);
    assert_eq!(c.input_size(), 3072);
    assert_eq!(c.num_classes(), 10);
    assert_eq!(c.hidden_sizes(), &vec![1024, 512]);
}

#[test]
fn layer_shapes_chain_hidden_layers() {
    let c = ModelConfig::new_cifar10(vec![1024, 512]);
    assert_eq!(c.layer_shapes(), vec![(3072, 1024), (1024, 512), (512, 10)]);
}

#[test]
fn layer_shapes_without_hidden_layer() {
    let c = ModelConfig::new_cifar10(vec![]);
    assert_eq!(c.layer_shapes(), vec![(3072, 10)]);
}

#[test]
fn layer_shapes_one_hidden_layer() {
    let c = ModelConfig::new_cifar10(vec![64]);
    assert_eq!(c.layer_shapes(), vec![(3072, 64), (64, 10)]);
}

#[test]
fn weight_names_count_layers() {
    assert_eq!(weight_name(0), "capa_0");
    assert_eq!(weight_name(12), "capa_12");
}

#[test]
fn class_folders_in_label_order() {
    let names: Vec<&str> = (0..NUM_CLASSES).map(class_folder).collect();
    assert_eq!(
        names,
        vec!["airplane", "automobile", "bird", "cat", "deer", "dog", "frog", "horse", "ship", "truck"]
    );
}

#[test]
fn batch_lays_images_out_in_rows() {
    let a = CifarItem { pixels: vec![1u16; IMAGE_VALUES], label: 3 };
    let mut pb: Vec<u16> = (0..IMAGE_VALUES as u16).collect();
    pb[0] = 9;
    let b = CifarItem { pixels: pb.clone(), label: 7 };
    let batch = CifarBatcher {}.batch(&vec![a, b]);
    assert_eq!(batch.images.len(), 2 * IMAGE_VALUES);
    assert_eq!(batch.images[0], 1);
    assert_eq!(batch.images[IMAGE_VALUES - 1], 1);
    assert_eq!(batch.images[IMAGE_VALUES], 9);
    assert_eq!(batch.images[IMAGE_VALUES + 5], 5);
    assert_eq!(batch.targets, vec![3, 7]);
}

#[test]
fn batch_casts_labels_like_as() {
    let big = CifarItem { pixels: vec![0u8; IMAGE_VALUES], label: (1i64 << 32) + 2 };
    let batch = CifarBatcher {}.batch(&vec![big]);
    assert_eq!(batch.targets, vec![2]);
}

#[test]
fn empty_batch() {
    let batch = CifarBatcher {}.batch::<u8>(&vec![]);
    assert!(batch.images.is_empty());
    assert!(batch.targets.is_empty());
}

#[test]
fn confusion_counts_each_pair_once() {
    let mut m = new_confusion_matrix();
    assert_eq!(m.len(), MATRIX_CELLS);
    assert!(m.iter().all(|&c| c == 0));
    let preds = vec![1, 1, 9, 0];
    let targets = vec![1, 2, 9, 0, 5];
    assert_eq!(accumulate_confusion(&mut m, &preds, &targets), Ok(()));
    assert_eq!(m[1 * 10 + 1], 1);
    assert_eq!(m[2 * 10 + 1], 1);
    assert_eq!(m[9 * 10 + 9], 1);
    assert_eq!(m[0], 1);
    assert_eq!(m.iter().map(|&c| c as u64).sum::<u64>(), 4);
    assert_eq!(accumulate_confusion(&mut m, &vec![1], &vec![1]), Ok(()));
    assert_eq!(m[11], 2);
    assert_eq!(m.iter().map(|&c| c as u64).sum::<u64>(), 5);
}

#[test]
fn confusion_stops_at_shorter_list() {
    let mut m = new_confusion_matrix();
    assert_eq!(accumulate_confusion(&mut m, &vec![3, 4, 5], &vec![3]), Ok(()));
    assert_eq!(m[33], 1);
    assert_eq!(m.iter().map(|&c| c as u64).sum::<u64>(), 1);
}

#[test]
fn confusion_refuses_pairs_outside_the_matrix() {
    let mut m = new_confusion_matrix();
    assert_eq!(accumulate_confusion(&mut m, &vec![-1], &vec![0]), Err(ConfusionError::Unrecordable));
    let mut m = new_confusion_matrix();
    assert_eq!(accumulate_confusion(&mut m, &vec![0], &vec![10]), Err(ConfusionError::Unrecordable));
    let mut m = new_confusion_matrix();
    assert_eq!(accumulate_confusion(&mut m, &vec![i32::MAX], &vec![i32::MAX]), Err(ConfusionError::Unrecordable));
}

#[test]
fn confusion_prediction_past_nine_lands_in_a_later_row() {
    let mut m = new_confusion_matrix();
    assert_eq!(accumulate_confusion(&mut m, &vec![15], &vec![0]), Ok(()));
    assert_eq!(m[15], 1);
}

#[test]
fn confusion_refuses_overflow() {
    let mut m = new_confusion_matrix();
    m[11] = u32::MAX - 1;
    assert_eq!(accumulate_confusion(&mut m, &vec![1], &vec![1]), Ok(()));
    assert_eq!(m[11], u32::MAX);
    assert_eq!(accumulate_confusion(&mut m, &vec![1], &vec![1]), Err(ConfusionError::Unrecordable));
}

#[test]
fn batches_in_epoch_rounds_down() {
    assert_eq!(BATCH_SIZE, 64);
    assert_eq!(batches_in_epoch(50000), 781);
    assert_eq!(batches_in_epoch(63), 0);
    assert_eq!(batches_in_epoch(128), 2);
}

#[test]
fn first_start_makes_a_model() {
    let mut s = TrainingState::new(lr(0.001));
    assert!(s.waits_for_command());
    let out = s.handle_command(ToWorker::Start(config(7, 3)));
    assert!(matches!(out, CommandOutcome::Continue { init_model: true }));
    assert!(s.is_training && s.has_model && s.reset_dataloader);
    assert_eq!(s.current_epoch, 0);
    assert_eq!(s.current_seed, 7);
    assert_eq!(s.target_epochs, 3);
    assert_eq!(s.current_lr_bits, lr(0.01));
    assert!(!s.waits_for_command());
}

#[test]
fn start_with_same_seed_keeps_the_data() {
    let mut s = TrainingState::new(lr(0.001));
    s.handle_command(ToWorker::Start(config(0, 3)));
    assert!(!s.reset_dataloader);
    assert!(!s.take_dataloader_reset());
}

#[test]
fn stop_clears_the_model_and_replies_finished() {
    let mut s = TrainingState::new(lr(0.001));
    s.handle_command(ToWorker::Start(config(7, 3)));
    assert!(s.take_dataloader_reset());
    assert!(!s.reset_dataloader);
    s.begin_epoch();
    let out = s.handle_command(ToWorker::Stop);
    assert!(matches!(out, CommandOutcome::Restart { reply: FromWorker::Finished }));
    assert!(!s.is_training && !s.has_model && s.reset_dataloader);
    assert_eq!(s.current_epoch, 0);
    let again = s.handle_command(ToWorker::Start(config(7, 3)));
    assert!(matches!(again, CommandOutcome::Continue { init_model: true }));
}

#[test]
fn pause_then_resume_keeps_progress() {
    let mut s = TrainingState::new(lr(0.001));
    s.handle_command(ToWorker::Start(config(0, 10)));
    s.begin_epoch();
    s.begin_epoch();
    s.handle_command(ToWorker::Pause);
    assert!(!s.is_training && s.has_model);
    let out = s.handle_command(ToWorker::Start(config(0, 10)));
    assert!(matches!(out, CommandOutcome::Continue { init_model: false }));
    assert_eq!(s.current_epoch, 2);
    assert!(s.trains_this_turn());
}

#[test]
fn load_checkpoint_restores_and_pauses() {
    let mut s = TrainingState::new(lr(0.001));
    let out = s.handle_command(ToWorker::LoadCheckpoint("ck".to_string()));
    assert!(matches!(out, CommandOutcome::Load(ref p) if p == "ck"));
    let meta = TrainingMeta { epoch: 10, seed: 5, lr_bits: lr(0.5) };
    let back = s.load_checkpoint(&meta);
    assert_eq!(back, meta);
    assert!(!s.is_training && s.has_model && s.reset_dataloader);
    assert_eq!(s.save_checkpoint(), meta);
}

#[test]
fn exit_leaves_state() {
    let mut s = TrainingState::new(lr(0.001));
    s.handle_command(ToWorker::Start(config(1, 1)));
    let before = s;
    assert!(matches!(s.handle_command(ToWorker::Exit), CommandOutcome::Exit));
    assert_eq!(s, before);
    assert!(matches!(s.handle_epoch_command(ToWorker::Exit), EpochOutcome::Exit));
    assert!(matches!(s.handle_paused_command(ToWorker::Exit), EpochOutcome::Exit));
    assert_eq!(s, before);
}

#[test]
fn epoch_commands() {
    let mut s = TrainingState::new(lr(0.001));
    s.handle_command(ToWorker::Start(config(3, 5)));
    s.take_dataloader_reset();
    assert!(matches!(s.handle_epoch_command(ToWorker::Start(config(3, 6))), EpochOutcome::Continue));
    assert_eq!(s.target_epochs, 6);
    assert!(matches!(s.handle_epoch_command(ToWorker::Start(config(4, 6))), EpochOutcome::Abort { reply: None }));
    assert!(matches!(s.handle_epoch_command(ToWorker::Pause), EpochOutcome::Continue));
    assert!(s.waits_while_paused());
    assert!(matches!(s.handle_paused_command(ToWorker::Pause), EpochOutcome::Continue));
    assert!(s.waits_while_paused());
    assert!(matches!(
        s.handle_paused_command(ToWorker::Stop),
        EpochOutcome::Abort { reply: Some(FromWorker::Finished) }
    ));
    assert!(!s.has_model && !s.waits_while_paused());
    assert!(matches!(s.handle_epoch_command(ToWorker::LoadCheckpoint("x".into())), EpochOutcome::Load(_)));
}

#[test]
fn epoch_schedule() {
    let mut s = TrainingState::new(lr(0.001));
    s.handle_command(ToWorker::Start(config(0, 10)));
    let mut reports = Vec::new();
    for _ in 0..10 {
        let e = s.begin_epoch();
        let r = s.end_epoch(3, false);
        reports.push((e, r.validate, r.checkpoint, r.finished));
    }
    let checkpoints: Vec<usize> = reports.iter().filter(|r| r.2).map(|r| r.0).collect();
    let validations: Vec<usize> = reports.iter().filter(|r| r.1).map(|r| r.0).collect();
    assert_eq!(checkpoints, vec![1, 5, 10]);
    assert_eq!(validations, vec![2, 4, 6, 8, 10]);
    assert!(reports[9].3);
    assert!(reports[..9].iter().all(|r| !r.3));
    assert!(!s.is_training);
}

#[test]
fn epoch_without_batches_is_not_reported() {
    let mut s = TrainingState::new(lr(0.001));
    s.handle_command(ToWorker::Start(config(0, 1)));
    s.begin_epoch();
    let r = s.end_epoch(0, false);
    assert!(!r.report && !r.validate && !r.checkpoint && !r.finished);
    assert!(s.is_training);
}

#[test]
fn checkpoint_loaded_mid_epoch_drops_the_epoch() {
    let mut s = TrainingState::new(lr(0.001));
    s.handle_command(ToWorker::Start(config(0, 1)));
    s.begin_epoch();
    let out = s.handle_epoch_command(ToWorker::LoadCheckpoint("ck".to_string()));
    assert!(matches!(out, EpochOutcome::Load(ref p) if p == "ck"));
    let meta = TrainingMeta { epoch: 1, seed: 9, lr_bits: lr(0.1) };
    s.load_checkpoint(&meta);
    let after_load = s;
    let r = s.end_epoch(4, true);
    assert!(!r.report && !r.validate && !r.checkpoint && !r.finished);
    assert_eq!(s, after_load);
    assert!(s.waits_for_command());
    assert_eq!(s.current_epoch, 1);
}

fn connected() -> CifarExperimenter {
    let mut w = CifarExperimenter::new();
    w.update(UiMessage::WorkerStatusChanged(WorkerEvent::Ready));
    w
}

#[test]
fn window_opens_idle_and_disconnected() {
    let w = CifarExperimenter::new();
    assert_eq!(w.status, TrainingStatus::Idle);
    assert_eq!(w.input_seed, "42");
    assert_eq!(w.input_lr, "0.001");
    assert_eq!(w.input_epochs, "10");
    let b = w.buttons();
    assert_eq!(b.len(), 2);
    assert_eq!(b[0].kind, ButtonKind::StartSeries);
    assert!(!b[0].enabled && !b[1].enabled);
    assert_eq!(w.checkpoint_lines(), vec!["Ninguno todavía...".to_string()]);
}

#[test]
fn start_sends_parsed_settings() {
    let mut w = connected();
    w.update(UiMessage::InputSeedChanged("7".to_string()));
    w.update(UiMessage::InputEpochsChanged("abc".to_string()));
    match w.update(UiMessage::BtnStartPressed(lr(0.5))) {
        UiAction::Send(ToWorker::Start(c)) => {
            assert_eq!(c.seed, 7);
            assert_eq!(c.target_epochs, 10);
            assert_eq!(c.lr_bits, lr(0.5));
            assert_eq!(c.validation_interval, 2);
        }
        other => panic!("unexpected {other:?}"),
    }
    assert_eq!(w.status, TrainingStatus::Training);
    assert_eq!(w.buttons()[0].kind, ButtonKind::Pause);
}

#[test]
fn start_without_worker_sends_nothing() {
    let mut w = CifarExperimenter::new();
    assert!(matches!(w.update(UiMessage::BtnStartPressed(lr(0.5))), UiAction::Nothing));
    assert_eq!(w.status, TrainingStatus::Training);
}

#[test]
fn reports_update_progress() {
    let mut w = connected();
    w.update(UiMessage::WorkerStatusChanged(WorkerEvent::Update(FromWorker::BatchProgress {
        epoch: 2,
        current_batch: 5,
        total_batches: 9,
    })));
    assert_eq!((w.current_epoch, w.current_batch, w.total_batches), (2, 5, 9));
    w.update(UiMessage::WorkerStatusChanged(WorkerEvent::Update(FromWorker::EpochDone {
        epoch: 2,
        loss_bits: lr(1.25),
    })));
    assert_eq!(w.current_batch, 9);
    assert_eq!(w.current_loss_bits, lr(1.25));
    w.update(UiMessage::WorkerStatusChanged(WorkerEvent::Update(FromWorker::CheckpointSaved {
        path: "a/b".to_string(),
        epoch: 2,
    })));
    assert_eq!(w.checkpoint_lines(), vec!["a/b".to_string()]);
}

#[test]
fn checkpoint_loaded_then_resume_uses_its_seed() {
    let mut w = connected();
    let meta = TrainingMeta { epoch: 15, seed: 123456789, lr_bits: lr(0.25) };
    let a = w.update(UiMessage::WorkerStatusChanged(WorkerEvent::Update(FromWorker::CheckpointLoaded(meta))));
    assert!(matches!(a, UiAction::ShowLearningRate(b) if b == lr(0.25)));
    assert_eq!(w.status, TrainingStatus::Paused);
    assert_eq!(w.current_epoch, 15);
    assert_eq!(w.input_seed, "123456789");
    let kinds: Vec<ButtonKind> = w.buttons().iter().map(|b| b.kind).collect();
    assert_eq!(kinds, vec![ButtonKind::Resume, ButtonKind::LoadOther, ButtonKind::Stop]);
    match w.update(UiMessage::BtnStartPressed(lr(0.25))) {
        UiAction::Send(ToWorker::Start(c)) => assert_eq!(c.seed, 123456789),
        other => panic!("unexpected {other:?}"),
    }
}

#[test]
fn stop_pause_close_and_exit() {
    let mut w = connected();
    assert!(matches!(w.update(UiMessage::BtnPausePressed), UiAction::Send(ToWorker::Pause)));
    assert_eq!(w.status, TrainingStatus::Paused);
    assert!(matches!(w.update(UiMessage::BtnStopPressed), UiAction::Send(ToWorker::Stop)));
    assert_eq!(w.status, TrainingStatus::Idle);
    assert!(matches!(w.update(UiMessage::WindowCloseRequested), UiAction::Send(ToWorker::Exit)));
    assert!(matches!(
        w.update(UiMessage::WorkerStatusChanged(WorkerEvent::Update(FromWorker::WorkerExited))),
        UiAction::ExitProcess
    ));
    let mut lone = CifarExperimenter::new();
    assert!(matches!(lone.update(UiMessage::WindowCloseRequested), UiAction::ExitProcess));
}

#[test]
fn checkpoint_requests() {
    let mut w = connected();
    assert!(matches!(w.update(UiMessage::BtnLoadCheckpointPressed), UiAction::PickCheckpointFolder));
    assert!(matches!(w.update(UiMessage::CheckpointSelected(None)), UiAction::Nothing));
    assert!(matches!(
        w.update(UiMessage::CheckpointSelected(Some("p".to_string()))),
        UiAction::Send(ToWorker::LoadCheckpoint(ref p)) if p == "p"
    ));
    assert!(matches!(
        w.update(UiMessage::BtnLoadPressed("q".to_string())),
        UiAction::Send(ToWorker::LoadCheckpoint(ref p)) if p == "q"
    ));
    w.update(UiMessage::WorkerStatusChanged(WorkerEvent::Update(FromWorker::Error("boom".to_string()))));
    assert_eq!(w.status, TrainingStatus::Idle);
    w.update(UiMessage::BtnStartPressed(lr(0.1)));
    w.update(UiMessage::WorkerStatusChanged(WorkerEvent::Update(FromWorker::Finished)));
    assert_eq!(w.status, TrainingStatus::Idle);
}

#[test]
fn button_labels() {
    assert_eq!(ButtonKind::StartSeries.label(), "Iniciar Serie");
    assert_eq!(ButtonKind::LoadCheckpoint.label(), "Cargar Checkpoint");
    assert_eq!(ButtonKind::Pause.label(), "Pausar");
    assert_eq!(ButtonKind::Stop.label(), "Detener");
    assert_eq!(ButtonKind::Resume.label(), "Reanudar");
    assert_eq!(ButtonKind::LoadOther.label(), "Cargar Otro");
}
