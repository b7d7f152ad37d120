use experimenters::icon::{decode_icon, IconError};
use experimenters::iris_dataset::{
    feature_labels, items_from_columns, shuffle_and_split, split_items, species_label, Feature, IrisBatcher, IrisClass, IrisItem,
    BATCH_SIZE, FEATURE_COUNT,
};
use experimenters::iris_window::{PerceptronExperimenter, Screen, TrainingStatus, UiAction, UiMessage};
use experimenters::rerun_plotter::{
    classified_points, feature_pairs, species_palette, species_points, ClassificationPlotter, Rgb,
};
use experimenters::training_worker::{
    loader_batches, next_epoch, BatchAction, FromWorker, IrisWorker, ToWorker, TopAction, Trainer, TrainingConfig, WorkerEvent,
};

#[test]
fn class_names() {
    assert_eq!(IrisClass::Setosa.target_name(), "Iris-setosa");
    assert_eq!(IrisClass::Versicolour.target_name(), "Iris-versicolour");
    assert_eq!(IrisClass::Virginica.target_name(), "Iris-virginica");
    assert_eq!(IrisClass::Setosa.display_name(), "Setosa");
    assert_eq!(IrisClass::Versicolour.display_name(), "Versicolour");
    assert_eq!(IrisClass::Virginica.display_name(), "Virginica");
    assert_eq!(IrisClass::all(), vec![IrisClass::Setosa, IrisClass::Versicolour, IrisClass::Virginica]);
}

#[test]
fn species_labels_follow_the_data_file() {
    assert_eq!(species_label("Iris-setosa"), 0);
    assert_eq!(species_label("Iris-versicolor"), 1);
    assert_eq!(species_label("Iris-virginica"), 2);
    assert_eq!(species_label("anything"), 2);
}

#[test]
fn target_names_read_back_except_versicolour() {
    assert_eq!(species_label(&IrisClass::Setosa.target_name()), 0);
    assert_eq!(species_label(&IrisClass::Virginica.target_name()), 2);
    assert_eq!(species_label(&IrisClass::Versicolour.target_name()), 2);
}

#[test]
fn feature_names_roundtrip() {
    let labels = feature_labels();
    assert_eq!(labels, ["sepal_length", "sepal_width", "petal_length", "petal_width"]);
    for (i, name) in labels.iter().enumerate() {
        assert_eq!(Feature::from_str(name).index(), i);
    }
    assert_eq!(Feature::from_str("petal_width"), Feature::PetalWidth);
    assert_eq!(Feature::SepalLength.index(), 0);
    assert_eq!(FEATURE_COUNT, 4);
}

#[test]
fn items_from_columns_zips_rows() {
    let items = items_from_columns(
        &vec![5.1f32, 7.0, 6.3],
        &vec![3.5f32, 3.2, 3.3],
        &vec![1.4f32, 4.7, 6.0],
        &vec![0.2f32, 1.4, 2.5],
        &vec!["Iris-setosa".to_string(), "Iris-versicolor".to_string(), "Iris-virginica".to_string()],
    );
    assert_eq!(items.len(), 3);
    assert_eq!(items[0].features, [5.1, 3.5, 1.4, 0.2]);
    assert_eq!(items[1].label, 1);
    assert_eq!(items[2].label, 2);
    assert_eq!(items[2].features, [6.3, 3.3, 6.0, 2.5]);
}

#[test]
fn items_from_columns_stops_at_shortest() {
    let items = items_from_columns(&vec![1u8, 2], &vec![1u8, 2], &vec![1u8], &vec![1u8, 2], &vec![
        "Iris-setosa".to_string(),
        "x".to_string(),
    ]);
    assert_eq!(items.len(), 1);
}

#[test]
fn iris_batch_rows() {
    let items = vec![
        IrisItem { features: [1u8, 2, 3, 4], label: 0 },
        IrisItem { features: [5u8, 6, 7, 8], label: 2 },
    ];
    let b = IrisBatcher::new(IrisClass::Virginica).batch(&items);
    assert_eq!(b.inputs, vec![1, 2, 3, 4, 5, 6, 7, 8]);
    assert_eq!(b.targets, vec![0, 1]);
    assert_eq!(BATCH_SIZE, 16);
}

#[test]
fn iris_batch_targets_single_out_the_chosen_class() {
    let items = vec![
        IrisItem { features: [0u8; 4], label: 0 },
        IrisItem { features: [0u8; 4], label: 1 },
        IrisItem { features: [0u8; 4], label: 2 },
        IrisItem { features: [0u8; 4], label: 1 },
    ];
    assert_eq!(IrisBatcher::new(IrisClass::Setosa).batch(&items).targets, vec![1, 0, 0, 0]);
    assert_eq!(IrisBatcher::new(IrisClass::Versicolour).batch(&items).targets, vec![0, 1, 0, 1]);
    assert_eq!(IrisBatcher::new(IrisClass::Virginica).batch(&items).targets, vec![0, 0, 1, 0]);
    assert_eq!(IrisBatcher::new(IrisClass::Virginica).target_class, IrisClass::Virginica);
}

#[test]
fn loader_batches_round_up() {
    assert_eq!(loader_batches(0), 0);
    assert_eq!(loader_batches(1), 1);
    assert_eq!(loader_batches(16), 1);
    assert_eq!(loader_batches(17), 2);
    assert_eq!(loader_batches(120), 8);
    assert_eq!(loader_batches(30), 2);
}

#[test]
fn shuffle_and_split_keeps_every_item() {
    let items: Vec<u32> = (0..150).collect();
    let (train, val) = shuffle_and_split(items.clone(), 42, 120);
    assert_eq!(train.len(), 120);
    assert_eq!(val.len(), 30);
    let mut all: Vec<u32> = train.iter().chain(val.iter()).cloned().collect();
    assert_ne!(all, items);
    all.sort();
    assert_eq!(all, items);
}

#[test]
fn shuffle_is_seeded() {
    let items: Vec<u32> = (0..50).collect();
    let a = shuffle_and_split(items.clone(), 7, 40);
    let b = shuffle_and_split(items.clone(), 7, 40);
    assert_eq!(a, b);
}

#[test]
fn split_edges() {
    let (t, v) = shuffle_and_split(Vec::<u8>::new(), 1, 0);
    assert!(t.is_empty() && v.is_empty());
    let (t, v) = shuffle_and_split(vec![9u8], 1, 1);
    assert_eq!(t, vec![9]);
    assert!(v.is_empty());
}

#[test]
fn pairs_of_features() {
    assert_eq!(feature_pairs(), vec![(0, 1), (0, 2), (0, 3), (1, 2), (1, 3), (2, 3)]);
}

#[test]
fn palette_greys_out_other_species() {
    let grey = Rgb { r: 100, g: 100, b: 100 };
    let plain = species_palette(None);
    assert_eq!(plain[0], ("Iris-setosa", Rgb { r: 255, g: 50, b: 50 }));
    assert_eq!(plain[1], ("Iris-versicolor", Rgb { r: 50, g: 255, b: 50 }));
    assert_eq!(plain[2], ("Iris-virginica", Rgb { r: 50, g: 100, b: 255 }));
    let target = species_palette(Some(IrisClass::Versicolour));
    assert_eq!(target[0].1, grey);
    assert_eq!(target[1].1, Rgb { r: 50, g: 255, b: 50 });
    assert_eq!(target[2].1, grey);
}

#[test]
fn points_split_by_correctness() {
    let features = vec![1, 2, 3, 4, 5, 6, 7, 8, 9, 10, 11, 12];
    let (good, bad) = classified_points(&features, &vec![1, 0, 1], &vec![1, 1, 1, 0], 0, 3);
    assert_eq!(good, vec![(1, 4), (9, 12)]);
    assert_eq!(bad, vec![(5, 8)]);
}

#[test]
fn plotter_accumulates_batches() {
    let mut p = ClassificationPlotter::new();
    p.accumulate_batch(&vec![1, 2, 3, 4], &vec![0], &vec![0]);
    p.accumulate_batch(&vec![5, 6, 7, 8, 9, 10, 11, 12], &vec![1, 1], &vec![0, 1]);
    assert_eq!(p.epoch_is_correct, vec![true, false, true]);
    assert_eq!(p.epoch_features.len(), 12);
    let (good, bad) = p.pair_points(1, 2);
    assert_eq!(good, vec![(2, 3), (10, 11)]);
    assert_eq!(bad, vec![(6, 7)]);
    assert_eq!(good.len() + bad.len(), 3);
}

#[test]
fn empty_plotter_has_no_points() {
    let p: ClassificationPlotter<f32> = ClassificationPlotter::new();
    let (good, bad) = p.pair_points(0, 1);
    assert!(good.is_empty() && bad.is_empty());
}

fn cfg(current: usize, target: usize) -> TrainingConfig {
    TrainingConfig {
        target_class: IrisClass::Virginica,
        seed: 3,
        lr_bits: 0.001f64.to_bits(),
        target_epochs: target,
        current_epoch: current,
        current_batch: 0,
    }
}

fn ready_worker() -> IrisWorker {
    let mut t = Trainer::new(true);
    t.dataset_loaded();
    IrisWorker::new(t)
}

#[test]
fn trainer_plots_and_counts_time() {
    let mut t = Trainer::new(true);
    assert_eq!(t.plot_original_dataset(), None);
    t.dataset_loaded();
    assert_eq!(t.plot_original_dataset(), Some(0));
    assert_eq!(t.plot_original_dataset(), Some(1));
    assert!(t.plot_at_start);
    assert_eq!(t.plot_dataset_with_target(), Some(2));
    assert!(!t.plot_at_start);
    let mut silent = Trainer::new(false);
    silent.dataset_loaded();
    assert_eq!(silent.plot_original_dataset(), None);
    assert_eq!(silent.rerun_time, 0);
}

#[test]
fn first_start_builds_and_plots() {
    let mut w = ready_worker();
    match w.handle_message(ToWorker::Start(cfg(0, 3))) {
        TopAction::Train { config, plan } => {
            assert_eq!(config, cfg(0, 3));
            assert!(plan.rebuild);
            assert_eq!(plan.plot_at, Some(0));
        }
        other => panic!("unexpected {other:?}"),
    }
    assert!(w.trainer.has_model && w.trainer.has_train_loader && w.trainer.has_val_loader);
    match w.handle_message(ToWorker::Start(cfg(0, 3))) {
        TopAction::Train { plan, .. } => {
            assert!(!plan.rebuild);
            assert_eq!(plan.plot_at, None);
        }
        other => panic!("unexpected {other:?}"),
    }
}

#[test]
fn retarget_drops_model_and_replots() {
    let mut w = ready_worker();
    w.handle_message(ToWorker::Start(cfg(0, 3)));
    match w.handle_message(ToWorker::TargetSelected(IrisClass::Setosa)) {
        TopAction::Retarget { target, plot_at } => {
            assert_eq!(target, IrisClass::Setosa);
            assert_eq!(plot_at, Some(1));
        }
        other => panic!("unexpected {other:?}"),
    }
    assert!(!w.trainer.has_model);
    match w.handle_message(ToWorker::Start(cfg(0, 3))) {
        TopAction::Train { plan, .. } => assert!(plan.rebuild),
        other => panic!("unexpected {other:?}"),
    }
}

#[test]
fn idle_worker_ignores_pause_stop_and_load() {
    let mut w = ready_worker();
    let before = w;
    assert!(matches!(w.handle_message(ToWorker::Pause), TopAction::Ignore));
    assert!(matches!(w.handle_message(ToWorker::Stop), TopAction::Ignore));
    assert!(matches!(w.handle_message(ToWorker::LoadCheckpoint("x".into())), TopAction::Ignore));
    assert!(matches!(w.handle_message(ToWorker::Exit), TopAction::Exit));
    assert_eq!(w, before);
}

#[test]
fn batch_commands() {
    let mut w = ready_worker();
    assert!(matches!(w.batch_command(None, 7), BatchAction::Train));
    assert!(matches!(w.batch_command(Some(ToWorker::Start(cfg(0, 1))), 7), BatchAction::Train));
    assert!(matches!(w.batch_command(Some(ToWorker::Pause), 7), BatchAction::EndRun { reply: None }));
    assert!(!w.stop_training);
    let before = w;
    assert!(matches!(w.batch_command(Some(ToWorker::Exit), 7), BatchAction::Exit));
    assert_eq!(w, before);
    assert!(matches!(
        w.batch_command(Some(ToWorker::Stop), 7),
        BatchAction::EndRun { reply: Some(FromWorker::BatchProgress { epoch: 0, current_batch: 0, total_batches: 7 }) }
    ));
    assert!(w.stop_training);
}

#[test]
fn stopped_series_drops_model_at_its_end() {
    let mut w = ready_worker();
    w.handle_message(ToWorker::Start(cfg(0, 3)));
    w.batch_command(Some(ToWorker::Stop), 7);
    assert!(matches!(w.finish_run(), FromWorker::TrainingFinished));
    assert!(!w.stop_training && !w.trainer.has_model);
}

#[test]
fn paused_series_keeps_model() {
    let mut w = ready_worker();
    w.handle_message(ToWorker::Start(cfg(0, 3)));
    w.batch_command(Some(ToWorker::Pause), 7);
    w.finish_run();
    assert!(w.trainer.has_model);
}

#[test]
fn epochs_run_to_target() {
    let mut c = cfg(2, 5);
    let mut epochs = Vec::new();
    while next_epoch(&mut c) {
        epochs.push(c.current_epoch);
    }
    assert_eq!(epochs, vec![3, 4, 5]);
    let mut past = cfg(6, 5);
    assert!(!next_epoch(&mut past));
    assert_eq!(past.current_epoch, 6);
}

#[test]
fn end_epoch_logs_and_validates() {
    let mut w = ready_worker();
    let e = w.end_epoch(1);
    assert_eq!(e.log_at, Some(1));
    assert!(e.validate);
    let mut quiet = IrisWorker::new(Trainer::new(false));
    let e = quiet.end_epoch(2);
    assert_eq!(e.log_at, None);
    assert!(e.validate);
}

fn connected_window() -> PerceptronExperimenter {
    let mut w = PerceptronExperimenter::new();
    w.update(UiMessage::WorkerStatusChanged(WorkerEvent::Ready));
    w
}

#[test]
fn iris_window_start_sends_class_and_settings() {
    let mut w = connected_window();
    assert!(matches!(
        w.update(UiMessage::TargetClassSelected(IrisClass::Virginica)),
        UiAction::Send(ToWorker::TargetSelected(IrisClass::Virginica))
    ));
    w.update(UiMessage::InputSeedChanged("+9".to_string()));
    w.update(UiMessage::InputEpochsChanged("4".to_string()));
    match w.update(UiMessage::BtnStartPressed(0.5f64.to_bits())) {
        UiAction::Send(ToWorker::Start(c)) => {
            assert_eq!(c.target_class, IrisClass::Virginica);
            assert_eq!(c.seed, 9);
            assert_eq!(c.target_epochs, 4);
            assert_eq!(c.current_epoch, 0);
            assert_eq!(c.lr_bits, 0.5f64.to_bits());
        }
        other => panic!("unexpected {other:?}"),
    }
    assert_eq!(w.status, TrainingStatus::Training);
}

#[test]
fn iris_window_start_without_worker_warns() {
    let mut w = PerceptronExperimenter::new();
    assert!(matches!(w.update(UiMessage::BtnStartPressed(0)), UiAction::Nothing));
    assert_eq!(
        w.status_bar_message.as_deref(),
        Some("⚠️ Advertencia: Se presionó Start pero el Worker no está conectado aún.")
    );
    assert_eq!(w.status, TrainingStatus::Training);
}

#[test]
fn iris_window_checkpoint_loaded() {
    let mut w = connected_window();
    let meta = cfg(2, 8);
    let a = w.update(UiMessage::WorkerStatusChanged(WorkerEvent::Update(FromWorker::CheckpointLoaded(meta))));
    assert!(matches!(a, UiAction::ShowLearningRate(b) if b == 0.001f64.to_bits()));
    assert_eq!(w.current_epoch, 2);
    assert_eq!(w.input_seed, "3");
    assert_eq!(w.status, TrainingStatus::Paused);
}

#[test]
fn iris_window_load_goes_idle() {
    let mut w = connected_window();
    w.update(UiMessage::BtnPausePressed);
    assert!(matches!(
        w.update(UiMessage::BtnLoadPressed("ck".into())),
        UiAction::Send(ToWorker::LoadCheckpoint(ref p)) if p == "ck"
    ));
    assert_eq!(w.status, TrainingStatus::Idle);
    w.update(UiMessage::BtnStartPressed(0));
    w.update(UiMessage::WorkerStatusChanged(WorkerEvent::Update(FromWorker::TrainingFinished)));
    assert_eq!(w.status, TrainingStatus::Idle);
}

#[test]
fn decode_icon_reads_png() {
    let img = image::RgbaImage::from_raw(2, 1, vec![1, 2, 3, 255, 4, 5, 6, 128]).unwrap();
    let mut bytes: Vec<u8> = Vec::new();
    img.write_to(&mut std::io::Cursor::new(&mut bytes), image::ImageFormat::Png).unwrap();
    let icon = decode_icon(&bytes).unwrap();
    assert_eq!((icon.width, icon.height), (2, 1));
    assert_eq!(icon.rgba, vec![1, 2, 3, 255, 4, 5, 6, 128]);
}

#[test]
fn decode_icon_refuses_garbage() {
    assert!(matches!(decode_icon(&[1, 2, 3, 4]), Err(IconError::NotAnImage)));
}

#[test]
fn species_points_keep_the_rows_of_one_species_in_order() {
    let xs = vec![5.1f64, 7.0, 4.9, 6.3, 6.4];
    let ys = vec![3.5f64, 3.2, 3.0, 3.3, 3.2];
    let species: Vec<String> = vec!["Iris-setosa", "Iris-versicolor", "Iris-setosa", "Iris-virginica", "Iris-versicolor"]
        .into_iter()
        .map(String::from)
        .collect();
    assert_eq!(species_points(&xs, &ys, &species, "Iris-setosa"), vec![(5.1, 3.5), (4.9, 3.0)]);
    assert_eq!(species_points(&xs, &ys, &species, "Iris-versicolor"), vec![(7.0, 3.2), (6.4, 3.2)]);
    assert_eq!(species_points(&xs, &ys, &species, "Iris-virginica"), vec![(6.3, 3.3)]);
    assert_eq!(species_points(&xs, &ys, &species, "Iris-versicolour"), Vec::<(f64, f64)>::new());
}

#[test]
fn species_points_stop_at_the_shortest_column() {
    let xs = vec![1u32, 2, 3];
    let ys = vec![10u32, 20];
    let species: Vec<String> = vec!["a".to_string(), "a".to_string(), "a".to_string()];
    assert_eq!(species_points(&xs, &ys, &species, "a"), vec![(1, 10), (2, 20)]);
}

#[test]
fn split_items_keeps_order() {
    let (t, v) = split_items(vec![1, 2, 3, 4, 5], 3);
    assert_eq!(t, vec![1, 2, 3]);
    assert_eq!(v, vec![4, 5]);
    let (t, v) = split_items(vec![1, 2], 0);
    assert!(t.is_empty());
    assert_eq!(v, vec![1, 2]);
}

#[test]
fn iris_window_screens() {
    let mut w = PerceptronExperimenter::new();
    assert!(matches!(w.screen(), Screen::MainScreen { ref status_bar } if status_bar.is_empty()));
    w.update(UiMessage::BtnStartPressed(0.001f64.to_bits()));
    assert!(matches!(
        w.screen(),
        Screen::MainScreen { ref status_bar }
            if status_bar == "⚠️ Advertencia: Se presionó Start pero el Worker no está conectado aún."
    ));
    w.error_message = Some("falló".to_string());
    assert!(matches!(w.screen(), Screen::ErrorScreen(ref e) if e == "falló"));
}
