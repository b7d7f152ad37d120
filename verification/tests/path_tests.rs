use experimenters::recording_paths::{classification_path, confusion_path, loss_path, pair_path, weights_path};

#[test]
fn cifar_paths() {
    assert_eq!(loss_path(42, "train"), "metricas/seed_42/loss_train");
    assert_eq!(confusion_path(7, "val"), "evaluacion/seed_7/matriz_confusion_val");
    assert_eq!(weights_path(0, "capa_1"), "visualizacion/seed_0/pesos/pesos_capa_1_heatmap");
}

#[test]
fn iris_paths() {
    assert_eq!(
        pair_path("sepal_length", "petal_width", "Iris-setosa"),
        "dataset/sepal_length (cm) vs petal_width (cm)/Iris-setosa"
    );
    assert_eq!(
        classification_path("a", "b", true, "Iris-virginica"),
        "dataset/a (cm) vs b (cm)/correct/Iris-virginica"
    );
    assert_eq!(classification_path("a", "b", false, "t"), "dataset/a (cm) vs b (cm)/incorrect/t");
}
