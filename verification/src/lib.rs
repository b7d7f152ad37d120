//! Training experimenters for a CIFAR-10 multilayer perceptron and an Iris
//! perceptron: the verified state machines, data shaping and text handling
//! that drive the training workers and their control windows.

pub mod text;
pub mod cifar_net;
pub mod cifar_data;
pub mod cifar_images;
pub mod confusion;
pub mod training_state;
pub mod cifar_worker;
pub mod controls;
pub mod cifar_window;
pub mod iris_dataset;
pub mod rerun_plotter;
pub mod training_worker;
pub mod iris_window;
pub mod icon;
pub mod recording_paths;
