# experimenters

Two training experimenters, each a control window with a training worker
behind it: a dense network on CIFAR-10 images and a perceptron on the Iris
dataset, plus an architecture search over CIFAR-10.

- `src/` is the verified library (Verus). It holds what the windows and the
  workers decide: the state machines of both workers (what each command and
  each epoch does, when to validate, checkpoint and finish), the windows'
  reactions to every message and the buttons they offer, the decoding of the
  CIFAR-10 image files into labelled items, the layout of data batches, the confusion matrix, the shuffled train/validation split, the
  points of each plot and the paths under which they are recorded, and the
  decimal text of the seed and epoch fields.
- `app/` is the program around it: the iced windows, the burn tensors and
  training steps, the rerun recordings, file reading and the threads. It
  carries out what the library decides.
- `tests/` runs the library on concrete values.

Learning rates and losses are floating point values; the library carries
them as their IEEE-754 bit patterns and never computes with them.
