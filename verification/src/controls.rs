//! The buttons of the control windows.

use vstd::prelude::*;

verus! {

/// A button of a control window.
#[derive(Clone, Copy, Debug, PartialEq, Eq, Structural)]
pub enum ButtonKind {
    /// Starts a series (idle).
    StartSeries,
    /// Opens a checkpoint (idle).
    LoadCheckpoint,
    /// Pauses the series.
    Pause,
    /// Stops the series.
    Stop,
    /// Resumes a paused series.
    Resume,
    /// Opens another checkpoint (paused).
    LoadOther,
}

/// A button and whether it can be pressed.
#[derive(Clone, Copy, Debug, PartialEq, Eq, Structural)]
pub struct Button {
    pub kind: ButtonKind,
    pub enabled: bool,
}

/// What the button `kind` reads.
pub open spec fn spec_label(kind: ButtonKind) -> Seq<char> {
    match kind {
        ButtonKind::StartSeries => "Iniciar Serie"@,
        ButtonKind::LoadCheckpoint => "Cargar Checkpoint"@,
        ButtonKind::Pause => "Pausar"@,
        ButtonKind::Stop => "Detener"@,
        ButtonKind::Resume => "Reanudar"@,
        ButtonKind::LoadOther => "Cargar Otro"@,
    }
}

impl ButtonKind {
    /// What the button reads.
    pub fn label(&self) -> (s: &'static str)
        ensures
            s@ == spec_label(*self),
    {
        match self {
            ButtonKind::StartSeries => "Iniciar Serie",
            ButtonKind::LoadCheckpoint => "Cargar Checkpoint",
            ButtonKind::Pause => "Pausar",
            ButtonKind::Stop => "Detener",
            ButtonKind::Resume => "Reanudar",
            ButtonKind::LoadOther => "Cargar Otro",
        }
    }
}

/// What a window's list of saved checkpoints shows.
pub open spec fn spec_checkpoint_lines(paths: Seq<Seq<char>>) -> Seq<Seq<char>> {
    if paths.len() == 0 {
        seq!["Ninguno todavía..."@]
    } else {
        paths
    }
}

} // verus!
