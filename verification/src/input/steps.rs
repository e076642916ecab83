//! The steps of an input script: single key events, groups of key events, pauses.
use vstd::prelude::*;

verus! {

/// One key event: the key goes down or comes up.
#[derive(Debug, Clone, Copy, PartialEq, Eq, Structural)]
pub struct KeyInput {
    pub vk_code: u16,
    pub key_down: bool,
}

/// Key events that are sent together.
#[derive(Debug, Clone, PartialEq, Eq)]
pub struct KeyInputs {
    pub inputs: Vec<KeyInput>,
}

/// A pause of the given number of milliseconds.
#[derive(Debug, Clone, Copy, PartialEq, Eq, Structural)]
pub struct NoInput {
    pub pause: u64,
}

/// One step of an input script.
#[derive(Debug, Clone, PartialEq, Eq)]
pub enum InputStep {
    Key(KeyInput),
    Keys(KeyInputs),
    Pause(NoInput),
}

/// What a step stands for, with its key events as a sequence.
pub enum StepView {
    Key(KeyInput),
    Keys(Seq<KeyInput>),
    Pause(u64),
}

impl View for InputStep {
    type V = StepView;

    open spec fn view(&self) -> StepView {
        match self {
            InputStep::Key(k) => StepView::Key(*k),
            InputStep::Keys(ks) => StepView::Keys(ks.inputs@),
            InputStep::Pause(p) => StepView::Pause(p.pause),
        }
    }
}

} // verus!
