//! The dialog that lets the earbuds ring so that they can be found.

use vstd::prelude::*;
use crate::model::buds_message::BudsCommand;

verus! {

/// What the dialog is told.
#[derive(Clone, Copy, Debug, PartialEq, Eq, Structural)]
pub enum DialogFindInput {
    /// Show the dialog.
    Show,
    /// The button of the dialog was switched on or off.
    Toggle(bool),
}

/// What the dialog asks for.
#[derive(Clone, Copy, Debug, PartialEq, Eq, Structural)]
pub enum DialogFindOutput {
    /// Let the earbuds ring.
    Start,
    /// Let them stop.
    Stop,
}

impl DialogFindOutput {
    /// The command that does what the dialog asks for.
    pub fn command(self) -> (command: BudsCommand)
        ensures
            command == BudsCommand::Find(self is Start),
    {
        match self {
            DialogFindOutput::Start => BudsCommand::Find(true),
            DialogFindOutput::Stop => BudsCommand::Find(false),
        }
    }
}

/// The dialog: whether it is to be seen.
#[derive(Clone, Copy, Debug, PartialEq, Eq, Structural)]
pub struct DialogFind {
    is_visible: bool,
}

impl View for DialogFind {
    type V = bool;

    closed spec fn view(&self) -> bool {
        self.is_visible
    }
}

impl DialogFind {
    /// A dialog that is to be seen.
    pub fn init() -> (dialog: Self)
        ensures
            dialog@,
    {
        DialogFind { is_visible: true }
    }

    /// Takes a message: `Show` makes the dialog visible; a switch of the
    /// button asks for the ringing to start or to stop.
    pub fn update(&mut self, message: DialogFindInput) -> (output: Option<DialogFindOutput>)
        ensures
            final(self)@ == (old(self)@ || message is Show),
            output == match message {
                DialogFindInput::Show => None,
                DialogFindInput::Toggle(active) => Some(
                    if active {
                        DialogFindOutput::Start
                    } else {
                        DialogFindOutput::Stop
                    },
                ),
            },
    {
        match message {
            DialogFindInput::Show => {
                self.is_visible = true;
                None
            },
            DialogFindInput::Toggle(active) => Some(
                if active {
                    DialogFindOutput::Start
                } else {
                    DialogFindOutput::Stop
                },
            ),
        }
    }

    /// Whether the dialog is to be presented; else it is to be closed.
    pub fn is_visible(&self) -> (visible: bool)
        ensures
            visible == self@,
    {
        self.is_visible
    }
}

} // verus!
