//! The page that shows the noise-control mode.

use vstd::prelude::*;
use crate::codec::NoiseControlMode;

verus! {

/// What the page is told.
#[derive(Clone, Copy, Debug, PartialEq, Eq, Structural)]
pub enum PageNoiseInput {
    /// The earbuds are in this mode now.
    ModeUpdate(NoiseControlMode),
}

/// What the page asks for: nothing. The type has no value.
#[derive(Debug)]
pub enum PageNoiseOutput {
    Never(core::convert::Infallible),
}

/// The page: the mode that it shows.
#[derive(Clone, Copy, Debug, PartialEq, Eq, Structural)]
pub struct PageNoiseModel {
    mode: NoiseControlMode,
}

impl View for PageNoiseModel {
    type V = NoiseControlMode;

    closed spec fn view(&self) -> NoiseControlMode {
        self.mode
    }
}

impl PageNoiseModel {
    /// A page that shows `mode`.
    pub fn init(mode: NoiseControlMode) -> (page: Self)
        ensures
            page@ == mode,
    {
        PageNoiseModel { mode }
    }

    /// Takes a message: the page shows the mode that it is told.
    pub fn update(&mut self, msg: PageNoiseInput)
        ensures
            final(self)@ == msg->ModeUpdate_0,
    {
        match msg {
            PageNoiseInput::ModeUpdate(mode) => {
                self.mode = mode;
            },
        }
    }

    /// The mode that the page shows.
    pub fn mode(&self) -> (mode: NoiseControlMode)
        ensures
            mode == self@,
    {
        self.mode
    }

    /// Whether the choice for `mode` is the one marked on the page.
    pub fn is_marked(&self, mode: NoiseControlMode) -> (marked: bool)
        ensures
            marked == (self@ == mode),
    {
        self.mode == mode
    }
}

} // verus!
