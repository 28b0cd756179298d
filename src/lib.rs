use vstd::prelude::*;

pub mod battery;
pub mod colour;
pub mod document;
pub mod framebuffer;
pub mod geom;
pub mod input;
pub mod peripherals;
pub mod tasks;
pub mod text;

verus! {

/// How the application ends.
#[derive(Debug, Copy, Clone, PartialEq, Eq, Structural)]
pub enum ExitStatus {
    Quit,
    RestartApp,
    Reboot,
    PowerOff,
}

} // verus!
