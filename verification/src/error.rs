//! Failures of start-up.

use vstd::prelude::*;

verus! {

/// Why a context could not be built. Both kinds are fatal: the loop never
/// starts.
#[derive(Debug)]
pub enum TetraError {
    /// The windowing or graphics subsystem did not initialise. Carries the
    /// platform's message.
    PlatformInit(String),
    /// The window or its surface could not be created. Carries the reason.
    WindowCreation(String),
}

/// The steps of start-up that can fail, in the order they are taken.
#[derive(Clone, Copy, Debug, PartialEq, Eq)]
pub enum StartupStep {
    /// Bringing up the platform layer.
    Init,
    /// Bringing up its video subsystem.
    Video,
    /// Creating the window and its surface.
    Window,
    /// Bringing up the graphics device behind the window.
    Graphics,
    /// Reaching the platform's event queue.
    EventQueue,
}

impl TetraError {
    /// The error for a failure at `step`, carrying the platform's message:
    /// a window that cannot be created is a window-creation failure, and a
    /// failure at any other step is one of platform initialisation.
    pub fn at_step(step: StartupStep, message: String) -> (error: TetraError)
        ensures
            error.text() == message@,
            error is WindowCreation <==> step is Window,
            error is PlatformInit <==> !(step is Window),
    {
        match step {
            StartupStep::Window => TetraError::WindowCreation(message),
            _ => TetraError::PlatformInit(message),
        }
    }

    /// The text carried by the error.
    pub open spec fn text(self) -> Seq<char> {
        match self {
            TetraError::PlatformInit(message) => message@,
            TetraError::WindowCreation(message) => message@,
        }
    }

    /// A copy of the text carried by the error.
    pub fn message(&self) -> (message: String)
        ensures
            message@ == self.text(),
    {
        match self {
            TetraError::PlatformInit(message) => message.clone(),
            TetraError::WindowCreation(message) => message.clone(),
        }
    }
}

} // verus!
