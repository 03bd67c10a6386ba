use vstd::prelude::*;

verus! {

/// Why the surface could not hand out the next frame.
#[derive(Clone, Copy, Debug, PartialEq, Eq, Structural)]
pub enum SurfaceFault {
    /// Acquiring the frame timed out.
    Timeout,
    /// The surface changed and must be configured anew.
    Outdated,
    /// The swap chain was lost and must be recreated.
    Lost,
    /// No memory is left for a new frame.
    OutOfMemory,
}

/// What the event loop does about a frame that failed.
#[derive(Clone, Copy, Debug, PartialEq, Eq, Structural)]
pub enum Recovery {
    /// Configure the surface again at its current size.
    Reconfigure,
    /// Leave the event loop.
    Exit,
    /// Log a warning and go on.
    Warn,
}

/// Renders a failed frame acquisition as the result of rendering: every
/// fault, an outdated surface included, is reported as it is, so that the
/// event loop can recover from it (see `recovery_for`).
pub fn acquire_outcome(fault: SurfaceFault) -> (r: Result<(), SurfaceFault>)
    ensures
        r == Err::<(), SurfaceFault>(fault),
{
    Err(fault)
}

/// The recovery for a reported fault: a lost or outdated surface is
/// configured again, running out of memory ends the program, a timeout is
/// only logged.
pub fn recovery_for(fault: SurfaceFault) -> (r: Recovery)
    ensures
        (fault == SurfaceFault::Lost || fault == SurfaceFault::Outdated) <==> r == Recovery::Reconfigure,
        fault == SurfaceFault::OutOfMemory <==> r == Recovery::Exit,
        fault == SurfaceFault::Timeout <==> r == Recovery::Warn,
{
    match fault {
        SurfaceFault::Lost | SurfaceFault::Outdated => Recovery::Reconfigure,
        SurfaceFault::OutOfMemory => Recovery::Exit,
        SurfaceFault::Timeout => Recovery::Warn,
    }
}

} // verus!
