use vstd::prelude::*;

verus! {

/// One independently initialisable unit of the native library.
#[derive(Clone, Copy, Debug, PartialEq, Eq, Structural)]
pub enum Subsystem {
    Timer,
    Audio,
    Video,
    Joystick,
    Haptic,
    GameController,
    Events,
}

/// The native library's bit flag for a subsystem.
pub open spec fn flag_of(s: Subsystem) -> u32 {
    match s {
        Subsystem::Timer => 0x0000_0001,
        Subsystem::Audio => 0x0000_0010,
        Subsystem::Video => 0x0000_0020,
        Subsystem::Joystick => 0x0000_0200,
        Subsystem::Haptic => 0x0000_1000,
        Subsystem::GameController => 0x0000_2000,
        Subsystem::Events => 0x0000_4000,
    }
}

/// Whether a subsystem's handle may be used (not torn down) from other threads.
pub open spec fn shareable_spec(s: Subsystem) -> bool {
    s == Subsystem::Timer || s == Subsystem::Events
}

impl Subsystem {
    /// The bit flag handed to the native subsystem init and quit calls.
    pub fn flag(&self) -> (r: u32)
        ensures
            r == flag_of(*self),
    {
        match self {
            Subsystem::Timer => 0x0000_0001,
            Subsystem::Audio => 0x0000_0010,
            Subsystem::Video => 0x0000_0020,
            Subsystem::Joystick => 0x0000_0200,
            Subsystem::Haptic => 0x0000_1000,
            Subsystem::GameController => 0x0000_2000,
            Subsystem::Events => 0x0000_4000,
        }
    }

    /// Whether the native library documents this subsystem as usable from
    /// threads other than the initialising one.
    pub fn is_shareable(&self) -> (r: bool)
        ensures
            r == shareable_spec(*self),
    {
        match self {
            Subsystem::Timer | Subsystem::Events => true,
            _ => false,
        }
    }
}

} // verus!
