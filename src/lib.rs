//! Verified lifecycle management for a native multimedia library whose
//! global initialisation, subsystems and event pump are reference counted.
//!
//! The library decides and keeps the books; the caller performs the native
//! calls it is told to perform and reports their outcome back.
pub mod context;
pub mod error;
pub mod laws;
pub mod model;
pub mod subsystem;

pub use context::{init, EventPump, InitTicket, PumpTicket, Runtime, Sdl, SdlDrop, SubsystemHandle};
pub use error::{error_text_to_c, ContextError, Error, NulError};
pub use model::Teardown;
pub use subsystem::Subsystem;
