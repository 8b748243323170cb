//! Safety layer over a native real-time audio middleware engine: typed
//! handles for the engine root, loaded content banks, event templates and
//! playable instances, a closed error taxonomy mapped one-to-one onto the
//! engine's numeric status codes, and a 128-bit identifier value type.
//!
//! The native calls themselves live outside this crate; this crate holds the
//! value types, the status-code translation, and every decision the layer
//! makes around those calls.

pub mod bank;
pub mod error;
pub mod event;
pub mod guid;
pub mod system;

pub use bank::Bank;
pub use bank::LoadingState;
pub use error::FmodError;
pub use error::ToError;
pub use event::EventDescription;
pub use event::EventInstance;
pub use guid::Guid;
pub use system::System;
pub use system::SystemSetup;
