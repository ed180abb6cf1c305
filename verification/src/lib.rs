//! ABNT2 keyboard layout emulation on US keyboards.
//!
//! The crate holds the remapping engine: the dead-key state machine that
//! turns US key positions into ABNT2 characters, the shared mode gate that
//! pauses interception, and the contract a platform hook adapter must meet.

pub mod error;
pub mod interceptor;
pub mod mapper;
pub mod platform;
pub mod state;

pub use error::GhostKeysError;
pub use interceptor::{KeyAction, KeyboardInterceptor};
pub use mapper::{AccentType, Mapper, MapperState, VirtualKey};
pub use state::{OperationMode, SharedState};
