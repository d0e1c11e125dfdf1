//! Resource-lifecycle core of a windowing/context layer for embedded boards
//! without a display server.
//!
//! The library models the two cooperating objects of that layer — a
//! process-wide [`system::System`] and a [`window::Window`] — together with
//! the strict creation order, the typed failure paths and the exact reverse
//! teardown order that the native compositor, context API and GPU driver
//! demand.  Every decision (which call comes next, how a native result is
//! classified, what must be torn down and in which order) is made here and is
//! verified; the surrounding process performs the native calls themselves and
//! feeds their results back as plain values.

pub mod config;
pub mod error;
pub mod handle;
pub mod system;
pub mod window;

pub use config::{ColorBits, DepthBits, Display, LibDir, WindowConfig};
pub use error::{gl_error, Error, LoadingError, NativeCall};
pub use handle::Handle;
pub use system::{System, SystemBuilder, SystemStep, SystemTeardownStep};
pub use window::{
    EGLDispmanxWindow, TeardownStep, VcRect, Window, WindowBuilder, WindowStep,
};
