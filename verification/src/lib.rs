//! Host-side runtime support for a sandboxed guest reaching
//! operating-system-like resources through a handle-based system-call
//! interface.
//!
//! The guest never receives real OS handles; it receives small integers
//! ("handles") that this layer resolves against a [`table::Table`], checks
//! against the capability interfaces ([`file::WasiFile`] and
//! [`dir::WasiDir`]), and dispatches per ABI snapshot version
//! ([`preview0`] and [`preview1`]).

pub mod clocks;
pub mod ctx;
pub mod dir;
pub mod error;
pub mod file;
pub mod preview0;
pub mod preview1;
pub mod random;
pub mod sched;
pub mod string_array;
pub mod table;

pub use clocks::{WasiClocks, WasiMonotonicClock, WasiSystemClock};
pub use dir::WasiDir;
pub use error::{Error, ErrorKind, ExitDisposition};
pub use file::WasiFile;
pub use ctx::{Resource, WasiCtx};
pub use random::RandomSource;
pub use sched::WasiSched;
pub use string_array::{StringArray, StringArrayError};
pub use table::Table;
