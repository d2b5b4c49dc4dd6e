//! CPU-side orchestration for launching ternary-valued GPU kernels.
//!
//! The crate covers what a launcher decides before any device is involved:
//! launch configurations and their validation ([`KernelConfig`]), grid and
//! block dimensions ([`LaunchParams`]), the FIFO order of a stream
//! ([`StreamQueue`]), completion events ([`EventPool`]) and a fluent builder
//! that puts these together ([`LaunchBuilder`]).
//!
//! Each type has a view, a plain mathematical value that its contracts speak
//! of. The laws that relate several operations stand next to the types as
//! public proof functions whose names begin with `law_`.
pub mod arith;
pub mod builder;
pub mod config;
pub mod error;
pub mod events;
pub mod params;
pub mod stream;
pub mod text;

pub use config::KernelConfig;
pub use error::LaunchError;
pub use params::{LaunchParams, LaunchParams2d};
pub use stream::{CompletedKernel, StreamQueue};
pub use events::{Event, EventPool, WaitAction};
pub use builder::LaunchBuilder;
