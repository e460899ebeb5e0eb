//! The deciding core of a platform service that loads images.
//!
//! A load is fetched over HTTP, or starts from bytes already at hand, and ends
//! in bytes, in a decoded image, or in a [`GalileoError`]. This library holds
//! every decision of such a load and performs none of its I/O: a
//! [`PlatformService`] starts an [`Operation`], which asks its driver for one
//! [`Action`] at a time and is told what came of it as an [`Event`].
//!
//! - [`platform`] is the interface of every platform, [`native`] the service
//!   of native applications.
//! - [`operation`] is the state machine of one load.
//! - [`status`], [`error`], [`diagnostic`], [`image`] and [`buffer`] are the
//!   values that a load deals in.
//! - [`laws`] proves what holds of every load.

pub mod buffer;
pub mod diagnostic;
pub mod error;
pub mod image;
pub mod laws;
pub mod native;
pub mod operation;
pub mod platform;
pub mod status;

pub use diagnostic::Diagnostic;
pub use error::{GalileoError, TransportFailure, TransportKind};
pub use image::DecodedImage;
pub use native::NativePlatformService;
pub use operation::{Action, Event, Goal, Loaded, Operation};
pub use platform::PlatformService;
