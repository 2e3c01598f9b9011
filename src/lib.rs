//! Sets the desktop background of an X11 display through the root-pixmap
//! convention (`_XROOTPMAP_ID` and `ESETROOT_PMAP_ID`).
//!
//! The library holds the decisions of that protocol, proved correct: how a
//! pixel frame is laid out on the wire, how a stored pixmap id is decoded, which
//! previous owners are evicted, and the provisioning sequence as a state machine
//! that a driver runs against a live display connection.

use vstd::prelude::*;

pub mod error;
pub mod pixel;
pub mod property;
pub mod eviction;
pub mod handle;
pub mod bootstrap;

pub use error::Error;
pub use pixel::Pixel;
pub use handle::{BackgroundHandle, PutImage};
pub use bootstrap::{Action, Bootstrap, ConventionAtom, Event, Next, OpenMethod, Phase, ScalingMethod, Screen};
pub use property::ByteOrder;
