//! Verified boundary layer for a native image-metadata engine.
//!
//! A native engine (a GObject wrapper around an Exif/IPTC/XMP library)
//! manages opaque metadata contexts and reports its results through raw,
//! ownership-ambiguous data: null-terminated byte strings, null-terminated
//! arrays of string pointers, length-tagged buffers, boolean sentinels and
//! error out-parameters. This crate is the verified half of the boundary:
//! every rule for converting that raw data into safe, owned, structured
//! values — text and array marshaling, error classification, the handle
//! lifecycle protocol, release strategies for the engine's allocation
//! shapes, and the closed media-type and tag-type vocabularies — is stated
//! as a contract and proved. The thin unsafe shell that actually calls the
//! engine feeds its raw replies to these functions as plain values.
//!
//! Every operation is synchronous and blocking. The engine's process-wide
//! state — its one-time initialization, the XMP namespace table and the log
//! level — carries no locking of its own: callers serialize access to it
//! externally, and perform the initialization once before any concurrent
//! use.

pub mod errors;
pub mod handle;
pub mod marshal;
pub mod media_type;
pub mod orientation;
pub mod preview;
pub mod rational;
pub mod release;
pub mod registry;
pub mod settings;
pub mod tag_type;

pub use errors::{ErrorView, GError, Rexiv2Error, Utf8ErrorDetails};
pub use handle::{ContextAction, HandleState, Metadata};
pub use media_type::MediaType;
pub use orientation::Orientation;
pub use preview::PreviewImage;
pub use rational::Rational;
pub use release::{BufferSource, FreeStep, ReleaseStrategy};
pub use registry::{NamespaceEntry, XmpNamespaceRegistry};
pub use settings::{InitGate, LogLevel};
pub use tag_type::TagType;
