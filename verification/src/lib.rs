//! Build-time resolution pipeline for a native optimization solver library.
//!
//! Before any application code can link against the solver, a usable
//! installation of it has to be found or produced on the host machine. This
//! crate holds the decision logic of that pipeline, each function with a
//! verified contract:
//!
//! - [`platform`]: the supported (OS, architecture) matrix and the canonical
//!   artifact tag of each supported pair;
//! - [`locate`]: the predicate deciding whether a directory is a structurally
//!   complete install tree, and the validated [`locate::LibraryLocation`];
//! - [`chain`]: the resolution strategy chain, which commits to the first
//!   applicable strategy in a fixed priority order;
//! - [`bundled`] and [`from_source`]: the plans for acquiring a prebuilt
//!   binary or compiling the solver from source;
//! - [`fetch`]: the decisions of the archive fetcher, including the handling
//!   of a wrapped (nested) archive;
//! - [`callback`]: the macro token rewriter that strips cast-shaped prefixes
//!   from registered preprocessor constants;
//! - [`emit`]: the linker directives derived from a resolved location.
//!
//! Everything that touches the outside world — environment variables, the
//! filesystem, the network, external build tools, the binding generator —
//! lives in the surrounding application, which gathers plain observations,
//! hands them to this crate, and carries out the plans it returns.

pub mod bundled;
pub mod callback;
pub mod chain;
pub mod config;
pub mod emit;
pub mod fetch;
pub mod from_source;
pub mod locate;
pub mod platform;
pub mod strutil;
