//! Materializes generated Rust source into a content-addressed file and
//! hands back an `include!` directive that refers to it.
//!
//! The library decides; the caller performs the outside work (pretty-printing,
//! running `rustfmt`, opening, locking and writing the file) that an [`Expansion`]
//! asks for, and reports back what happened.
use vstd::prelude::*;

pub mod config;
pub mod expansion;
pub mod format;
pub mod naming;
pub mod reference;

pub use expansion::{Action, ActionView, Event, Expansion, ExpansionView, Phase};
pub use config::{rustfmt_args, Channel, Edition, Expander, RustFmt};
pub use naming::{destination_path, make_suffix, suffix_for};
pub use reference::{comment_header, file_bytes, include_reference};
pub use format::{finish_rustfmt, FormatError, RustfmtOutcome};
