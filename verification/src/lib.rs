//! Watch registry, event normalization and dispatch decisions for a
//! filesystem change-notification engine.
//!
//! The engine watches a set of paths, turns what the platform's
//! notification facility reports into one fixed taxonomy of events, and
//! hands them to a consumer until the consumer says stop or the facility
//! fails. This library holds the data and the decisions. The facility
//! itself, and the blocking wait on its channel, belong to the caller:
//!
//! - [`registry`]: the paths to watch, one target per path.
//! - [`session`]: what is registered with the facility at the start, in
//!   which order, and what a refusal comes to.
//! - [`raw`], [`kind`], [`event`], [`normalize`]: the platform's
//!   discriminants, the canonical taxonomy, and the total mapping from the
//!   first to the second.
//! - [`dispatch`]: the loop as a state machine, one step per item of the
//!   channel; the run over a stream that is there already; and the laws of
//!   a whole run.
//! - [`error`]: the failures a session can end with.

pub mod dispatch;
pub mod error;
pub mod event;
pub mod kind;
pub mod normalize;
pub mod raw;
pub mod registry;
pub mod session;

pub use crate::dispatch::{run, settle, step, LoopState, RawOutcome, Reply};
pub use crate::error::WatchError;
pub use crate::event::NotifyEvent;
pub use crate::kind::NotifyEventKind;
pub use crate::normalize::{normalize, normalize_kind};
pub use crate::raw::{
    RawAccessKind, RawAccessMode, RawCreateKind, RawDataChange, RawEvent, RawEventKind,
    RawMetadataKind, RawModifyKind, RawRemoveKind, RawRenameMode,
};
pub use crate::registry::{flag_or_default, PathRegistry, WatchTarget, DEFAULT_RECURSIVE};
pub use crate::session::{mode_for, registration_result, start, WatchMode};
