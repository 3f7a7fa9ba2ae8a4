//! Gouda Scripting: the host-agnostic core types of the scripting language,
//! with the effect boundary's payload validation proved correct.

pub mod ast;
pub mod chars;
pub mod effect;
pub mod error;
pub mod event;

pub use effect::{
    ChannelName, InvalidPayload, ModeString, ScriptEffect, Target, TargetName, Text, TimerName,
};
pub use error::{Diagnostic, RuntimeError, Span};
pub use event::EventKind;
