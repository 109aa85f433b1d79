//! Product switches and decision logic of a terminal-first workbench:
//! which surfaces stay hidden, where an unauthenticated start lands, how the
//! coding panel reacts to SSH sessions, whether a remote server may be used,
//! which SSH settings hold by default, and how a passive suggestion request to
//! a custom OpenAI-compatible endpoint is framed and answered.

pub mod coding_panel_enablement_state;
pub mod custom_endpoint;
pub mod onboarding_suppression;
pub mod remote_server;
pub mod root_view;
pub mod settings;
pub mod text;
pub mod transport;
