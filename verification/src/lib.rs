//! A webhook-driven command dispatcher for a chat-platform bot.
//!
//! An inbound request is authenticated by its signature (`verification`),
//! read as an interaction (`interaction`), routed by its command's name
//! (`command`), and answered within a deadline or else acknowledged and
//! followed up (`dispatch`). The `new-release` command's own rules stand
//! under `command::new_release`, with what they work on beside them.

pub mod calendar;
pub mod case_insensitive;
pub mod command;
pub mod dispatch;
pub mod hex_text;
pub mod interaction;
pub mod iri;
pub mod parse_hex_public_key;
pub mod release;
pub mod schema_org;
pub mod spotify;
pub mod text;
pub mod verification;

pub use crate::dispatch::InteractionHandleError;
pub use crate::dispatch::InteractionHandler;
pub use crate::interaction::Interaction;
pub use crate::interaction::InteractionResponse;
