//! Request assembly for one model turn: instruction composition, the
//! environment-context block, reasoning selection, the ordered input
//! sequence, and the label that identifies the invoking terminal.

pub mod client_common;
pub mod config_types;
pub mod model_family;
pub mod models;
pub mod openai_tools;
pub mod protocol;
pub mod terminal;
pub mod text;
pub mod xml;
