//! Typed model of the MAX bot platform API: identifiers, messages, updates,
//! webhook secrets and the requests a bot client sends, with their contracts.
pub mod error;
pub mod ids;
pub mod text;
pub mod kinds;
pub mod update_types;
pub mod ascii;
pub mod secret;
pub mod header;
pub mod query;
pub mod model;
pub mod api;
pub mod id_order;
