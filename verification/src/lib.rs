//! The Git status of workspaces: which branch a directory is on, which repository it belongs
//! to and how many changes it holds, refreshed with as little looking around as possible.
//!
//! The operations in [`status`], [`fingerprint`], [`context`] and [`head`] read nothing
//! themselves. Each is given the answers so far ([`reads::Reads`]) and either asks for the
//! next one or is done ([`reads::Progress`]).

pub mod bytes;
pub mod context;
pub mod driving;
pub mod fingerprint;
pub mod head;
pub mod laws;
pub mod outcomes;
pub mod path;
pub mod reads;
pub mod status;
pub mod text;
pub mod types;
pub mod views;
