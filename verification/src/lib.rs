//! Bookkeeping for a lobby surface that spawns, tracks and tears down table
//! surfaces: identifiers, popup descriptors, the ordered registry of live
//! tables and the close protocol that keeps both sides consistent.

use vstd::prelude::*;

pub mod command_types;
pub mod decimal;
pub mod host;
pub mod lobby;
pub mod route;
pub mod table;
pub mod table_info;
pub mod window;

verus! {

/// Identifier of a table, unique among the tables that are open.
pub type TableId = u8;

} // verus!
