//! Reading a World of Warcraft client item cache (`itemcache.wdb`) and
//! turning its item records into the rows of a cmangos `item_template`
//! `REPLACE INTO` statement.
//!
//! - [`reader`]: little-endian words and NUL-terminated strings at a cursor;
//! - [`item`]: the record layout of a client build and the parse of a record;
//! - [`itemcache`]: the file header, the run of records and the export rows;
//! - [`roundtrip`]: the bytes a client writes for an item, and the law that
//!   parsing them gives the item back field by field;
//! - [`sql`]: the table columns, the column values of an item, the statement;
//! - [`text`]: decimal numbers, joining, SQL escaping, truncation;
//! - [`clamp`]: fitting values into narrower column types.
use vstd::prelude::*;

pub mod clamp;
pub mod item;
pub mod itemcache;
pub mod reader;
pub mod roundtrip;
pub mod sql;
pub mod text;

verus! {

} // verus!
