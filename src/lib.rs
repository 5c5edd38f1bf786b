//! Reads a processed profile: its columnar tables, the sentinel-encoded
//! address cells, and the flattening of its samples into one record each.

#![allow(non_snake_case)]
#![allow(non_camel_case_types)]

use vstd::prelude::*;

pub mod fx_processed_profile;
pub mod profile_table_iterator;
pub mod symbol_server;
pub mod table_address;
pub mod transposed;

verus! {

} // verus!
