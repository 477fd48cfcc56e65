//! Building blocks shared by the other modules.

pub mod copies;
pub mod helper;
pub mod string_map;
