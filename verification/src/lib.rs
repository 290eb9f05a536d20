//! Declaration-synthesis engine for foreign-callable functions.
//!
//! Given a plain description of a namespace's items, the library filters the
//! functions that carry the C calling-convention marker, renders one C-style
//! prototype per such function, and assembles the prototypes into a single
//! NUL-terminated catalog together with the deterministic name of the
//! accessor symbol that a host adapter exposes at the artifact boundary.

pub mod catalog;
pub mod mapper;
pub mod render;
pub mod sig;
