//! Library records: pure metadata containers for the remote system's
//! top-level sections.

use vstd::prelude::*;
use crate::list::ListItem;

verus! {

/// What a library section holds.
#[derive(Debug, Clone, Copy, PartialEq, Eq, Structural)]
pub enum LibraryType {
    Movie,
    Show,
}

/// A mirrored library section: identifier, display title, and what it holds.
/// Libraries carry no artifact state.
#[derive(Debug, Clone, PartialEq)]
pub struct LibraryState {
    pub id: u32,
    pub title: String,
    pub library_type: LibraryType,
}

impl ListItem for LibraryState {
    open spec fn key_spec(&self) -> u32 {
        self.id
    }

    fn id(&self) -> u32 {
        self.id
    }
}

} // verus!
