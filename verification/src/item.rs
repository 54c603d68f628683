//! Entries of a directory listing.

use vstd::prelude::*;

verus! {

/// What kind of filesystem object an entry is.
#[derive(Clone, Copy, Debug, PartialEq, Eq, Structural)]
pub enum ItemType {
    File,
    Directory,
}

/// A named entry of a directory.
#[derive(Debug)]
pub struct Item {
    pub name: String,
    pub item_type: ItemType,
}

impl Item {
    /// Whether the entry is a directory.
    pub fn _is_dir(&self) -> (r: bool)
        ensures
            r == (self.item_type == ItemType::Directory),
    {
        matches!(self.item_type, ItemType::Directory)
    }

    /// Whether the entry is a plain file.
    pub fn is_file(&self) -> (r: bool)
        ensures
            r == (self.item_type == ItemType::File),
    {
        matches!(self.item_type, ItemType::File)
    }
}

} // verus!
