//! From the raw entries of a directory to the listing that is browsed:
//! directories first, then files, each group in the order it was read.

use vstd::prelude::*;
use crate::item::{Item, ItemType};

verus! {

/// What the filesystem says an entry is.
#[derive(Clone, Copy, Debug, PartialEq, Eq, Structural)]
pub enum RawKind {
    Directory,
    File,
    /// Neither a plain file nor a directory.
    Other,
    /// The kind could not be read.
    Unknown,
}

/// An entry as it was read from a directory: its name, if the name is
/// valid text, and its kind.
#[derive(Debug)]
pub struct RawEntry {
    pub name: Option<String>,
    pub kind: RawKind,
}

/// Why a directory could not be listed; each names the position of the
/// first entry that failed.
#[derive(Clone, Copy, Debug, PartialEq, Eq, Structural)]
pub enum ListError {
    /// The kind of the entry at `index` could not be read.
    FileType { index: usize },
    /// The name of the entry at `index` is not valid text.
    FileName { index: usize },
}

/// Whether an entry makes the whole listing fail.
pub open spec fn is_bad(e: RawEntry) -> bool {
    e.kind == RawKind::Unknown || e.name is None
}

/// The error that a bad entry at `index` stands for: its kind is looked at
/// before its name.
pub open spec fn error_at(e: RawEntry, index: usize) -> ListError {
    if e.kind == RawKind::Unknown {
        ListError::FileType { index }
    } else {
        ListError::FileName { index }
    }
}

/// The listed item that a raw entry of the wanted kind becomes.
pub open spec fn item_of(e: RawEntry) -> Item {
    Item {
        name: e.name.unwrap(),
        item_type: if e.kind == RawKind::Directory {
            ItemType::Directory
        } else {
            ItemType::File
        },
    }
}

/// The directories among `raw`, in order.
pub open spec fn directories_of(raw: Seq<RawEntry>) -> Seq<Item> {
    raw.filter(|e: RawEntry| e.kind == RawKind::Directory).map_values(|e: RawEntry| item_of(e))
}

/// The plain files among `raw`, in order.
pub open spec fn files_of(raw: Seq<RawEntry>) -> Seq<Item> {
    raw.filter(|e: RawEntry| e.kind == RawKind::File).map_values(|e: RawEntry| item_of(e))
}

/// The listing of a directory whose entries are all good: its directories,
/// then its files; entries of another kind are left out.
pub open spec fn listing_of(raw: Seq<RawEntry>) -> Seq<Item> {
    directories_of(raw) + files_of(raw)
}

/// Whether every directory of a listing stands before every file: no file
/// is followed by a directory.
pub open spec fn is_partitioned(listing: Seq<Item>) -> bool {
    forall|i: int, j: int|
        0 <= i < j < listing.len() && (#[trigger] listing[i]).item_type == ItemType::File ==> (
        #[trigger] listing[j]).item_type == ItemType::File
}

/// A listing has its directories before its files, and as many entries as
/// the directory has directories and plain files.
pub proof fn lemma_listing_partitioned(raw: Seq<RawEntry>)
    ensures
        is_partitioned(listing_of(raw)),
        listing_of(raw).len() == directories_of(raw).len() + files_of(raw).len(),
        directories_of(raw).len() == raw.filter(
            |e: RawEntry| e.kind == RawKind::Directory,
        ).len(),
        files_of(raw).len() == raw.filter(|e: RawEntry| e.kind == RawKind::File).len(),
        forall|i: int|
            0 <= i < directories_of(raw).len() ==> (#[trigger] listing_of(raw)[i]).item_type
                == ItemType::Directory,
        forall|i: int|
            directories_of(raw).len() <= i < listing_of(raw).len() ==> (#[trigger] listing_of(
                raw,
            )[i]).item_type == ItemType::File,
{
    let is_dir = |e: RawEntry| e.kind == RawKind::Directory;
    let is_file = |e: RawEntry| e.kind == RawKind::File;
    let dirs = raw.filter(is_dir);
    let files = raw.filter(is_file);
    let listing = listing_of(raw);
    let k = directories_of(raw).len() as int;
    assert forall|i: int| 0 <= i < k implies (#[trigger] listing[i]).item_type
        == ItemType::Directory by {
        raw.lemma_filter_pred(is_dir, i);
        assert(listing[i] == item_of(dirs[i]));
    }
    assert forall|i: int| k <= i < listing.len() implies (#[trigger] listing[i]).item_type
        == ItemType::File by {
        raw.lemma_filter_pred(is_file, i - k);
        assert(listing[i] == item_of(files[i - k]));
    }
}

/// The position of the first bad entry, if there is one.
pub open spec fn first_bad(raw: Seq<RawEntry>) -> Option<int> {
    if exists|i: int| 0 <= i < raw.len() && is_bad(#[trigger] raw[i]) {
        Some(
            choose|i: int|
                0 <= i < raw.len() && is_bad(#[trigger] raw[i]) && forall|j: int|
                    0 <= j < i ==> !is_bad(#[trigger] raw[j]),
        )
    } else {
        None
    }
}

/// What listing a directory gives: the error of its first bad entry, or
/// else its listing.
pub open spec fn get_cwd_contents_spec(raw: Seq<RawEntry>) -> Result<Seq<Item>, ListError> {
    match first_bad(raw) {
        Some(i) => Err(error_at(raw[i], i as usize)),
        None => Ok(listing_of(raw)),
    }
}

/// The first bad entry is bad, and no entry before it is; it is the only
/// position of which both hold.
pub proof fn lemma_first_bad(raw: Seq<RawEntry>, i: int)
    requires
        0 <= i < raw.len(),
        is_bad(raw[i]),
        forall|j: int| 0 <= j < i ==> !is_bad(#[trigger] raw[j]),
    ensures
        first_bad(raw) == Some(i),
{
    let k = first_bad(raw).unwrap();
    if k < i {
        assert(!is_bad(raw[k]));
    }
    if i < k {
        assert(is_bad(raw[i]));
    }
}

/// Builds the listing of a directory from its raw entries. The first entry
/// whose kind is unknown or whose name is not valid text makes the whole
/// listing fail; otherwise the directories come first, then the files, each
/// group in the order given, and entries of another kind are skipped.
pub fn get_cwd_contents(raw: &Vec<RawEntry>) -> (r: Result<Vec<Item>, ListError>)
    ensures
        match r {
            Ok(items) => get_cwd_contents_spec(raw@) == Ok::<Seq<Item>, ListError>(items@),
            Err(e) => get_cwd_contents_spec(raw@) == Err::<Seq<Item>, ListError>(e),
        },
        r is Ok <==> forall|i: int| 0 <= i < raw.len() ==> !is_bad(#[trigger] raw[i]),
        r matches Ok(items) ==> is_partitioned(items@),
{
    let ghost is_dir = |e: RawEntry| e.kind == RawKind::Directory;
    let ghost is_file = |e: RawEntry| e.kind == RawKind::File;
    let ghost to_item = |e: RawEntry| item_of(e);
    let mut dirs: Vec<Item> = Vec::new();
    let mut files: Vec<Item> = Vec::new();
    let mut i: usize = 0;
    assert(raw@.take(0) =~= Seq::<RawEntry>::empty());
    while i < raw.len()
        invariant
            i <= raw.len(),
            is_dir == |e: RawEntry| e.kind == RawKind::Directory,
            is_file == |e: RawEntry| e.kind == RawKind::File,
            to_item == |e: RawEntry| item_of(e),
            forall|j: int| 0 <= j < i ==> !is_bad(#[trigger] raw[j]),
            dirs@ == raw@.take(i as int).filter(is_dir).map_values(to_item),
            files@ == raw@.take(i as int).filter(is_file).map_values(to_item),
        decreases raw.len() - i,
    {
        let entry = &raw[i];
        proof {
            let before = raw@.take(i as int);
            let one = seq![*entry];
            assert(raw@.take(i + 1) =~= before + one);
            Seq::filter_distributes_over_add(before, one, is_dir);
            Seq::filter_distributes_over_add(before, one, is_file);
            reveal_with_fuel(Seq::filter, 2);
            assert(one.drop_last() =~= Seq::<RawEntry>::empty());
            assert(one.filter(is_dir) =~= if is_dir(*entry) {
                one
            } else {
                Seq::empty()
            });
            assert(one.filter(is_file) =~= if is_file(*entry) {
                one
            } else {
                Seq::empty()
            });
            assert((before.filter(is_dir) + one).map_values(to_item) =~= before.filter(
                is_dir,
            ).map_values(to_item).push(item_of(*entry)));
            assert((before.filter(is_file) + one).map_values(to_item) =~= before.filter(
                is_file,
            ).map_values(to_item).push(item_of(*entry)));
            assert(before.filter(is_dir) + Seq::<RawEntry>::empty() =~= before.filter(is_dir));
            assert(before.filter(is_file) + Seq::<RawEntry>::empty() =~= before.filter(is_file));
        }
        if let RawKind::Unknown = entry.kind {
            proof {
                lemma_first_bad(raw@, i as int);
            }
            return Err(ListError::FileType { index: i });
        }
        let name = match &entry.name {
            Some(name) => name.clone(),
            None => {
                proof {
                    lemma_first_bad(raw@, i as int);
                }
                return Err(ListError::FileName { index: i });
            },
        };
        match entry.kind {
            RawKind::Directory => {
                dirs.push(Item { name, item_type: ItemType::Directory });
            },
            RawKind::File => {
                files.push(Item { name, item_type: ItemType::File });
            },
            _ => {},
        }
        i += 1;
    }
    assert(raw@.take(raw.len() as int) =~= raw@);
    let mut items = dirs;
    items.append(&mut files);
    proof {
        lemma_listing_partitioned(raw@);
    }
    Ok(items)
}

} // verus!
