//! The decisions of the two passes over the folders: which folder a file is
//! copied to, and what becomes of a folder that is named by an identifier.
//! The caller walks the directories and performs what is decided here.

use vstd::prelude::*;
use vstd::string::StringExecFns;

use crate::resolver::{display_name, display_text, get_game_name, resolution, resolve, Resolver};
use crate::table::{Pairs, Text};

verus! {

/// What the file system shows at a path.
#[derive(Debug, Clone, Copy, PartialEq, Eq)]
pub struct PathState {
    /// Something is there.
    pub exists: bool,
    /// A folder is there.
    pub is_dir: bool,
}

/// Why the two root folders cannot be used.
#[derive(Debug, Clone, Copy, PartialEq, Eq)]
pub enum RootError {
    /// The album path holds something that is no folder.
    AlbumNotFolder,
    /// The output path holds something that is no folder.
    SortedNotFolder,
    /// Nothing is at the album path.
    AlbumMissing,
}

/// What is left to do before the passes start.
#[derive(Debug, Clone, Copy, PartialEq, Eq)]
pub enum Setup {
    /// Both folders are in place.
    Ready,
    /// The output folder has to be created.
    CreateSorted,
}

/// Checks the album folder and the output folder. The album must be there and
/// be a folder; the output folder must be a folder if it is there, and is to be
/// created if it is not. Of two faults, a path that holds something other than
/// a folder is reported before a missing album, and the album before the
/// output folder.
pub fn check_roots(album: PathState, sorted: PathState) -> (checked: Result<Setup, RootError>)
    ensures
        checked == Err::<Setup, RootError>(RootError::AlbumNotFolder) <==> album.exists && !album.is_dir,
        checked == Err::<Setup, RootError>(RootError::SortedNotFolder) <==> !(album.exists
            && !album.is_dir) && sorted.exists && !sorted.is_dir,
        checked == Err::<Setup, RootError>(RootError::AlbumMissing) <==> !album.exists && !(sorted.exists
            && !sorted.is_dir),
        checked == Ok::<Setup, RootError>(Setup::CreateSorted) <==> album.exists && album.is_dir
            && !sorted.exists,
        checked == Ok::<Setup, RootError>(Setup::Ready) <==> album.exists && album.is_dir
            && sorted.exists && sorted.is_dir,
{
    if album.exists && !album.is_dir {
        Err(RootError::AlbumNotFolder)
    } else if sorted.exists && !sorted.is_dir {
        Err(RootError::SortedNotFolder)
    } else if !album.exists {
        Err(RootError::AlbumMissing)
    } else if !sorted.exists {
        Ok(Setup::CreateSorted)
    } else {
        Ok(Setup::Ready)
    }
}

/// The identifier in the stem of a file's name: what follows the first `-`.
/// A stem without `-` holds none.
pub open spec fn identifier_in(stem: Text) -> Option<Text> {
    match stem.index_of_first('-') {
        Some(dash) => Some(stem.subrange(dash + 1, stem.len() as int)),
        None => None,
    }
}

/// Takes the identifier out of the stem of a file's name.
pub fn identifier_of(stem: &str) -> (id: Option<String>)
    ensures
        id.deep_view() == identifier_in(stem@),
{
    let length = stem.unicode_len();
    let mut position: usize = 0;
    for c in it: stem.chars()
        invariant
            position == it.index(),
            it.seq() == stem@,
            length == stem@.len(),
            forall|j: int| 0 <= j < position ==> stem@[j] != '-',
    {
        if c == '-' {
            proof {
                assert(stem@[position as int] == '-');
                stem@.index_of_first_ensures('-');
            }
            return Some(stem.substring_char(position + 1, length).to_owned());
        }
        position += 1;
    }
    proof {
        stem@.index_of_first_ensures('-');
    }
    None
}

/// The folder, below the output folder, for a file with the given stem: the
/// name under which the stem's identifier is filed. A stem without an
/// identifier has no folder.
pub open spec fn folder_for(overrides: Pairs, stem: Text) -> Option<Text> {
    match identifier_in(stem) {
        Some(id) => Some(display_text(overrides, id)),
        None => None,
    }
}

/// Decides where a file of the album goes: the name of its folder below the
/// output folder, or `None` for a file that is left alone.
pub fn destination_folder(resolver: &mut Resolver, stem: &str) -> (folder: Option<String>)
    ensures
        folder.deep_view() == folder_for(old(resolver).overrides(), stem@),
        match identifier_in(stem@) {
            Some(id) => resolution(
                *old(resolver),
                id,
                *final(resolver),
                resolve(old(resolver).overrides(), id),
            ),
            None => *final(resolver) == *old(resolver),
        },
{
    match identifier_of(stem) {
        Some(id) => Some(display_name(resolver, id.as_str())),
        None => None,
    }
}

/// What is to be done at the destination of a file.
#[derive(Debug, Clone, Copy, PartialEq, Eq)]
pub struct Placement {
    /// The destination folder has to be created first.
    pub create_folder: bool,
    /// The file has to be copied.
    pub copy_file: bool,
}

/// Decides what to do at the destination of a file, from what is at the path
/// of its folder and whether anything bears the file's name in it. The folder
/// is created unless a folder is there. The file is copied unless its name is
/// taken: what is there is never overwritten, whatever it holds.
pub fn placement(folder: PathState, file_exists: bool) -> (placed: Placement)
    ensures
        placed.create_folder == !(folder.exists && folder.is_dir),
        placed.copy_file == !file_exists,
{
    Placement { create_folder: !(folder.exists && folder.is_dir), copy_file: !file_exists }
}

/// The path, relative to a folder, of its sibling with the given name.
pub open spec fn sibling_path(name: Text) -> Text {
    "../"@ + name
}

/// The path, relative to the folder itself, to which a folder below the
/// output folder belongs: the sibling named after the game that the folder's
/// name resolves to. A folder whose name resolves to none stays where it is.
pub open spec fn cleanup_path(overrides: Pairs, folder: Text) -> Option<Text> {
    match resolve(overrides, folder) {
        Some(name) => Some(sibling_path(name)),
        None => None,
    }
}

/// Decides where a folder below the output folder belongs, by its name.
pub fn cleanup_target(resolver: &mut Resolver, folder: &str) -> (target: Option<String>)
    ensures
        target.deep_view() == cleanup_path(old(resolver).overrides(), folder@),
        resolution(*old(resolver), folder@, *final(resolver), resolve(old(resolver).overrides(), folder@)),
{
    match get_game_name(resolver, folder) {
        Some(name) => Some(String::from_str("../").concat(name.as_str())),
        None => None,
    }
}

/// What becomes of a folder that belongs elsewhere.
#[derive(Debug, Clone, Copy, PartialEq, Eq)]
pub enum Cleanup {
    /// It is renamed to its target.
    Rename,
    /// It is removed with all that it holds, because a folder is at its
    /// target already.
    Remove,
}

/// Decides what becomes of a folder that belongs elsewhere, from what is at
/// its target. Where a folder is there, the folder that belongs elsewhere is
/// removed, and what it holds is not merged into the target. In every other
/// case it is renamed to its target: also where something that is no folder
/// bears the target's name, so that nothing is removed on account of it.
pub fn cleanup_action(target: PathState) -> (action: Cleanup)
    ensures
        action == (if target.exists && target.is_dir {
            Cleanup::Remove
        } else {
            Cleanup::Rename
        }),
{
    if target.exists && target.is_dir {
        Cleanup::Remove
    } else {
        Cleanup::Rename
    }
}

} // verus!
