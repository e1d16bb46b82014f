use vstd::prelude::*;
use vstd::string::*;

verus! {

/// What a path names on disk.
#[derive(Clone, Copy, Debug, PartialEq, Eq, Structural)]
pub enum PathType {
    File,
    Dir,
    Other,
}

/// One entry of a directory listing: its file name, when that is valid
/// UTF-8, and its full path.
#[derive(Clone, Debug)]
pub struct DirEntryInfo {
    pub name: Option<String>,
    pub path: String,
}

pub open spec fn path_type_of(is_dir: bool, is_file: bool) -> PathType {
    if is_dir {
        PathType::Dir
    } else if is_file {
        PathType::File
    } else {
        PathType::Other
    }
}

/// A file name is hidden when it starts with a dot.
pub open spec fn name_hidden(name: Seq<char>) -> bool {
    name.len() > 0 && name[0] == '.'
}

pub open spec fn entry_hidden(e: DirEntryInfo) -> bool {
    match e.name {
        Some(n) => name_hidden(n@),
        None => false,
    }
}

/// The paths of the entries that are not hidden, in listing order.
pub open spec fn visible_paths(entries: Seq<DirEntryInfo>) -> Seq<Seq<char>>
    decreases entries.len(),
{
    if entries.len() == 0 {
        seq![]
    } else {
        let rest = visible_paths(entries.drop_last());
        if entry_hidden(entries.last()) {
            rest
        } else {
            rest.push(entries.last().path@)
        }
    }
}

pub open spec fn strings_view(v: Seq<String>) -> Seq<Seq<char>> {
    v.map_values(|s: String| s@)
}

/// Classifies a path from what its metadata says.
pub fn get_path_type(is_dir: bool, is_file: bool) -> (r: PathType)
    ensures
        r == path_type_of(is_dir, is_file),
{
    if is_dir {
        PathType::Dir
    } else if is_file {
        PathType::File
    } else {
        PathType::Other
    }
}

/// Whether a file name is hidden.
pub fn is_hidden(name: &str) -> (r: bool)
    ensures
        r == name_hidden(name@),
{
    name.unicode_len() > 0 && name.get_char(0) == '.'
}

/// The paths of a directory's entries, without the hidden ones.
pub fn get_dir_files(entries: &Vec<DirEntryInfo>) -> (r: Vec<String>)
    ensures
        strings_view(r@) == visible_paths(entries@),
{
    let mut list: Vec<String> = Vec::new();
    let mut i: usize = 0;
    while i < entries.len()
        invariant
            i <= entries.len(),
            strings_view(list@) =~= visible_paths(entries@.subrange(0, i as int)),
        decreases entries.len() - i,
    {
        let entry = &entries[i];
        let hidden = match &entry.name {
            Some(n) => is_hidden(n.as_str()),
            None => false,
        };
        proof {
            assert(entries@.subrange(0, i + 1).drop_last() =~= entries@.subrange(0, i as int));
        }
        if !hidden {
            list.push(entry.path.clone());
        }
        i += 1;
    }
    assert(entries@.subrange(0, i as int) =~= entries@);
    list
}

/// The files that a path stands for: the path itself for a file, the
/// visible entries for a directory, nothing otherwise.
pub fn get_files_from_path(path: &str, path_type: PathType, dir_files: Vec<String>) -> (r: Vec<String>)
    ensures
        strings_view(r@) == match path_type {
            PathType::File => seq![path@],
            PathType::Dir => strings_view(dir_files@),
            PathType::Other => Seq::<Seq<char>>::empty(),
        },
{
    match path_type {
        PathType::File => {
            let v = vec![path.to_owned()];
            assert(strings_view(v@) =~= seq![path@]);
            v
        },
        PathType::Dir => dir_files,
        PathType::Other => {
            let v: Vec<String> = Vec::new();
            assert(strings_view(v@) =~= Seq::<Seq<char>>::empty());
            v
        },
    }
}

} // verus!
