use crate::files::{
    chars_of, is_parent, is_parent_segment, is_segment_prefix, join_path, joined_path,
    path_segments, relative_of, relative_path, segment_prefix, segments_of, segs_view, string_of,
};
use vstd::prelude::*;

verus! {

/// Decides, for the metadata of an entry, whether the caller may read or
/// write it.
pub trait MetadataAuthorizor {
    spec fn read_allowed(&self, logical_path: Seq<char>) -> bool;

    spec fn write_allowed(&self, logical_path: Seq<char>) -> bool;

    fn may_read_file(&self, logical_path: &str) -> (r: bool)
        ensures
            r == self.read_allowed(logical_path@),
    ;

    fn may_write_file(&self, logical_path: &str) -> (r: bool)
        ensures
            r == self.write_allowed(logical_path@),
    ;
}

/// What the filesystem said of an entry; each part is absent, or false,
/// where it could not be read.
#[derive(Clone, Copy, Debug)]
pub struct FileStat {
    pub is_dir: bool,
    /// Milliseconds since the Unix epoch.
    pub modified: Option<u128>,
    pub size_bytes: Option<u64>,
}

/// A description of one entry, for a caller who asked for it by its
/// logical path.
#[derive(Clone, Debug)]
pub struct FileMetadata {
    pub path: String,
    pub parent: Option<String>,
    pub file_name: Option<String>,
    pub is_dir: bool,
    pub may_read: bool,
    pub may_write: bool,
    pub modified: Option<u128>,
    pub size_bytes: Option<u64>,
}

/// The directory part of a logical path: none for the empty path.
pub open spec fn logical_parent(p: Seq<char>) -> Option<Seq<char>> {
    if path_segments(p).len() == 0 {
        None
    } else {
        Some(relative_path(path_segments(p).drop_last()))
    }
}

/// The last segment of a logical path, unless there is none or it is `..`.
pub open spec fn logical_file_name(p: Seq<char>) -> Option<Seq<char>> {
    if path_segments(p).len() == 0 || is_parent_segment(path_segments(p).last()) {
        None
    } else {
        Some(path_segments(p).last())
    }
}

pub open spec fn opt_view(o: Option<String>) -> Option<Seq<char>> {
    match o {
        Some(s) => Some(s@),
        None => None,
    }
}

/// `m` describes the entry at `logical_path` with `stat`, as `a` judges it.
pub open spec fn describes<A: MetadataAuthorizor>(m: FileMetadata, logical_path: Seq<char>, stat: FileStat, a: &A) -> bool {
    &&& m.path@ == logical_path
    &&& opt_view(m.parent) == logical_parent(logical_path)
    &&& opt_view(m.file_name) == logical_file_name(logical_path)
    &&& m.is_dir == stat.is_dir
    &&& m.may_read == a.read_allowed(logical_path)
    &&& m.may_write == a.write_allowed(logical_path)
    &&& m.modified == stat.modified
    &&& m.size_bytes == stat.size_bytes
}

/// Describes the entry at `logical_path`, given what the filesystem said of
/// it; the caller's permissions come from `authorizor`.
pub fn metadata_for_file<A: MetadataAuthorizor>(logical_path: &str, stat: FileStat, authorizor: &A) -> (m: FileMetadata)
    ensures
        describes(m, logical_path@, stat, authorizor),
{
    let mut segs = segments_of(&chars_of(logical_path));
    let ghost all = segs@;
    let (parent, file_name) = match segs.pop() {
        None => (None, None),
        Some(last) => {
            assert(segs_view(segs@) =~= segs_view(all).drop_last());
            assert(last@ == segs_view(all).last());
            let parent = Some(string_of(&relative_of(&segs)));
            let name = if is_parent(&last) {
                None
            } else {
                Some(string_of(&last))
            };
            (parent, name)
        },
    };
    FileMetadata {
        path: logical_path.to_owned(),
        parent,
        file_name,
        is_dir: stat.is_dir,
        may_read: authorizor.may_read_file(logical_path),
        may_write: authorizor.may_write_file(logical_path),
        modified: stat.modified,
        size_bytes: stat.size_bytes,
    }
}

/// An entry of a directory, as the filesystem listed it.
#[derive(Clone, Debug)]
pub struct ChildEntry {
    /// The real path of the entry.
    pub path: String,
    pub stat: FileStat,
}

/// The logical path of the child at real path `child`, in the directory at
/// real path `dir` and logical path `logical`; none where `child` does not
/// lie under `dir`.
pub open spec fn child_logical(dir: Seq<char>, logical: Seq<char>, child: Seq<char>) -> Option<Seq<char>> {
    let n = path_segments(dir).len() as int;
    if is_segment_prefix(path_segments(dir), path_segments(child)) {
        Some(joined_path(logical, relative_path(path_segments(child).skip(n))))
    } else {
        None
    }
}

/// The entries that lie under `dir`, in their order.
pub open spec fn listed(dir: Seq<char>, entries: Seq<ChildEntry>) -> Seq<ChildEntry>
    decreases entries.len(),
{
    if entries.len() == 0 {
        Seq::empty()
    } else {
        let rest = listed(dir, entries.drop_last());
        if is_segment_prefix(path_segments(dir), path_segments(entries.last().path@)) {
            rest.push(entries.last())
        } else {
            rest
        }
    }
}

/// Describes each entry of the directory; an entry whose logical path cannot
/// be formed is left out, and the others keep their order.
pub fn file_children<A: MetadataAuthorizor>(
    real_path: &str,
    logical_path: &str,
    entries: &Vec<ChildEntry>,
    authorizor: &A,
) -> (r: Vec<FileMetadata>)
    ensures
        r@.len() == listed(real_path@, entries@).len(),
        forall|i: int|
            0 <= i < r@.len() ==> describes(
                #[trigger] r@[i],
                child_logical(real_path@, logical_path@, listed(real_path@, entries@)[i].path@)->Some_0,
                listed(real_path@, entries@)[i].stat,
                authorizor,
            ),
{
    let parent_segs = segments_of(&chars_of(real_path));
    let mut out: Vec<FileMetadata> = Vec::new();
    let mut i: usize = 0;
    assert(entries@.take(0) =~= Seq::<ChildEntry>::empty());
    while i < entries.len()
        invariant
            i <= entries@.len(),
            segs_view(parent_segs@) == path_segments(real_path@),
            out@.len() == listed(real_path@, entries@.take(i as int)).len(),
            forall|k: int|
                0 <= k < out@.len() ==> describes(
                    #[trigger] out@[k],
                    child_logical(real_path@, logical_path@, listed(real_path@, entries@.take(i as int))[k].path@)->Some_0,
                    listed(real_path@, entries@.take(i as int))[k].stat,
                    authorizor,
                ),
        decreases entries@.len() - i,
    {
        let entry = &entries[i];
        let ghost prev = listed(real_path@, entries@.take(i as int));
        assert(entries@.take(i + 1).drop_last() =~= entries@.take(i as int));
        assert(entries@.take(i + 1).last() == *entry);
        let mut child_segs = segments_of(&chars_of(entry.path.as_str()));
        if segment_prefix(&parent_segs, &child_segs) {
            let ghost all = child_segs@;
            let rest = child_segs.split_off(parent_segs.len());
            assert(segs_view(rest@) =~= segs_view(all).skip(parent_segs@.len() as int));
            let name = string_of(&relative_of(&rest));
            let child_logical_path = join_path(logical_path, name.as_str());
            let m = metadata_for_file(child_logical_path.as_str(), entry.stat, authorizor);
            out.push(m);
            assert forall|k: int| 0 <= k < out@.len() implies describes(
                #[trigger] out@[k],
                child_logical(real_path@, logical_path@, listed(real_path@, entries@.take(i + 1))[k].path@)->Some_0,
                listed(real_path@, entries@.take(i + 1))[k].stat,
                authorizor,
            ) by {
                if k < out@.len() - 1 {
                    assert(listed(real_path@, entries@.take(i + 1))[k] == prev[k]);
                }
            }
        }
        i += 1;
    }
    assert(entries@.take(i as int) =~= entries@);
    out
}

} // verus!
