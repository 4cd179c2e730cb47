//! Where a note lives: the path that an identifier names under the store's
//! root, the guard that keeps such paths inside the root, and the way back
//! from a path to the identifier.

use crate::error::StoreError;
use crate::text::{chars_of, ends_with, matches_at, slice, starts_with};
use vstd::prelude::*;

verus! {

/// The suffix of every note's file name.
pub open spec fn suffix() -> Seq<char> {
    seq!['.', 'm', 'd']
}

/// The identifier begins at the file system's root.
pub open spec fn is_absolute(id: Seq<char>) -> bool {
    id.len() > 0 && id[0] == '/'
}

/// Two dots stand at `i` as a whole segment of the slash-separated `id`.
pub open spec fn parent_segment_at(id: Seq<char>, i: int) -> bool {
    &&& 0 <= i
    &&& i + 2 <= id.len()
    &&& id[i] == '.'
    &&& id[i + 1] == '.'
    &&& (i == 0 || id[i - 1] == '/')
    &&& (i + 2 == id.len() || id[i + 2] == '/')
}

/// Some segment of `id` names the parent directory.
pub open spec fn has_parent_segment(id: Seq<char>) -> bool {
    exists|i: int| parent_segment_at(id, i)
}

/// The identifier would lead out of the root: it is absolute, or one of its
/// segments names a parent directory.
pub open spec fn escapes(id: Seq<char>) -> bool {
    is_absolute(id) || has_parent_segment(id)
}

/// The root as a prefix of the paths below it: ended by a slash, unless it
/// is empty.
pub open spec fn base(root: Seq<char>) -> Seq<char> {
    if root.len() == 0 || root.last() == '/' {
        root
    } else {
        root.push('/')
    }
}

/// The path of the note with the given identifier.
pub open spec fn note_path(root: Seq<char>, id: Seq<char>) -> Seq<char> {
    base(root) + id + suffix()
}

/// The identifier of the note that lives at `path`: the part of the path
/// below the root, without the suffix. A path that is not below the root,
/// or lacks the suffix, is no note's.
pub open spec fn path_id(root: Seq<char>, path: Seq<char>) -> Option<Seq<char>> {
    let prefix = base(root);
    if starts_with(path, prefix) && ends_with(path, suffix()) && prefix.len() + 3 <= path.len() {
        Some(path.subrange(prefix.len() as int, path.len() - 3))
    } else {
        None
    }
}

/// The directory part of a path: all that stands before its last slash.
pub open spec fn dir_of(path: Seq<char>) -> Seq<char>
    decreases path.len(),
{
    if path.len() == 0 {
        path
    } else if path.last() == '/' {
        path.drop_last()
    } else {
        dir_of(path.drop_last())
    }
}

/// Whether the identifier would lead out of the root.
pub fn escaping(id: &str) -> (r: bool)
    ensures
        r == escapes(id@),
{
    let chars = chars_of(id);
    let n = chars.len();
    if n > 0 && chars[0] == '/' {
        return true;
    }
    let mut i: usize = 0;
    while i < n
        invariant
            n == chars@.len(),
            chars@ == id@,
            i <= n,
            forall|j: int| 0 <= j < i ==> !parent_segment_at(id@, j),
        decreases n - i,
    {
        if n - i >= 2 && chars[i] == '.' && chars[i + 1] == '.' && (i == 0 || chars[i - 1] == '/')
            && (i + 2 == n || chars[i + 2] == '/') {
            assert(parent_segment_at(id@, i as int));
            return true;
        }
        i += 1;
    }
    false
}

/// The root as a prefix of the paths below it.
pub fn base_of(root: &str) -> (prefix: String)
    ensures
        prefix@ == base(root@),
{
    let chars = chars_of(root);
    let mut prefix = String::from_str(root);
    if chars.len() > 0 && chars[chars.len() - 1] != '/' {
        proof {
            reveal_strlit("/");
        }
        prefix.append("/");
    }
    prefix
}

/// The path that an identifier names, whether or not it stays below the
/// root.
pub fn path_of(root: &str, id: &str) -> (path: String)
    ensures
        path@ == note_path(root@, id@),
{
    proof {
        reveal_strlit(".md");
    }
    let mut path = base_of(root);
    path.append(id);
    path.append(".md");
    path
}

/// The path guard: the path of the note with the given identifier, which
/// lies below the root, or `PathEscape` for an identifier that would lead
/// out of it.
pub fn resolve(root: &str, id: &str) -> (r: Result<String, StoreError>)
    ensures
        match r {
            Ok(path) => !escapes(id@) && path@ == note_path(root@, id@),
            Err(e) => escapes(id@) && e == StoreError::PathEscape,
        },
{
    if escaping(id) {
        Err(StoreError::PathEscape)
    } else {
        Ok(path_of(root, id))
    }
}

/// The identifier of the note that lives at `path`, if it is a note's path.
pub fn id_of(root: &str, path: &str) -> (r: Option<String>)
    ensures
        match r {
            Some(id) => path_id(root@, path@) == Some(id@),
            None => path_id(root@, path@) is None,
        },
{
    let prefix = base_of(root);
    let prefix_chars = chars_of(prefix.as_str());
    let chars = chars_of(path);
    let mut ext: Vec<char> = Vec::new();
    ext.push('.');
    ext.push('m');
    ext.push('d');
    assert(ext@ =~= suffix());
    let n = chars.len();
    let p = prefix_chars.len();
    if n < 3 || p > n - 3 {
        return None;
    }
    if matches_at(&chars, &prefix_chars, 0) && matches_at(&chars, &ext, n - 3) {
        Some(slice(path, p, n - 3))
    } else {
        None
    }
}

/// The directory that holds the file at `path`.
pub fn parent_dir(path: &str) -> (dir: String)
    ensures
        dir@ == dir_of(path@),
{
    let chars = chars_of(path);
    let mut end: usize = chars.len();
    assert(path@.subrange(0, end as int) =~= path@);
    while end > 0 && chars[end - 1] != '/'
        invariant
            end <= chars@.len(),
            chars@ == path@,
            dir_of(path@) == dir_of(path@.subrange(0, end as int)),
        decreases end,
    {
        assert(path@.subrange(0, end as int).drop_last() =~= path@.subrange(0, end - 1));
        end -= 1;
    }
    if end == 0 {
        String::new()
    } else {
        slice(path, 0, end - 1)
    }
}

/// An identifier that the guard lets through names a path that begins with
/// the root and goes on, below it, with the identifier and the suffix: a
/// relative rest, none of whose segments names a parent directory.
pub proof fn law_resolved_path_stays_inside(root: Seq<char>, id: Seq<char>)
    requires
        !escapes(id),
    ensures
        starts_with(note_path(root, id), base(root)),
        note_path(root, id).subrange(base(root).len() as int, note_path(root, id).len() as int)
            == id + suffix(),
        !escapes(id + suffix()),
{
    let path = note_path(root, id);
    let rest = id + suffix();
    assert(path.subrange(0, base(root).len() as int) =~= base(root));
    assert forall|i: int| !parent_segment_at(rest, i) by {
        // two dots with a slash behind them would be a segment of `id`
        // too; behind any others stands a dot or a letter of the suffix
        if parent_segment_at(rest, i) && i + 2 < id.len() {
            assert(parent_segment_at(id, i));
        }
    }
}

/// The identifier read back from a note's path is the one the path was
/// made from.
pub proof fn law_path_id_of_note_path(root: Seq<char>, id: Seq<char>)
    ensures
        path_id(root, note_path(root, id)) == Some(id),
{
    let path = note_path(root, id);
    let prefix = base(root);
    assert(path.subrange(0, prefix.len() as int) =~= prefix);
    assert(path.subrange(path.len() - 3, path.len() as int) =~= suffix());
}

/// A path has an identifier only if it is that identifier's path: two
/// files never share one.
pub proof fn law_note_path_of_path_id(root: Seq<char>, path: Seq<char>)
    ensures
        path_id(root, path) matches Some(id) ==> note_path(root, id) == path,
{
}

} // verus!
