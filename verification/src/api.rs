//! The operations that a query or a mutation asks of the store: what is
//! looked up, what is made, and what is changed. Each takes what the walk
//! of the root found and the current time as arguments.

use crate::dates::{stamp, stamp_text, DateRange, Timestamp};
use crate::error::StoreError;
use crate::ident::{compute_id, id_text};
use crate::note::{
    criteria_of, opt_text, opt_texts, or_empty, texts, Criteria, Note, NoteDates, NoteText,
};
use crate::path::{escapes, escaping, note_path, path_of};
use crate::store::{listing, loaded, note_texts, sources, Loaded, Queyd, SourceFile, SourceText};
use vstd::prelude::*;

verus! {

/// The criteria of a query that asks nothing.
pub open spec fn anything() -> Criteria {
    Criteria { area: None, project: None, tags: None, created: None, last_modified: None }
}

/// The first of the notes that has the identifier.
pub open spec fn found(notes: Seq<NoteText>, id: Seq<char>) -> Option<NoteText>
    decreases notes.len(),
{
    if notes.len() == 0 {
        None
    } else if notes[0].id == id {
        Some(notes[0])
    } else {
        found(notes.drop_first(), id)
    }
}

/// The note with the identifier among the files that the walk found.
pub open spec fn note_at(root: Seq<char>, files: Seq<SourceText>, id: Seq<char>) -> Option<
    NoteText,
> {
    found(listing(root, files, anything()), id)
}

/// A file stands at the path of the note with the identifier, looks like
/// a note, and cannot be read as one.
pub open spec fn unreadable_at(root: Seq<char>, files: Seq<SourceText>, id: Seq<char>) -> bool {
    exists|i: int|
        0 <= i < files.len() && files[i].path == note_path(root, id) && loaded(
            root,
            #[trigger] files[i],
        ) is Warn
}

/// What a look for the note with the identifier gives: the note; or, where
/// none is found, `MalformedNote` if the file at its path cannot be read
/// as a note, and nothing if there is no such trouble.
pub open spec fn lookup(root: Seq<char>, files: Seq<SourceText>, id: Seq<char>) -> Result<
    Option<NoteText>,
    StoreError,
> {
    match note_at(root, files, id) {
        Some(note) => Ok(Some(note)),
        None => if unreadable_at(root, files, id) {
            Err(StoreError::MalformedNote)
        } else {
            Ok(None)
        },
    }
}

/// The model of an optional note.
pub open spec fn opt_note(note: Option<Note>) -> Option<NoteText> {
    match note {
        Some(n) => Some(n@),
        None => None,
    }
}

/// The identifier of a note that is added: the one that was given, or else
/// the one that project, title and body give.
pub open spec fn added_id(
    project: Option<Seq<char>>,
    title: Seq<char>,
    body: Seq<char>,
    id: Option<Seq<char>>,
) -> Seq<char> {
    match id {
        Some(given) => given,
        None => id_text(or_empty(project), title, body),
    }
}

/// The texts, or none where none are given.
pub open spec fn or_none(tags: Option<Seq<Seq<char>>>) -> Seq<Seq<char>> {
    match tags {
        Some(list) => list,
        None => Seq::empty(),
    }
}

/// The note after an edit: each field that the edit gives is replaced, the
/// date of the last change is the time of the edit, and the identifier,
/// the url and the date of creation stay.
pub open spec fn edited(
    old: NoteText,
    title: Option<Seq<char>>,
    body: Option<Seq<char>>,
    project: Option<Seq<char>>,
    area: Option<Seq<char>>,
    tags: Option<Seq<Seq<char>>>,
    now: Timestamp,
) -> NoteText {
    NoteText {
        title: match title {
            Some(t) => t,
            None => old.title,
        },
        body: match body {
            Some(b) => b,
            None => old.body,
        },
        project: match project {
            Some(p) => p,
            None => old.project,
        },
        area: match area {
            Some(a) => a,
            None => old.area,
        },
        tags: match tags {
            Some(t) => t,
            None => old.tags,
        },
        last_modification: stamp_text(now),
        ..old
    }
}

/// The area of the notes that were put away.
pub open spec fn archive_area() -> Seq<char> {
    seq!['a', 'r', 'c', 'h', 'i', 'v', 'e']
}

/// The first of the notes that has the identifier.
pub fn find_note(notes: &Vec<Note>, id: &str) -> (r: Option<Note>)
    ensures
        opt_note(r) == found(note_texts(notes@), id@),
{
    let wanted = String::from_str(id);
    let ghost all = note_texts(notes@);
    let mut i: usize = 0;
    assert(all.skip(0) =~= all);
    while i < notes.len()
        invariant
            i <= notes.len(),
            wanted@ == id@,
            all == note_texts(notes@),
            found(all, id@) == found(all.skip(i as int), id@),
        decreases notes.len() - i,
    {
        if notes[i].id == wanted {
            return Some(notes[i].duplicate());
        }
        assert(all.skip(i as int).drop_first() =~= all.skip(i + 1));
        i += 1;
    }
    None
}

/// Whether the file at the path of the note with the identifier looks
/// like a note and cannot be read as one.
pub fn unreadable(queyd: &Queyd, files: &Vec<SourceFile>, id: &str) -> (r: bool)
    ensures
        r == unreadable_at(queyd.inside@, sources(files@), id@),
{
    let path = path_of(queyd.inside.as_str(), id);
    let mut i: usize = 0;
    while i < files.len()
        invariant
            i <= files.len(),
            path@ == note_path(queyd.inside@, id@),
            forall|k: int|
                0 <= k < i ==> !(files[k]@.path == path@ && loaded(queyd.inside@, files[k]@)
                    is Warn),
        decreases files.len() - i,
    {
        if files[i].path == path {
            match queyd.load(&files[i]) {
                Loaded::Warn(_) => {
                    assert(sources(files@)[i as int] == files[i as int]@);
                    return true;
                },
                _ => {},
            }
        }
        i += 1;
    }
    assert forall|k: int| 0 <= k < files.len() implies !(sources(files@)[k].path == path@ && loaded(
        queyd.inside@,
        #[trigger] sources(files@)[k],
    ) is Warn) by {}
    false
}

/// Looks for the note with the identifier among the files.
pub fn look_up(queyd: &Queyd, files: &Vec<SourceFile>, id: &str) -> (r: Result<
    Option<Note>,
    StoreError,
>)
    ensures
        match r {
            Ok(note) => lookup(queyd.inside@, sources(files@), id@) == Ok::<
                Option<NoteText>,
                StoreError,
            >(opt_note(note)),
            Err(e) => lookup(queyd.inside@, sources(files@), id@) == Err::<
                Option<NoteText>,
                StoreError,
            >(e),
        },
{
    let all = queyd.notes(files, None, None, None, None, None);
    match find_note(&all, id) {
        Some(note) => Ok(Some(note)),
        None => if unreadable(queyd, files, id) {
            Err(StoreError::MalformedNote)
        } else {
            Ok(None)
        },
    }
}

/// The read side of the store.
#[derive(Clone, Copy, Debug)]
pub struct QueryRoot;

/// The write side of the store.
#[derive(Clone, Copy, Debug)]
pub struct MutationRoot;

impl QueryRoot {
    /// The note with the identifier, or `None` where the store has none.
    /// Where none is found because the file at its path cannot be read as
    /// a note, the look-up fails with `MalformedNote`.
    pub fn note(&self, queyd: &Queyd, files: &Vec<SourceFile>, id: &str) -> (r: Result<
        Option<Note>,
        StoreError,
    >)
        ensures
            match r {
                Ok(note) => lookup(queyd.inside@, sources(files@), id@) == Ok::<
                    Option<NoteText>,
                    StoreError,
                >(opt_note(note)),
                Err(e) => lookup(queyd.inside@, sources(files@), id@) == Err::<
                    Option<NoteText>,
                    StoreError,
                >(e),
            },
    {
        look_up(queyd, files, id)
    }

    /// The notes that meet every criterion given.
    pub fn notes(
        &self,
        queyd: &Queyd,
        files: &Vec<SourceFile>,
        area: Option<String>,
        project: Option<String>,
        tags: Option<Vec<String>>,
        created: Option<DateRange>,
        last_modified: Option<DateRange>,
    ) -> (notes: Vec<Note>)
        ensures
            note_texts(notes@) == listing(
                queyd.inside@,
                sources(files@),
                criteria_of(area, project, tags, created, last_modified),
            ),
    {
        queyd.notes(files, area, project, tags, created, last_modified)
    }
}

impl MutationRoot {
    /// The note to add. Its identifier is the one given, or else the one
    /// that project, title and body give; both its dates are the current
    /// time. An empty identifier is refused with `EmptyIdentifier`, and one
    /// that would lead out of the root with `PathEscape`.
    pub fn add(
        &self,
        title: String,
        project: Option<String>,
        area: Option<String>,
        body: String,
        tags: Option<Vec<String>>,
        id: Option<String>,
        now: &Timestamp,
    ) -> (r: Result<Note, StoreError>)
        ensures
            match r {
                Ok(note) => {
                    &&& note@.id.len() > 0
                    &&& !escapes(note@.id)
                    &&& note@ == (NoteText {
                        tags: or_none(opt_texts(tags)),
                        id: added_id(opt_text(project), title@, body@, opt_text(id)),
                        project: or_empty(opt_text(project)),
                        area: or_empty(opt_text(area)),
                        creation: stamp_text(*now),
                        last_modification: stamp_text(*now),
                        url: Seq::empty(),
                        body: body@,
                        title: title@,
                    })
                },
                Err(e) => {
                    let id = added_id(opt_text(project), title@, body@, opt_text(id));
                    ||| e == StoreError::EmptyIdentifier && id.len() == 0
                    ||| e == StoreError::PathEscape && id.len() > 0 && escapes(id)
                },
            },
    {
        let ghost wanted_tags = or_none(opt_texts(tags));
        let project_name = match project {
            Some(p) => p,
            None => String::new(),
        };
        let note_id = match id {
            Some(given) => given,
            None => compute_id(project_name.as_str(), title.as_str(), body.as_str()),
        };
        if note_id.as_str().is_empty() {
            return Err(StoreError::EmptyIdentifier);
        }
        if escaping(note_id.as_str()) {
            return Err(StoreError::PathEscape);
        }
        let tag_list = match tags {
            Some(list) => list,
            None => Vec::new(),
        };
        let area_name = match area {
            Some(a) => a,
            None => String::new(),
        };
        let note = Note {
            tags: tag_list,
            id: note_id,
            project: project_name,
            area: area_name,
            date_of: NoteDates { creation: stamp(now), last_modification: stamp(now) },
            url: String::new(),
            body,
            title,
        };
        assert(note@.tags =~= wanted_tags);
        Ok(note)
    }

    /// The file to remove for the note with the identifier.
    pub fn delete(&self, queyd: &Queyd, id: &str) -> (r: Result<String, StoreError>)
        ensures
            match r {
                Ok(path) => !escapes(id@) && path@ == note_path(queyd.inside@, id@),
                Err(e) => escapes(id@) && e == StoreError::PathEscape,
            },
    {
        queyd.delete_note(id)
    }

    /// The note with the identifier as it stands after the edit. Without
    /// such a note the edit fails with `NotFound`, or with `MalformedNote`
    /// where the file at its path cannot be read as a note; where the
    /// identifier would lead out of the root, with `PathEscape`.
    pub fn edit(
        &self,
        queyd: &Queyd,
        files: &Vec<SourceFile>,
        id: &str,
        title: Option<String>,
        body: Option<String>,
        project: Option<String>,
        area: Option<String>,
        tags: Option<Vec<String>>,
        now: &Timestamp,
    ) -> (r: Result<Note, StoreError>)
        ensures
            match r {
                Ok(note) => {
                    &&& !escapes(id@)
                    &&& note_at(queyd.inside@, sources(files@), id@) matches Some(old)
                    &&& note@ == edited(
                        old,
                        opt_text(title),
                        opt_text(body),
                        opt_text(project),
                        opt_text(area),
                        opt_texts(tags),
                        *now,
                    )
                },
                Err(e) => {
                    let old = lookup(queyd.inside@, sources(files@), id@);
                    ||| e == StoreError::NotFound && old == Ok::<Option<NoteText>, StoreError>(None)
                    ||| e == StoreError::MalformedNote && old is Err
                    ||| e == StoreError::PathEscape && old is Ok && old->Ok_0 is Some && escapes(
                        id@,
                    )
                },
            },
    {
        let old = match look_up(queyd, files, id) {
            Err(e) => {
                return Err(e);
            },
            Ok(None) => {
                return Err(StoreError::NotFound);
            },
            Ok(Some(note)) => note,
        };
        if escaping(id) {
            return Err(StoreError::PathEscape);
        }
        let note = Note {
            tags: match tags {
                Some(t) => t,
                None => old.tags,
            },
            id: old.id,
            project: match project {
                Some(p) => p,
                None => old.project,
            },
            area: match area {
                Some(a) => a,
                None => old.area,
            },
            date_of: NoteDates {
                creation: old.date_of.creation,
                last_modification: stamp(now),
            },
            url: old.url,
            body: match body {
                Some(b) => b,
                None => old.body,
            },
            title: match title {
                Some(t) => t,
                None => old.title,
            },
        };
        Ok(note)
    }

    /// The note with the identifier as it stands after it was put away:
    /// an edit that sets the area to `archive` and nothing else, and fails
    /// as an edit does.
    pub fn archive(&self, queyd: &Queyd, files: &Vec<SourceFile>, id: &str, now: &Timestamp) -> (r:
        Result<Note, StoreError>)
        ensures
            match r {
                Ok(note) => {
                    &&& !escapes(id@)
                    &&& note_at(queyd.inside@, sources(files@), id@) matches Some(old)
                    &&& note@ == edited(old, None, None, None, Some(archive_area()), None, *now)
                },
                Err(e) => {
                    let old = lookup(queyd.inside@, sources(files@), id@);
                    ||| e == StoreError::NotFound && old == Ok::<Option<NoteText>, StoreError>(None)
                    ||| e == StoreError::MalformedNote && old is Err
                    ||| e == StoreError::PathEscape && old is Ok && old->Ok_0 is Some && escapes(
                        id@,
                    )
                },
            },
    {
        proof {
            reveal_strlit("archive");
        }
        let area = String::from_str("archive");
        assert(area@ =~= archive_area());
        self.edit(queyd, files, id, None, None, None, Some(area), None, now)
    }
}

} // verus!
