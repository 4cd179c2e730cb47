//! What holds of the store across operations: a note that was written is
//! read back, a note whose file is gone is not found, and an edit keeps
//! the date of creation.

use crate::api::{anything, edited, found, lookup};
use crate::content::{body_block, closed, delimiter, file_text, law_compose_then_split};
use crate::dates::{no_later, rfc3339_instant, stamp_text, Timestamp};
use crate::error::StoreError;
use crate::note::{law_header_round_trip, meets, note_header, Criteria, NoteText};
use crate::path::{law_note_path_of_path_id, law_path_id_of_note_path, note_path};
use crate::render::{body_of, markdown_html, title_of};
use crate::store::{date_or, listing, loaded, LoadedText, SourceText};
use crate::text::find_from;
use vstd::prelude::*;

verus! {

/// Every note of a listing was read from one of the files.
proof fn lemma_listed_source(
    root: Seq<char>,
    files: Seq<SourceText>,
    asked: Criteria,
    at: int,
) -> (j: int)
    requires
        0 <= at < listing(root, files, asked).len(),
    ensures
        0 <= j < files.len(),
        loaded(root, files[j]) == LoadedText::Note(listing(root, files, asked)[at]),
    decreases files.len(),
{
    let before = listing(root, files.drop_last(), asked);
    if at < before.len() {
        lemma_listed_source(root, files.drop_last(), asked, at)
    } else {
        files.len() - 1
    }
}

/// Every file that is a note meeting the criteria is in the listing.
proof fn lemma_source_listed(
    root: Seq<char>,
    files: Seq<SourceText>,
    asked: Criteria,
    k: int,
) -> (at: int)
    requires
        0 <= k < files.len(),
        loaded(root, files[k]) matches LoadedText::Note(note) && meets(note, asked),
    ensures
        0 <= at < listing(root, files, asked).len(),
        LoadedText::Note(listing(root, files, asked)[at]) == loaded(root, files[k]),
    decreases files.len(),
{
    let before = listing(root, files.drop_last(), asked);
    if k == files.len() - 1 {
        before.len() as int
    } else {
        lemma_source_listed(root, files.drop_last(), asked, k)
    }
}

/// The note that is found is one of the notes, and has the identifier.
proof fn lemma_found_index(notes: Seq<NoteText>, id: Seq<char>) -> (at: int)
    requires
        found(notes, id) is Some,
    ensures
        0 <= at < notes.len(),
        found(notes, id) == Some(notes[at]),
        notes[at].id == id,
    decreases notes.len(),
{
    if notes[0].id == id {
        0
    } else {
        lemma_found_index(notes.drop_first(), id) + 1
    }
}

/// Where one of the notes has the identifier, a note is found.
proof fn lemma_found_some(notes: Seq<NoteText>, id: Seq<char>, at: int)
    requires
        0 <= at < notes.len(),
        notes[at].id == id,
    ensures
        found(notes, id) is Some,
    decreases notes.len(),
{
    if notes[0].id != id {
        lemma_found_some(notes.drop_first(), id, at - 1);
    }
}

/// Once no file stands at the path that `delete_note` names for an
/// identifier, a look for the note with that identifier finds nothing,
/// and does not fail.
pub proof fn law_removed_note_is_not_found(root: Seq<char>, files: Seq<SourceText>, id: Seq<char>)
    requires
        forall|i: int| 0 <= i < files.len() ==> files[i].path != note_path(root, id),
    ensures
        lookup(root, files, id) == Ok::<Option<NoteText>, StoreError>(None),
{
    let notes = listing(root, files, anything());
    if found(notes, id) is Some {
        let at = lemma_found_index(notes, id);
        let j = lemma_listed_source(root, files, anything(), at);
        law_note_path_of_path_id(root, files[j].path);
    }
}

/// A note that was written is read back. Take the file that `add_note`
/// gives for a note, and let its header block hold no delimiter and read
/// back as the header that was made of the note. In a directory that holds
/// this file, and no other at its path, a look for the note with that
/// identifier finds it, with the identifier, tags, project, area and url
/// that were written, and with each date that was written. Its title and
/// body are what the rendered body block gives.
pub proof fn law_written_note_reads_back(
    root: Seq<char>,
    files: Seq<SourceText>,
    k: int,
    note: NoteText,
    header_block: Seq<char>,
)
    requires
        0 <= k < files.len(),
        files[k].path == note_path(root, note.id),
        files[k].content == file_text(header_block, note.title, note.body),
        files[k].header == Some(note_header(note)),
        find_from(closed(header_block), delimiter(), 0) == -1,
        forall|i: int| 0 <= i < files.len() && i != k ==> files[i].path != files[k].path,
    ensures
        lookup(root, files, note.id) matches Ok(Some(back)) && {
            let html = markdown_html(body_block(note.title, note.body));
            &&& back.id == note.id
            &&& back.tags == note.tags
            &&& back.project == note.project
            &&& back.area == note.area
            &&& back.url == note.url
            &&& back.creation == date_or(note.creation, files[k].created)
            &&& back.last_modification == date_or(note.last_modification, files[k].modified)
            &&& back.title == title_of(html)
            &&& back.body == body_of(html)
        },
{
    law_path_id_of_note_path(root, note.id);
    law_compose_then_split(header_block, note.title, note.body);
    law_header_round_trip(note);
    let at = lemma_source_listed(root, files, anything(), k);
    let notes = listing(root, files, anything());
    lemma_found_some(notes, note.id, at);
    let first = lemma_found_index(notes, note.id);
    let j = lemma_listed_source(root, files, anything(), first);
    law_note_path_of_path_id(root, files[j].path);
}

/// An edit keeps the identifier, the url and the date of creation, and
/// sets the date of the last change to the stamp of the time of the edit.
pub proof fn law_edit_keeps_creation(
    old: NoteText,
    title: Option<Seq<char>>,
    body: Option<Seq<char>>,
    project: Option<Seq<char>>,
    area: Option<Seq<char>>,
    tags: Option<Seq<Seq<char>>>,
    now: Timestamp,
)
    ensures
        edited(old, title, body, project, area, tags, now).creation == old.creation,
        edited(old, title, body, project, area, tags, now).id == old.id,
        edited(old, title, body, project, area, tags, now).url == old.url,
        edited(old, title, body, project, area, tags, now).last_modification == stamp_text(now),
{
}

/// An edit does not move the date of the last change backwards, where the
/// clock has not: if the old date reads as an instant no later than the
/// time of the edit, and the stamp of that time reads back as that time,
/// then the new date reads as an instant no earlier than the old one.
pub proof fn law_edit_moves_last_change_forward(
    old: NoteText,
    title: Option<Seq<char>>,
    body: Option<Seq<char>>,
    project: Option<Seq<char>>,
    area: Option<Seq<char>>,
    tags: Option<Seq<Seq<char>>>,
    now: Timestamp,
)
    requires
        rfc3339_instant(old.last_modification) matches Some(before) && no_later(
            before.0,
            before.1,
            now.secs as int,
            now.nanos as int,
        ),
        rfc3339_instant(stamp_text(now)) == Some((now.secs as int, now.nanos as int)),
    ensures
        rfc3339_instant(old.last_modification) matches Some(before) && rfc3339_instant(
            edited(old, title, body, project, area, tags, now).last_modification,
        ) matches Some(after) && no_later(before.0, before.1, after.0, after.1),
{
}

} // verus!
