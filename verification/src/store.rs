//! The store: a root directory whose files are the notes. The store reads
//! no file itself. It is handed what a walk of the directory found, and
//! hands back the notes; for a change it hands back the path to touch and
//! the text to write.

use crate::content::{compose, file_text, framing, split_content, Framed, FramedText};
use crate::dates::{stamp, stamp_text, DateRange, Timestamp};
use crate::error::StoreError;
use crate::note::{
    criteria_of, header_note, meets, Criteria, HeaderDoc, HeaderText, Note, NoteDates, NoteText,
};
use crate::path::{base, base_of, dir_of, escapes, id_of, note_path, parent_dir, path_id, resolve};
use crate::render::{body_of, derive_body, derive_title, markdown_html, render, title_of};
use vstd::prelude::*;

verus! {

/// A file that the walk of the root directory found.
#[derive(Clone, Debug)]
pub struct SourceFile {
    /// The file's path, which begins with the root.
    pub path: String,
    /// The file's text.
    pub content: String,
    /// What the header block of the text states, where it has one that
    /// could be read.
    pub header: Option<HeaderDoc>,
    /// When the file system says the file was made, if it says.
    pub created: Option<Timestamp>,
    /// When the file system says the file was last changed, if it says.
    pub modified: Option<Timestamp>,
}

/// The model of `SourceFile`.
pub struct SourceText {
    pub path: Seq<char>,
    pub content: Seq<char>,
    pub header: Option<HeaderText>,
    pub created: Option<Timestamp>,
    pub modified: Option<Timestamp>,
}

impl View for SourceFile {
    type V = SourceText;

    open spec fn view(&self) -> SourceText {
        SourceText {
            path: self.path@,
            content: self.content@,
            header: match self.header {
                Some(doc) => Some(doc@),
                None => None,
            },
            created: self.created,
            modified: self.modified,
        }
    }
}

/// What reading one file gave.
pub enum Loaded {
    /// The file is a note.
    Note(Note),
    /// The file is no note, and is passed over in silence.
    Skip,
    /// The file looks like a note and cannot be read as one.
    Warn(StoreError),
}

/// The model of `Loaded`.
pub enum LoadedText {
    Note(NoteText),
    Skip,
    Warn(StoreError),
}

impl View for Loaded {
    type V = LoadedText;

    open spec fn view(&self) -> LoadedText {
        match self {
            Loaded::Note(note) => LoadedText::Note(note@),
            Loaded::Skip => LoadedText::Skip,
            Loaded::Warn(e) => LoadedText::Warn(*e),
        }
    }
}

/// The models of a list of files.
pub open spec fn sources(files: Seq<SourceFile>) -> Seq<SourceText> {
    Seq::new(files.len(), |i: int| files[i]@)
}

/// The models of a list of notes.
pub open spec fn note_texts(notes: Seq<Note>) -> Seq<NoteText> {
    Seq::new(notes.len(), |i: int| notes[i]@)
}

/// A date of a note: the one its header states, or else the file system's,
/// or else none.
pub open spec fn date_or(stated: Seq<char>, fallback: Option<Timestamp>) -> Seq<char> {
    if stated.len() > 0 {
        stated
    } else {
        match fallback {
            Some(at) => stamp_text(at),
            None => Seq::empty(),
        }
    }
}

/// What reading one file gives. A file whose path is no note's path under
/// the root, or whose text does not begin with the delimiter, is skipped. A
/// file without a second delimiter, or with a header that could not be
/// read, is warned of. Any other is a note: its identifier comes from its
/// path, its metadata from the header, the dates that the header lacks from
/// the file system, its title and body from the rendered body block.
pub open spec fn loaded(root: Seq<char>, file: SourceText) -> LoadedText {
    match path_id(root, file.path) {
        None => LoadedText::Skip,
        Some(id) => match framing(file.content) {
            FramedText::NotANote => LoadedText::Skip,
            FramedText::Malformed => LoadedText::Warn(StoreError::MalformedNote),
            FramedText::Note { header, body } => match file.header {
                None => LoadedText::Warn(StoreError::MalformedNote),
                Some(doc) => {
                    let stated = header_note(doc);
                    let html = markdown_html(body);
                    LoadedText::Note(
                        NoteText {
                            id,
                            title: title_of(html),
                            body: body_of(html),
                            creation: date_or(stated.creation, file.created),
                            last_modification: date_or(stated.last_modification, file.modified),
                            ..stated
                        },
                    )
                },
            },
        },
    }
}

/// The notes among the files that meet the criteria, in the files' order.
pub open spec fn listing(root: Seq<char>, files: Seq<SourceText>, asked: Criteria) -> Seq<NoteText>
    decreases files.len(),
{
    if files.len() == 0 {
        Seq::empty()
    } else {
        let before = listing(root, files.drop_last(), asked);
        match loaded(root, files.last()) {
            LoadedText::Note(note) => if meets(note, asked) {
                before.push(note)
            } else {
                before
            },
            _ => before,
        }
    }
}

/// What a change of the store writes: the file, its text, and the
/// directory that has to exist for it.
#[derive(Clone, Debug)]
pub struct FileWrite {
    pub dir: String,
    pub path: String,
    pub content: String,
}

/// How the removal of a note's file ended.
#[derive(Clone, Copy, Debug, PartialEq, Eq, Structural)]
pub enum Removal {
    /// The file is gone.
    Done,
    /// There was no such file.
    Missing,
    /// The file system refused.
    Failed,
}

/// The store.
#[derive(Clone, Debug)]
pub struct Queyd {
    /// The root directory.
    pub inside: String,
}

/// The name of the notes' directory in the user's home directory.
pub open spec fn home_folder() -> Seq<char> {
    seq!['i', 'd', 'e', 'a', 's']
}

/// The date for a note from what its header states and what the file
/// system says.
pub fn date_from(stated: String, fallback: &Option<Timestamp>) -> (date: String)
    ensures
        date@ == date_or(stated@, *fallback),
{
    if !stated.as_str().is_empty() {
        stated
    } else {
        match fallback {
            Some(at) => stamp(at),
            None => String::new(),
        }
    }
}

impl Queyd {
    /// The store in the directory `ideas` of the given home directory.
    pub fn new(home: &str) -> (store: Queyd)
        ensures
            store.inside@ == base(home@) + home_folder(),
    {
        proof {
            reveal_strlit("ideas");
        }
        let mut inside = base_of(home);
        inside.append("ideas");
        Queyd { inside }
    }

    /// Reads one file that the walk found.
    pub fn load(&self, file: &SourceFile) -> (outcome: Loaded)
        ensures
            outcome@ == loaded(self.inside@, file@),
    {
        let id = match id_of(self.inside.as_str(), file.path.as_str()) {
            None => {
                return Loaded::Skip;
            },
            Some(id) => id,
        };
        let body_raw = match split_content(file.content.as_str()) {
            Framed::NotANote => {
                return Loaded::Skip;
            },
            Framed::Malformed => {
                return Loaded::Warn(StoreError::MalformedNote);
            },
            Framed::Note { header, body } => body,
        };
        let doc = match &file.header {
            None => {
                return Loaded::Warn(StoreError::MalformedNote);
            },
            Some(doc) => doc.clone_doc(),
        };
        let stated = Note::from_header(doc);
        let html = render(body_raw.as_str());
        let title = derive_title(html.as_str());
        let body = derive_body(html.as_str());
        let creation = date_from(stated.date_of.creation, &file.created);
        let last_modification = date_from(stated.date_of.last_modification, &file.modified);
        let note = Note {
            tags: stated.tags,
            id,
            project: stated.project,
            area: stated.area,
            date_of: NoteDates { creation, last_modification },
            url: stated.url,
            body,
            title,
        };
        Loaded::Note(note)
    }

    /// The notes among the files that the walk found which meet every
    /// criterion given, in the files' order. Files that are no notes, or
    /// cannot be read as notes, are left out and stop nothing.
    pub fn notes(
        &self,
        files: &Vec<SourceFile>,
        area: Option<String>,
        project: Option<String>,
        tags: Option<Vec<String>>,
        created: Option<DateRange>,
        last_modified: Option<DateRange>,
    ) -> (notes: Vec<Note>)
        ensures
            note_texts(notes@) == listing(
                self.inside@,
                sources(files@),
                criteria_of(area, project, tags, created, last_modified),
            ),
    {
        let ghost asked = criteria_of(area, project, tags, created, last_modified);
        let ghost all = sources(files@);
        let mut notes: Vec<Note> = Vec::new();
        let mut i: usize = 0;
        while i < files.len()
            invariant
                i <= files.len(),
                all == sources(files@),
                asked == criteria_of(area, project, tags, created, last_modified),
                note_texts(notes@) == listing(self.inside@, all.take(i as int), asked),
            decreases files.len() - i,
        {
            proof {
                assert(all.take(i + 1).drop_last() =~= all.take(i as int));
            }
            match self.load(&files[i]) {
                Loaded::Note(note) => {
                    if note.satisfies(&area, &project, &tags, &created, &last_modified) {
                        notes.push(note);
                    }
                },
                _ => {},
            }
            i += 1;
        }
        assert(all.take(files.len() as int) =~= all);
        notes
    }

    /// What has to be written for the note, with the header block that was
    /// made of its header: the file at the note's path, with the text of a
    /// note's file. An identifier that would lead out of the root is
    /// refused with `PathEscape`.
    pub fn add_note(&self, note: &Note, header_block: &str) -> (r: Result<FileWrite, StoreError>)
        ensures
            match r {
                Ok(write) => {
                    &&& !escapes(note.id@)
                    &&& write.path@ == note_path(self.inside@, note.id@)
                    &&& write.dir@ == dir_of(write.path@)
                    &&& write.content@ == file_text(header_block@, note.title@, note.body@)
                },
                Err(e) => escapes(note.id@) && e == StoreError::PathEscape,
            },
    {
        match resolve(self.inside.as_str(), note.id.as_str()) {
            Err(e) => Err(e),
            Ok(path) => {
                let dir = parent_dir(path.as_str());
                let content = compose(header_block, note.title.as_str(), note.body.as_str());
                Ok(FileWrite { dir, path, content })
            },
        }
    }

    /// The file to remove for the note with the given identifier. An
    /// identifier that would lead out of the root is refused with
    /// `PathEscape`.
    pub fn delete_note(&self, id: &str) -> (r: Result<String, StoreError>)
        ensures
            match r {
                Ok(path) => !escapes(id@) && path@ == note_path(self.inside@, id@),
                Err(e) => escapes(id@) && e == StoreError::PathEscape,
            },
    {
        resolve(self.inside.as_str(), id)
    }

    /// What a deletion comes to, once the file system has answered: a
    /// file that was not there is `NotFound`, a refusal is `IoFailure`.
    pub fn removed(outcome: Removal) -> (r: Result<(), StoreError>)
        ensures
            r == match outcome {
                Removal::Done => Ok::<(), StoreError>(()),
                Removal::Missing => Err(StoreError::NotFound),
                Removal::Failed => Err(StoreError::IoFailure),
            },
    {
        match outcome {
            Removal::Done => Ok(()),
            Removal::Missing => Err(StoreError::NotFound),
            Removal::Failed => Err(StoreError::IoFailure),
        }
    }
}

} // verus!
