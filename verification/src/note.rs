//! The note: its fields, the header that carries its metadata in a file,
//! and the filter that a query puts on it.

use crate::dates::DateRange;
use vstd::prelude::*;

verus! {

/// The texts of a list of strings.
pub open spec fn texts(list: Seq<String>) -> Seq<Seq<char>> {
    Seq::new(list.len(), |i: int| list[i]@)
}

/// The text of an optional string.
pub open spec fn opt_text(value: Option<String>) -> Option<Seq<char>> {
    match value {
        Some(s) => Some(s@),
        None => None,
    }
}

/// The texts of an optional list of strings.
pub open spec fn opt_texts(value: Option<Vec<String>>) -> Option<Seq<Seq<char>>> {
    match value {
        Some(list) => Some(texts(list@)),
        None => None,
    }
}

/// The text, or the empty text where there is none.
pub open spec fn or_empty(value: Option<Seq<char>>) -> Seq<char> {
    match value {
        Some(s) => s,
        None => Seq::empty(),
    }
}

/// The text, unless it is empty.
pub open spec fn unless_empty(text: Seq<char>) -> Option<Seq<char>> {
    if text.len() == 0 {
        None
    } else {
        Some(text)
    }
}

/// When a note was made and when it was last changed, as RFC 3339 texts.
/// An empty text stands for a date that the header does not state.
#[derive(Clone, Debug)]
pub struct NoteDates {
    pub creation: String,
    pub last_modification: String,
}

/// A note.
#[derive(Clone, Debug)]
pub struct Note {
    pub tags: Vec<String>,
    /// The path of the note's file below the root, without the suffix.
    pub id: String,
    pub project: String,
    pub area: String,
    pub date_of: NoteDates,
    pub url: String,
    pub body: String,
    pub title: String,
}

/// The model of a note: the text of each field.
pub struct NoteText {
    pub tags: Seq<Seq<char>>,
    pub id: Seq<char>,
    pub project: Seq<char>,
    pub area: Seq<char>,
    pub creation: Seq<char>,
    pub last_modification: Seq<char>,
    pub url: Seq<char>,
    pub body: Seq<char>,
    pub title: Seq<char>,
}

impl View for Note {
    type V = NoteText;

    open spec fn view(&self) -> NoteText {
        NoteText {
            tags: texts(self.tags@),
            id: self.id@,
            project: self.project@,
            area: self.area@,
            creation: self.date_of.creation@,
            last_modification: self.date_of.last_modification@,
            url: self.url@,
            body: self.body@,
            title: self.title@,
        }
    }
}

/// The dates of a note's header, each stated or not.
#[derive(Clone, Debug)]
pub struct DatesDoc {
    pub creation: Option<String>,
    pub last_modification: Option<String>,
}

/// What a header block states: each key present or absent.
#[derive(Clone, Debug)]
pub struct HeaderDoc {
    pub tags: Option<Vec<String>>,
    pub project: Option<String>,
    pub area: Option<String>,
    pub url: Option<String>,
    pub date_of: Option<DatesDoc>,
}

/// The model of `DatesDoc`.
pub struct DatesText {
    pub creation: Option<Seq<char>>,
    pub last_modification: Option<Seq<char>>,
}

/// The model of `HeaderDoc`.
pub struct HeaderText {
    pub tags: Option<Seq<Seq<char>>>,
    pub project: Option<Seq<char>>,
    pub area: Option<Seq<char>>,
    pub url: Option<Seq<char>>,
    pub date_of: Option<DatesText>,
}

impl View for DatesDoc {
    type V = DatesText;

    open spec fn view(&self) -> DatesText {
        DatesText {
            creation: opt_text(self.creation),
            last_modification: opt_text(self.last_modification),
        }
    }
}

impl View for HeaderDoc {
    type V = HeaderText;

    open spec fn view(&self) -> HeaderText {
        HeaderText {
            tags: opt_texts(self.tags),
            project: opt_text(self.project),
            area: opt_text(self.area),
            url: opt_text(self.url),
            date_of: match self.date_of {
                Some(d) => Some(d@),
                None => None,
            },
        }
    }
}

/// The note that a header gives: each field that the header states, and
/// the empty value for each that it does not. Identifier, title and body
/// are no header data and stay empty.
pub open spec fn header_note(header: HeaderText) -> NoteText {
    NoteText {
        tags: match header.tags {
            Some(tags) => tags,
            None => Seq::empty(),
        },
        id: Seq::empty(),
        project: or_empty(header.project),
        area: or_empty(header.area),
        creation: match header.date_of {
            Some(d) => or_empty(d.creation),
            None => Seq::empty(),
        },
        last_modification: match header.date_of {
            Some(d) => or_empty(d.last_modification),
            None => Seq::empty(),
        },
        url: or_empty(header.url),
        body: Seq::empty(),
        title: Seq::empty(),
    }
}

/// The header that is written for a note: every field that is not empty,
/// and none that is. Identifier, title and body are never part of it.
pub open spec fn note_header(note: NoteText) -> HeaderText {
    HeaderText {
        tags: if note.tags.len() == 0 {
            None
        } else {
            Some(note.tags)
        },
        project: unless_empty(note.project),
        area: unless_empty(note.area),
        url: unless_empty(note.url),
        date_of: if note.creation.len() == 0 && note.last_modification.len() == 0 {
            None
        } else {
            Some(
                DatesText {
                    creation: unless_empty(note.creation),
                    last_modification: unless_empty(note.last_modification),
                },
            )
        },
    }
}

/// Reading back the header that was written for a note gives the note's
/// tags, project, area, url and dates again; what the header never holds,
/// the identifier, title and body, comes back empty.
pub proof fn law_header_round_trip(note: NoteText)
    ensures
        header_note(note_header(note)) == (NoteText {
            id: Seq::empty(),
            body: Seq::empty(),
            title: Seq::empty(),
            ..note
        }),
{
    let back = header_note(note_header(note));
    assert(back.tags =~= note.tags);
    assert(back.project =~= note.project);
    assert(back.area =~= note.area);
    assert(back.url =~= note.url);
    assert(back.creation =~= note.creation);
    assert(back.last_modification =~= note.last_modification);
}

/// What a query asks of a note; a criterion that is not given asks nothing.
pub struct Criteria {
    pub area: Option<Seq<char>>,
    pub project: Option<Seq<char>>,
    pub tags: Option<Seq<Seq<char>>>,
    pub created: Option<DateRange>,
    pub last_modified: Option<DateRange>,
}

/// The criteria that a query's arguments state.
pub open spec fn criteria_of(
    area: Option<String>,
    project: Option<String>,
    tags: Option<Vec<String>>,
    created: Option<DateRange>,
    last_modified: Option<DateRange>,
) -> Criteria {
    Criteria {
        area: opt_text(area),
        project: opt_text(project),
        tags: opt_texts(tags),
        created,
        last_modified,
    }
}

/// The two lists have a text in common.
pub open spec fn shares(a: Seq<Seq<char>>, b: Seq<Seq<char>>) -> bool {
    exists|i: int, j: int| 0 <= i < a.len() && 0 <= j < b.len() && a[i] == b[j]
}

/// The note meets every criterion that is given: area and project are the
/// same text, the tags have one in common with those asked for, and each
/// date is an RFC 3339 text of an instant in its range.
pub open spec fn meets(note: NoteText, asked: Criteria) -> bool {
    &&& asked.area matches Some(area) ==> note.area == area
    &&& asked.project matches Some(project) ==> note.project == project
    &&& asked.tags matches Some(tags) ==> shares(note.tags, tags)
    &&& asked.created matches Some(range) ==> range.admits(note.creation)
    &&& asked.last_modified matches Some(range) ==> range.admits(note.last_modification)
}

/// Two lists share a text exactly if, taken as sets, they are not disjoint:
/// one common tag is enough, and the note need not have every tag asked for.
pub proof fn law_tags_match_by_overlap(a: Seq<Seq<char>>, b: Seq<Seq<char>>)
    ensures
        shares(a, b) <==> !a.to_set().disjoint(b.to_set()),
{
    if shares(a, b) {
        let (i, j) = choose|i: int, j: int| 0 <= i < a.len() && 0 <= j < b.len() && a[i] == b[j];
        assert(a.to_set().contains(a[i]) && b.to_set().contains(a[i]));
    }
    if !a.to_set().disjoint(b.to_set()) {
        let t = choose|t: Seq<char>| a.to_set().contains(t) && b.to_set().contains(t);
        let i = choose|i: int| 0 <= i < a.len() && a[i] == t;
        let j = choose|j: int| 0 <= j < b.len() && b[j] == t;
        assert(a[i] == b[j]);
    }
}

/// Dates of which none is stated.
pub fn empty_dates() -> (dates: NoteDates)
    ensures
        dates.creation@.len() == 0,
        dates.last_modification@.len() == 0,
{
    NoteDates { creation: String::new(), last_modification: String::new() }
}

/// A copy of a list of strings.
pub fn copy_texts(list: &Vec<String>) -> (copy: Vec<String>)
    ensures
        texts(copy@) == texts(list@),
{
    let mut copy: Vec<String> = Vec::new();
    let mut i: usize = 0;
    while i < list.len()
        invariant
            i <= list.len(),
            copy.len() == i,
            forall|k: int| 0 <= k < i ==> copy[k]@ == list[k]@,
        decreases list.len() - i,
    {
        copy.push(list[i].clone());
        i += 1;
    }
    copy
}

/// Whether `tags` holds the text of `tag`.
pub fn has_tag(tags: &Vec<String>, tag: &String) -> (r: bool)
    ensures
        r == exists|j: int| 0 <= j < tags.len() && tags[j]@ == tag@,
{
    let mut j: usize = 0;
    while j < tags.len()
        invariant
            j <= tags.len(),
            forall|k: int| 0 <= k < j ==> tags[k]@ != tag@,
        decreases tags.len() - j,
    {
        if tags[j] == *tag {
            return true;
        }
        j += 1;
    }
    false
}

/// Whether the two lists of tags have one in common.
pub fn share_tag(own: &Vec<String>, asked: &Vec<String>) -> (r: bool)
    ensures
        r == shares(texts(own@), texts(asked@)),
{
    let mut i: usize = 0;
    while i < own.len()
        invariant
            i <= own.len(),
            forall|k: int, j: int|
                0 <= k < i && 0 <= j < asked.len() ==> texts(own@)[k] != texts(asked@)[j],
        decreases own.len() - i,
    {
        if has_tag(asked, &own[i]) {
            let ghost j = choose|j: int| 0 <= j < asked.len() && asked[j]@ == own[i as int]@;
            assert(texts(own@)[i as int] == texts(asked@)[j]);
            return true;
        }
        assert forall|j: int| 0 <= j < asked.len() implies texts(own@)[i as int] != texts(
            asked@,
        )[j] by {}
        i += 1;
    }
    false
}

impl Note {
    /// The note that a header gives, with the defaults for what it does
    /// not state.
    pub fn from_header(doc: HeaderDoc) -> (note: Note)
        ensures
            note@ == header_note(doc@),
    {
        let tags = match doc.tags {
            Some(tags) => tags,
            None => Vec::new(),
        };
        let project = match doc.project {
            Some(s) => s,
            None => String::new(),
        };
        let area = match doc.area {
            Some(s) => s,
            None => String::new(),
        };
        let url = match doc.url {
            Some(s) => s,
            None => String::new(),
        };
        let date_of = match doc.date_of {
            Some(d) => NoteDates {
                creation: match d.creation {
                    Some(s) => s,
                    None => String::new(),
                },
                last_modification: match d.last_modification {
                    Some(s) => s,
                    None => String::new(),
                },
            },
            None => empty_dates(),
        };
        let note = Note {
            tags,
            id: String::new(),
            project,
            area,
            date_of,
            url,
            body: String::new(),
            title: String::new(),
        };
        assert(note@.tags =~= header_note(doc@).tags);
        assert(note@.creation =~= header_note(doc@).creation);
        assert(note@.last_modification =~= header_note(doc@).last_modification);
        note
    }

    /// The header that is written for the note.
    pub fn header(&self) -> (doc: HeaderDoc)
        ensures
            doc@ == note_header(self@),
    {
        let tags = if self.tags.len() == 0 {
            None
        } else {
            Some(copy_texts(&self.tags))
        };
        let date_of = if self.date_of.creation.as_str().is_empty()
            && self.date_of.last_modification.as_str().is_empty() {
            None
        } else {
            Some(
                DatesDoc {
                    creation: stated(&self.date_of.creation),
                    last_modification: stated(&self.date_of.last_modification),
                },
            )
        };
        HeaderDoc {
            tags,
            project: stated(&self.project),
            area: stated(&self.area),
            url: stated(&self.url),
            date_of,
        }
    }

    /// A copy of the note.
    pub fn duplicate(&self) -> (copy: Note)
        ensures
            copy@ == self@,
    {
        Note {
            tags: copy_texts(&self.tags),
            id: self.id.clone(),
            project: self.project.clone(),
            area: self.area.clone(),
            date_of: NoteDates {
                creation: self.date_of.creation.clone(),
                last_modification: self.date_of.last_modification.clone(),
            },
            url: self.url.clone(),
            body: self.body.clone(),
            title: self.title.clone(),
        }
    }

    /// Whether the note meets every criterion that is given.
    pub fn satisfies(
        &self,
        area: &Option<String>,
        project: &Option<String>,
        tags: &Option<Vec<String>>,
        created: &Option<DateRange>,
        last_modified: &Option<DateRange>,
    ) -> (r: bool)
        ensures
            r == meets(self@, criteria_of(*area, *project, *tags, *created, *last_modified)),
    {
        if let Some(area) = area {
            if self.area != *area {
                return false;
            }
        }
        if let Some(project) = project {
            if self.project != *project {
                return false;
            }
        }
        if let Some(tags) = tags {
            if !share_tag(&self.tags, tags) {
                return false;
            }
        }
        if let Some(created) = created {
            if !created.within(self.date_of.creation.as_str()) {
                return false;
            }
        }
        if let Some(last_modified) = last_modified {
            if !last_modified.within(self.date_of.last_modification.as_str()) {
                return false;
            }
        }
        true
    }
}

/// A copy of an optional string.
pub fn copy_opt(value: &Option<String>) -> (copy: Option<String>)
    ensures
        opt_text(copy) == opt_text(*value),
{
    match value {
        Some(s) => Some(s.clone()),
        None => None,
    }
}

impl HeaderDoc {
    /// A copy of the header.
    pub fn clone_doc(&self) -> (copy: HeaderDoc)
        ensures
            copy@ == self@,
    {
        HeaderDoc {
            tags: match &self.tags {
                Some(tags) => Some(copy_texts(tags)),
                None => None,
            },
            project: copy_opt(&self.project),
            area: copy_opt(&self.area),
            url: copy_opt(&self.url),
            date_of: match &self.date_of {
                Some(d) => Some(
                    DatesDoc {
                        creation: copy_opt(&d.creation),
                        last_modification: copy_opt(&d.last_modification),
                    },
                ),
                None => None,
            },
        }
    }
}

/// The text as a header states it: itself, or nothing where it is empty.
pub fn stated(text: &String) -> (value: Option<String>)
    ensures
        opt_text(value) == unless_empty(text@),
{
    if text.as_str().is_empty() {
        None
    } else {
        Some(text.clone())
    }
}

} // verus!
