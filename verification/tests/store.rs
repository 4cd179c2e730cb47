use queyd::api::{find_note, look_up, unreadable, MutationRoot, QueryRoot};
use queyd::dates::{DateRange, Timestamp};
use queyd::error::StoreError;
use queyd::note::{DatesDoc, HeaderDoc, Note};
use queyd::store::{date_from, FileWrite, Loaded, Queyd, Removal, SourceFile};
use queyd::render::{body_from, derive_body, derive_title, render, title_from};

fn strings(items: &[&str]) -> Vec<String> {
    items.iter().map(|s| s.to_string()).collect()
}

fn store() -> Queyd {
    Queyd { inside: "/home/me/ideas".to_string() }
}

fn now() -> Timestamp {
    Timestamp { secs: 1_700_000_000, nanos: 0 }
}

fn bare_header() -> HeaderDoc {
    HeaderDoc { tags: None, project: None, area: None, url: None, date_of: None }
}

fn file(path: &str, content: &str, header: Option<HeaderDoc>) -> SourceFile {
    SourceFile {
        path: path.to_string(),
        content: content.to_string(),
        header,
        created: Some(Timestamp { secs: 1431648000, nanos: 0 }),
        modified: Some(Timestamp { secs: 1431734400, nanos: 0 }),
    }
}

fn written(write: &FileWrite, note: &Note) -> SourceFile {
    SourceFile {
        path: write.path.clone(),
        content: write.content.clone(),
        header: Some(note.header()),
        created: None,
        modified: None,
    }
}

fn loaded_note(outcome: Loaded) -> Note {
    match outcome {
        Loaded::Note(note) => note,
        Loaded::Skip => panic!("skipped"),
        Loaded::Warn(e) => panic!("warned: {:?}", e),
    }
}

fn ids(notes: &[Note]) -> Vec<String> {
    notes.iter().map(|n| n.id.clone()).collect()
}

#[test]
fn store_lives_in_ideas_of_home() {
    assert_eq!(Queyd::new("/home/me").inside, "/home/me/ideas");
    assert_eq!(Queyd::new("/home/me/").inside, "/home/me/ideas");
    assert_eq!(Queyd::new("").inside, "ideas");
}

#[test]
fn rendering_gives_title_and_body() {
    let html = render("# Hello, *world*!\n\nplain text\n");
    assert_eq!(html, "<h1>Hello, <em>world</em>!</h1>\n<p>plain text</p>\n");
    assert_eq!(derive_title(&html), "Hello, world!");
    assert_eq!(derive_body(&html), "<p>plain text</p>");
}

#[test]
fn only_the_first_heading_leaves_the_body() {
    let html = render("# One\n\ntext\n\n# Two\n\nmore");
    assert_eq!(html, "<h1>One</h1>\n<p>text</p>\n<h1>Two</h1>\n<p>more</p>");
    assert_eq!(derive_title(&html), "One");
    assert_eq!(derive_body(&html), "<p>text</p>\n<h1>Two</h1>\n<p>more</p>");
}

#[test]
fn rendered_body_without_heading_has_no_title() {
    let html = render("only text");
    assert_eq!(derive_title(&html), "");
    assert_eq!(derive_body(&html), "<p>only text</p>");
}

#[test]
fn title_and_body_for_each_outcome_of_the_renderer() {
    assert_eq!(title_from(Some("T".to_string())), "T");
    assert_eq!(title_from(None), "");
    assert_eq!(body_from(Some("\n<p>x</p>\n".to_string()), "<h1>T</h1>\n<p>x</p>\n"), "<p>x</p>");
    assert_eq!(body_from(None, " <h1>T</h1>\n<p>x</p>\n"), "<h1>T</h1>\n<p>x</p>");
}

#[test]
fn load_reads_a_note() {
    let header = HeaderDoc {
        tags: Some(strings(&["a", "b"])),
        project: Some("garden".to_string()),
        area: None,
        url: Some("https://example.org".to_string()),
        date_of: Some(DatesDoc {
            creation: Some("2020-01-01T00:00:00+00:00".to_string()),
            last_modification: None,
        }),
    };
    let source = file(
        "/home/me/ideas/garden/roses.md",
        "---\ntags: [a, b]\nproject: garden\n---\n# Roses\n\nPrune in *March*.\n",
        Some(header),
    );
    let note = loaded_note(store().load(&source));
    assert_eq!(note.id, "garden/roses");
    assert_eq!(note.title, "Roses");
    assert_eq!(note.body, "<p>Prune in <em>March</em>.</p>");
    assert_eq!(note.tags, strings(&["a", "b"]));
    assert_eq!(note.project, "garden");
    assert_eq!(note.area, "");
    assert_eq!(note.url, "https://example.org");
    assert_eq!(note.date_of.creation, "2020-01-01T00:00:00+00:00");
    assert_eq!(note.date_of.last_modification, "2015-05-16T00:00:00+00:00");
}

#[test]
fn dates_come_from_header_then_file_system_then_stay_empty() {
    let at = Some(Timestamp { secs: 1431648000, nanos: 0 });
    assert_eq!(date_from("2020-01-01T00:00:00Z".to_string(), &at), "2020-01-01T00:00:00Z");
    assert_eq!(date_from(String::new(), &at), "2015-05-15T00:00:00+00:00");
    assert_eq!(date_from(String::new(), &None), "");
    assert_eq!(date_from("not a date".to_string(), &at), "not a date");
    let mut source = file("/home/me/ideas/x.md", "---\n---\nbody", Some(bare_header()));
    source.created = None;
    let note = loaded_note(store().load(&source));
    assert_eq!(note.date_of.creation, "");
    assert_eq!(note.date_of.last_modification, "2015-05-16T00:00:00+00:00");
}

#[test]
fn load_skips_what_is_no_note() {
    let plain = file("/home/me/ideas/readme.md", "Just a file.\n", None);
    assert!(matches!(store().load(&plain), Loaded::Skip));
    let outside = file("/elsewhere/x.md", "---\n---\nbody", Some(bare_header()));
    assert!(matches!(store().load(&outside), Loaded::Skip));
    let other = file("/home/me/ideas/x.txt", "---\n---\nbody", Some(bare_header()));
    assert!(matches!(store().load(&other), Loaded::Skip));
}

#[test]
fn load_warns_of_malformed_notes() {
    let open = file("/home/me/ideas/x.md", "---\ntags: [a]\n", None);
    assert!(matches!(store().load(&open), Loaded::Warn(StoreError::MalformedNote)));
    let unread = file("/home/me/ideas/x.md", "---\ntags: [a\n---\nbody", None);
    assert!(matches!(store().load(&unread), Loaded::Warn(StoreError::MalformedNote)));
}

#[test]
fn file_without_header_delimiter_is_left_out_of_the_list() {
    let files = vec![
        file("/home/me/ideas/readme.md", "No header here.\n", None),
        file("/home/me/ideas/a.md", "---\n---\n# A\n\ntext", Some(bare_header())),
    ];
    let notes = store().notes(&files, None, None, None, None, None);
    assert_eq!(ids(&notes), strings(&["a"]));
}

#[test]
fn malformed_file_does_not_stop_the_list() {
    let files = vec![
        file("/home/me/ideas/a.md", "---\n---\n# A\n\ntext", Some(bare_header())),
        file("/home/me/ideas/broken.md", "---\nno end", None),
        file("/home/me/ideas/unread.md", "---\n: :\n---\nx", None),
        file("/home/me/ideas/sub/b.md", "---\n---\n# B\n\ntext", Some(bare_header())),
    ];
    let notes = store().notes(&files, None, None, None, None, None);
    assert_eq!(ids(&notes), strings(&["a", "sub/b"]));
    assert_eq!(notes[1].title, "B");
}

#[test]
fn list_filters_after_dates_are_derived() {
    let files = vec![file("/home/me/ideas/a.md", "---\n---\n# A\n\ntext", Some(bare_header()))];
    let on_15th = DateRange {
        start: Timestamp { secs: 1431648000, nanos: 0 },
        end: Timestamp { secs: 1431648000 + 86399, nanos: 0 },
    };
    let found = store().notes(&files, None, None, None, Some(on_15th), None);
    assert_eq!(ids(&found), strings(&["a"]));
    let none = store().notes(&files, None, None, None, None, Some(on_15th));
    assert!(none.is_empty());
}

#[test]
fn list_keeps_notes_that_meet_the_criteria() {
    let garden = HeaderDoc { project: Some("garden".to_string()), ..bare_header() };
    let tagged = HeaderDoc { tags: Some(strings(&["x"])), ..bare_header() };
    let files = vec![
        file("/home/me/ideas/a.md", "---\n---\n# A\n", Some(garden)),
        file("/home/me/ideas/b.md", "---\n---\n# B\n", Some(tagged)),
        file("/home/me/ideas/c.md", "---\n---\n# C\n", Some(bare_header())),
    ];
    let q = QueryRoot;
    let by_project = q.notes(&store(), &files, None, Some("garden".to_string()), None, None, None);
    assert_eq!(ids(&by_project), strings(&["a"]));
    let by_tag = q.notes(&store(), &files, None, None, Some(strings(&["x", "y"])), None, None);
    assert_eq!(ids(&by_tag), strings(&["b"]));
    let all = q.notes(&store(), &files, None, None, None, None, None);
    assert_eq!(ids(&all), strings(&["a", "b", "c"]));
}

#[test]
fn add_note_gives_path_directory_and_text() {
    let m = MutationRoot;
    let note = m
        .add(
            "Roses".to_string(),
            Some("My Garden".to_string()),
            None,
            "Prune in March.".to_string(),
            Some(strings(&["plants"])),
            None,
            &now(),
        )
        .unwrap();
    assert_eq!(note.id, "my-garden/roses");
    let write = store().add_note(&note, "tags:\n- plants\nproject: My Garden\n").unwrap();
    assert_eq!(write.path, "/home/me/ideas/my-garden/roses.md");
    assert_eq!(write.dir, "/home/me/ideas/my-garden");
    assert_eq!(
        write.content,
        "---\ntags:\n- plants\nproject: My Garden\n---\n# Roses\n\nPrune in March."
    );
}

#[test]
fn add_note_refuses_identifier_that_escapes() {
    let mut note = Note::from_header(bare_header());
    note.id = "../outside".to_string();
    assert_eq!(store().add_note(&note, "").err(), Some(StoreError::PathEscape));
    note.id = "/etc/cron".to_string();
    assert_eq!(store().add_note(&note, "").err(), Some(StoreError::PathEscape));
}

#[test]
fn add_stamps_both_dates_with_the_current_time() {
    let note = MutationRoot
        .add("T".to_string(), None, Some("inbox".to_string()), "b".to_string(), None, None, &now())
        .unwrap();
    assert_eq!(note.date_of.creation, "2023-11-14T22:13:20+00:00");
    assert_eq!(note.date_of.last_modification, "2023-11-14T22:13:20+00:00");
    assert_eq!(note.title, "T");
    assert_eq!(note.body, "b");
    assert_eq!(note.project, "");
    assert_eq!(note.area, "inbox");
    assert_eq!(note.url, "");
    assert!(note.tags.is_empty());
    assert_eq!(note.id, "t");
}

#[test]
fn add_uses_given_identifier_verbatim() {
    let note = MutationRoot
        .add(
            "Title".to_string(),
            Some("P".to_string()),
            None,
            String::new(),
            None,
            Some("Custom/Id.v2".to_string()),
            &now(),
        )
        .unwrap();
    assert_eq!(note.id, "Custom/Id.v2");
    assert_eq!(note.project, "P");
}

#[test]
fn add_refuses_empty_identifier() {
    let m = MutationRoot;
    let r = m.add(String::new(), None, None, String::new(), None, None, &now());
    assert_eq!(r.err(), Some(StoreError::EmptyIdentifier));
    let r = m.add(String::new(), None, None, "\nlater".to_string(), None, None, &now());
    assert_eq!(r.err(), Some(StoreError::EmptyIdentifier));
    let r = m.add("T".to_string(), None, None, String::new(), None, Some(String::new()), &now());
    assert_eq!(r.err(), Some(StoreError::EmptyIdentifier));
}

#[test]
fn add_refuses_given_identifier_that_escapes() {
    let m = MutationRoot;
    let escaping = Some("../x".to_string());
    let r = m.add("T".to_string(), None, None, String::new(), None, escaping, &now());
    assert_eq!(r.err(), Some(StoreError::PathEscape));
    let r = m.add("T".to_string(), None, None, String::new(), None, Some("/x".to_string()), &now());
    assert_eq!(r.err(), Some(StoreError::PathEscape));
}

#[test]
fn delete_names_the_file_or_refuses() {
    assert_eq!(store().delete_note("a/b"), Ok("/home/me/ideas/a/b.md".to_string()));
    assert_eq!(store().delete_note("../b"), Err(StoreError::PathEscape));
    assert_eq!(MutationRoot.delete(&store(), "hello"), Ok("/home/me/ideas/hello.md".to_string()));
    assert_eq!(MutationRoot.delete(&store(), "a/../../b"), Err(StoreError::PathEscape));
}

#[test]
fn removal_outcome_becomes_result() {
    assert_eq!(Queyd::removed(Removal::Done), Ok(()));
    assert_eq!(Queyd::removed(Removal::Missing), Err(StoreError::NotFound));
    assert_eq!(Queyd::removed(Removal::Failed), Err(StoreError::IoFailure));
}

#[test]
fn created_note_is_found_then_deleted_note_is_not() {
    let q = QueryRoot;
    let m = MutationRoot;
    let note = m
        .add(
            "Hello, world!".to_string(),
            Some(String::new()),
            None,
            "<p>first line</p>".to_string(),
            Some(strings(&["greeting", "first"])),
            None,
            &now(),
        )
        .unwrap();
    assert_eq!(note.id, "hello-world");
    let write = store().add_note(&note, "tags:\n- greeting\n- first\n").unwrap();
    let mut files = vec![written(&write, &note)];

    let back = q.note(&store(), &files, "hello-world").unwrap().unwrap();
    assert_eq!(back.title, "Hello, world!");
    assert_eq!(back.tags, strings(&["greeting", "first"]));
    assert_eq!(back.id, "hello-world");
    assert_eq!(back.project, "");
    assert_eq!(back.area, "");
    assert_eq!(back.date_of.creation, "2023-11-14T22:13:20+00:00");

    let path = m.delete(&store(), "hello-world").unwrap();
    assert_eq!(path, write.path);
    files.retain(|f| f.path != path);
    assert_eq!(q.note(&store(), &files, "hello-world").map(|n| n.is_none()), Ok(true));
}

#[test]
fn title_reads_back_as_the_text_of_its_heading() {
    let note = MutationRoot
        .add("Plain *and* `marked`".to_string(), None, None, "text".to_string(), None, None, &now())
        .unwrap();
    assert_eq!(note.id, "plain-and-marked");
    let write = store().add_note(&note, "").unwrap();
    assert_eq!(write.content, "---\n---\n# Plain *and* `marked`\n\ntext");
    let files = vec![written(&write, &note)];
    let back = QueryRoot.note(&store(), &files, &note.id).unwrap().unwrap();
    assert_eq!(back.title, "Plain and marked");
    assert_eq!(back.body, "<p>text</p>");
}

#[test]
fn note_that_is_not_there_is_not_found() {
    let files = vec![file("/home/me/ideas/a.md", "---\n---\n# A\n", Some(bare_header()))];
    assert!(QueryRoot.note(&store(), &files, "b").unwrap().is_none());
    assert!(QueryRoot.note(&store(), &Vec::new(), "a").unwrap().is_none());
    assert!(QueryRoot.note(&store(), &files, "../a").unwrap().is_none());
    assert_eq!(QueryRoot.note(&store(), &files, "a").unwrap().unwrap().title, "A");
    let notes = store().notes(&files, None, None, None, None, None);
    assert!(find_note(&notes, "A").is_none());
    assert_eq!(find_note(&notes, "a").unwrap().id, "a");
}

#[test]
fn edit_replaces_given_fields_and_keeps_the_rest() {
    let header = HeaderDoc {
        tags: Some(strings(&["old"])),
        project: Some("garden".to_string()),
        area: Some("inbox".to_string()),
        url: Some("https://example.org".to_string()),
        date_of: Some(DatesDoc {
            creation: Some("2020-01-01T00:00:00+00:00".to_string()),
            last_modification: Some("2020-02-02T00:00:00+00:00".to_string()),
        }),
    };
    let text = "---\nx\n---\n# Roses\n\nPrune.\n";
    let files = vec![file("/home/me/ideas/roses.md", text, Some(header))];
    let edited = MutationRoot
        .edit(
            &store(),
            &files,
            "roses",
            Some("Red roses".to_string()),
            None,
            None,
            None,
            Some(strings(&["new", "red"])),
            &now(),
        )
        .unwrap();
    assert_eq!(edited.id, "roses");
    assert_eq!(edited.title, "Red roses");
    assert_eq!(edited.body, "<p>Prune.</p>");
    assert_eq!(edited.tags, strings(&["new", "red"]));
    assert_eq!(edited.project, "garden");
    assert_eq!(edited.area, "inbox");
    assert_eq!(edited.url, "https://example.org");
    assert_eq!(edited.date_of.creation, "2020-01-01T00:00:00+00:00");
    assert_eq!(edited.date_of.last_modification, "2023-11-14T22:13:20+00:00");
}

#[test]
fn edit_keeps_creation_and_moves_last_modification_forward() {
    let header = HeaderDoc {
        date_of: Some(DatesDoc {
            creation: Some("2020-01-01T00:00:00+00:00".to_string()),
            last_modification: Some("2020-02-02T00:00:00+00:00".to_string()),
        }),
        ..bare_header()
    };
    let files = vec![file("/home/me/ideas/n.md", "---\nx\n---\n# N\n", Some(header))];
    let old = QueryRoot.note(&store(), &files, "n").unwrap().unwrap();
    let new = MutationRoot
        .edit(&store(), &files, "n", None, Some("text".to_string()), None, None, None, &now())
        .unwrap();
    assert_eq!(new.date_of.creation, old.date_of.creation);
    let until_now = DateRange { start: Timestamp { secs: 1580601600, nanos: 0 }, end: now() };
    assert!(until_now.within(&old.date_of.last_modification));
    let from_now = DateRange { start: now(), end: now() };
    assert!(from_now.within(&new.date_of.last_modification));
    assert_eq!(new.body, "text");
}

#[test]
fn edit_of_missing_note_is_not_found() {
    let files = vec![file("/home/me/ideas/a.md", "---\n---\n# A\n", Some(bare_header()))];
    let r = MutationRoot.edit(&store(), &files, "b", None, None, None, None, None, &now());
    assert_eq!(r.err(), Some(StoreError::NotFound));
    let r = MutationRoot.edit(&store(), &files, "../a", None, None, None, None, None, &now());
    assert_eq!(r.err(), Some(StoreError::NotFound));
    let r = MutationRoot.archive(&store(), &files, "b", &now());
    assert_eq!(r.err(), Some(StoreError::NotFound));
}

#[test]
fn look_up_of_malformed_note_fails() {
    let files = vec![
        file("/home/me/ideas/a.md", "---\n---\n# A\n", Some(bare_header())),
        file("/home/me/ideas/open.md", "---\ntags: [a]\n", None),
        file("/home/me/ideas/unread.md", "---\ntags: [a\n---\nbody", None),
        file("/home/me/ideas/plain.md", "no header", None),
    ];
    let q = QueryRoot;
    assert_eq!(q.note(&store(), &files, "open").err(), Some(StoreError::MalformedNote));
    assert_eq!(q.note(&store(), &files, "unread").err(), Some(StoreError::MalformedNote));
    assert!(q.note(&store(), &files, "plain").unwrap().is_none());
    assert!(q.note(&store(), &files, "a").unwrap().is_some());
    assert!(unreadable(&store(), &files, "open"));
    assert!(!unreadable(&store(), &files, "a"));
    assert!(!unreadable(&store(), &files, "plain"));
    assert!(!unreadable(&store(), &files, "missing"));
    assert!(look_up(&store(), &files, "a").unwrap().is_some());
    let r = MutationRoot.edit(&store(), &files, "open", None, None, None, None, None, &now());
    assert_eq!(r.err(), Some(StoreError::MalformedNote));
    let r = MutationRoot.archive(&store(), &files, "unread", &now());
    assert_eq!(r.err(), Some(StoreError::MalformedNote));
    let r = MutationRoot.edit(&store(), &files, "plain", None, None, None, None, None, &now());
    assert_eq!(r.err(), Some(StoreError::NotFound));
}

#[test]
fn edit_refuses_identifier_that_escapes() {
    let files = vec![file("/home/me/ideas//odd.md", "---\n---\n# Odd\n", Some(bare_header()))];
    assert_eq!(QueryRoot.note(&store(), &files, "/odd").unwrap().unwrap().title, "Odd");
    let r = MutationRoot.edit(&store(), &files, "/odd", None, None, None, None, None, &now());
    assert_eq!(r.err(), Some(StoreError::PathEscape));
}

#[test]
fn archive_filter_keeps_only_archived_notes() {
    let q = QueryRoot;
    let m = MutationRoot;
    let elsewhere = HeaderDoc { area: Some("inbox".to_string()), ..bare_header() };
    let mut files = vec![
        file("/home/me/ideas/plain.md", "---\n---\n# Plain\n\ntext", Some(bare_header())),
        file("/home/me/ideas/inbox.md", "---\narea: inbox\n---\n# Inbox\n\ntext", Some(elsewhere)),
        file("/home/me/ideas/done.md", "---\n---\n# Done\n\ntext", Some(bare_header())),
    ];
    let archive = Some("archive".to_string());
    assert!(q.notes(&store(), &files, archive.clone(), None, None, None, None).is_empty());

    let archived = m.archive(&store(), &files, "done", &now()).unwrap();
    assert_eq!(archived.area, "archive");
    assert_eq!(archived.title, "Done");
    let removed = store().delete_note(&archived.id).unwrap();
    let write = store().add_note(&archived, "area: archive\n").unwrap();
    assert_eq!(removed, write.path);
    files.retain(|f| f.path != removed);
    files.push(written(&write, &archived));

    let listed = q.notes(&store(), &files, archive, None, None, None, None);
    assert_eq!(ids(&listed), strings(&["done"]));
    assert_eq!(listed[0].area, "archive");
    let all = q.notes(&store(), &files, None, None, None, None, None);
    assert_eq!(ids(&all), strings(&["plain", "inbox", "done"]));
}
