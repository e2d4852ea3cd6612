use id3::{Tag, TagLike, Version};
use id3_retag::retag::{
    base_tag, destination_file_name, report, start, step, success_message, Action, Event,
    Request, RetagError, Stage, TagSource,
};
use id3_retag::tag_model::apply_metadata;
use std::io::Cursor;

fn expect_copy(action: &Action) -> (String, String, String) {
    match action {
        Action::CopyInto { source, dir, file_name } => {
            (source.clone(), dir.clone(), file_name.clone())
        }
        _ => panic!("expected a copy"),
    }
}

fn expect_outcome(action: Action) -> Result<String, RetagError> {
    match action {
        Action::Finish { outcome } => outcome,
        _ => panic!("expected the end of the rewrite"),
    }
}

fn encode_and_read_back(tag: &Tag, version: Version) -> Tag {
    let mut bytes: Vec<u8> = Vec::new();
    tag.write_to(&mut bytes, version).unwrap();
    Tag::read_from2(Cursor::new(bytes)).unwrap()
}

/// Runs a rewrite in which every outside action succeeds; returns the copy action, the tag
/// handed over for writing with its version, and the outcome.
fn run_ok(req: &Request, found: TagSource, dest: &str) -> ((String, String, String), Tag, Version, Result<String, RetagError>) {
    let (stage, action) = start(req);
    assert!(matches!(action, Action::CheckSource { ref path } if path == &req.source));
    let (stage, action) = step(req, stage, Event::SourceChecked { exists: true });
    assert!(matches!(action, Action::ReadTag { ref path } if path == &req.source));
    let (stage, action) = step(req, stage, Event::TagRead { found });
    assert!(matches!(action, Action::CreateDir { ref path } if path == &req.export_dir));
    let (stage, action) = step(req, stage, Event::DirCreated { ok: true });
    let copy = expect_copy(&action);
    let (stage, action) = step(req, stage, Event::Copied { dest: dest.to_string(), ok: true });
    let (tag, version) = match action {
        Action::WriteTag { tag, path, version } => {
            assert_eq!(path, dest);
            (tag, version)
        }
        _ => panic!("expected a tag write"),
    };
    let (stage, action) = step(req, stage, Event::TagWritten { ok: true });
    assert!(matches!(stage, Stage::Finished));
    (copy, tag, version, expect_outcome(action))
}

#[test]
fn file_name_joins_artist_and_title() {
    assert_eq!(destination_file_name("Artist", "Title"), "Artist - Title.mp3");
    assert_eq!(destination_file_name("", ""), " - .mp3");
}

#[test]
fn success_message_names_destination() {
    assert_eq!(success_message("out/Artist - Title.mp3"), "Successfully saved to out/Artist - Title.mp3");
}

#[test]
fn each_error_has_its_message() {
    let cases = vec![
        (RetagError::SourceNotFound { path: "missing.mp3".to_string() }, "Source file not found: missing.mp3"),
        (RetagError::TagReadFailed { detail: "Parsing: bad frame".to_string() }, "Failed to read ID3 tag: Parsing: bad frame"),
        (RetagError::CreateDirFailed { path: "/root/x".to_string() }, "Failed to create export directory: /root/x"),
        (RetagError::CopyFailed { path: "out/a - b.mp3".to_string() }, "Failed to copy file to out/a - b.mp3"),
        (RetagError::TagWriteFailed { path: "out/a - b.mp3".to_string() }, "Failed to write ID3 tag to out/a - b.mp3"),
    ];
    for (e, m) in cases {
        assert_eq!(e.message(), m);
        assert_eq!(report(&Err(e)), format!("Error: {}", m));
    }
}

#[test]
fn report_passes_success_through() {
    assert_eq!(report(&Ok("Successfully saved to x".to_string())), "Successfully saved to x");
}

#[test]
fn absent_tag_starts_empty() {
    let t = base_tag(TagSource::Absent).ok().unwrap();
    assert_eq!(t.frames().count(), 0);
}

#[test]
fn unreadable_tag_is_an_error() {
    match base_tag(TagSource::Unreadable("Parsing".to_string())) {
        Err(RetagError::TagReadFailed { detail }) => assert_eq!(detail, "Parsing"),
        _ => panic!("expected a read failure"),
    }
}

#[test]
fn found_tag_is_kept() {
    let mut t = Tag::new();
    t.set_track(7);
    let b = base_tag(TagSource::Found(t)).ok().unwrap();
    assert_eq!(b.track(), Some(7));
}

#[test]
fn metadata_on_empty_tag_gives_three_frames() {
    let mut tag = Tag::new();
    apply_metadata(&mut tag, "Artist", "Title", "Album");
    let ids: Vec<String> = tag.frames().map(|f| f.id().to_string()).collect();
    assert_eq!(ids, vec!["TPE1", "TIT2", "TALB"]);
    assert_eq!(tag.artist(), Some("Artist"));
    assert_eq!(tag.title(), Some("Title"));
    assert_eq!(tag.album(), Some("Album"));
}

#[test]
fn metadata_replaces_old_values_and_keeps_track() {
    let mut tag = Tag::new();
    tag.set_artist("Old artist");
    tag.set_title("Old title");
    tag.set_album("Old album");
    tag.set_track(3);
    apply_metadata(&mut tag, "New artist", "New title", "New album");
    assert_eq!(tag.artist(), Some("New artist"));
    assert_eq!(tag.title(), Some("New title"));
    assert_eq!(tag.album(), Some("New album"));
    assert_eq!(tag.track(), Some(3));
    assert_eq!(tag.frames().count(), 4);
}

#[test]
fn untagged_source_scenario() {
    let req = Request::new("song.mp3", "out/", "Artist", "Title", "Album");
    let (copy, tag, version, outcome) = run_ok(&req, TagSource::Absent, "out/Artist - Title.mp3");
    assert_eq!(copy, ("song.mp3".to_string(), "out/".to_string(), "Artist - Title.mp3".to_string()));
    assert_eq!(version, Version::Id3v24);
    assert_eq!(report(&outcome), "Successfully saved to out/Artist - Title.mp3");
    let back = encode_and_read_back(&tag, version);
    assert_eq!(back.version(), Version::Id3v24);
    assert_eq!(back.artist(), Some("Artist"));
    assert_eq!(back.title(), Some("Title"));
    assert_eq!(back.album(), Some("Album"));
    assert_eq!(back.frames().count(), 3);
}

#[test]
fn tagged_source_keeps_track_number() {
    let mut src = Tag::with_version(Version::Id3v23);
    src.set_artist("Someone");
    src.set_track(5);
    let req = Request::new("a.mp3", "exports", "Band", "Song", "Record");
    let (copy, tag, version, outcome) = run_ok(&req, TagSource::Found(src), "exports/Band - Song.mp3");
    assert_eq!(copy.2, "Band - Song.mp3");
    assert!(outcome.is_ok());
    let back = encode_and_read_back(&tag, version);
    assert_eq!(back.artist(), Some("Band"));
    assert_eq!(back.title(), Some("Song"));
    assert_eq!(back.album(), Some("Record"));
    assert_eq!(back.track(), Some(5));
}

#[test]
fn missing_source_scenario() {
    let req = Request::new("missing.mp3", "out/", "Artist", "Title", "Album");
    let (stage, _) = start(&req);
    let (stage, action) = step(&req, stage, Event::SourceChecked { exists: false });
    assert!(matches!(stage, Stage::Finished));
    assert!(!stage.accepts(&Event::DirCreated { ok: true }));
    let r = report(&expect_outcome(action));
    assert!(r.starts_with("Error: "));
    assert!(r.contains("missing.mp3"));
    assert_eq!(r, "Error: Source file not found: missing.mp3");
}

#[test]
fn directory_failure_stops_before_copy() {
    let req = Request::new("song.mp3", "/proc/none/out", "A", "T", "B");
    let (stage, _) = start(&req);
    let (stage, _) = step(&req, stage, Event::SourceChecked { exists: true });
    let (stage, _) = step(&req, stage, Event::TagRead { found: TagSource::Absent });
    let (stage, action) = step(&req, stage, Event::DirCreated { ok: false });
    assert!(matches!(stage, Stage::Finished));
    assert_eq!(report(&expect_outcome(action)), "Error: Failed to create export directory: /proc/none/out");
}

#[test]
fn unreadable_tag_stops_the_run() {
    let req = Request::new("song.mp3", "out", "A", "T", "B");
    let (stage, _) = start(&req);
    let (stage, _) = step(&req, stage, Event::SourceChecked { exists: true });
    let (stage, action) = step(&req, stage, Event::TagRead { found: TagSource::Unreadable("bad header".to_string()) });
    assert!(matches!(stage, Stage::Finished));
    assert_eq!(report(&expect_outcome(action)), "Error: Failed to read ID3 tag: bad header");
}

#[test]
fn copy_and_write_failures_name_destination() {
    let req = Request::new("song.mp3", "out", "A", "T", "B");
    let (stage, _) = start(&req);
    let (stage, _) = step(&req, stage, Event::SourceChecked { exists: true });
    let (stage, _) = step(&req, stage, Event::TagRead { found: TagSource::Absent });
    let (copying, _) = step(&req, stage, Event::DirCreated { ok: true });
    let (stage, action) = step(&req, copying, Event::Copied { dest: "out/A - T.mp3".to_string(), ok: false });
    assert!(matches!(stage, Stage::Finished));
    assert_eq!(report(&expect_outcome(action)), "Error: Failed to copy file to out/A - T.mp3");

    let (stage, _) = start(&req);
    let (stage, _) = step(&req, stage, Event::SourceChecked { exists: true });
    let (stage, _) = step(&req, stage, Event::TagRead { found: TagSource::Absent });
    let (stage, _) = step(&req, stage, Event::DirCreated { ok: true });
    let (stage, _) = step(&req, stage, Event::Copied { dest: "out/A - T.mp3".to_string(), ok: true });
    let (stage, action) = step(&req, stage, Event::TagWritten { ok: false });
    assert!(matches!(stage, Stage::Finished));
    assert_eq!(report(&expect_outcome(action)), "Error: Failed to write ID3 tag to out/A - T.mp3");
}

#[test]
fn rerun_gives_same_file() {
    let req = Request::new("song.mp3", "out/", "Artist", "Title", "Album");
    let (c1, t1, v1, o1) = run_ok(&req, TagSource::Absent, "out/Artist - Title.mp3");
    let (c2, t2, v2, o2) = run_ok(&req, TagSource::Absent, "out/Artist - Title.mp3");
    assert_eq!(c1, c2);
    assert_eq!(v1, v2);
    assert_eq!(report(&o1), report(&o2));
    let b1 = encode_and_read_back(&t1, v1);
    let b2 = encode_and_read_back(&t2, v2);
    assert_eq!(b2.artist(), Some("Artist"));
    assert_eq!(b1.artist(), b2.artist());
    assert_eq!(b1.title(), b2.title());
    assert_eq!(b1.album(), b2.album());
}

#[test]
fn stage_accepts_only_its_event() {
    let req = Request::new("s", "d", "a", "t", "b");
    let (stage, _) = start(&req);
    assert!(stage.accepts(&Event::SourceChecked { exists: true }));
    assert!(!stage.accepts(&Event::TagWritten { ok: true }));
    let (stage, _) = step(&req, stage, Event::SourceChecked { exists: true });
    assert!(stage.accepts(&Event::TagRead { found: TagSource::Absent }));
    assert!(!stage.accepts(&Event::SourceChecked { exists: true }));
}
