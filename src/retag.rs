use vstd::prelude::*;
use vstd::string::*;
use crate::tag_model::{
    album_id, apply_metadata, artist_id, empty_tag, frames_with, lemma_retag_repeatable,
    lemma_retag_sets_fields, retagged, single_text_frame, tag_frames, text_of, title_id, FrameView,
};

verus! {

/// Why a rewrite stopped. Each kind carries the path or the description that its message
/// names.
pub enum RetagError {
    /// The source file does not exist.
    SourceNotFound { path: String },
    /// The source holds a tag that could not be parsed.
    TagReadFailed { detail: String },
    /// The export directory could not be created.
    CreateDirFailed { path: String },
    /// The source could not be copied to the destination.
    CopyFailed { path: String },
    /// The tag could not be written into the destination.
    TagWriteFailed { path: String },
}

impl RetagError {
    /// The human-readable description of the error.
    pub open spec fn message_view(&self) -> Seq<char> {
        match self {
            RetagError::SourceNotFound { path } => "Source file not found: "@ + path@,
            RetagError::TagReadFailed { detail } => "Failed to read ID3 tag: "@ + detail@,
            RetagError::CreateDirFailed { path } => "Failed to create export directory: "@ + path@,
            RetagError::CopyFailed { path } => "Failed to copy file to "@ + path@,
            RetagError::TagWriteFailed { path } => "Failed to write ID3 tag to "@ + path@,
        }
    }

    /// Describes the error in words, naming the path or the parser's description.
    pub fn message(&self) -> (r: String)
        ensures
            r@ == self.message_view(),
    {
        match self {
            RetagError::SourceNotFound { path } => {
                let mut m = String::from_str("Source file not found: ");
                m.append(path.as_str());
                m
            },
            RetagError::TagReadFailed { detail } => {
                let mut m = String::from_str("Failed to read ID3 tag: ");
                m.append(detail.as_str());
                m
            },
            RetagError::CreateDirFailed { path } => {
                let mut m = String::from_str("Failed to create export directory: ");
                m.append(path.as_str());
                m
            },
            RetagError::CopyFailed { path } => {
                let mut m = String::from_str("Failed to copy file to ");
                m.append(path.as_str());
                m
            },
            RetagError::TagWriteFailed { path } => {
                let mut m = String::from_str("Failed to write ID3 tag to ");
                m.append(path.as_str());
                m
            },
        }
    }
}

/// The name of the file a rewrite produces: `<artist> - <title>.mp3`.
pub open spec fn file_name_of(artist: Seq<char>, title: Seq<char>) -> Seq<char> {
    artist + " - "@ + title + ".mp3"@
}

/// The message reporting a successful rewrite into `dest`.
pub open spec fn success_of(dest: Seq<char>) -> Seq<char> {
    "Successfully saved to "@ + dest
}

/// The single string a caller receives for an outcome: the success message as it is, or the
/// error's description behind `Error: `.
pub open spec fn report_of(outcome: Result<String, RetagError>) -> Seq<char> {
    match outcome {
        Ok(s) => s@,
        Err(e) => "Error: "@ + e.message_view(),
    }
}

/// Builds the destination file name from the artist and the title, as they are.
pub fn destination_file_name(artist: &str, title: &str) -> (r: String)
    ensures
        r@ == file_name_of(artist@, title@),
{
    let mut name = String::from_str(artist);
    name.append(" - ");
    name.append(title);
    name.append(".mp3");
    name
}

/// Builds the confirmation returned once the destination `dest` is written.
pub fn success_message(dest: &str) -> (r: String)
    ensures
        r@ == success_of(dest@),
{
    let mut m = String::from_str("Successfully saved to ");
    m.append(dest);
    m
}

/// Turns an outcome into the one string handed to the caller.
pub fn report(outcome: &Result<String, RetagError>) -> (r: String)
    ensures
        r@ == report_of(*outcome),
{
    match outcome {
        Ok(s) => s.clone(),
        Err(e) => {
            let mut m = String::from_str("Error: ");
            let d = e.message();
            m.append(d.as_str());
            m
        },
    }
}

/// What the source's tag turned out to be when it was read.
pub enum TagSource {
    /// A well-formed tag, with all of its frames.
    Found(id3::Tag),
    /// The file holds no tag.
    Absent,
    /// A tag is there but could not be parsed; the parser's description.
    Unreadable(String),
}

/// The frames a rewrite starts from: those of the tag found, or none when there is no tag.
pub open spec fn base_frames(found: TagSource) -> Seq<FrameView> {
    match found {
        TagSource::Found(t) => tag_frames(t),
        _ => Seq::empty(),
    }
}

/// The tag a rewrite starts from: the one found, or an empty one when the file holds no tag.
/// A tag that could not be parsed stops the rewrite.
pub fn base_tag(found: TagSource) -> (r: Result<id3::Tag, RetagError>)
    ensures
        match found {
            TagSource::Found(t) => r == Ok::<id3::Tag, RetagError>(t),
            TagSource::Absent => r is Ok && tag_frames(r->Ok_0) == Seq::<FrameView>::empty(),
            TagSource::Unreadable(d) => r == Err::<id3::Tag, RetagError>(
                RetagError::TagReadFailed { detail: d },
            ),
        },
{
    match found {
        TagSource::Found(t) => Ok(t),
        TagSource::Absent => Ok(empty_tag()),
        TagSource::Unreadable(d) => Err(RetagError::TagReadFailed { detail: d }),
    }
}

/// The revision every rewritten tag is written in.
pub open spec fn target_version() -> id3::Version {
    id3::Version::Id3v24
}

/// One rewrite: the source file, the directory to export into, and the three values to set.
pub struct Request {
    pub source: String,
    pub export_dir: String,
    pub artist: String,
    pub title: String,
    pub album: String,
}

impl Request {
    /// Gathers the five arguments of a rewrite.
    pub fn new(source: &str, export_dir: &str, artist: &str, title: &str, album: &str) -> (r:
        Request)
        ensures
            r.source@ == source@,
            r.export_dir@ == export_dir@,
            r.artist@ == artist@,
            r.title@ == title@,
            r.album@ == album@,
    {
        Request {
            source: String::from_str(source),
            export_dir: String::from_str(export_dir),
            artist: String::from_str(artist),
            title: String::from_str(title),
            album: String::from_str(album),
        }
    }
}

/// Where a rewrite stands, and what it awaits from the outside.
pub enum Stage {
    /// Awaits whether the source exists.
    CheckingSource,
    /// Awaits the source's tag.
    ReadingTag,
    /// Holds the updated tag; awaits the creation of the export directory.
    CreatingDir { tag: id3::Tag },
    /// Holds the updated tag; awaits the copy of the source.
    Copying { tag: id3::Tag },
    /// Awaits the writing of the tag into the destination `dest`.
    WritingTag { dest: String },
    /// The rewrite is over.
    Finished,
}

/// What the outside reports after carrying out an action.
pub enum Event {
    /// Whether the source file exists.
    SourceChecked { exists: bool },
    /// What reading the source's tag gave.
    TagRead { found: TagSource },
    /// Whether the export directory now exists.
    DirCreated { ok: bool },
    /// The destination path the source was copied to, and whether the copy succeeded.
    Copied { dest: String, ok: bool },
    /// Whether the tag was written into the destination.
    TagWritten { ok: bool },
}

/// What the outside is asked to do next.
pub enum Action {
    /// Tell whether the file at `path` exists.
    CheckSource { path: String },
    /// Read the tag of the file at `path`.
    ReadTag { path: String },
    /// Create the directory `path` and all its missing parents.
    CreateDir { path: String },
    /// Copy the file `source` to `file_name` inside the directory `dir`, replacing any file
    /// there.
    CopyInto { source: String, dir: String, file_name: String },
    /// Write `tag` into the file at `path`, in the revision `version`.
    WriteTag { tag: id3::Tag, path: String, version: id3::Version },
    /// Stop, with this outcome.
    Finish { outcome: Result<String, RetagError> },
}

impl Stage {
    /// The event this stage waits for.
    pub open spec fn awaits(&self, event: Event) -> bool {
        match self {
            Stage::CheckingSource => event is SourceChecked,
            Stage::ReadingTag => event is TagRead,
            Stage::CreatingDir { .. } => event is DirCreated,
            Stage::Copying { .. } => event is Copied,
            Stage::WritingTag { .. } => event is TagWritten,
            Stage::Finished => false,
        }
    }

    /// Tells whether this stage waits for `event`.
    pub fn accepts(&self, event: &Event) -> (r: bool)
        ensures
            r == self.awaits(*event),
    {
        match self {
            Stage::CheckingSource => matches!(event, Event::SourceChecked { .. }),
            Stage::ReadingTag => matches!(event, Event::TagRead { .. }),
            Stage::CreatingDir { .. } => matches!(event, Event::DirCreated { .. }),
            Stage::Copying { .. } => matches!(event, Event::Copied { .. }),
            Stage::WritingTag { .. } => matches!(event, Event::TagWritten { .. }),
            Stage::Finished => false,
        }
    }
}

/// An outcome that stops the rewrite with `e`.
pub open spec fn stop_with(e: RetagError) -> Action {
    Action::Finish { outcome: Err(e) }
}

/// From `stage`, the event `event` leads to the stage `next` and the action `action`.
pub open spec fn transition(
    req: Request,
    stage: Stage,
    event: Event,
    next: Stage,
    action: Action,
) -> bool {
    match (stage, event) {
        (Stage::CheckingSource, Event::SourceChecked { exists }) => if exists {
            next == Stage::ReadingTag && action == Action::ReadTag { path: req.source }
        } else {
            next == Stage::Finished && action == stop_with(
                RetagError::SourceNotFound { path: req.source },
            )
        },
        (Stage::ReadingTag, Event::TagRead { found }) => match found {
            TagSource::Unreadable(d) => next == Stage::Finished && action == stop_with(
                RetagError::TagReadFailed { detail: d },
            ),
            _ => {
                &&& next is CreatingDir
                &&& retagged(
                    base_frames(found),
                    tag_frames(next->CreatingDir_tag),
                    req.artist@,
                    req.title@,
                    req.album@,
                )
                &&& action == Action::CreateDir { path: req.export_dir }
            },
        },
        (Stage::CreatingDir { tag }, Event::DirCreated { ok }) => if ok {
            &&& next == Stage::Copying { tag }
            &&& action is CopyInto
            &&& action->CopyInto_source == req.source
            &&& action->CopyInto_dir == req.export_dir
            &&& action->CopyInto_file_name@ == file_name_of(req.artist@, req.title@)
        } else {
            next == Stage::Finished && action == stop_with(
                RetagError::CreateDirFailed { path: req.export_dir },
            )
        },
        (Stage::Copying { tag }, Event::Copied { dest, ok }) => if ok {
            next == Stage::WritingTag { dest } && action == Action::WriteTag {
                tag,
                path: dest,
                version: target_version(),
            }
        } else {
            next == Stage::Finished && action == stop_with(RetagError::CopyFailed { path: dest })
        },
        (Stage::WritingTag { dest }, Event::TagWritten { ok }) => {
            &&& next == Stage::Finished
            &&& action is Finish
            &&& if ok {
                &&& action->Finish_outcome is Ok
                &&& action->Finish_outcome->Ok_0@ == success_of(dest@)
            } else {
                action->Finish_outcome == Err::<String, RetagError>(
                    RetagError::TagWriteFailed { path: dest },
                )
            }
        },
        _ => false,
    }
}

/// The first stage of a rewrite, and its first action: check that the source exists.
pub fn start(req: &Request) -> (r: (Stage, Action))
    ensures
        r.0 == Stage::CheckingSource,
        r.1 == (Action::CheckSource { path: req.source }),
{
    (Stage::CheckingSource, Action::CheckSource { path: req.source.clone() })
}

/// Takes the rewrite one step on: from `stage` and the event it awaited, the next stage and
/// the next action.
pub fn step(req: &Request, stage: Stage, event: Event) -> (r: (Stage, Action))
    requires
        stage.awaits(event),
    ensures
        transition(*req, stage, event, r.0, r.1),
{
    match (stage, event) {
        (Stage::CheckingSource, Event::SourceChecked { exists }) => {
            if exists {
                (Stage::ReadingTag, Action::ReadTag { path: req.source.clone() })
            } else {
                let e = RetagError::SourceNotFound { path: req.source.clone() };
                (Stage::Finished, Action::Finish { outcome: Err(e) })
            }
        },
        (Stage::ReadingTag, Event::TagRead { found }) => {
            let ghost base = base_frames(found);
            match base_tag(found) {
                Ok(t) => {
                    let mut tag = t;
                    apply_metadata(&mut tag, req.artist.as_str(), req.title.as_str(), req.album.as_str());
                    (Stage::CreatingDir { tag }, Action::CreateDir { path: req.export_dir.clone() })
                },
                Err(e) => (Stage::Finished, Action::Finish { outcome: Err(e) }),
            }
        },
        (Stage::CreatingDir { tag }, Event::DirCreated { ok }) => {
            if ok {
                let file_name = destination_file_name(req.artist.as_str(), req.title.as_str());
                let action = Action::CopyInto {
                    source: req.source.clone(),
                    dir: req.export_dir.clone(),
                    file_name,
                };
                (Stage::Copying { tag }, action)
            } else {
                let e = RetagError::CreateDirFailed { path: req.export_dir.clone() };
                (Stage::Finished, Action::Finish { outcome: Err(e) })
            }
        },
        (Stage::Copying { tag }, Event::Copied { dest, ok }) => {
            if ok {
                let path = dest.clone();
                (Stage::WritingTag { dest }, Action::WriteTag { tag, path, version: id3::Version::Id3v24 })
            } else {
                (Stage::Finished, Action::Finish { outcome: Err(RetagError::CopyFailed { path: dest }) })
            }
        },
        (Stage::WritingTag { dest }, Event::TagWritten { ok }) => {
            if ok {
                let m = success_message(dest.as_str());
                (Stage::Finished, Action::Finish { outcome: Ok(m) })
            } else {
                (Stage::Finished, Action::Finish { outcome: Err(RetagError::TagWriteFailed { path: dest }) })
            }
        },
        (stage, _) => {
            proof {
                assert(false);
            }
            (stage, Action::Finish { outcome: Err(RetagError::SourceNotFound { path: req.source.clone() }) })
        },
    }
}

/// The five steps of a run in which every outside action succeeds: the source exists, its tag
/// reads as `found`, the directory is created, the copy lands at `dest`, the tag is written.
pub open spec fn successful_run(
    req: Request,
    found: TagSource,
    dest: String,
    stages: Seq<Stage>,
    actions: Seq<Action>,
) -> bool {
    &&& stages.len() == 5
    &&& actions.len() == 5
    &&& transition(req, Stage::CheckingSource, Event::SourceChecked { exists: true }, stages[0], actions[0])
    &&& transition(req, stages[0], Event::TagRead { found }, stages[1], actions[1])
    &&& transition(req, stages[1], Event::DirCreated { ok: true }, stages[2], actions[2])
    &&& transition(req, stages[2], Event::Copied { dest, ok: true }, stages[3], actions[3])
    &&& transition(req, stages[3], Event::TagWritten { ok: true }, stages[4], actions[4])
}

/// A run in which every outside action succeeds copies the source to
/// `<artist> - <title>.mp3` in the export directory, writes into it a tag in the fixed
/// revision whose artist, title and album read back as given (when the source's tag held at
/// most one text frame for each), and reports success with the destination path.
pub proof fn lemma_successful_run(
    req: Request,
    found: TagSource,
    dest: String,
    stages: Seq<Stage>,
    actions: Seq<Action>,
)
    requires
        successful_run(req, found, dest, stages, actions),
        single_text_frame(base_frames(found), artist_id()),
        single_text_frame(base_frames(found), title_id()),
        single_text_frame(base_frames(found), album_id()),
    ensures
        !(found is Unreadable),
        actions[2] is CopyInto,
        actions[2]->CopyInto_source == req.source,
        actions[2]->CopyInto_dir == req.export_dir,
        actions[2]->CopyInto_file_name@ == file_name_of(req.artist@, req.title@),
        actions[3] is WriteTag,
        actions[3]->WriteTag_path == dest,
        actions[3]->WriteTag_version == target_version(),
        text_of(tag_frames(actions[3]->WriteTag_tag), artist_id()) == Some(req.artist@),
        text_of(tag_frames(actions[3]->WriteTag_tag), title_id()) == Some(req.title@),
        text_of(tag_frames(actions[3]->WriteTag_tag), album_id()) == Some(req.album@),
        actions[4] is Finish,
        actions[4]->Finish_outcome is Ok,
        report_of(actions[4]->Finish_outcome) == success_of(dest@),
        stages[4] == Stage::Finished,
{
    lemma_retag_sets_fields(
        base_frames(found),
        tag_frames(stages[1]->CreatingDir_tag),
        req.artist@,
        req.title@,
        req.album@,
    );
}

/// Two runs of the same request over the same source tag, in which every outside action
/// succeeds, copy to the same file name and write tags that read alike for every identifier:
/// the second run's file is what the first one's was, and replaces it.
pub proof fn lemma_rerun_same_result(
    req: Request,
    found: TagSource,
    dest: String,
    stages1: Seq<Stage>,
    actions1: Seq<Action>,
    stages2: Seq<Stage>,
    actions2: Seq<Action>,
    id: Seq<char>,
)
    requires
        successful_run(req, found, dest, stages1, actions1),
        successful_run(req, found, dest, stages2, actions2),
        single_text_frame(base_frames(found), artist_id()),
        single_text_frame(base_frames(found), title_id()),
        single_text_frame(base_frames(found), album_id()),
    ensures
        actions2[2]->CopyInto_file_name@ == actions1[2]->CopyInto_file_name@,
        frames_with(tag_frames(actions2[3]->WriteTag_tag), id) == frames_with(
            tag_frames(actions1[3]->WriteTag_tag),
            id,
        ),
        text_of(tag_frames(actions2[3]->WriteTag_tag), id) == text_of(
            tag_frames(actions1[3]->WriteTag_tag),
            id,
        ),
        report_of(actions2[4]->Finish_outcome) == report_of(actions1[4]->Finish_outcome),
{
    lemma_successful_run(req, found, dest, stages1, actions1);
    lemma_successful_run(req, found, dest, stages2, actions2);
    lemma_retag_repeatable(
        base_frames(found),
        tag_frames(stages1[1]->CreatingDir_tag),
        tag_frames(stages2[1]->CreatingDir_tag),
        req.artist@,
        req.title@,
        req.album@,
        id,
    );
}

/// A source that does not exist ends the rewrite at once: no copy is asked for, and the
/// caller gets an error naming the path.
pub proof fn lemma_missing_source_stops(req: Request, next: Stage, action: Action)
    requires
        transition(req, Stage::CheckingSource, Event::SourceChecked { exists: false }, next, action),
    ensures
        next == Stage::Finished,
        forall|e: Event| !next.awaits(e),
        action == stop_with(RetagError::SourceNotFound { path: req.source }),
        report_of(action->Finish_outcome) == "Error: "@ + ("Source file not found: "@ + req.source@),
{
}

/// An export directory that cannot be created ends the rewrite before any copy: the caller
/// gets an error naming the directory.
pub proof fn lemma_dir_failure_stops(req: Request, stage: Stage, next: Stage, action: Action)
    requires
        stage is CreatingDir,
        transition(req, stage, Event::DirCreated { ok: false }, next, action),
    ensures
        next == Stage::Finished,
        forall|e: Event| !next.awaits(e),
        action == stop_with(RetagError::CreateDirFailed { path: req.export_dir }),
        report_of(action->Finish_outcome) == "Error: "@ + ("Failed to create export directory: "@
            + req.export_dir@),
{
}

} // verus!
