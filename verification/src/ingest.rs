//! The upload pipeline as a state machine.
//!
//! One [`Ingest`] follows one uploaded file from the first received byte to
//! its row in the catalog. It performs no I/O itself: each step names the
//! [`Action`] that the caller has to carry out next, and the caller reports
//! how that went with the next [`Event`]. The stages follow each other in a
//! fixed order, every stage can fail, and nothing is registered before all
//! that precedes registration has succeeded.

use crate::cache::CatalogCache;
use crate::error::Error;
use crate::extract::ExtractorRun;
use crate::extract::FRAME_INDEX;
use crate::ids::VideoId;
use crate::names::declared_extension;
use crate::names::extension_of;
use crate::names::file_name;
use crate::names::file_name_of;
use crate::names::thumbnail_name;
use crate::names::thumbnail_name_of;
use crate::response::StatusCode;
use crate::response::CREATED;
use crate::sniff::infer_get;
use crate::sniff::sniff;
use crate::sniff::spec_verdict;
use vstd::prelude::*;
use vstd::string::StringExecFns;

verus! {

/// Where an upload stands.
#[derive(Clone, Copy, Debug, PartialEq, Eq, Structural)]
pub enum Stage {
    /// The upload's bytes are being written to a temporary file.
    Receiving,
    /// The temporary file's first bytes are being read and judged.
    Sniffing,
    /// The temporary file is being renamed to its final name.
    Renaming,
    /// The frame extractor is running on the final file.
    ExtractingFrame,
    /// The thumbnail is being rendered and stored.
    Thumbnailing,
    /// The video's row is being inserted into the catalog.
    Registering,
    /// The video is registered.
    Done,
    /// The upload was given up for the reason held.
    Failed(Error),
}

impl Stage {
    /// Whether the upload has come to its end, one way or the other.
    pub open spec fn terminal(self) -> bool {
        self is Done || self is Failed
    }

    /// How many stages lie between this one and the end, at most.
    pub open spec fn remaining(self) -> nat {
        match self {
            Stage::Receiving => 6,
            Stage::Sniffing => 5,
            Stage::Renaming => 4,
            Stage::ExtractingFrame => 3,
            Stage::Thumbnailing => 2,
            Stage::Registering => 1,
            Stage::Done => 0,
            Stage::Failed(_) => 0,
        }
    }
}

/// What the caller reports: how the action last asked for went.
#[derive(Debug, PartialEq, Eq)]
pub enum Event {
    /// The upload's bytes were written, flushed and closed, or were not.
    Received(Result<(), Error>),
    /// The file's first bytes were read and sniffed: the extension of the
    /// video that they show, or why there is none.
    Sniffed(Result<String, Error>),
    /// The temporary file was renamed, or was not.
    Renamed(Result<(), Error>),
    /// The extractor ran: the frame it wrote, or why there is none.
    Extracted(Result<Vec<u8>, Error>),
    /// The thumbnail was rendered and stored, or was not.
    Thumbnailed(Result<(), Error>),
    /// The catalog row was inserted, or was not.
    Registered(Result<(), Error>),
}

/// The mathematical content of an [`Event`].
pub enum EventView {
    Received(Result<(), Error>),
    Sniffed(Result<Seq<char>, Error>),
    Renamed(Result<(), Error>),
    Extracted(Result<Seq<u8>, Error>),
    Thumbnailed(Result<(), Error>),
    Registered(Result<(), Error>),
}

impl View for Event {
    type V = EventView;

    open spec fn view(&self) -> EventView {
        match self {
            Event::Received(r) => EventView::Received(*r),
            Event::Sniffed(r) => EventView::Sniffed(
                match r {
                    Ok(extension) => Ok(extension@),
                    Err(error) => Err(*error),
                },
            ),
            Event::Renamed(r) => EventView::Renamed(*r),
            Event::Extracted(r) => EventView::Extracted(
                match r {
                    Ok(frame) => Ok(frame@),
                    Err(error) => Err(*error),
                },
            ),
            Event::Thumbnailed(r) => EventView::Thumbnailed(*r),
            Event::Registered(r) => EventView::Registered(*r),
        }
    }
}

impl Event {
    /// The report on receiving: done, or failed as I/O fails.
    pub fn received(done: bool) -> (event: Event)
        ensures
            event@ == EventView::Received(if done { Ok(()) } else { Err(Error::IoFailure) }),
    {
        if done {
            Event::Received(Ok(()))
        } else {
            Event::Received(Err(Error::IoFailure))
        }
    }

    /// The report on sniffing: the verdict on the bytes that were read from
    /// the start of the file, or an I/O failure where none could be read.
    pub fn sniffed(read: Option<Vec<u8>>) -> (event: Event)
        ensures
            event@ == EventView::Sniffed(
                match read {
                    Some(prefix) => spec_verdict(infer_get(prefix@)),
                    None => Err(Error::IoFailure),
                },
            ),
    {
        match read {
            Some(prefix) => Event::Sniffed(sniff(prefix.as_slice())),
            None => Event::Sniffed(Err(Error::IoFailure)),
        }
    }

    /// The report on renaming: done, or failed as I/O fails.
    pub fn renamed(done: bool) -> (event: Event)
        ensures
            event@ == EventView::Renamed(if done { Ok(()) } else { Err(Error::IoFailure) }),
    {
        if done {
            Event::Renamed(Ok(()))
        } else {
            Event::Renamed(Err(Error::IoFailure))
        }
    }

    /// The report on the extractor: the frame that its run left behind, or
    /// why there is none.
    pub fn extracted(run: ExtractorRun) -> (event: Event)
        ensures
            event@ == EventView::Extracted(run.frame()),
    {
        Event::Extracted(run.into_frame())
    }

    /// The report on the thumbnail, given what rendering came to and, if it
    /// came to a thumbnail, whether that was stored: done, a decode failure
    /// where rendering failed, or an I/O failure where storing did.
    pub fn thumbnailed(rendered: bool, stored: bool) -> (event: Event)
        ensures
            event@ == EventView::Thumbnailed(
                if !rendered {
                    Err(Error::DecodeFailure)
                } else if !stored {
                    Err(Error::IoFailure)
                } else {
                    Ok(())
                },
            ),
    {
        if !rendered {
            Event::Thumbnailed(Err(Error::DecodeFailure))
        } else if !stored {
            Event::Thumbnailed(Err(Error::IoFailure))
        } else {
            Event::Thumbnailed(Ok(()))
        }
    }

    /// The report on registering: done, or failed as the store fails.
    pub fn registered(done: bool) -> (event: Event)
        ensures
            event@ == EventView::Registered(if done { Ok(()) } else { Err(Error::StoreFailure) }),
    {
        if done {
            Event::Registered(Ok(()))
        } else {
            Event::Registered(Err(Error::StoreFailure))
        }
    }
}

/// What the caller has to do next. File names are relative to the video
/// area, but for the thumbnail's, which is relative to the thumbnail area.
#[derive(Debug, PartialEq, Eq)]
pub enum Action {
    /// Write the upload's bytes to a new file of this name, flush and close
    /// it.
    Receive { path: String },
    /// Read the first bytes of this file and sniff them.
    Sniff { path: String },
    /// Rename the one file to the other, atomically.
    Rename { from: String, to: String },
    /// Run the frame extractor on this file for the frame of this index.
    ExtractFrame { path: String, index: usize },
    /// Render the thumbnail of this frame and store it under this name.
    Thumbnail { frame: Vec<u8>, path: String },
    /// Insert the row of this video into the catalog.
    Register { id: VideoId, extension: String },
    /// Signal that the catalog has changed and report this video as
    /// ingested.
    Publish { id: VideoId },
    /// Report the upload as failed for this reason.
    Abort { error: Error },
    /// Nothing: the event did not answer what was asked for, or the upload
    /// had come to its end before.
    Idle,
}

/// The mathematical content of an [`Action`].
pub enum ActionView {
    Receive { path: Seq<char> },
    Sniff { path: Seq<char> },
    Rename { from: Seq<char>, to: Seq<char> },
    ExtractFrame { path: Seq<char>, index: nat },
    Thumbnail { frame: Seq<u8>, path: Seq<char> },
    Register { id: VideoId, extension: Seq<char> },
    Publish { id: VideoId },
    Abort { error: Error },
    Idle,
}

impl ActionView {
    /// Whether the action asks for work, as opposed to reporting an end or
    /// nothing.
    pub open spec fn is_work(self) -> bool {
        !(self is Publish) && !(self is Abort) && !(self is Idle)
    }

    /// Whether `event` reports on the work that this action asks for.
    pub open spec fn answered_by(self, event: EventView) -> bool {
        match (self, event) {
            (ActionView::Receive { .. }, EventView::Received(_)) => true,
            (ActionView::Sniff { .. }, EventView::Sniffed(_)) => true,
            (ActionView::Rename { .. }, EventView::Renamed(_)) => true,
            (ActionView::ExtractFrame { .. }, EventView::Extracted(_)) => true,
            (ActionView::Thumbnail { .. }, EventView::Thumbnailed(_)) => true,
            (ActionView::Register { .. }, EventView::Registered(_)) => true,
            _ => false,
        }
    }
}

impl Action {
    /// Whether the action asks for work.
    pub fn is_work(&self) -> (work: bool)
        ensures
            work == self@.is_work(),
    {
        match self {
            Action::Publish { .. } => false,
            Action::Abort { .. } => false,
            Action::Idle => false,
            _ => true,
        }
    }
}

impl View for Action {
    type V = ActionView;

    open spec fn view(&self) -> ActionView {
        match self {
            Action::Receive { path } => ActionView::Receive { path: path@ },
            Action::Sniff { path } => ActionView::Sniff { path: path@ },
            Action::Rename { from, to } => ActionView::Rename { from: from@, to: to@ },
            Action::ExtractFrame { path, index } => ActionView::ExtractFrame {
                path: path@,
                index: *index as nat,
            },
            Action::Thumbnail { frame, path } => ActionView::Thumbnail {
                frame: frame@,
                path: path@,
            },
            Action::Register { id, extension } => ActionView::Register {
                id: *id,
                extension: extension@,
            },
            Action::Publish { id } => ActionView::Publish { id: *id },
            Action::Abort { error } => ActionView::Abort { error: *error },
            Action::Idle => ActionView::Idle,
        }
    }
}

/// The mathematical content of an [`Ingest`].
pub struct IngestView {
    /// The identifier that the upload was given.
    pub id: VideoId,
    /// The extension that the client declared.
    pub declared: Seq<char>,
    /// The extension that sniffing found; empty until it has.
    pub extension: Seq<char>,
    /// Where the upload stands.
    pub stage: Stage,
}

impl IngestView {
    /// The upload `id` of the declared name `name`, before anything has
    /// happened.
    pub open spec fn begin(id: VideoId, name: Seq<char>) -> IngestView {
        IngestView {
            id,
            declared: declared_extension(name),
            extension: Seq::empty(),
            stage: Stage::Receiving,
        }
    }

    /// The first action of an upload: receiving into the temporary file.
    pub open spec fn first_action(self) -> ActionView {
        ActionView::Receive { path: self.temporary_name() }
    }

    /// The name under which the upload is received: the identifier with the
    /// extension that the client declared.
    pub open spec fn temporary_name(self) -> Seq<char> {
        file_name(self.id, self.declared)
    }

    /// The name under which the video is kept: the identifier with the
    /// extension that sniffing found.
    pub open spec fn final_name(self) -> Seq<char> {
        file_name(self.id, self.extension)
    }

    /// The same upload at another stage.
    pub open spec fn at(self, stage: Stage) -> IngestView {
        IngestView { id: self.id, declared: self.declared, extension: self.extension, stage }
    }

    /// The upload after `event`, together with the action that the caller
    /// is asked for. An event that answers the action pending at the
    /// current stage moves the upload on, or fails it with the event's
    /// error; any other event leaves it where it is.
    pub open spec fn step(self, event: EventView) -> (IngestView, ActionView) {
        match (self.stage, event) {
            (Stage::Receiving, EventView::Received(Ok(_))) => (
                self.at(Stage::Sniffing),
                ActionView::Sniff { path: self.temporary_name() },
            ),
            (Stage::Sniffing, EventView::Sniffed(Ok(extension))) => {
                let next = IngestView {
                    id: self.id,
                    declared: self.declared,
                    extension,
                    stage: Stage::Renaming,
                };
                (next, ActionView::Rename { from: self.temporary_name(), to: next.final_name() })
            },
            (Stage::Renaming, EventView::Renamed(Ok(_))) => (
                self.at(Stage::ExtractingFrame),
                ActionView::ExtractFrame { path: self.final_name(), index: FRAME_INDEX as nat },
            ),
            (Stage::ExtractingFrame, EventView::Extracted(Ok(frame))) => (
                self.at(Stage::Thumbnailing),
                ActionView::Thumbnail { frame, path: thumbnail_name(self.id) },
            ),
            (Stage::Thumbnailing, EventView::Thumbnailed(Ok(_))) => (
                self.at(Stage::Registering),
                ActionView::Register { id: self.id, extension: self.extension },
            ),
            (Stage::Registering, EventView::Registered(Ok(_))) => (
                self.at(Stage::Done),
                ActionView::Publish { id: self.id },
            ),
            (Stage::Receiving, EventView::Received(Err(error))) => self.fail(error),
            (Stage::Sniffing, EventView::Sniffed(Err(error))) => self.fail(error),
            (Stage::Renaming, EventView::Renamed(Err(error))) => self.fail(error),
            (Stage::ExtractingFrame, EventView::Extracted(Err(error))) => self.fail(error),
            (Stage::Thumbnailing, EventView::Thumbnailed(Err(error))) => self.fail(error),
            (Stage::Registering, EventView::Registered(Err(error))) => self.fail(error),
            _ => (self, ActionView::Idle),
        }
    }

    /// The upload after a sequence of events.
    pub open spec fn run(self, events: Seq<EventView>) -> IngestView
        decreases events.len(),
    {
        if events.len() == 0 {
            self
        } else {
            self.run(events.drop_last()).step(events.last()).0
        }
    }

    /// The action that a new upload asks for once it has taken `events`.
    pub open spec fn asked(self, events: Seq<EventView>) -> ActionView {
        if events.len() == 0 {
            self.first_action()
        } else {
            self.run(events.drop_last()).step(events.last()).1
        }
    }

    /// Whether `action` is the kind of action that the upload's stage waits
    /// for, or reports the end that the upload has come to.
    pub open spec fn fits(self, action: ActionView) -> bool {
        match (self.stage, action) {
            (Stage::Receiving, ActionView::Receive { .. }) => true,
            (Stage::Sniffing, ActionView::Sniff { .. }) => true,
            (Stage::Renaming, ActionView::Rename { .. }) => true,
            (Stage::ExtractingFrame, ActionView::ExtractFrame { .. }) => true,
            (Stage::Thumbnailing, ActionView::Thumbnail { .. }) => true,
            (Stage::Registering, ActionView::Register { .. }) => true,
            (Stage::Done, ActionView::Publish { .. }) => true,
            (Stage::Failed(_), ActionView::Abort { .. }) => true,
            _ => false,
        }
    }

    /// The upload given up for `error`, and the action that reports it.
    pub open spec fn fail(self, error: Error) -> (IngestView, ActionView) {
        (self.at(Stage::Failed(error)), ActionView::Abort { error })
    }

    /// What the upload has come to: the identifier of the registered video,
    /// the reason of the failure, or nothing yet.
    pub open spec fn outcome(self) -> Option<Result<VideoId, Error>> {
        match self.stage {
            Stage::Done => Some(Ok(self.id)),
            Stage::Failed(error) => Some(Err(error)),
            _ => None,
        }
    }
}

/// One upload on its way through the pipeline.
pub struct Ingest {
    id: VideoId,
    declared: String,
    extension: String,
    stage: Stage,
}

impl View for Ingest {
    type V = IngestView;

    closed spec fn view(&self) -> IngestView {
        IngestView {
            id: self.id,
            declared: self.declared@,
            extension: self.extension@,
            stage: self.stage,
        }
    }
}

impl Ingest {
    /// Starts the upload of a file that the client calls `name`, under a
    /// fresh random identifier.
    pub fn start(name: &str) -> (started: (Ingest, Action))
        ensures
            started.0@ == IngestView::begin(started.0@.id, name@),
            started.1@ == started.0@.first_action(),
    {
        Ingest::begin(VideoId::generate(), name)
    }

    /// Starts the upload of a file that the client calls `name`, under the
    /// identifier `id`.
    pub fn begin(id: VideoId, name: &str) -> (started: (Ingest, Action))
        ensures
            started.0@ == IngestView::begin(id, name@),
            started.1@ == started.0@.first_action(),
    {
        let declared = extension_of(name);
        let path = file_name_of(id, declared);
        let ingest = Ingest {
            id,
            declared: String::from_str(declared),
            extension: String::new(),
            stage: Stage::Receiving,
        };
        (ingest, Action::Receive { path })
    }

    /// The upload's identifier.
    pub fn id(&self) -> (id: VideoId)
        ensures
            id == self@.id,
    {
        self.id
    }

    /// Where the upload stands.
    pub fn stage(&self) -> (stage: Stage)
        ensures
            stage == self@.stage,
    {
        self.stage
    }

    /// What the upload has come to, if it has come to its end.
    pub fn outcome(&self) -> (outcome: Option<Result<VideoId, Error>>)
        ensures
            outcome == self@.outcome(),
    {
        match self.stage {
            Stage::Done => Some(Ok(self.id)),
            Stage::Failed(error) => Some(Err(error)),
            _ => None,
        }
    }

    fn give_up(&mut self, error: Error) -> (action: Action)
        ensures
            (final(self)@, action@) == old(self)@.fail(error),
    {
        self.stage = Stage::Failed(error);
        Action::Abort { error }
    }

    /// Takes the report of how the last action went, moves the upload on
    /// and names the next action.
    pub fn step(&mut self, event: Event) -> (action: Action)
        ensures
            (final(self)@, action@) == old(self)@.step(event@),
    {
        match event {
            Event::Received(r) => match self.stage {
                Stage::Receiving => match r {
                    Ok(_) => {
                        self.stage = Stage::Sniffing;
                        Action::Sniff { path: file_name_of(self.id, self.declared.as_str()) }
                    },
                    Err(error) => self.give_up(error),
                },
                _ => Action::Idle,
            },
            Event::Sniffed(r) => match self.stage {
                Stage::Sniffing => match r {
                    Ok(extension) => {
                        let from = file_name_of(self.id, self.declared.as_str());
                        let to = file_name_of(self.id, extension.as_str());
                        self.extension = extension;
                        self.stage = Stage::Renaming;
                        Action::Rename { from, to }
                    },
                    Err(error) => self.give_up(error),
                },
                _ => Action::Idle,
            },
            Event::Renamed(r) => match self.stage {
                Stage::Renaming => match r {
                    Ok(_) => {
                        self.stage = Stage::ExtractingFrame;
                        Action::ExtractFrame {
                            path: file_name_of(self.id, self.extension.as_str()),
                            index: FRAME_INDEX,
                        }
                    },
                    Err(error) => self.give_up(error),
                },
                _ => Action::Idle,
            },
            Event::Extracted(r) => match self.stage {
                Stage::ExtractingFrame => match r {
                    Ok(frame) => {
                        self.stage = Stage::Thumbnailing;
                        Action::Thumbnail { frame, path: thumbnail_name_of(self.id) }
                    },
                    Err(error) => self.give_up(error),
                },
                _ => Action::Idle,
            },
            Event::Thumbnailed(r) => match self.stage {
                Stage::Thumbnailing => match r {
                    Ok(_) => {
                        self.stage = Stage::Registering;
                        Action::Register { id: self.id, extension: self.extension.clone() }
                    },
                    Err(error) => self.give_up(error),
                },
                _ => Action::Idle,
            },
            Event::Registered(r) => match self.stage {
                Stage::Registering => match r {
                    Ok(_) => {
                        self.stage = Stage::Done;
                        Action::Publish { id: self.id }
                    },
                    Err(error) => self.give_up(error),
                },
                _ => Action::Idle,
            },
        }
    }

    /// Ends the upload towards the catalog cache: signals the cache if and
    /// only if the video is registered, and returns what the upload has
    /// come to.
    pub fn settle(&self, catalog: &mut CatalogCache) -> (outcome: Option<Result<VideoId, Error>>)
        ensures
            outcome == self@.outcome(),
            self@.stage is Done ==> final(catalog)@ == old(catalog)@.invalidated(),
            !(self@.stage is Done) ==> final(catalog)@ == old(catalog)@,
    {
        match self.stage {
            Stage::Done => {
                catalog.invalidate();
                Some(Ok(self.id))
            },
            Stage::Failed(error) => Some(Err(error)),
            _ => None,
        }
    }
}

/// The uploads of one request, taken one after the other. The request goes
/// on to its next file only while none has failed, and reports the first
/// failure if there is one: files registered before it stay registered.
pub struct Submission {
    registered: Vec<VideoId>,
    failure: Option<Error>,
}

/// The mathematical content of a [`Submission`].
pub struct SubmissionView {
    /// The videos registered so far, in the order of their upload.
    pub registered: Seq<VideoId>,
    /// The first failure, if there was one.
    pub failure: Option<Error>,
}

impl SubmissionView {
    /// The submission after one more upload has come to `outcome`. Nothing
    /// is recorded once an upload has failed.
    pub open spec fn recorded(self, outcome: Result<VideoId, Error>) -> SubmissionView {
        match (self.failure, outcome) {
            (Some(_), _) => self,
            (None, Ok(id)) => SubmissionView {
                registered: self.registered.push(id),
                failure: None,
            },
            (None, Err(error)) => SubmissionView {
                registered: self.registered,
                failure: Some(error),
            },
        }
    }

    /// What the request reports: created, or the first failure.
    pub open spec fn report(self) -> Result<StatusCode, Error> {
        match self.failure {
            Some(error) => Err(error),
            None => Ok(StatusCode(CREATED)),
        }
    }
}

impl View for Submission {
    type V = SubmissionView;

    closed spec fn view(&self) -> SubmissionView {
        SubmissionView { registered: self.registered@, failure: self.failure }
    }
}

impl Submission {
    /// A request before its first upload.
    pub fn new() -> (submission: Submission)
        ensures
            submission@ == (SubmissionView { registered: Seq::empty(), failure: None }),
    {
        Submission { registered: Vec::new(), failure: None }
    }

    /// Whether the request goes on to its next file.
    pub fn proceeds(&self) -> (proceeds: bool)
        ensures
            proceeds == (self@.failure is None),
    {
        self.failure.is_none()
    }

    /// Records what one upload has come to.
    pub fn record(&mut self, outcome: Result<VideoId, Error>)
        ensures
            final(self)@ == old(self)@.recorded(outcome),
    {
        if self.failure.is_none() {
            match outcome {
                Ok(id) => {
                    self.registered.push(id);
                },
                Err(error) => {
                    self.failure = Some(error);
                },
            }
        }
    }

    /// How many videos the request has registered.
    pub fn registered(&self) -> (count: usize)
        ensures
            count == self@.registered.len(),
    {
        self.registered.len()
    }

    /// What the request reports.
    pub fn report(&self) -> (r: Result<StatusCode, Error>)
        ensures
            r == self@.report(),
    {
        match self.failure {
            Some(error) => Err(error),
            None => Ok(StatusCode(CREATED)),
        }
    }
}

} // verus!
