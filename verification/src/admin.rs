//! The administrator's two writes: clearing all sessions, and removing a
//! video. Both end with a signal to the cache that fronts what they
//! changed.

use crate::cache::CatalogCache;
use crate::cache::CatalogView;
use crate::cache::SessionCache;
use crate::error::Error;
use crate::ids::VideoId;
use crate::names::file_name;
use crate::names::file_name_of;
use crate::response::StatusCode;
use crate::response::OK;
use vstd::prelude::*;

verus! {

/// Ends the clearing of all sessions: signals the session cache if the
/// store has cleared them, and passes a failure on.
pub fn sessions_cleared(cleared: Result<(), Error>, sessions: &mut SessionCache) -> (r: Result<
    StatusCode,
    Error,
>)
    ensures
        cleared is Ok ==> r == Ok::<StatusCode, Error>(StatusCode(OK)),
        cleared is Ok ==> final(sessions)@ == old(sessions)@.invalidated(),
        cleared is Err ==> r == Err::<StatusCode, Error>(cleared->Err_0),
        cleared is Err ==> final(sessions)@ == old(sessions)@,
{
    match cleared {
        Ok(_) => {
            sessions.invalidate();
            Ok(StatusCode(OK))
        },
        Err(error) => Err(error),
    }
}

/// Where the removal of a video stands.
#[derive(Clone, Copy, Debug, PartialEq, Eq, Structural)]
pub enum RemovalStage {
    /// The video's row is being deleted, inside a transaction.
    DeletingRow,
    /// The video's file is being removed.
    RemovingFile,
    /// The transaction is being committed.
    Committing,
    /// The video is removed.
    Done,
    /// The removal was given up for the reason held; the transaction, if
    /// still open, is to be rolled back.
    Failed(Error),
}

/// What the caller reports on a removal.
#[derive(Clone, Copy, Debug, PartialEq, Eq)]
pub enum RemovalEvent {
    RowDeleted(Result<(), Error>),
    FileRemoved(Result<(), Error>),
    Committed(Result<(), Error>),
}

/// What the caller has to do next for a removal.
#[derive(Debug, PartialEq, Eq)]
pub enum RemovalAction {
    /// Open a transaction and delete the row of this video in it.
    DeleteRow { id: VideoId },
    /// Remove the file of this name from the video area.
    RemoveFile { path: String },
    /// Commit the transaction.
    Commit,
    /// Signal that the catalog has changed and report the removal as done.
    Publish,
    /// Roll back and report the removal as failed for this reason.
    Abort { error: Error },
    /// Nothing: the event did not answer what was asked for.
    Idle,
}

/// The mathematical content of a [`RemovalAction`].
pub enum RemovalActionView {
    DeleteRow { id: VideoId },
    RemoveFile { path: Seq<char> },
    Commit,
    Publish,
    Abort { error: Error },
    Idle,
}

impl View for RemovalAction {
    type V = RemovalActionView;

    open spec fn view(&self) -> RemovalActionView {
        match self {
            RemovalAction::DeleteRow { id } => RemovalActionView::DeleteRow { id: *id },
            RemovalAction::RemoveFile { path } => RemovalActionView::RemoveFile { path: path@ },
            RemovalAction::Commit => RemovalActionView::Commit,
            RemovalAction::Publish => RemovalActionView::Publish,
            RemovalAction::Abort { error } => RemovalActionView::Abort { error: *error },
            RemovalAction::Idle => RemovalActionView::Idle,
        }
    }
}

/// The catalog without the rows of one video.
pub open spec fn without(catalog: Seq<VideoId>, id: VideoId) -> Seq<VideoId> {
    catalog.filter(|other: VideoId| other != id)
}

/// What is left of a catalog without a video does not list that video.
pub proof fn lemma_without(catalog: Seq<VideoId>, id: VideoId)
    ensures
        !without(catalog, id).contains(id),
{
    let kept = without(catalog, id);
    if kept.contains(id) {
        let i = choose|i: int| 0 <= i < kept.len() && kept[i] == id;
        catalog.lemma_filter_pred(|other: VideoId| other != id, i);
    }
}

/// The name of the file that goes with a removed video.
pub open spec fn removed_file(id: VideoId) -> Seq<char> {
    file_name(id, "webp"@)
}

/// The removal of one video.
#[derive(Clone, Copy, Debug, PartialEq, Eq, Structural)]
pub struct Removal {
    pub id: VideoId,
    pub stage: RemovalStage,
}

impl Removal {
    /// The removal of `id`, before anything has happened.
    pub open spec fn spec_begin(id: VideoId) -> Removal {
        Removal { id, stage: RemovalStage::DeletingRow }
    }

    /// The same removal at another stage.
    pub open spec fn at(self, stage: RemovalStage) -> Removal {
        Removal { id: self.id, stage }
    }

    /// The removal after `event`, together with the action that the caller
    /// is asked for. An event that answers the action pending at the current
    /// stage moves the removal on, or fails it with the event's error; any
    /// other event leaves it where it is.
    pub open spec fn spec_step(self, event: RemovalEvent) -> (Removal, RemovalActionView) {
        match (self.stage, event) {
            (RemovalStage::DeletingRow, RemovalEvent::RowDeleted(Ok(_))) => (
                self.at(RemovalStage::RemovingFile),
                RemovalActionView::RemoveFile { path: removed_file(self.id) },
            ),
            (RemovalStage::RemovingFile, RemovalEvent::FileRemoved(Ok(_))) => (
                self.at(RemovalStage::Committing),
                RemovalActionView::Commit,
            ),
            (RemovalStage::Committing, RemovalEvent::Committed(Ok(_))) => (
                self.at(RemovalStage::Done),
                RemovalActionView::Publish,
            ),
            (RemovalStage::DeletingRow, RemovalEvent::RowDeleted(Err(error))) => self.fail(error),
            (RemovalStage::RemovingFile, RemovalEvent::FileRemoved(Err(error))) => self.fail(
                error,
            ),
            (RemovalStage::Committing, RemovalEvent::Committed(Err(error))) => self.fail(error),
            _ => (self, RemovalActionView::Idle),
        }
    }

    /// The removal given up for `error`, and the action that reports it.
    pub open spec fn fail(self, error: Error) -> (Removal, RemovalActionView) {
        (self.at(RemovalStage::Failed(error)), RemovalActionView::Abort { error })
    }

    /// What the removal has come to: success, the reason of the failure, or
    /// nothing yet.
    pub open spec fn outcome(self) -> Option<Result<StatusCode, Error>> {
        match self.stage {
            RemovalStage::Done => Some(Ok(StatusCode(OK))),
            RemovalStage::Failed(error) => Some(Err(error)),
            _ => None,
        }
    }

    /// The catalog after a sequence of events on this removal: the rows of
    /// the video are gone once the transaction that deleted them is
    /// committed, and not before.
    pub open spec fn catalog_after(self, catalog: Seq<VideoId>, events: Seq<RemovalEvent>) -> Seq<
        VideoId,
    >
        decreases events.len(),
    {
        if events.len() == 0 {
            catalog
        } else {
            let before = self.run(events.drop_last());
            let listed = self.catalog_after(catalog, events.drop_last());
            match (before.stage, events.last()) {
                (RemovalStage::Committing, RemovalEvent::Committed(Ok(_))) => without(
                    listed,
                    self.id,
                ),
                _ => listed,
            }
        }
    }

    /// The removal after a sequence of events.
    pub open spec fn run(self, events: Seq<RemovalEvent>) -> Removal
        decreases events.len(),
    {
        if events.len() == 0 {
            self
        } else {
            self.run(events.drop_last()).spec_step(events.last()).0
        }
    }

    /// Starts the removal of a video.
    pub fn begin(id: VideoId) -> (started: (Removal, RemovalAction))
        ensures
            started.0 == Removal::spec_begin(id),
            started.1@ == (RemovalActionView::DeleteRow { id }),
    {
        (Removal { id, stage: RemovalStage::DeletingRow }, RemovalAction::DeleteRow { id })
    }

    /// Takes the report of how the last action went, moves the removal on
    /// and names the next action.
    pub fn step(&mut self, event: RemovalEvent) -> (action: RemovalAction)
        ensures
            (*final(self), action@) == old(self).spec_step(event),
    {
        match event {
            RemovalEvent::RowDeleted(r) => match self.stage {
                RemovalStage::DeletingRow => match r {
                    Ok(_) => {
                        self.stage = RemovalStage::RemovingFile;
                        RemovalAction::RemoveFile { path: file_name_of(self.id, "webp") }
                    },
                    Err(error) => {
                        self.stage = RemovalStage::Failed(error);
                        RemovalAction::Abort { error }
                    },
                },
                _ => RemovalAction::Idle,
            },
            RemovalEvent::FileRemoved(r) => match self.stage {
                RemovalStage::RemovingFile => match r {
                    Ok(_) => {
                        self.stage = RemovalStage::Committing;
                        RemovalAction::Commit
                    },
                    Err(error) => {
                        self.stage = RemovalStage::Failed(error);
                        RemovalAction::Abort { error }
                    },
                },
                _ => RemovalAction::Idle,
            },
            RemovalEvent::Committed(r) => match self.stage {
                RemovalStage::Committing => match r {
                    Ok(_) => {
                        self.stage = RemovalStage::Done;
                        RemovalAction::Publish
                    },
                    Err(error) => {
                        self.stage = RemovalStage::Failed(error);
                        RemovalAction::Abort { error }
                    },
                },
                _ => RemovalAction::Idle,
            },
        }
    }

    /// Ends the removal towards the catalog cache: signals the cache if and
    /// only if the video is removed, and returns what the removal has come
    /// to.
    pub fn settle(&self, catalog: &mut CatalogCache) -> (outcome: Option<Result<StatusCode, Error>>)
        ensures
            outcome == self.outcome(),
            self.stage is Done ==> final(catalog)@ == old(catalog)@.invalidated(),
            !(self.stage is Done) ==> final(catalog)@ == old(catalog)@,
    {
        match self.stage {
            RemovalStage::Done => {
                catalog.invalidate();
                Some(Ok(StatusCode(OK)))
            },
            RemovalStage::Failed(error) => Some(Err(error)),
            _ => None,
        }
    }
}

/// Atomic removal. Whatever is reported, in whatever order, the catalog
/// has lost the rows of the video if and only if the removal has ended as
/// done; until then, and after any failure, the catalog is what it was.
pub proof fn theorem_removal_atomic(id: VideoId, catalog: Seq<VideoId>, events: Seq<RemovalEvent>)
    ensures
        ({
            let removal = Removal::spec_begin(id);
            let listed = removal.catalog_after(catalog, events);
            if removal.run(events).stage is Done {
                listed == without(catalog, id) && !listed.contains(id)
            } else {
                listed == catalog
            }
        }),
    decreases events.len(),
{
    let removal = Removal::spec_begin(id);
    lemma_removal_id(removal, events);
    if events.len() > 0 {
        theorem_removal_atomic(id, catalog, events.drop_last());
        lemma_removal_id(removal, events.drop_last());
    }
    lemma_without(catalog, id);
}

/// The identifier of a removal never changes.
pub proof fn lemma_removal_id(removal: Removal, events: Seq<RemovalEvent>)
    ensures
        removal.run(events).id == removal.id,
    decreases events.len(),
{
    if events.len() > 0 {
        lemma_removal_id(removal, events.drop_last());
    }
}

/// A removed video is invisible. Once a removal has ended as done and the
/// catalog cache has been signalled, the next read through the cache,
/// whatever the cache held, returns the catalog without the video.
pub proof fn theorem_removed_is_unlisted(
    id: VideoId,
    catalog: Seq<VideoId>,
    events: Seq<RemovalEvent>,
    cache: CatalogView,
)
    requires
        Removal::spec_begin(id).run(events).stage is Done,
    ensures
        !cache.invalidated().read(Removal::spec_begin(id).catalog_after(catalog, events)).contains(
            id,
        ),
{
    theorem_removal_atomic(id, catalog, events);
}

} // verus!
