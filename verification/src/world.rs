//! The pipeline in its world: what an upload's course does to the asset
//! areas and to the catalog.
//!
//! The pipeline itself only asks for actions. This module says what those
//! actions mean: an event that answers the action pending at the upload's
//! stage, and reports success, stands for the action having taken effect.
//! On that reading the theorems below follow the files and the catalog row
//! of one upload through every possible sequence of events.

use crate::cache::CatalogView;
use crate::error::Error;
use crate::ids::VideoId;
use crate::ingest::ActionView;
use crate::ingest::EventView;
use crate::ingest::IngestView;
use crate::ingest::Stage;
use crate::names::thumbnail_name;
use crate::sniff::spec_verdict;
use crate::sniff::DetectedView;
use crate::sniff::MediaKind;
use vstd::prelude::*;

verus! {

/// What is kept outside the pipeline, as far as one upload can change it.
pub struct World {
    /// The names of the files in the video area.
    pub videos: Set<Seq<char>>,
    /// The names of the files in the thumbnail area.
    pub thumbnails: Set<Seq<char>>,
    /// The identifiers that the catalog lists, newest first.
    pub catalog: Seq<VideoId>,
}

impl World {
    /// The world in which the file `path` has been written to the video
    /// area.
    pub open spec fn received(self, path: Seq<char>) -> World {
        World {
            videos: self.videos.insert(path),
            thumbnails: self.thumbnails,
            catalog: self.catalog,
        }
    }

    /// The world in which the video file `from` has been renamed to `to`.
    pub open spec fn renamed(self, from: Seq<char>, to: Seq<char>) -> World {
        World {
            videos: self.videos.remove(from).insert(to),
            thumbnails: self.thumbnails,
            catalog: self.catalog,
        }
    }

    /// The world in which the thumbnail `path` has been stored.
    pub open spec fn thumbnailed(self, path: Seq<char>) -> World {
        World {
            videos: self.videos,
            thumbnails: self.thumbnails.insert(path),
            catalog: self.catalog,
        }
    }

    /// The world in which the video `id` has been registered as the newest.
    pub open spec fn registered(self, id: VideoId) -> World {
        World {
            videos: self.videos,
            thumbnails: self.thumbnails,
            catalog: seq![id] + self.catalog,
        }
    }

    /// The world after `event` has answered what `upload` was waiting for.
    /// Only a success changes the world, and only the success that the
    /// upload's stage was waiting for.
    pub open spec fn after(self, upload: IngestView, event: EventView) -> World {
        match (upload.stage, event) {
            (Stage::Receiving, EventView::Received(Ok(_))) => self.received(
                upload.temporary_name(),
            ),
            (Stage::Renaming, EventView::Renamed(Ok(_))) => self.renamed(
                upload.temporary_name(),
                upload.final_name(),
            ),
            (Stage::Thumbnailing, EventView::Thumbnailed(Ok(_))) => self.thumbnailed(
                thumbnail_name(upload.id),
            ),
            (Stage::Registering, EventView::Registered(Ok(_))) => self.registered(upload.id),
            _ => self,
        }
    }
}

/// An upload and the world around it.
pub struct Course {
    pub upload: IngestView,
    pub world: World,
}

impl Course {
    /// The upload `id` of the declared name `name`, about to start in
    /// `world`.
    pub open spec fn begin(id: VideoId, name: Seq<char>, world: World) -> Course {
        Course { upload: IngestView::begin(id, name), world }
    }

    /// The course after one event.
    pub open spec fn next(self, event: EventView) -> Course {
        Course { upload: self.upload.step(event).0, world: self.world.after(self.upload, event) }
    }

    /// The course after a sequence of events.
    pub open spec fn run(self, events: Seq<EventView>) -> Course
        decreases events.len(),
    {
        if events.len() == 0 {
            self
        } else {
            self.run(events.drop_last()).next(events.last())
        }
    }

    /// Whether the world is what the upload's stage says of it, for an
    /// upload that started in `origin` and has not failed: each stage has
    /// behind it the effects of all the stages before.
    pub open spec fn on_track(self, origin: World) -> bool {
        let upload = self.upload;
        let received = origin.received(upload.temporary_name());
        let renamed = received.renamed(upload.temporary_name(), upload.final_name());
        let thumbnailed = renamed.thumbnailed(thumbnail_name(upload.id));
        match upload.stage {
            Stage::Receiving => self.world == origin,
            Stage::Sniffing => self.world == received,
            Stage::Renaming => self.world == received,
            Stage::ExtractingFrame => self.world == renamed,
            Stage::Thumbnailing => self.world == renamed,
            Stage::Registering => self.world == thumbnailed,
            Stage::Done => self.world == thumbnailed.registered(upload.id),
            Stage::Failed(_) => true,
        }
    }
}

/// The action that a step asks for is the one whose effect the world takes
/// when the next event reports success: the names in the action are the
/// names that change in the world. No step asks to receive: that is asked
/// once, when the upload begins.
pub proof fn lemma_action_names(upload: IngestView, event: EventView)
    ensures
        match upload.step(event).1 {
            ActionView::Receive { path } => false,
            ActionView::Sniff { path } => path == upload.step(event).0.temporary_name(),
            ActionView::Rename { from, to } => from == upload.step(event).0.temporary_name() && to
                == upload.step(event).0.final_name(),
            ActionView::ExtractFrame { path, index } => path == upload.step(event).0.final_name(),
            ActionView::Thumbnail { frame, path } => path == thumbnail_name(upload.id),
            ActionView::Register { id, extension } => id == upload.id && extension
                == upload.step(event).0.extension,
            ActionView::Publish { id } => id == upload.id && upload.step(event).0.stage is Done,
            ActionView::Abort { error } => upload.step(event).0.stage == Stage::Failed(error),
            ActionView::Idle => upload.step(event).0 == upload,
        },
{
}

/// Running a sequence of events that ends in `event` is running what
/// precedes it and then taking `event`.
pub proof fn lemma_course_next(course: Course, events: Seq<EventView>, n: int)
    requires
        0 <= n < events.len(),
    ensures
        course.run(events.take(n + 1)) == course.run(events.take(n)).next(events[n]),
{
    assert(events.take(n + 1).drop_last() =~= events.take(n));
    assert(events.take(n + 1).last() == events[n]);
}

/// Running two sequences of events one after the other is running their
/// concatenation.
pub proof fn lemma_course_concat(course: Course, first: Seq<EventView>, second: Seq<EventView>)
    ensures
        course.run(first + second) == course.run(first).run(second),
    decreases second.len(),
{
    if second.len() == 0 {
        assert(first + second =~= first);
    } else {
        lemma_course_concat(course, first, second.drop_last());
        assert((first + second).drop_last() =~= first + second.drop_last());
        assert((first + second).last() == second.last());
    }
}

/// An upload that has come to its end stays as it is, and so does the
/// world, whatever is reported afterwards.
pub proof fn lemma_terminal_absorbs(course: Course, events: Seq<EventView>)
    requires
        course.upload.stage.terminal(),
    ensures
        course.run(events) == course,
    decreases events.len(),
{
    if events.len() > 0 {
        lemma_terminal_absorbs(course, events.drop_last());
    }
}

/// The identifier and the declared extension of an upload never change, and
/// the sniffed extension does not change once the upload has left sniffing.
pub proof fn lemma_identity_kept(course: Course, events: Seq<EventView>)
    ensures
        course.run(events).upload.id == course.upload.id,
        course.run(events).upload.declared == course.upload.declared,
        !(course.upload.stage is Receiving) && !(course.upload.stage is Sniffing) ==> course.run(
            events,
        ).upload.extension == course.upload.extension && !(course.run(events).upload.stage
            is Receiving) && !(course.run(events).upload.stage is Sniffing),
    decreases events.len(),
{
    if events.len() > 0 {
        lemma_identity_kept(course, events.drop_last());
    }
}

/// The upload of a course goes the way of the pipeline alone: the world
/// has no say in it.
pub proof fn lemma_course_upload(course: Course, events: Seq<EventView>)
    ensures
        course.run(events).upload == course.upload.run(events),
    decreases events.len(),
{
    if events.len() > 0 {
        lemma_course_upload(course, events.drop_last());
    }
}

/// Every upload that has not failed is on track: the world holds exactly
/// the effects of the stages that the upload has behind it.
pub proof fn lemma_on_track(id: VideoId, name: Seq<char>, origin: World, events: Seq<EventView>)
    ensures
        Course::begin(id, name, origin).run(events).on_track(origin),
    decreases events.len(),
{
    if events.len() > 0 {
        lemma_on_track(id, name, origin, events.drop_last());
        let before = Course::begin(id, name, origin).run(events.drop_last());
        let after = before.next(events.last());
        if before.upload.stage is Sniffing && after.upload.stage is Renaming {
            assert(after.upload.temporary_name() == before.upload.temporary_name());
        }
    }
}

/// Atomic registration. Whatever is reported, in whatever order, the
/// catalog lists the upload's identifier, as its newest entry, if and only
/// if the upload has ended as done; until then, and after any failure, the
/// catalog is what it was before the upload began.
pub proof fn theorem_registration_atomic(
    id: VideoId,
    name: Seq<char>,
    origin: World,
    events: Seq<EventView>,
)
    ensures
        ({
            let course = Course::begin(id, name, origin).run(events);
            if course.upload.stage is Done {
                course.world.catalog == seq![id] + origin.catalog
            } else {
                course.world.catalog == origin.catalog
            }
        }),
    decreases events.len(),
{
    let start = Course::begin(id, name, origin);
    lemma_identity_kept(start, events);
    if events.len() > 0 {
        theorem_registration_atomic(id, name, origin, events.drop_last());
        lemma_identity_kept(start, events.drop_last());
    }
}

/// What an ingestion returns and what the catalog lists go together. If
/// the outcome of an upload on a sequence of events is success, it names
/// the upload's own identifier and the catalog lists that identifier as its
/// newest entry; with any other outcome, or none yet, the catalog is what
/// it was before the upload began.
pub proof fn theorem_outcome_and_catalog(
    id: VideoId,
    name: Seq<char>,
    origin: World,
    events: Seq<EventView>,
)
    ensures
        ({
            let outcome = IngestView::begin(id, name).run(events).outcome();
            let catalog = Course::begin(id, name, origin).run(events).world.catalog;
            match outcome {
                Some(Ok(registered)) => registered == id && catalog == seq![id] + origin.catalog,
                _ => catalog == origin.catalog,
            }
        }),
{
    let start = Course::begin(id, name, origin);
    lemma_course_upload(start, events);
    lemma_identity_kept(start, events);
    theorem_registration_atomic(id, name, origin, events);
}

/// A registered upload is visible. Once an upload has ended as done and
/// the catalog cache has been signalled, the next read through the cache,
/// whatever the cache held, returns the catalog with the upload's
/// identifier in it.
pub proof fn theorem_registered_is_listed(
    id: VideoId,
    name: Seq<char>,
    origin: World,
    events: Seq<EventView>,
    cache: CatalogView,
)
    requires
        Course::begin(id, name, origin).run(events).upload.stage is Done,
    ensures
        ({
            let course = Course::begin(id, name, origin).run(events);
            let listed = cache.invalidated().read(course.world.catalog);
            listed == course.world.catalog && listed.contains(id)
        }),
{
    theorem_registration_atomic(id, name, origin, events);
    let course = Course::begin(id, name, origin).run(events);
    assert(course.world.catalog[0] == id);
}

/// An upload that has not ended as done is invisible: an identifier that
/// the catalog did not list before the upload began is not listed now.
pub proof fn theorem_unregistered_is_unlisted(
    id: VideoId,
    name: Seq<char>,
    origin: World,
    events: Seq<EventView>,
)
    requires
        !origin.catalog.contains(id),
        !(Course::begin(id, name, origin).run(events).upload.stage is Done),
    ensures
        !Course::begin(id, name, origin).run(events).world.catalog.contains(id),
{
    theorem_registration_atomic(id, name, origin, events);
}

/// The sniffing gate, open. An upload whose first bytes show a video
/// leaves sniffing for renaming, and the rename it asks for leads from the
/// temporary name to the name with the sniffed extension.
pub proof fn theorem_video_reaches_renaming(
    id: VideoId,
    name: Seq<char>,
    origin: World,
    events: Seq<EventView>,
    n: int,
    extension: Seq<char>,
)
    requires
        0 <= n < events.len(),
        Course::begin(id, name, origin).run(events.take(n)).upload.stage is Sniffing,
        events[n] == EventView::Sniffed(Ok(extension)),
    ensures
        ({
            let sniffing = Course::begin(id, name, origin).run(events.take(n));
            let renaming = Course::begin(id, name, origin).run(events.take(n + 1));
            &&& renaming.upload.stage is Renaming
            &&& renaming.upload.extension == extension
            &&& sniffing.upload.step(events[n]).1 == ActionView::Rename {
                from: renaming.upload.temporary_name(),
                to: renaming.upload.final_name(),
            }
        }),
{
    lemma_course_next(Course::begin(id, name, origin), events, n);
}

/// The sniffing gate, shut. An upload whose first bytes do not show a
/// video fails with the error of the sniffing, and nothing else ever comes
/// of it: the video area holds the temporary file and no renamed one, no
/// thumbnail is stored, and the catalog has no row for it.
pub proof fn theorem_sniff_failure_stops(
    id: VideoId,
    name: Seq<char>,
    origin: World,
    events: Seq<EventView>,
    n: int,
    error: Error,
)
    requires
        0 <= n < events.len(),
        Course::begin(id, name, origin).run(events.take(n)).upload.stage is Sniffing,
        events[n] == EventView::Sniffed(Err(error)),
    ensures
        ({
            let course = Course::begin(id, name, origin).run(events);
            &&& course.upload.stage == Stage::Failed(error)
            &&& course.world == origin.received(course.upload.temporary_name())
        }),
{
    let start = Course::begin(id, name, origin);
    let sniffing = start.run(events.take(n));
    lemma_on_track(id, name, origin, events.take(n));
    lemma_course_next(start, events, n);
    let failed = start.run(events.take(n + 1));
    assert(events =~= events.take(n + 1) + events.skip(n + 1));
    lemma_course_concat(start, events.take(n + 1), events.skip(n + 1));
    lemma_terminal_absorbs(failed, events.skip(n + 1));
}

/// The sniffing gate, whole. What the signature table makes of an upload's
/// first bytes decides alone: a video goes on to renaming under the
/// extension of its signature, and anything else, recognized or not, fails
/// the upload with a sniff failure, with no file renamed and no row in the
/// catalog, then or later.
pub proof fn theorem_sniff_gate(
    id: VideoId,
    name: Seq<char>,
    origin: World,
    events: Seq<EventView>,
    n: int,
    found: Option<DetectedView>,
)
    requires
        0 <= n < events.len(),
        Course::begin(id, name, origin).run(events.take(n)).upload.stage is Sniffing,
        events[n] == EventView::Sniffed(spec_verdict(found)),
    ensures
        ({
            let renaming = Course::begin(id, name, origin).run(events.take(n + 1));
            let course = Course::begin(id, name, origin).run(events);
            match found {
                Some(detected) if detected.kind == MediaKind::Video => {
                    &&& renaming.upload.stage is Renaming
                    &&& renaming.upload.extension == detected.extension
                },
                _ => {
                    &&& course.upload.stage == Stage::Failed(Error::SniffFailure)
                    &&& course.world == origin.received(course.upload.temporary_name())
                },
            }
        }),
{
    match spec_verdict(found) {
        Ok(extension) => {
            theorem_video_reaches_renaming(id, name, origin, events, n, extension);
        },
        Err(error) => {
            theorem_sniff_failure_stops(id, name, origin, events, n, error);
        },
    }
}

/// Extractor failure isolation. When the frame extractor fails, the upload
/// fails with the extractor's error, the video file stays in the video area
/// under its final name, and the catalog never gets a row for it, whatever
/// is reported afterwards.
pub proof fn theorem_extractor_failure_isolated(
    id: VideoId,
    name: Seq<char>,
    origin: World,
    events: Seq<EventView>,
    n: int,
    error: Error,
)
    requires
        0 <= n < events.len(),
        Course::begin(id, name, origin).run(events.take(n)).upload.stage is ExtractingFrame,
        events[n] == EventView::Extracted(Err(error)),
    ensures
        ({
            let course = Course::begin(id, name, origin).run(events);
            &&& course.upload.stage == Stage::Failed(error)
            &&& course.world.videos.contains(course.upload.final_name())
            &&& course.world.thumbnails == origin.thumbnails
            &&& course.world.catalog == origin.catalog
        }),
{
    let start = Course::begin(id, name, origin);
    lemma_on_track(id, name, origin, events.take(n));
    lemma_course_next(start, events, n);
    let failed = start.run(events.take(n + 1));
    assert(events =~= events.take(n + 1) + events.skip(n + 1));
    lemma_course_concat(start, events.take(n + 1), events.skip(n + 1));
    lemma_terminal_absorbs(failed, events.skip(n + 1));
}

/// The course of an upload on which everything succeeds: it ends as done,
/// with the video under its final name in the video area, the thumbnail in
/// the thumbnail area, and the identifier as the newest entry of the
/// catalog.
pub proof fn theorem_successful_course(
    id: VideoId,
    name: Seq<char>,
    origin: World,
    extension: Seq<char>,
    frame: Seq<u8>,
)
    ensures
        ({
            let course = Course::begin(id, name, origin).run(
                seq![
                    EventView::Received(Ok(())),
                    EventView::Sniffed(Ok(extension)),
                    EventView::Renamed(Ok(())),
                    EventView::Extracted(Ok(frame)),
                    EventView::Thumbnailed(Ok(())),
                    EventView::Registered(Ok(())),
                ],
            );
            &&& course.upload.outcome() == Some(Ok::<VideoId, Error>(id))
            &&& course.upload.extension == extension
            &&& course.world.videos.contains(crate::names::file_name(id, extension))
            &&& course.world.thumbnails.contains(thumbnail_name(id))
            &&& course.world.catalog == seq![id] + origin.catalog
        }),
{
    let events = seq![
        EventView::Received(Ok(())),
        EventView::Sniffed(Ok(extension)),
        EventView::Renamed(Ok(())),
        EventView::Extracted(Ok(frame)),
        EventView::Thumbnailed(Ok(())),
        EventView::Registered(Ok(())),
    ];
    let start = Course::begin(id, name, origin);
    assert(events.take(0) =~= Seq::<EventView>::empty());
    assert(start.run(events.take(0)) == start);
    lemma_course_next(start, events, 0);
    lemma_course_next(start, events, 1);
    lemma_course_next(start, events, 2);
    lemma_course_next(start, events, 3);
    lemma_course_next(start, events, 4);
    lemma_course_next(start, events, 5);
    assert(events.take(6) =~= events);
    lemma_on_track(id, name, origin, events);
}

} // verus!
