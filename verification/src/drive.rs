//! An upload driven from its first action to its end, by a caller who can
//! carry out an action in one call.

use crate::cache::CatalogCache;
use crate::error::Error;
use crate::ids::VideoId;
use crate::ingest::Action;
use crate::ingest::ActionView;
use crate::ingest::Event;
use crate::ingest::EventView;
use crate::ingest::Ingest;
use crate::ingest::IngestView;
use vstd::prelude::*;

verus! {

/// Whether `perform` may have returned `reported` for `asked`.
pub open spec fn carried_out<P: Fn(Action) -> Event>(
    perform: P,
    asked: ActionView,
    reported: EventView,
) -> bool {
    exists|action: Action, event: Event|
        #![trigger perform.ensures((action,), event)]
        action@ == asked && event@ == reported && perform.ensures((action,), event)
}

/// Whether `events` is a record of what `perform` did for a new upload:
/// each event is what `perform` returned for the action that the upload
/// asked for at that moment.
pub open spec fn performed<P: Fn(Action) -> Event>(
    perform: P,
    start: IngestView,
    events: Seq<EventView>,
) -> bool {
    forall|i: int|
        0 <= i < events.len() ==> carried_out(
            perform,
            start.asked(events.take(i)),
            #[trigger] events[i],
        )
}

/// An answer to the action that an upload waits for moves the upload on,
/// to a stage nearer its end, and the action then asked for fits that
/// stage.
pub proof fn lemma_step_progress(upload: IngestView, asked: ActionView, reported: EventView)
    requires
        upload.fits(asked),
        asked.is_work(),
        asked.answered_by(reported),
    ensures
        upload.step(reported).0.fits(upload.step(reported).1),
        upload.step(reported).0.stage.remaining() < upload.stage.remaining(),
{
}

/// Ingests one upload: takes it through the pipeline from receiving to
/// registering, handing each action to `perform` and taking what `perform`
/// returns as the report on it, and signals the catalog cache at the end if
/// and only if the video is registered.
///
/// `perform` must accept every action and must answer each with an event
/// that reports on that kind of action. The result is then the outcome of
/// the pipeline on the events that `perform` returned: the identifier where
/// all six stages succeeded, and else the error of the first stage that
/// failed.
pub fn ingest<P: Fn(Action) -> Event>(
    id: VideoId,
    name: &str,
    perform: P,
    catalog: &mut CatalogCache,
) -> (r: Result<VideoId, Error>)
    requires
        forall|action: Action| perform.requires((action,)),
        forall|action: Action, event: Event|
            perform.ensures((action,), event) ==> action@.answered_by(event@),
    ensures
        exists|events: Seq<EventView>|
            events.len() <= 6 && performed(perform, IngestView::begin(id, name@), events)
                && #[trigger] IngestView::begin(id, name@).run(events).outcome() == Some(r),
        r is Ok ==> final(catalog)@ == old(catalog)@.invalidated(),
        r is Err ==> final(catalog)@ == old(catalog)@,
{
    let (mut upload, mut action) = Ingest::begin(id, name);
    let ghost start = upload@;
    let ghost mut events: Seq<EventView> = Seq::empty();
    while action.is_work()
        invariant
            start == IngestView::begin(id, name@),
            upload@ == start.run(events),
            action@ == start.asked(events),
            upload@.fits(action@),
            performed(perform, start, events),
            events.len() + upload@.stage.remaining() <= 6,
            forall|action: Action| perform.requires((action,)),
            forall|action: Action, event: Event|
                perform.ensures((action,), event) ==> action@.answered_by(event@),
        decreases upload@.stage.remaining(),
    {
        let ghost asked = action;
        let ghost before = events;
        let event = perform(action);
        let ghost reported = event;
        action = upload.step(event);
        proof {
            assert(perform.ensures((asked,), reported));
            assert(asked@.answered_by(reported@));
            lemma_step_progress(start.run(before), asked@, reported@);
            events = before.push(reported@);
            assert(events.drop_last() =~= before);
            assert(events.last() == reported@);
            assert forall|i: int| 0 <= i < events.len() implies carried_out(
                perform,
                start.asked(events.take(i)),
                #[trigger] events[i],
            ) by {
                if i < before.len() {
                    assert(events.take(i) =~= before.take(i));
                    assert(events[i] == before[i]);
                } else {
                    assert(events.take(i) =~= before);
                    assert(perform.ensures((asked,), reported));
                }
            }
        }
    }
    let outcome = upload.settle(catalog);
    outcome.unwrap()
}

} // verus!
