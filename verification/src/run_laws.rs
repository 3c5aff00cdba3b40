//! What holds of every run, whatever the caller reports.

use crate::document::document_of;
use crate::load_laws::{has_key, law_output_directory_required};
use crate::loader::WarningView;
use crate::model::JobView;
use crate::session::{
    clip_destination, concluded, looking_for, next, opened, pending, started, taking_up,
    ActionView, EventView, OutcomeView, RunError, SessionView, Stage,
};
use vstd::prelude::*;

verus! {

/// A run is well formed at its start.
pub proof fn law_start_well_formed(job: JobView)
    requires
        job.clips.len() <= usize::MAX,
    ensures
        started(job).well_formed(),
{
}

/// A well-formed run stays well formed, whatever is reported to it.
pub proof fn law_next_well_formed(session: SessionView, event: EventView)
    requires
        session.well_formed(),
    ensures
        next(session, event).well_formed(),
{
}

/// A clip whose destination exists is skipped, whether or not its source
/// exists: the clip's outcome is `Skipped`, the run is past the clip, and
/// what is to be done next is not to run the engine on it.
pub proof fn law_existing_destination_skipped(
    session: SessionView,
    clip: usize,
    source_is_file: bool,
)
    requires
        session.well_formed(),
        session.stage == Stage::Probe(clip),
    ensures
        ({
            let after = next(
                session,
                EventView::Probed { source_is_file, destination_is_file: true },
            );
            &&& after.outcomes == session.outcomes.push(OutcomeView::Skipped)
            &&& after.outcomes[clip as int] == OutcomeView::Skipped
            &&& after.cursor() == clip + 1
            &&& after.stage != Stage::Engine(clip)
            &&& !(pending(after) matches ActionView::Invoke { clip: invoked, .. } && invoked
                == clip)
        }),
{
}

/// The engine is run on a clip only after the caller has reported that the
/// clip's source exists and its destination does not.
pub proof fn law_engine_follows_probe(session: SessionView, event: EventView, clip: usize)
    requires
        session.well_formed(),
        next(session, event).stage == Stage::Engine(clip),
    ensures
        session.stage == Stage::Engine(clip) || (session.stage == Stage::Probe(clip) && event
            == EventView::Probed { source_is_file: true, destination_is_file: false }),
{
}

/// A run never goes back: the job stays the same, the cursor does not
/// fall, and the outcomes and warnings that were given stay as they are.
pub proof fn law_run_goes_forward(session: SessionView, event: EventView)
    requires
        session.well_formed(),
    ensures
        ({
            let after = next(session, event);
            &&& after.job == session.job
            &&& after.cursor() >= session.cursor()
            &&& session.outcomes.is_prefix_of(after.outcomes)
            &&& session.warnings.is_prefix_of(after.warnings)
        }),
{
}

/// The clips are dealt with one by one: an event adds the outcome of at
/// most one clip, the clip that the run was at.
pub proof fn law_one_clip_at_a_time(session: SessionView, event: EventView)
    requires
        session.well_formed(),
    ensures
        ({
            let after = next(session, event);
            after.outcomes == session.outcomes || (after.outcomes.len() == session.outcomes.len()
                + 1 && after.outcomes.drop_last() == session.outcomes && (session.stage
                == Stage::Probe(session.outcomes.len() as usize) || session.stage
                == Stage::Engine(session.outcomes.len() as usize)))
        }),
{
    let after = next(session, event);
    if after.outcomes != session.outcomes {
        assert(after.outcomes.drop_last() =~= session.outcomes);
    }
}

/// A failure of the engine does not end the run: however the engine's run
/// on a clip went, its outcome is recorded and the next clip is taken up.
pub proof fn law_engine_failure_goes_on(
    session: SessionView,
    clip: usize,
    success: bool,
    detail: Seq<char>,
)
    requires
        session.well_formed(),
        session.stage == Stage::Engine(clip),
    ensures
        ({
            let after = next(session, EventView::Exited { success, detail });
            &&& after.outcomes == session.outcomes.push(concluded(success, detail))
            &&& after.stage == taking_up(session.job, (clip + 1) as usize)
            &&& after.stage != Stage::Aborted(RunError::MissingSource { clip })
        }),
{
}

/// A run that is over stays as it is.
pub proof fn law_over_is_over(session: SessionView, event: EventView)
    requires
        session.stage is Finished || session.stage is Aborted,
    ensures
        next(session, event) == session,
        pending(session) == ActionView::Stop,
{
}

/// A finished run has dealt with every clip of its job.
pub proof fn law_finished_is_complete(session: SessionView)
    requires
        session.well_formed(),
        session.stage is Finished,
    ensures
        session.outcomes.len() == session.job.clips.len(),
{
}

/// The run after a sequence of events, one after the other.
pub open spec fn after_events(session: SessionView, events: Seq<EventView>) -> SessionView
    decreases events.len(),
{
    if events.len() == 0 {
        session
    } else {
        next(after_events(session, events.drop_last()), events.last())
    }
}

/// A well-formed run stays well formed through any sequence of events, and
/// never goes back.
pub proof fn law_events_go_forward(session: SessionView, events: Seq<EventView>)
    requires
        session.well_formed(),
    ensures
        ({
            let after = after_events(session, events);
            &&& after.well_formed()
            &&& after.job == session.job
            &&& after.cursor() >= session.cursor()
            &&& session.outcomes.is_prefix_of(after.outcomes)
            &&& session.warnings.is_prefix_of(after.warnings)
        }),
    decreases events.len(),
{
    if events.len() > 0 {
        let before = after_events(session, events.drop_last());
        law_events_go_forward(session, events.drop_last());
        law_next_well_formed(before, events.last());
        law_run_goes_forward(before, events.last());
    }
}

/// Once a clip has been skipped because its destination exists, the engine
/// is never run on it: whatever is reported afterwards, the clip's outcome
/// stays `Skipped`, and what is to be done is not to run the engine on it.
pub proof fn law_skipped_clip_never_cut(
    session: SessionView,
    clip: usize,
    source_is_file: bool,
    later: Seq<EventView>,
)
    requires
        session.well_formed(),
        session.stage == Stage::Probe(clip),
    ensures
        ({
            let skipped = next(
                session,
                EventView::Probed { source_is_file, destination_is_file: true },
            );
            let end = after_events(skipped, later);
            &&& end.outcomes.len() > clip
            &&& end.outcomes[clip as int] == OutcomeView::Skipped
            &&& end.stage != Stage::Engine(clip)
            &&& !(pending(end) matches ActionView::Invoke { clip: invoked, .. } && invoked == clip)
        }),
{
    let skipped = next(session, EventView::Probed { source_is_file, destination_is_file: true });
    law_existing_destination_skipped(session, clip, source_is_file);
    law_next_well_formed(
        session,
        EventView::Probed { source_is_file, destination_is_file: true },
    );
    law_events_go_forward(skipped, later);
}

/// Whether the caller has reported that the output directory exists.
pub open spec fn directory_reported(events: Seq<EventView>) -> bool {
    exists|i: int|
        0 <= i < events.len() && #[trigger] events[i] == (EventView::Directory { ready: true })
}

/// Nothing is asked of any clip before the output directory exists: until
/// the caller has reported so, the run waits for the directory, or has
/// ended for want of it.
pub proof fn law_directory_comes_first(job: JobView, events: Seq<EventView>)
    requires
        !directory_reported(events),
    ensures
        ({
            let stage = after_events(started(job), events).stage;
            stage == Stage::Directory || stage == Stage::Aborted(RunError::NoDirectory)
        }),
    decreases events.len(),
{
    if events.len() > 0 {
        let earlier = events.drop_last();
        if directory_reported(earlier) {
            let i = choose|i: int|
                0 <= i < earlier.len() && #[trigger] earlier[i] == (EventView::Directory {
                    ready: true,
                });
            assert(events[i] == earlier[i]);
        }
        law_directory_comes_first(job, earlier);
        assert(events[events.len() - 1] == events.last());
    }
}

/// A description whose document does not name the output directory opens
/// no run: there is nothing that asks the caller to make a directory, or to
/// do anything else.
pub proof fn law_no_run_without_output_directory(text: Seq<char>)
    requires
        document_of(text) matches Some(document) ==> (document.entries() matches Some(entries)
            ==> !has_key(entries, "output_directory"@)),
    ensures
        opened(text).session is Err,
{
    if document_of(text) is Some {
        law_output_directory_required(document_of(text)->0);
    }
}

/// What there is to find on disk and how the engine would do, clip by clip:
/// all that a run can be told.
pub struct World {
    /// Whether the output directory exists once it has been asked for.
    pub directory_ready: bool,
    /// Whether a clip's source is a file when the sources are looked for.
    pub source_found: spec_fn(usize) -> bool,
    /// Whether a clip's source is a file when the clip is taken up.
    pub source_is_file: spec_fn(usize) -> bool,
    /// Whether a clip's destination is a file when the clip is taken up.
    pub destination_is_file: spec_fn(usize) -> bool,
    /// Whether the engine would succeed on a clip.
    pub engine_success: spec_fn(usize) -> bool,
    /// What the engine would write to its error stream on a clip.
    pub engine_detail: spec_fn(usize) -> Seq<char>,
}

/// What a caller that does as it is asked reports at a stage, in a world.
pub open spec fn answer(world: World, stage: Stage) -> EventView {
    match stage {
        Stage::Source(clip) => EventView::Source { present: (world.source_found)(clip) },
        Stage::Probe(clip) => EventView::Probed {
            source_is_file: (world.source_is_file)(clip),
            destination_is_file: (world.destination_is_file)(clip),
        },
        Stage::Engine(clip) => EventView::Exited {
            success: (world.engine_success)(clip),
            detail: (world.engine_detail)(clip),
        },
        _ => EventView::Directory { ready: world.directory_ready },
    }
}

/// The run after `steps` actions of a caller that does as it is asked.
pub open spec fn driven(world: World, session: SessionView, steps: nat) -> SessionView
    decreases steps,
{
    if steps == 0 {
        session
    } else {
        let before = driven(world, session, (steps - 1) as nat);
        next(before, answer(world, before.stage))
    }
}

/// The warnings of the sources, among those of the first `count` clips,
/// that are not found when the sources are looked for.
pub open spec fn sources_missed(job: JobView, world: World, count: int) -> Seq<WarningView>
    decreases count,
{
    if count <= 0 {
        Seq::empty()
    } else if (world.source_found)((count - 1) as usize) {
        sources_missed(job, world, count - 1)
    } else {
        sources_missed(job, world, count - 1).push(
            WarningView::SourceNotFound {
                clip: (count - 1) as usize,
                source: job.clips[count - 1].source,
            },
        )
    }
}

/// How the cutting ends, the clips from number `clip` on being still to be
/// cut and `outcomes` being those of the clips before: clip by clip, in
/// order, a clip without a destination ends the run; an existing
/// destination is skipped; a missing source ends the run; any other clip
/// is cut, and has the outcome of the engine's run.
pub open spec fn cut_from(job: JobView, world: World, clip: int, outcomes: Seq<OutcomeView>) -> (
    Stage,
    Seq<OutcomeView>,
)
    decreases job.clips.len() - clip,
{
    if clip >= job.clips.len() || clip < 0 {
        (Stage::Finished, outcomes)
    } else if clip_destination(job, clip as usize) is None {
        (Stage::Aborted(RunError::NoExtension { clip: clip as usize }), outcomes)
    } else if (world.destination_is_file)(clip as usize) {
        cut_from(job, world, clip + 1, outcomes.push(OutcomeView::Skipped))
    } else if !(world.source_is_file)(clip as usize) {
        (Stage::Aborted(RunError::MissingSource { clip: clip as usize }), outcomes)
    } else {
        cut_from(
            job,
            world,
            clip + 1,
            outcomes.push(
                concluded((world.engine_success)(clip as usize), (world.engine_detail)(clip as usize)),
            ),
        )
    }
}

/// How the run of a job ends in a world: for want of the output directory,
/// before anything else is done; else with a warning for each source that
/// was not found, and as the cutting ends.
pub open spec fn run_end(job: JobView, world: World) -> SessionView {
    if !world.directory_ready {
        started(job).at(Stage::Aborted(RunError::NoDirectory))
    } else {
        let (stage, outcomes) = cut_from(job, world, 0, Seq::empty());
        SessionView {
            job,
            stage,
            warnings: sources_missed(job, world, job.clips.len() as int),
            outcomes,
        }
    }
}

/// Steps add up: to go on for `more` steps after `steps` is to go
/// `steps + more` steps.
proof fn lemma_driven_on(world: World, session: SessionView, steps: nat, more: nat)
    ensures
        driven(world, driven(world, session, steps), more) == driven(world, session, steps + more),
    decreases more,
{
    if more > 0 {
        lemma_driven_on(world, session, steps, (more - 1) as nat);
    }
}

/// After the directory, one step for each clip looks for the sources.
proof fn lemma_sources_looked_for(job: JobView, world: World, count: int)
    requires
        world.directory_ready,
        0 <= count <= job.clips.len() <= usize::MAX,
    ensures
        driven(world, started(job), (1 + count) as nat) == (SessionView {
            job,
            stage: looking_for(job, count as usize),
            warnings: sources_missed(job, world, count),
            outcomes: Seq::empty(),
        }),
    decreases count,
{
    reveal_with_fuel(driven, 2);
    if count > 0 {
        lemma_sources_looked_for(job, world, count - 1);
        let before = driven(world, started(job), count as nat);
        assert(before.stage == Stage::Source((count - 1) as usize));
    }
}

/// From the stage at which a clip is taken up, some number of steps ends
/// the run as the cutting ends.
proof fn lemma_cutting_ends(
    job: JobView,
    world: World,
    clip: int,
    warnings: Seq<WarningView>,
    outcomes: Seq<OutcomeView>,
) -> (steps: nat)
    requires
        0 <= clip <= job.clips.len() <= usize::MAX,
        outcomes.len() == clip,
    ensures
        driven(
            world,
            SessionView { job, stage: taking_up(job, clip as usize), warnings, outcomes },
            steps,
        ) == (SessionView {
            job,
            stage: cut_from(job, world, clip, outcomes).0,
            warnings,
            outcomes: cut_from(job, world, clip, outcomes).1,
        }),
    decreases job.clips.len() - clip,
{
    let session = SessionView { job, stage: taking_up(job, clip as usize), warnings, outcomes };
    if clip >= job.clips.len() || clip_destination(job, clip as usize) is None {
        0
    } else {
        reveal_with_fuel(driven, 3);
        let number = clip as usize;
        if (world.destination_is_file)(number) {
            let after = outcomes.push(OutcomeView::Skipped);
            let rest = lemma_cutting_ends(job, world, clip + 1, warnings, after);
            lemma_driven_on(world, session, 1, rest);
            1 + rest
        } else if !(world.source_is_file)(number) {
            1
        } else {
            let after = outcomes.push(
                concluded((world.engine_success)(number), (world.engine_detail)(number)),
            );
            let rest = lemma_cutting_ends(job, world, clip + 1, warnings, after);
            lemma_driven_on(world, session, 2, rest);
            2 + rest
        }
    }
}

/// A run whose caller does as it is asked comes to its end, and the end is
/// the one that the job and the world determine: after `steps` actions the
/// run is over, with the warnings, the outcomes and the stage of `run_end`.
pub proof fn law_run_ends(job: JobView, world: World) -> (steps: nat)
    requires
        job.clips.len() <= usize::MAX,
    ensures
        driven(world, started(job), steps) == run_end(job, world),
        run_end(job, world).stage is Finished || run_end(job, world).stage is Aborted,
        run_end(job, world).well_formed(),
{
    reveal_with_fuel(driven, 2);
    if !world.directory_ready {
        1
    } else {
        let count = job.clips.len() as int;
        lemma_sources_looked_for(job, world, count);
        let warnings = sources_missed(job, world, count);
        let rest = lemma_cutting_ends(job, world, 0, warnings, Seq::empty());
        lemma_driven_on(world, started(job), (1 + count) as nat, rest);
        lemma_cut_from_ends(job, world, 0, Seq::empty());
        (1 + count + rest) as nat
    }
}

/// The cutting ends over, with exactly the clips before the end dealt with.
proof fn lemma_cut_from_ends(job: JobView, world: World, clip: int, outcomes: Seq<OutcomeView>)
    requires
        0 <= clip <= job.clips.len() <= usize::MAX,
        outcomes.len() == clip,
    ensures
        ({
            let (stage, dealt) = cut_from(job, world, clip, outcomes);
            &&& stage is Finished || stage is Aborted
            &&& (SessionView { job, stage, warnings: Seq::empty(), outcomes: dealt }).well_formed()
        }),
    decreases job.clips.len() - clip,
{
    if clip < job.clips.len() && clip_destination(job, clip as usize) is Some {
        let number = clip as usize;
        if (world.destination_is_file)(number) {
            lemma_cut_from_ends(job, world, clip + 1, outcomes.push(OutcomeView::Skipped));
        } else if (world.source_is_file)(number) {
            lemma_cut_from_ends(
                job,
                world,
                clip + 1,
                outcomes.push(
                    concluded((world.engine_success)(number), (world.engine_detail)(number)),
                ),
            );
        }
    }
}

} // verus!
