//! Running a job: what is to be done next, and what follows from how it
//! went.
//!
//! The library touches neither the disk nor the engine. A session says what
//! is to be done, the caller does it and reports how it went, and the
//! session goes on from there: first the output directory is made sure of,
//! then the source of every clip is looked for, then the clips are cut one
//! after the other, in the order of the job.
//!
//! A clip whose destination exists is skipped, whether or not its source
//! exists. A clip whose source is missing, or has no extension to name the
//! output by, ends the run: the clips after it are not taken up. A clip
//! that the engine fails on is reported, and the run goes on.

use crate::command::{build, clip_command, CommandSpec, CommandView};
use crate::cut::{decided, DecisionView};
use crate::document::{document_of, parse_document};
use crate::loader::{
    load, loaded, warning_views, ConfigError, LoadReport, Warning, WarningView,
};
use crate::model::{Job, JobView};
use crate::path::{destination, destination_of, is_renamed, renamed};
use vstd::prelude::*;
use vstd::string::*;

verus! {

/// How the cutting of one clip ended.
#[derive(Debug, PartialEq, Eq)]
pub enum ClipOutcome {
    /// The destination existed; the engine was not run.
    Skipped,
    /// The engine ran and reported success.
    Completed,
    /// The engine ran and reported failure; `detail` is what it wrote to
    /// its error stream, as it wrote it.
    Failed { detail: String },
}

/// An outcome, its detail as a sequence of characters.
pub enum OutcomeView {
    Skipped,
    Completed,
    Failed { detail: Seq<char> },
}

impl View for ClipOutcome {
    type V = OutcomeView;

    open spec fn view(&self) -> OutcomeView {
        match *self {
            ClipOutcome::Skipped => OutcomeView::Skipped,
            ClipOutcome::Completed => OutcomeView::Completed,
            ClipOutcome::Failed { detail } => OutcomeView::Failed { detail: detail@ },
        }
    }
}

/// The views of a sequence of outcomes, in the same order.
pub open spec fn outcome_views(outcomes: Seq<ClipOutcome>) -> Seq<OutcomeView> {
    outcomes.map_values(|outcome: ClipOutcome| outcome@)
}

/// How the engine's run on a clip ended: success, or failure with what the
/// engine wrote to its error stream.
pub open spec fn concluded(success: bool, detail: Seq<char>) -> OutcomeView {
    if success {
        OutcomeView::Completed
    } else {
        OutcomeView::Failed { detail }
    }
}

/// Why a run ended before its last clip.
#[derive(Clone, Copy, Debug, PartialEq, Eq, Structural)]
pub enum RunError {
    /// The output directory does not exist and could not be made.
    NoDirectory,
    /// The source of a clip has no extension to name the output by.
    NoExtension { clip: usize },
    /// The source of a clip does not exist.
    MissingSource { clip: usize },
}

/// Where a run stands. Clips are counted from zero, in the order of the job.
#[derive(Clone, Copy, Debug, PartialEq, Eq, Structural)]
pub enum Stage {
    /// The output directory is to be made sure of.
    Directory,
    /// The source of a clip is to be looked for, before any clip is cut.
    Source(usize),
    /// The source and the destination of a clip are to be looked for.
    Probe(usize),
    /// The engine is to be run on a clip.
    Engine(usize),
    /// Every clip has been taken up.
    Finished,
    /// The run has ended early.
    Aborted(RunError),
}

/// What the caller is to do next.
#[derive(Debug, PartialEq, Eq)]
pub enum Action {
    /// Make the directory, with its parents, unless it exists; report
    /// whether it exists then.
    EnsureDirectory { path: String },
    /// Report whether the source of a clip is a file.
    CheckSource { clip: usize, source: String },
    /// Report whether the source and the destination of a clip are files.
    /// `renamed` says that the destination is named otherwise than the
    /// label proposes, a reserved character having given way to a hyphen.
    Probe { clip: usize, source: String, destination: String, renamed: bool },
    /// Run the engine on a clip; report whether it succeeded and what it
    /// wrote to its error stream.
    Invoke { clip: usize, command: CommandSpec },
    /// Nothing: the run is over.
    Stop,
}

/// An action, its texts as sequences of characters.
pub enum ActionView {
    EnsureDirectory { path: Seq<char> },
    CheckSource { clip: usize, source: Seq<char> },
    Probe { clip: usize, source: Seq<char>, destination: Seq<char>, renamed: bool },
    Invoke { clip: usize, command: CommandView },
    Stop,
}

impl View for Action {
    type V = ActionView;

    open spec fn view(&self) -> ActionView {
        match *self {
            Action::EnsureDirectory { path } => ActionView::EnsureDirectory { path: path@ },
            Action::CheckSource { clip, source } => ActionView::CheckSource {
                clip,
                source: source@,
            },
            Action::Probe { clip, source, destination, renamed } => ActionView::Probe {
                clip,
                source: source@,
                destination: destination@,
                renamed,
            },
            Action::Invoke { clip, command } => ActionView::Invoke { clip, command: command@ },
            Action::Stop => ActionView::Stop,
        }
    }
}

/// How what the caller did went.
#[derive(Debug, PartialEq, Eq)]
pub enum Event {
    /// Whether the output directory exists now.
    Directory { ready: bool },
    /// Whether the source that was looked for is a file.
    Source { present: bool },
    /// Whether the source and the destination that were looked for are files.
    Probed { source_is_file: bool, destination_is_file: bool },
    /// Whether the engine succeeded, and what it wrote to its error stream.
    Exited { success: bool, detail: String },
}

/// An event, its detail as a sequence of characters.
pub enum EventView {
    Directory { ready: bool },
    Source { present: bool },
    Probed { source_is_file: bool, destination_is_file: bool },
    Exited { success: bool, detail: Seq<char> },
}

impl View for Event {
    type V = EventView;

    open spec fn view(&self) -> EventView {
        match *self {
            Event::Directory { ready } => EventView::Directory { ready },
            Event::Source { present } => EventView::Source { present },
            Event::Probed { source_is_file, destination_is_file } => EventView::Probed {
                source_is_file,
                destination_is_file,
            },
            Event::Exited { success, detail } => EventView::Exited { success, detail: detail@ },
        }
    }
}

/// A run: the job, where the run stands, the warnings of sources that were
/// not found before the cutting began, and the outcome of each clip that
/// has been dealt with, in the order of the job.
pub struct SessionView {
    pub job: JobView,
    pub stage: Stage,
    pub warnings: Seq<WarningView>,
    pub outcomes: Seq<OutcomeView>,
}

/// Where clip number `clip` of a job is written to, if its source has an
/// extension.
pub open spec fn clip_destination(job: JobView, clip: usize) -> Option<Seq<char>> {
    destination_of(
        job.output_directory,
        job.clips[clip as int].label,
        job.clips[clip as int].source,
    )
}

/// The stage in which the source of clip number `clip` is looked for, or,
/// past the last clip, the stage in which the first clip is taken up.
pub open spec fn looking_for(job: JobView, clip: usize) -> Stage {
    if clip < job.clips.len() {
        Stage::Source(clip)
    } else {
        taking_up(job, 0)
    }
}

/// The stage in which clip number `clip` is taken up: past the last clip
/// the run is finished; a clip whose source has no extension ends the run;
/// any other clip is probed.
pub open spec fn taking_up(job: JobView, clip: usize) -> Stage {
    if clip >= job.clips.len() {
        Stage::Finished
    } else if clip_destination(job, clip) is None {
        Stage::Aborted(RunError::NoExtension { clip })
    } else {
        Stage::Probe(clip)
    }
}

impl SessionView {
    /// The same run at another stage.
    pub open spec fn at(self, stage: Stage) -> SessionView {
        SessionView { stage, ..self }
    }

    /// The same run with one more warning.
    pub open spec fn warned(self, warning: WarningView) -> SessionView {
        SessionView { warnings: self.warnings.push(warning), ..self }
    }

    /// The same run with the outcome of one more clip.
    pub open spec fn dealt(self, outcome: OutcomeView) -> SessionView {
        SessionView { outcomes: self.outcomes.push(outcome), ..self }
    }

    /// The number of the clip that the run is at, or of the clip that ended
    /// it; the number of clips once the run is finished.
    pub open spec fn cursor(self) -> int {
        match self.stage {
            Stage::Directory | Stage::Source(_) | Stage::Aborted(RunError::NoDirectory) => 0,
            Stage::Probe(clip) | Stage::Engine(clip) => clip as int,
            Stage::Aborted(RunError::NoExtension { clip }) => clip as int,
            Stage::Aborted(RunError::MissingSource { clip }) => clip as int,
            Stage::Finished => self.job.clips.len() as int,
        }
    }

    /// What every run satisfies: the clips can be counted, the stage names
    /// a clip of the job, a clip that is probed or cut has a destination,
    /// and exactly the clips before the cursor have an outcome.
    pub open spec fn well_formed(self) -> bool {
        &&& self.job.clips.len() <= usize::MAX
        &&& self.outcomes.len() == self.cursor()
        &&& match self.stage {
            Stage::Directory => self.warnings.len() == 0,
            Stage::Source(clip) => clip < self.job.clips.len(),
            Stage::Probe(clip) | Stage::Engine(clip) => clip < self.job.clips.len()
                && clip_destination(self.job, clip) is Some,
            Stage::Aborted(RunError::NoExtension { clip }) => clip < self.job.clips.len()
                && clip_destination(self.job, clip) is None,
            Stage::Aborted(RunError::MissingSource { clip }) => clip < self.job.clips.len(),
            Stage::Aborted(RunError::NoDirectory) | Stage::Finished => true,
        }
    }
}

/// The run of a job before anything has been done.
pub open spec fn started(job: JobView) -> SessionView {
    SessionView { job, stage: Stage::Directory, warnings: Seq::empty(), outcomes: Seq::empty() }
}

/// What the caller is to do at a stage of a run.
pub open spec fn pending(session: SessionView) -> ActionView {
    let job = session.job;
    match session.stage {
        Stage::Directory => ActionView::EnsureDirectory { path: job.output_directory },
        Stage::Source(clip) => ActionView::CheckSource {
            clip,
            source: job.clips[clip as int].source,
        },
        Stage::Probe(clip) => ActionView::Probe {
            clip,
            source: job.clips[clip as int].source,
            destination: clip_destination(job, clip)->0,
            renamed: renamed(job.clips[clip as int].label, job.clips[clip as int].source),
        },
        Stage::Engine(clip) => ActionView::Invoke {
            clip,
            command: clip_command(job.clips[clip as int], clip_destination(job, clip)->0),
        },
        Stage::Finished | Stage::Aborted(_) => ActionView::Stop,
    }
}

/// The run after an event. The directory being there, the sources are
/// looked for, each missing one with a warning; then the clips are taken up
/// in order. What is done with a probed clip is what is decided of it: a
/// skipped clip has its outcome at once, a missing source ends the run, and
/// a clip to encode has its outcome when the engine has exited. An event
/// that does not answer what the stage asks for changes nothing.
pub open spec fn next(session: SessionView, event: EventView) -> SessionView {
    let job = session.job;
    match (session.stage, event) {
        (Stage::Directory, EventView::Directory { ready }) => if ready {
            session.at(looking_for(job, 0))
        } else {
            session.at(Stage::Aborted(RunError::NoDirectory))
        },
        (Stage::Source(clip), EventView::Source { present }) => {
            let onward = session.at(looking_for(job, (clip + 1) as usize));
            if present {
                onward
            } else {
                onward.warned(
                    WarningView::SourceNotFound { clip, source: job.clips[clip as int].source },
                )
            }
        },
        (Stage::Probe(clip), EventView::Probed { source_is_file, destination_is_file }) => {
            match decided(
                job.clips[clip as int],
                clip_destination(job, clip)->0,
                source_is_file,
                destination_is_file,
            ) {
                DecisionView::Skip => session.dealt(OutcomeView::Skipped).at(
                    taking_up(job, (clip + 1) as usize),
                ),
                DecisionView::MissingSource => session.at(
                    Stage::Aborted(RunError::MissingSource { clip }),
                ),
                DecisionView::Encode(_) => session.at(Stage::Engine(clip)),
            }
        },
        (Stage::Engine(clip), EventView::Exited { success, detail }) => session.dealt(
            concluded(success, detail),
        ).at(taking_up(job, (clip + 1) as usize)),
        _ => session,
    }
}

/// A run of a job.
#[derive(Debug)]
pub struct Session {
    job: Job,
    stage: Stage,
    warnings: Vec<Warning>,
    outcomes: Vec<ClipOutcome>,
}

impl View for Session {
    type V = SessionView;

    closed spec fn view(&self) -> SessionView {
        SessionView {
            job: self.job@,
            stage: self.stage,
            warnings: warning_views(self.warnings@),
            outcomes: outcome_views(self.outcomes@),
        }
    }
}

impl Session {
    /// Every run that this library hands out is well formed.
    #[verifier::type_invariant]
    spec fn sound(self) -> bool {
        self@.well_formed()
    }

    /// Begins the run of a job.
    pub fn new(job: Job) -> (session: Session)
        ensures
            session@ == started(job@),
            session@.well_formed(),
    {
        let warnings: Vec<Warning> = Vec::new();
        let outcomes: Vec<ClipOutcome> = Vec::new();
        assert(warning_views(warnings@) =~= Seq::<WarningView>::empty());
        assert(outcome_views(outcomes@) =~= Seq::<OutcomeView>::empty());
        assert(job.clips@.len() == job.clips.len());
        Session { job, stage: Stage::Directory, warnings, outcomes }
    }

    /// The job that is run.
    pub fn job(&self) -> (job: &Job)
        ensures
            job@ == self@.job,
    {
        &self.job
    }

    /// Where the run stands.
    pub fn stage(&self) -> (stage: Stage)
        ensures
            stage == self@.stage,
    {
        self.stage
    }

    /// The sources that were not found before the cutting began.
    pub fn warnings(&self) -> (warnings: &Vec<Warning>)
        ensures
            warning_views(warnings@) == self@.warnings,
    {
        &self.warnings
    }

    /// The outcome of each clip that has been dealt with, in the order of
    /// the job.
    pub fn outcomes(&self) -> (outcomes: &Vec<ClipOutcome>)
        ensures
            outcome_views(outcomes@) == self@.outcomes,
    {
        &self.outcomes
    }

    /// Whether the run is over, finished or ended early.
    pub fn is_over(&self) -> (over: bool)
        ensures
            over == (self@.stage is Finished || self@.stage is Aborted),
    {
        match self.stage {
            Stage::Finished | Stage::Aborted(_) => true,
            _ => false,
        }
    }

    /// Why the run ended early, if it did.
    pub fn failure(&self) -> (failure: Option<RunError>)
        ensures
            failure == (match self@.stage {
                Stage::Aborted(error) => Some(error),
                _ => None,
            }),
    {
        match self.stage {
            Stage::Aborted(error) => Some(error),
            _ => None,
        }
    }

    fn looking_for(job: &Job, clip: usize) -> (stage: Stage)
        ensures
            stage == looking_for(job@, clip),
    {
        if clip < job.clips.len() {
            Stage::Source(clip)
        } else {
            Session::taking_up(job, 0)
        }
    }

    fn taking_up(job: &Job, clip: usize) -> (stage: Stage)
        ensures
            stage == taking_up(job@, clip),
    {
        if clip >= job.clips.len() {
            Stage::Finished
        } else {
            let taken = &job.clips[clip];
            assert(job@.clips[clip as int] == taken@);
            match destination(
                job.output_directory.as_str(),
                taken.label.as_str(),
                taken.source.as_str(),
            ) {
                Some(_) => Stage::Probe(clip),
                None => Stage::Aborted(RunError::NoExtension { clip }),
            }
        }
    }

    /// What the caller is to do next.
    pub fn action(&self) -> (action: Action)
        ensures
            action@ == pending(self@),
            self@.well_formed(),
    {
        proof {
            use_type_invariant(self);
        }
        match self.stage {
            Stage::Directory => Action::EnsureDirectory { path: self.job.output_directory.clone() },
            Stage::Source(clip) => {
                let taken = &self.job.clips[clip];
                assert(self.job@.clips[clip as int] == taken@);
                Action::CheckSource { clip, source: taken.source.clone() }
            },
            Stage::Probe(clip) => {
                let taken = &self.job.clips[clip];
                assert(self.job@.clips[clip as int] == taken@);
                match destination(
                    self.job.output_directory.as_str(),
                    taken.label.as_str(),
                    taken.source.as_str(),
                ) {
                    Some(path) => Action::Probe {
                        clip,
                        source: taken.source.clone(),
                        destination: path,
                        renamed: is_renamed(taken.label.as_str(), taken.source.as_str()),
                    },
                    // Not reached: a clip that is probed has a destination.
                    None => Action::Stop,
                }
            },
            Stage::Engine(clip) => {
                let taken = &self.job.clips[clip];
                assert(self.job@.clips[clip as int] == taken@);
                match destination(
                    self.job.output_directory.as_str(),
                    taken.label.as_str(),
                    taken.source.as_str(),
                ) {
                    Some(path) => Action::Invoke { clip, command: build(taken, path.as_str()) },
                    // Not reached: a clip that is cut has a destination.
                    None => Action::Stop,
                }
            },
            Stage::Finished | Stage::Aborted(_) => Action::Stop,
        }
    }

    /// Goes on from how what the caller did went.
    pub fn handle(self, event: Event) -> (after: Session)
        ensures
            after@ == next(self@, event@),
            after@.well_formed(),
    {
        proof {
            use_type_invariant(&self);
        }
        let ghost before = self@;
        let Session { job, stage, warnings, outcomes } = self;
        let mut warnings = warnings;
        let mut outcomes = outcomes;
        match (stage, event) {
            (Stage::Directory, Event::Directory { ready }) => {
                let stage = if ready {
                    Session::looking_for(&job, 0)
                } else {
                    Stage::Aborted(RunError::NoDirectory)
                };
                Session { job, stage, warnings, outcomes }
            },
            (Stage::Source(clip), Event::Source { present }) => {
                if !present {
                    let taken = &job.clips[clip];
                    assert(job@.clips[clip as int] == taken@);
                    let warning = Warning::SourceNotFound { clip, source: taken.source.clone() };
                    warnings.push(warning);
                    assert(warning_views(warnings@) =~= before.warnings.push(warning@));
                }
                let stage = Session::looking_for(&job, clip + 1);
                Session { job, stage, warnings, outcomes }
            },
            (Stage::Probe(clip), Event::Probed { source_is_file, destination_is_file }) => {
                if destination_is_file {
                    outcomes.push(ClipOutcome::Skipped);
                    assert(outcome_views(outcomes@) =~= before.outcomes.push(OutcomeView::Skipped));
                    let stage = Session::taking_up(&job, clip + 1);
                    Session { job, stage, warnings, outcomes }
                } else if !source_is_file {
                    Session {
                        job,
                        stage: Stage::Aborted(RunError::MissingSource { clip }),
                        warnings,
                        outcomes,
                    }
                } else {
                    Session { job, stage: Stage::Engine(clip), warnings, outcomes }
                }
            },
            (Stage::Engine(clip), Event::Exited { success, detail }) => {
                let outcome = if success {
                    ClipOutcome::Completed
                } else {
                    ClipOutcome::Failed { detail }
                };
                outcomes.push(outcome);
                assert(outcome_views(outcomes@) =~= before.outcomes.push(outcome@));
                let stage = Session::taking_up(&job, clip + 1);
                Session { job, stage, warnings, outcomes }
            },
            (stage, _) => Session { job, stage, warnings, outcomes },
        }
    }
}

/// What reading a job description gave: the warnings of the load, and the
/// run of the job or the reason why there is none.
#[derive(Debug)]
pub struct Opening {
    pub warnings: Vec<Warning>,
    pub session: Result<Session, ConfigError>,
}

/// An opening, with the views of its warnings and of its run.
pub struct OpeningView {
    pub warnings: Seq<WarningView>,
    pub session: Result<SessionView, ConfigError>,
}

impl View for Opening {
    type V = OpeningView;

    open spec fn view(&self) -> OpeningView {
        OpeningView {
            warnings: warning_views(self.warnings@),
            session: match self.session {
                Ok(session) => Ok(session@),
                Err(error) => Err(error),
            },
        }
    }
}

/// What a job description opens: nothing but a syntax error where the text
/// is not one YAML document; else the warnings of the load of its document,
/// and the run of the loaded job, at its start, or the load's failure.
pub open spec fn opened(text: Seq<char>) -> OpeningView {
    match document_of(text) {
        Some(document) => OpeningView {
            warnings: loaded(document).warnings,
            session: match loaded(document).result {
                Ok(job) => Ok(started(job)),
                Err(error) => Err(error),
            },
        },
        None => OpeningView { warnings: Seq::empty(), session: Err(ConfigError::Syntax) },
    }
}

/// Reads a job description, written in YAML, and begins the run of its
/// job. Nothing has been done when this returns: the run says what is to be
/// done first.
pub fn run_job(yaml: &str) -> (opening: Opening)
    ensures
        opening@ == opened(yaml@),
        opening@.session matches Ok(session) ==> session.well_formed() && session.job.well_formed(),
{
    match parse_document(yaml) {
        Some(document) => {
            let LoadReport { warnings, result } = load(&document);
            let session = match result {
                Ok(job) => Ok(Session::new(job)),
                Err(error) => Err(error),
            };
            Opening { warnings, session }
        },
        None => {
            let warnings: Vec<Warning> = Vec::new();
            assert(warning_views(warnings@) =~= Seq::<WarningView>::empty());
            Opening { warnings, session: Err(ConfigError::Syntax) }
        },
    }
}

} // verus!
