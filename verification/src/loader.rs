//! Decoding a document into a job: defaults, type checks, and the
//! diagnostics of what the schema does not know.
//!
//! A document is decoded in one pass, entry by entry in the order in which
//! the entries were written. Each entry changes the job in progress, adds a
//! warning, or fails the load; after a failure no entry is looked at. A
//! clip that names no label color is given the job's when the load ends, so
//! that it has the job's color wherever in the document that color stands.

use crate::document::Node;
use crate::load_laws::{law_decoded_clip_well_formed, law_loaded_job_well_formed};
use crate::model::{clip_views, Clip, ClipView, Job, JobView};
use crate::position::{position_of, LabelPosition};
use crate::text::same_text;
use vstd::prelude::*;
use vstd::string::*;

verus! {

/// The label color of a job that names none.
pub const DEFAULT_LABEL_COLOR: &'static str = "#32b1ac";

/// The fields of a clip.
#[derive(Clone, Copy, Debug, PartialEq, Eq, Structural)]
pub enum Field {
    Label,
    Source,
    Start,
    Stop,
    RemoveAudio,
    LabelPosition,
    LabelDisplay,
    LabelFontColor,
}

/// Why a document is no job. Clips are counted from zero, in the order of
/// the job's clip list.
#[derive(Clone, Copy, Debug, PartialEq, Eq, Structural)]
pub enum ConfigError {
    /// The text is not one YAML document.
    Syntax,
    /// The document is not a mapping.
    RootNotMapping,
    /// No entry of the document names the output directory.
    MissingOutputDirectory,
    /// The output directory is not given as text.
    OutputDirectoryNotText,
    /// The job's label color is not given as text.
    LabelFontColorNotText,
    /// An item of the clip list is not a mapping.
    ClipNotMapping { clip: usize },
    /// A textual field of a clip is not given as text.
    NotText { clip: usize, field: Field },
    /// A switch of a clip is given as something other than `true` or `false`.
    NotBoolean { clip: usize, field: Field },
    /// A clip gives its label, start or stop as empty text.
    Empty { clip: usize, field: Field },
    /// A clip lacks its label, source, start or stop.
    Missing { clip: usize, field: Field },
}

/// What a load or a run found odd and went on from.
#[derive(Debug, PartialEq, Eq)]
pub enum Warning {
    /// An entry of the document whose key the schema does not know; the
    /// entry is ignored. `key` is `None` where the key is not text.
    UnrecognizedKey { key: Option<String> },
    /// An entry of a clip whose key the schema does not know; the entry is
    /// ignored. `key` is `None` where the key is not text.
    UnrecognizedClipKey { clip: usize, key: Option<String> },
    /// A label position that is none of the six symbols; the clip keeps the
    /// position it had.
    UnrecognizedPosition { clip: usize, symbol: String },
    /// The source of a clip is no file. The clip cannot be cut unless its
    /// output exists already.
    SourceNotFound { clip: usize, source: String },
}

/// A warning, its texts as sequences of characters.
pub enum WarningView {
    UnrecognizedKey { key: Option<Seq<char>> },
    UnrecognizedClipKey { clip: usize, key: Option<Seq<char>> },
    UnrecognizedPosition { clip: usize, symbol: Seq<char> },
    SourceNotFound { clip: usize, source: Seq<char> },
}

/// The characters of an optional text.
pub open spec fn text_view(text: Option<String>) -> Option<Seq<char>> {
    match text {
        Some(text) => Some(text@),
        None => None,
    }
}

impl View for Warning {
    type V = WarningView;

    open spec fn view(&self) -> WarningView {
        match *self {
            Warning::UnrecognizedKey { key } => WarningView::UnrecognizedKey {
                key: text_view(key),
            },
            Warning::UnrecognizedClipKey { clip, key } => WarningView::UnrecognizedClipKey {
                clip,
                key: text_view(key),
            },
            Warning::UnrecognizedPosition { clip, symbol } => WarningView::UnrecognizedPosition {
                clip,
                symbol: symbol@,
            },
            Warning::SourceNotFound { clip, source } => WarningView::SourceNotFound {
                clip,
                source: source@,
            },
        }
    }
}

/// The views of a sequence of warnings, in the same order.
pub open spec fn warning_views(warnings: Seq<Warning>) -> Seq<WarningView> {
    warnings.map_values(|warning: Warning| warning@)
}

/// The key that names a field of a clip.
pub open spec fn key_of(field: Field) -> Seq<char> {
    match field {
        Field::Label => "label"@,
        Field::Source => "source"@,
        Field::Start => "start"@,
        Field::Stop => "stop"@,
        Field::RemoveAudio => "remove_audio"@,
        Field::LabelPosition => "label_position"@,
        Field::LabelDisplay => "label_display"@,
        Field::LabelFontColor => "label_font_color"@,
    }
}

/// The clip field that a key names, if any.
pub open spec fn clip_field(key: Seq<char>) -> Option<Field> {
    if key == "label"@ {
        Some(Field::Label)
    } else if key == "source"@ {
        Some(Field::Source)
    } else if key == "start"@ {
        Some(Field::Start)
    } else if key == "stop"@ {
        Some(Field::Stop)
    } else if key == "remove_audio"@ {
        Some(Field::RemoveAudio)
    } else if key == "label_position"@ {
        Some(Field::LabelPosition)
    } else if key == "label_display"@ {
        Some(Field::LabelDisplay)
    } else if key == "label_font_color"@ {
        Some(Field::LabelFontColor)
    } else {
        None
    }
}

/// Whether a key is one that the job itself has.
pub open spec fn job_key(key: Seq<char>) -> bool {
    key == "output_directory"@ || key == "label_font_color"@ || key == "clips"@
}

/// A clip while its entries are read: the required texts and the label
/// color are absent until an entry gives them, the rest starts at its
/// default.
pub struct DraftView {
    pub source: Option<Seq<char>>,
    pub label: Option<Seq<char>>,
    pub start: Option<Seq<char>>,
    pub stop: Option<Seq<char>>,
    pub remove_audio: bool,
    pub label_position: LabelPosition,
    pub label_display: bool,
    pub label_font_color: Option<Seq<char>>,
}

impl DraftView {
    /// Whether the draft has all that a clip must give: label, source,
    /// start and stop.
    pub open spec fn complete(self) -> bool {
        self.label is Some && self.source is Some && self.start is Some && self.stop is Some
    }

    /// The clip of a complete draft: what the draft gives, and `color` for
    /// the label where the draft names none.
    pub open spec fn colored(self, color: Seq<char>) -> ClipView {
        ClipView {
            source: self.source->0,
            label: self.label->0,
            start: self.start->0,
            stop: self.stop->0,
            remove_audio: self.remove_audio,
            label_position: self.label_position,
            label_display: self.label_display,
            label_font_color: match self.label_font_color {
                Some(own) => own,
                None => color,
            },
        }
    }
}

/// The clips of a sequence of complete drafts, each given `color` for its
/// label where it names none.
pub open spec fn colored_clips(drafts: Seq<DraftView>, color: Seq<char>) -> Seq<ClipView> {
    drafts.map_values(|draft: DraftView| draft.colored(color))
}

/// The decoding of a clip after some of its entries.
pub struct ClipProgress {
    pub draft: DraftView,
    pub warnings: Seq<WarningView>,
    pub failure: Option<ConfigError>,
}

impl ClipProgress {
    pub open spec fn warn(self, warning: WarningView) -> ClipProgress {
        ClipProgress { warnings: self.warnings.push(warning), ..self }
    }

    pub open spec fn fail(self, error: ConfigError) -> ClipProgress {
        ClipProgress { failure: Some(error), ..self }
    }

    pub open spec fn with(self, draft: DraftView) -> ClipProgress {
        ClipProgress { draft, ..self }
    }
}

/// A clip of which nothing has been read: no audio removed, the label
/// displayed at the bottom middle, its color not named.
pub open spec fn initial_draft() -> DraftView {
    DraftView {
        source: None,
        label: None,
        start: None,
        stop: None,
        remove_audio: false,
        label_position: LabelPosition::initial(),
        label_display: true,
        label_font_color: None,
    }
}

/// What a text given for a field does to a clip in progress. Label, start
/// and stop must not be empty. A label position must be one of the six
/// symbols; any other text leaves the position as it is, with a warning.
pub open spec fn clip_text(before: ClipProgress, clip: usize, field: Field, text: Seq<char>)
    -> ClipProgress {
    match field {
        Field::Label => if text.len() == 0 {
            before.fail(ConfigError::Empty { clip, field })
        } else {
            before.with(DraftView { label: Some(text), ..before.draft })
        },
        Field::Start => if text.len() == 0 {
            before.fail(ConfigError::Empty { clip, field })
        } else {
            before.with(DraftView { start: Some(text), ..before.draft })
        },
        Field::Stop => if text.len() == 0 {
            before.fail(ConfigError::Empty { clip, field })
        } else {
            before.with(DraftView { stop: Some(text), ..before.draft })
        },
        Field::Source => before.with(DraftView { source: Some(text), ..before.draft }),
        Field::LabelFontColor => before.with(
            DraftView { label_font_color: Some(text), ..before.draft },
        ),
        Field::LabelPosition => match position_of(text) {
            Some(position) => before.with(DraftView { label_position: position, ..before.draft }),
            None => before.warn(WarningView::UnrecognizedPosition { clip, symbol: text }),
        },
        Field::RemoveAudio | Field::LabelDisplay => before,
    }
}

/// What a value given for a field does to a clip in progress: the switches
/// take a boolean, every other field a text, and a value of another kind
/// fails the load.
pub open spec fn clip_value(before: ClipProgress, clip: usize, field: Field, value: Node)
    -> ClipProgress {
    match field {
        Field::RemoveAudio => match value.boolean() {
            Some(flag) => before.with(DraftView { remove_audio: flag, ..before.draft }),
            None => before.fail(ConfigError::NotBoolean { clip, field }),
        },
        Field::LabelDisplay => match value.boolean() {
            Some(flag) => before.with(DraftView { label_display: flag, ..before.draft }),
            None => before.fail(ConfigError::NotBoolean { clip, field }),
        },
        _ => match value.text() {
            Some(text) => clip_text(before, clip, field, text),
            None => before.fail(ConfigError::NotText { clip, field }),
        },
    }
}

/// What one entry does to a clip in progress. After a failure, nothing. An
/// entry whose key names no field of a clip is ignored, with a warning.
pub open spec fn clip_entry(before: ClipProgress, clip: usize, key: Node, value: Node)
    -> ClipProgress {
    if before.failure is Some {
        before
    } else {
        match key.text() {
            Some(name) => match clip_field(name) {
                Some(field) => clip_value(before, clip, field, value),
                None => before.warn(WarningView::UnrecognizedClipKey { clip, key: Some(name) }),
            },
            None => before.warn(WarningView::UnrecognizedClipKey { clip, key: None }),
        }
    }
}

/// The decoding of a clip after its first `count` entries.
pub open spec fn clip_fold(entries: Seq<(Node, Node)>, count: int, clip: usize) -> ClipProgress
    decreases count,
{
    if count <= 0 {
        ClipProgress { draft: initial_draft(), warnings: Seq::empty(), failure: None }
    } else {
        clip_entry(
            clip_fold(entries, count - 1, clip),
            clip,
            entries[count - 1].0,
            entries[count - 1].1,
        )
    }
}

/// The draft that a decoding ends in: the failure, if there was one; else
/// the first of label, source, start and stop that no entry gave; else the
/// draft, which is then complete.
pub open spec fn finished_clip(progress: ClipProgress, clip: usize) -> Result<
    DraftView,
    ConfigError,
> {
    let draft = progress.draft;
    if progress.failure is Some {
        Err(progress.failure->0)
    } else if draft.label is None {
        Err(ConfigError::Missing { clip, field: Field::Label })
    } else if draft.source is None {
        Err(ConfigError::Missing { clip, field: Field::Source })
    } else if draft.start is None {
        Err(ConfigError::Missing { clip, field: Field::Start })
    } else if draft.stop is None {
        Err(ConfigError::Missing { clip, field: Field::Stop })
    } else {
        Ok(draft)
    }
}

/// What decoding one clip gives: its warnings, and the clip or the reason
/// why there is none.
pub struct ClipReportView {
    pub warnings: Seq<WarningView>,
    pub result: Result<ClipView, ConfigError>,
}

/// What reading one clip gives: its warnings, and the complete draft or
/// the reason why there is none.
pub struct DraftReportView {
    pub warnings: Seq<WarningView>,
    pub result: Result<DraftView, ConfigError>,
}

/// The reading of the item of the clip list that becomes clip number
/// `clip`. The item must be a mapping; its entries are read in order.
pub open spec fn read_clip(item: Node, clip: usize) -> DraftReportView {
    match item.entries() {
        Some(entries) => {
            let progress = clip_fold(entries, entries.len() as int, clip);
            DraftReportView { warnings: progress.warnings, result: finished_clip(progress, clip) }
        },
        None => DraftReportView {
            warnings: Seq::empty(),
            result: Err(ConfigError::ClipNotMapping { clip }),
        },
    }
}

/// The decoding of the item of the clip list that becomes clip number
/// `clip`, in a job whose label color is `color`: the item as it is read,
/// with `color` for its label where it names none.
pub open spec fn decoded_clip(item: Node, clip: usize, color: Seq<char>) -> ClipReportView {
    ClipReportView {
        warnings: read_clip(item, clip).warnings,
        result: match read_clip(item, clip).result {
            Ok(draft) => Ok(draft.colored(color)),
            Err(error) => Err(error),
        },
    }
}

/// A job while the entries of its document are read. Its clips are
/// complete drafts: their color is settled when the load ends.
pub struct JobProgress {
    pub output_directory: Option<Seq<char>>,
    pub label_font_color: Seq<char>,
    pub clips: Seq<DraftView>,
    pub warnings: Seq<WarningView>,
    pub failure: Option<ConfigError>,
}

impl JobProgress {
    pub open spec fn warn(self, warning: WarningView) -> JobProgress {
        JobProgress { warnings: self.warnings.push(warning), ..self }
    }

    pub open spec fn fail(self, error: ConfigError) -> JobProgress {
        JobProgress { failure: Some(error), ..self }
    }
}

/// A job of which nothing has been read.
pub open spec fn initial_job() -> JobProgress {
    JobProgress {
        output_directory: None,
        label_font_color: DEFAULT_LABEL_COLOR@,
        clips: Seq::empty(),
        warnings: Seq::empty(),
        failure: None,
    }
}

/// What one item of a clip list does to a job in progress: its warnings are
/// added, and its draft is appended or its failure fails the load.
pub open spec fn job_clip(before: JobProgress, item: Node) -> JobProgress {
    if before.failure is Some {
        before
    } else {
        let report = read_clip(item, before.clips.len() as usize);
        match report.result {
            Ok(draft) => JobProgress {
                clips: before.clips.push(draft),
                warnings: before.warnings + report.warnings,
                ..before
            },
            Err(error) => JobProgress {
                warnings: before.warnings + report.warnings,
                failure: Some(error),
                ..before
            },
        }
    }
}

/// A job in progress after the first `count` items of a clip list.
pub open spec fn job_clips(before: JobProgress, items: Seq<Node>, count: int) -> JobProgress
    decreases count,
{
    if count <= 0 {
        before
    } else {
        job_clip(job_clips(before, items, count - 1), items[count - 1])
    }
}

/// What one entry of the document does to a job in progress. After a
/// failure, nothing. The output directory and the label color take a text.
/// A clip list that is a sequence has its items decoded in order; one that
/// is no sequence is passed over. Any other key is ignored, with a warning.
pub open spec fn job_entry(before: JobProgress, key: Node, value: Node) -> JobProgress {
    if before.failure is Some {
        before
    } else {
        match key.text() {
            Some(name) => if name == "output_directory"@ {
                match value.text() {
                    Some(path) => JobProgress { output_directory: Some(path), ..before },
                    None => before.fail(ConfigError::OutputDirectoryNotText),
                }
            } else if name == "label_font_color"@ {
                match value.text() {
                    Some(color) => JobProgress { label_font_color: color, ..before },
                    None => before.fail(ConfigError::LabelFontColorNotText),
                }
            } else if name == "clips"@ {
                match value.items() {
                    Some(items) => job_clips(before, items, items.len() as int),
                    None => before,
                }
            } else {
                before.warn(WarningView::UnrecognizedKey { key: Some(name) })
            },
            None => before.warn(WarningView::UnrecognizedKey { key: None }),
        }
    }
}

/// A job in progress after the first `count` entries of the document.
pub open spec fn job_fold(entries: Seq<(Node, Node)>, count: int) -> JobProgress
    decreases count,
{
    if count <= 0 {
        initial_job()
    } else {
        job_entry(job_fold(entries, count - 1), entries[count - 1].0, entries[count - 1].1)
    }
}

/// The job that a load ends in: the failure, if there was one; else a job,
/// unless no entry gave the output directory. The job's label color is the
/// one that the document gives, wherever it gives it, and each clip that
/// names no color of its own has the job's.
pub open spec fn finished_job(progress: JobProgress) -> Result<JobView, ConfigError> {
    if progress.failure is Some {
        Err(progress.failure->0)
    } else if progress.output_directory is None {
        Err(ConfigError::MissingOutputDirectory)
    } else {
        Ok(
            JobView {
                output_directory: progress.output_directory->0,
                default_label_color: progress.label_font_color,
                clips: colored_clips(progress.clips, progress.label_font_color),
            },
        )
    }
}

/// What loading a document gives: the warnings in the order in which the
/// document gave rise to them, up to the failure if there was one, and the
/// job or the reason why there is none.
pub struct LoadReportView {
    pub warnings: Seq<WarningView>,
    pub result: Result<JobView, ConfigError>,
}

/// The load of a document. The document must be a mapping; its entries are
/// read in order.
pub open spec fn loaded(document: Node) -> LoadReportView {
    match document.entries() {
        Some(entries) => {
            let progress = job_fold(entries, entries.len() as int);
            LoadReportView { warnings: progress.warnings, result: finished_job(progress) }
        },
        None => LoadReportView {
            warnings: Seq::empty(),
            result: Err(ConfigError::RootNotMapping),
        },
    }
}

/// A clip while its entries are read.
struct Draft {
    source: Option<String>,
    label: Option<String>,
    start: Option<String>,
    stop: Option<String>,
    remove_audio: bool,
    label_position: LabelPosition,
    label_display: bool,
    label_font_color: Option<String>,
}

impl View for Draft {
    type V = DraftView;

    closed spec fn view(&self) -> DraftView {
        DraftView {
            source: text_view(self.source),
            label: text_view(self.label),
            start: text_view(self.start),
            stop: text_view(self.stop),
            remove_audio: self.remove_audio,
            label_position: self.label_position,
            label_display: self.label_display,
            label_font_color: text_view(self.label_font_color),
        }
    }
}

/// A clip as it was read: all that a clip must give, and its label color
/// if it names one.
struct ReadClip {
    source: String,
    label: String,
    start: String,
    stop: String,
    remove_audio: bool,
    label_position: LabelPosition,
    label_display: bool,
    label_font_color: Option<String>,
}

impl View for ReadClip {
    type V = DraftView;

    closed spec fn view(&self) -> DraftView {
        DraftView {
            source: Some(self.source@),
            label: Some(self.label@),
            start: Some(self.start@),
            stop: Some(self.stop@),
            remove_audio: self.remove_audio,
            label_position: self.label_position,
            label_display: self.label_display,
            label_font_color: text_view(self.label_font_color),
        }
    }
}

/// The drafts of a sequence of clips as they were read, in the same order.
spec fn draft_views(clips: Seq<ReadClip>) -> Seq<DraftView> {
    clips.map_values(|clip: ReadClip| clip@)
}

/// What reading one clip gave.
struct Reading {
    warnings: Vec<Warning>,
    result: Result<ReadClip, ConfigError>,
}

impl View for Reading {
    type V = DraftReportView;

    closed spec fn view(&self) -> DraftReportView {
        DraftReportView {
            warnings: warning_views(self.warnings@),
            result: match self.result {
                Ok(clip) => Ok(clip@),
                Err(error) => Err(error),
            },
        }
    }
}

/// The decoding that stands at a draft, the warnings given so far and the
/// failure, if any.
spec fn reading(draft: Draft, warnings: Seq<Warning>, failure: Option<ConfigError>)
    -> ClipProgress {
    ClipProgress { draft: draft@, warnings: warning_views(warnings), failure }
}

/// What decoding one clip gave: its warnings, and the clip or the reason
/// why there is none.
#[derive(Debug, PartialEq, Eq)]
pub struct ClipReport {
    pub warnings: Vec<Warning>,
    pub result: Result<Clip, ConfigError>,
}

impl View for ClipReport {
    type V = ClipReportView;

    open spec fn view(&self) -> ClipReportView {
        ClipReportView {
            warnings: warning_views(self.warnings@),
            result: match self.result {
                Ok(clip) => Ok(clip@),
                Err(error) => Err(error),
            },
        }
    }
}

/// What loading a document gave: the warnings in the order in which the
/// document gave rise to them, and the job or the reason why there is none.
#[derive(Debug, PartialEq, Eq)]
pub struct LoadReport {
    pub warnings: Vec<Warning>,
    pub result: Result<Job, ConfigError>,
}

impl View for LoadReport {
    type V = LoadReportView;

    open spec fn view(&self) -> LoadReportView {
        LoadReportView {
            warnings: warning_views(self.warnings@),
            result: match self.result {
                Ok(job) => Ok(job@),
                Err(error) => Err(error),
            },
        }
    }
}

impl Field {
    /// The key that names this field in a job description.
    pub fn key(self) -> (key: &'static str)
        ensures
            key@ == key_of(self),
    {
        match self {
            Field::Label => "label",
            Field::Source => "source",
            Field::Start => "start",
            Field::Stop => "stop",
            Field::RemoveAudio => "remove_audio",
            Field::LabelPosition => "label_position",
            Field::LabelDisplay => "label_display",
            Field::LabelFontColor => "label_font_color",
        }
    }
}

/// The clip field that a key names, if any.
pub fn read_field(key: &str) -> (field: Option<Field>)
    ensures
        field == clip_field(key@),
{
    if same_text(key, "label") {
        Some(Field::Label)
    } else if same_text(key, "source") {
        Some(Field::Source)
    } else if same_text(key, "start") {
        Some(Field::Start)
    } else if same_text(key, "stop") {
        Some(Field::Stop)
    } else if same_text(key, "remove_audio") {
        Some(Field::RemoveAudio)
    } else if same_text(key, "label_position") {
        Some(Field::LabelPosition)
    } else if same_text(key, "label_display") {
        Some(Field::LabelDisplay)
    } else if same_text(key, "label_font_color") {
        Some(Field::LabelFontColor)
    } else {
        None
    }
}

fn push_warning(warnings: &mut Vec<Warning>, warning: Warning)
    ensures
        warning_views(final(warnings)@) == warning_views(old(warnings)@).push(warning@),
{
    warnings.push(warning);
    assert(warning_views(warnings@) =~= warning_views(old(warnings)@).push(warning@));
}

fn take_text(
    draft: &mut Draft,
    warnings: &mut Vec<Warning>,
    clip: usize,
    field: Field,
    text: &String,
) -> (failure: Option<ConfigError>)
    ensures
        reading(*final(draft), final(warnings)@, failure) == clip_text(
            reading(*old(draft), old(warnings)@, None),
            clip,
            field,
            text@,
        ),
{
    match field {
        Field::Label => {
            if text.as_str().unicode_len() == 0 {
                return Some(ConfigError::Empty { clip, field });
            }
            draft.label = Some(text.clone());
        },
        Field::Start => {
            if text.as_str().unicode_len() == 0 {
                return Some(ConfigError::Empty { clip, field });
            }
            draft.start = Some(text.clone());
        },
        Field::Stop => {
            if text.as_str().unicode_len() == 0 {
                return Some(ConfigError::Empty { clip, field });
            }
            draft.stop = Some(text.clone());
        },
        Field::Source => {
            draft.source = Some(text.clone());
        },
        Field::LabelFontColor => {
            draft.label_font_color = Some(text.clone());
        },
        Field::LabelPosition => {
            match LabelPosition::from_symbol(text.as_str()) {
                Some(position) => {
                    draft.label_position = position;
                },
                None => {
                    push_warning(
                        warnings,
                        Warning::UnrecognizedPosition { clip, symbol: text.clone() },
                    );
                },
            }
        },
        Field::RemoveAudio | Field::LabelDisplay => {},
    }
    None
}

fn take_value(
    draft: &mut Draft,
    warnings: &mut Vec<Warning>,
    clip: usize,
    field: Field,
    value: &Node,
) -> (failure: Option<ConfigError>)
    ensures
        reading(*final(draft), final(warnings)@, failure) == clip_value(
            reading(*old(draft), old(warnings)@, None),
            clip,
            field,
            *value,
        ),
{
    match field {
        Field::RemoveAudio => match value {
            Node::Bool(flag) => {
                draft.remove_audio = *flag;
                None
            },
            _ => Some(ConfigError::NotBoolean { clip, field }),
        },
        Field::LabelDisplay => match value {
            Node::Bool(flag) => {
                draft.label_display = *flag;
                None
            },
            _ => Some(ConfigError::NotBoolean { clip, field }),
        },
        _ => match value {
            Node::Text(text) => take_text(draft, warnings, clip, field, text),
            _ => Some(ConfigError::NotText { clip, field }),
        },
    }
}

fn take_entry(
    draft: &mut Draft,
    warnings: &mut Vec<Warning>,
    clip: usize,
    key: &Node,
    value: &Node,
) -> (failure: Option<ConfigError>)
    ensures
        reading(*final(draft), final(warnings)@, failure) == clip_entry(
            reading(*old(draft), old(warnings)@, None),
            clip,
            *key,
            *value,
        ),
{
    match key {
        Node::Text(name) => match read_field(name.as_str()) {
            Some(field) => take_value(draft, warnings, clip, field, value),
            None => {
                push_warning(
                    warnings,
                    Warning::UnrecognizedClipKey { clip, key: Some(name.clone()) },
                );
                None
            },
        },
        _ => {
            push_warning(warnings, Warning::UnrecognizedClipKey { clip, key: None });
            None
        },
    }
}

/// Once a clip's decoding has failed, further entries change nothing.
proof fn lemma_clip_failure_stays(entries: Seq<(Node, Node)>, from: int, to: int, clip: usize)
    requires
        0 <= from <= to,
        clip_fold(entries, from, clip).failure is Some,
    ensures
        clip_fold(entries, to, clip) == clip_fold(entries, from, clip),
    decreases to - from,
{
    if from < to {
        lemma_clip_failure_stays(entries, from, to - 1, clip);
    }
}

fn finish_clip(draft: Draft, failure: Option<ConfigError>, clip: usize) -> (result: Result<
    ReadClip,
    ConfigError,
>)
    ensures
        (match result {
            Ok(read) => Ok(read@),
            Err(error) => Err(error),
        }) == finished_clip(reading(draft, Seq::empty(), failure), clip),
{
    let Draft {
        source,
        label,
        start,
        stop,
        remove_audio,
        label_position,
        label_display,
        label_font_color,
    } = draft;
    match failure {
        Some(error) => Err(error),
        None => match label {
            None => Err(ConfigError::Missing { clip, field: Field::Label }),
            Some(label) => match source {
                None => Err(ConfigError::Missing { clip, field: Field::Source }),
                Some(source) => match start {
                    None => Err(ConfigError::Missing { clip, field: Field::Start }),
                    Some(start) => match stop {
                        None => Err(ConfigError::Missing { clip, field: Field::Stop }),
                        Some(stop) => Ok(
                            ReadClip {
                                source,
                                label,
                                start,
                                stop,
                                remove_audio,
                                label_position,
                                label_display,
                                label_font_color,
                            },
                        ),
                    },
                },
            },
        },
    }
}

/// Reads the item of a clip list that becomes clip number `clip`.
fn read_item(item: &Node, clip: usize) -> (reading: Reading)
    ensures
        reading@ == read_clip(*item, clip),
{
    let mut warnings: Vec<Warning> = Vec::new();
    assert(warning_views(warnings@) =~= Seq::<WarningView>::empty());
    match item {
        Node::Mapping(entries) => {
            let mut draft = Draft {
                source: None,
                label: None,
                start: None,
                stop: None,
                remove_audio: false,
                label_position: LabelPosition::BottomMiddle,
                label_display: true,
                label_font_color: None,
            };
            let mut failure: Option<ConfigError> = None;
            let mut read: usize = 0;
            while read < entries.len() && failure.is_none()
                invariant
                    read <= entries.len(),
                    reading(draft, warnings@, failure) == clip_fold(entries@, read as int, clip),
                decreases entries.len() - read,
            {
                let entry = &entries[read];
                failure = take_entry(&mut draft, &mut warnings, clip, &entry.0, &entry.1);
                read = read + 1;
            }
            proof {
                if failure is Some {
                    lemma_clip_failure_stays(entries@, read as int, entries@.len() as int, clip);
                }
            }
            let result = finish_clip(draft, failure, clip);
            Reading { warnings, result }
        },
        _ => Reading { warnings, result: Err(ConfigError::ClipNotMapping { clip }) },
    }
}

/// The clip that was read, with `color` for its label where it names
/// none.
fn color_clip(read: &ReadClip, color: &str) -> (clip: Clip)
    ensures
        clip@ == read@.colored(color@),
{
    Clip {
        source: read.source.clone(),
        label: read.label.clone(),
        start: read.start.clone(),
        stop: read.stop.clone(),
        remove_audio: read.remove_audio,
        label_position: read.label_position,
        label_display: read.label_display,
        label_font_color: match &read.label_font_color {
            Some(own) => own.clone(),
            None => String::from_str(color),
        },
    }
}

/// Decodes the item of a clip list that becomes clip number `clip`, in a
/// job whose label color is `color`.
pub fn make_clip(item: &Node, clip: usize, color: &str) -> (report: ClipReport)
    ensures
        report@ == decoded_clip(*item, clip, color@),
        report@.result matches Ok(made) ==> made.well_formed(),
{
    proof {
        law_decoded_clip_well_formed(*item, clip, color@);
    }
    let Reading { warnings, result } = read_item(item, clip);
    let result = match result {
        Ok(read) => Ok(color_clip(&read, color)),
        Err(error) => Err(error),
    };
    ClipReport { warnings, result }
}

/// A job while the entries of its document are read.
struct JobDraft {
    output_directory: Option<String>,
    label_font_color: String,
    clips: Vec<ReadClip>,
    warnings: Vec<Warning>,
    failure: Option<ConfigError>,
}

impl View for JobDraft {
    type V = JobProgress;

    closed spec fn view(&self) -> JobProgress {
        JobProgress {
            output_directory: text_view(self.output_directory),
            label_font_color: self.label_font_color@,
            clips: draft_views(self.clips@),
            warnings: warning_views(self.warnings@),
            failure: self.failure,
        }
    }
}

fn add_clip(job: &mut JobDraft, item: &Node)
    requires
        old(job).failure is None,
    ensures
        final(job)@ == job_clip(old(job)@, *item),
{
    let Reading { warnings, result } = read_item(item, job.clips.len());
    let mut found = warnings;
    job.warnings.append(&mut found);
    assert(warning_views(job.warnings@) =~= warning_views(old(job).warnings@) + warning_views(
        warnings@,
    ));
    match result {
        Ok(read) => {
            job.clips.push(read);
            assert(draft_views(job.clips@) =~= draft_views(old(job).clips@).push(read@));
        },
        Err(error) => {
            job.failure = Some(error);
        },
    }
}

/// Once a load has failed, further items of a clip list change nothing.
proof fn lemma_clips_failure_stays(before: JobProgress, items: Seq<Node>, from: int, to: int)
    requires
        0 <= from <= to,
        job_clips(before, items, from).failure is Some,
    ensures
        job_clips(before, items, to) == job_clips(before, items, from),
    decreases to - from,
{
    if from < to {
        lemma_clips_failure_stays(before, items, from, to - 1);
    }
}

fn add_clips(job: &mut JobDraft, items: &Vec<Node>)
    requires
        old(job).failure is None,
    ensures
        final(job)@ == job_clips(old(job)@, items@, items@.len() as int),
{
    let mut read: usize = 0;
    while read < items.len() && job.failure.is_none()
        invariant
            read <= items.len(),
            job@ == job_clips(old(job)@, items@, read as int),
        decreases items.len() - read,
    {
        add_clip(job, &items[read]);
        read = read + 1;
    }
    proof {
        if job.failure is Some {
            lemma_clips_failure_stays(old(job)@, items@, read as int, items@.len() as int);
        }
    }
}

fn take_job_entry(job: &mut JobDraft, key: &Node, value: &Node)
    requires
        old(job).failure is None,
    ensures
        final(job)@ == job_entry(old(job)@, *key, *value),
{
    match key {
        Node::Text(name) => {
            if same_text(name.as_str(), "output_directory") {
                match value {
                    Node::Text(path) => {
                        job.output_directory = Some(path.clone());
                    },
                    _ => {
                        job.failure = Some(ConfigError::OutputDirectoryNotText);
                    },
                }
            } else if same_text(name.as_str(), "label_font_color") {
                match value {
                    Node::Text(color) => {
                        job.label_font_color = color.clone();
                    },
                    _ => {
                        job.failure = Some(ConfigError::LabelFontColorNotText);
                    },
                }
            } else if same_text(name.as_str(), "clips") {
                match value {
                    Node::Sequence(items) => {
                        add_clips(job, items);
                    },
                    _ => {},
                }
            } else {
                push_warning(
                    &mut job.warnings,
                    Warning::UnrecognizedKey { key: Some(name.clone()) },
                );
            }
        },
        _ => {
            push_warning(&mut job.warnings, Warning::UnrecognizedKey { key: None });
        },
    }
}

/// Once a load has failed, further entries of the document change nothing.
pub proof fn law_failure_ends_load(entries: Seq<(Node, Node)>, from: int, to: int)
    requires
        0 <= from <= to,
        job_fold(entries, from).failure is Some,
    ensures
        job_fold(entries, to) == job_fold(entries, from),
    decreases to - from,
{
    if from < to {
        law_failure_ends_load(entries, from, to - 1);
    }
}

/// The clips that were read, each with `color` for its label where it
/// names none.
fn color_clips(read: &Vec<ReadClip>, color: &str) -> (clips: Vec<Clip>)
    ensures
        clip_views(clips@) == colored_clips(draft_views(read@), color@),
{
    let mut clips: Vec<Clip> = Vec::new();
    let mut done: usize = 0;
    while done < read.len()
        invariant
            done <= read.len(),
            clips@.len() == done,
            forall|i: int| 0 <= i < done ==> (#[trigger] clips@[i])@ == read@[i]@.colored(color@),
        decreases read.len() - done,
    {
        let clip = color_clip(&read[done], color);
        clips.push(clip);
        done = done + 1;
    }
    assert(clip_views(clips@) =~= colored_clips(draft_views(read@), color@));
    clips
}

/// Loads a job from a document. Nothing is looked up on disk: the report is
/// a function of the document.
pub fn load(document: &Node) -> (report: LoadReport)
    ensures
        report@ == loaded(*document),
        report@.result matches Ok(job) ==> job.well_formed(),
{
    proof {
        law_loaded_job_well_formed(*document);
    }
    match document {
        Node::Mapping(entries) => {
            let mut job = JobDraft {
                output_directory: None,
                label_font_color: String::from_str(DEFAULT_LABEL_COLOR),
                clips: Vec::new(),
                warnings: Vec::new(),
                failure: None,
            };
            assert(job@ =~= initial_job()) by {
                assert(job@.clips =~= Seq::<DraftView>::empty());
                assert(job@.warnings =~= Seq::<WarningView>::empty());
            }
            let mut read: usize = 0;
            while read < entries.len() && job.failure.is_none()
                invariant
                    read <= entries.len(),
                    job@ == job_fold(entries@, read as int),
                decreases entries.len() - read,
            {
                let entry = &entries[read];
                take_job_entry(&mut job, &entry.0, &entry.1);
                read = read + 1;
            }
            proof {
                if job.failure is Some {
                    law_failure_ends_load(entries@, read as int, entries@.len() as int);
                }
            }
            let JobDraft { output_directory, label_font_color, clips, warnings, failure } = job;
            let result = match failure {
                Some(error) => Err(error),
                None => match output_directory {
                    Some(output_directory) => {
                        let clips = color_clips(&clips, label_font_color.as_str());
                        Ok(Job { output_directory, default_label_color: label_font_color, clips })
                    },
                    None => Err(ConfigError::MissingOutputDirectory),
                },
            };
            LoadReport { warnings, result }
        },
        _ => {
            let warnings: Vec<Warning> = Vec::new();
            assert(warning_views(warnings@) =~= Seq::<WarningView>::empty());
            LoadReport { warnings, result: Err(ConfigError::RootNotMapping) }
        },
    }
}

} // verus!
