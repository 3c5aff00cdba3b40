//! The job model: an output directory and the clips to cut into it, in the
//! order in which they are cut.

use crate::position::LabelPosition;
use vstd::prelude::*;

verus! {

/// One clip to cut from a source file.
#[derive(Debug, PartialEq, Eq)]
pub struct Clip {
    /// Path of the media file that the clip is cut from.
    pub source: String,
    /// The text drawn on the clip; also the stem of the output file's name.
    pub label: String,
    /// Timecode at which the clip starts, handed to the engine as written.
    pub start: String,
    /// Timecode at which the clip stops, handed to the engine as written.
    pub stop: String,
    /// Whether the output carries no audio; otherwise the audio is copied.
    pub remove_audio: bool,
    pub label_position: LabelPosition,
    /// Whether the label is drawn at all.
    pub label_display: bool,
    pub label_font_color: String,
}

/// A clip, its texts as sequences of characters.
pub struct ClipView {
    pub source: Seq<char>,
    pub label: Seq<char>,
    pub start: Seq<char>,
    pub stop: Seq<char>,
    pub remove_audio: bool,
    pub label_position: LabelPosition,
    pub label_display: bool,
    pub label_font_color: Seq<char>,
}

impl View for Clip {
    type V = ClipView;

    open spec fn view(&self) -> ClipView {
        ClipView {
            source: self.source@,
            label: self.label@,
            start: self.start@,
            stop: self.stop@,
            remove_audio: self.remove_audio,
            label_position: self.label_position,
            label_display: self.label_display,
            label_font_color: self.label_font_color@,
        }
    }
}

impl ClipView {
    /// A clip names its output and bounds its range: label, start and stop
    /// are not empty.
    pub open spec fn well_formed(self) -> bool {
        &&& self.label.len() > 0
        &&& self.start.len() > 0
        &&& self.stop.len() > 0
    }
}

/// A job: where the clips go, the label color of clips that name none, and
/// the clips in the order in which they are cut.
#[derive(Debug, PartialEq, Eq)]
pub struct Job {
    pub output_directory: String,
    pub default_label_color: String,
    pub clips: Vec<Clip>,
}

/// A job, its texts as sequences of characters and its clips as views.
pub struct JobView {
    pub output_directory: Seq<char>,
    pub default_label_color: Seq<char>,
    pub clips: Seq<ClipView>,
}

/// The views of a sequence of clips, in the same order.
pub open spec fn clip_views(clips: Seq<Clip>) -> Seq<ClipView> {
    clips.map_values(|clip: Clip| clip@)
}

impl View for Job {
    type V = JobView;

    open spec fn view(&self) -> JobView {
        JobView {
            output_directory: self.output_directory@,
            default_label_color: self.default_label_color@,
            clips: clip_views(self.clips@),
        }
    }
}

impl JobView {
    /// A job is well formed when each of its clips is.
    pub open spec fn well_formed(self) -> bool {
        forall|i: int| 0 <= i < self.clips.len() ==> (#[trigger] self.clips[i]).well_formed()
    }
}

} // verus!
