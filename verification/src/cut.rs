//! What is to be done with one video, once the caller has looked at the
//! disk: leave it, give up for want of the source, or run the engine.

use crate::command::{build, clip_command, CommandSpec, CommandView};
use crate::model::{Clip, ClipView};
use crate::position::LabelPosition;
use vstd::prelude::*;
use vstd::string::*;

verus! {

/// What is to be done with a clip, once it is known whether its source and
/// its destination exist.
#[derive(Debug, PartialEq, Eq)]
pub enum Decision {
    /// The destination exists: the clip is not cut again.
    Skip,
    /// The source does not exist: there is nothing to cut from.
    MissingSource,
    /// The engine is to be run with this command.
    Encode(CommandSpec),
}

/// A decision, with the view of its command.
pub enum DecisionView {
    Skip,
    MissingSource,
    Encode(CommandView),
}

impl View for Decision {
    type V = DecisionView;

    open spec fn view(&self) -> DecisionView {
        match *self {
            Decision::Skip => DecisionView::Skip,
            Decision::MissingSource => DecisionView::MissingSource,
            Decision::Encode(command) => DecisionView::Encode(command@),
        }
    }
}

/// The decision on a clip: an existing destination is kept, before
/// anything is asked of the source; else a missing source is an error; else
/// the clip is cut.
pub open spec fn decided(
    clip: ClipView,
    destination: Seq<char>,
    source_is_file: bool,
    destination_is_file: bool,
) -> DecisionView {
    if destination_is_file {
        DecisionView::Skip
    } else if !source_is_file {
        DecisionView::MissingSource
    } else {
        DecisionView::Encode(clip_command(clip, destination))
    }
}

/// Decides what is to be done with one clip. `source_is_file` and
/// `destination_is_file` say what the caller found on disk.
pub fn cut_clip(
    source: &str,
    destination: &str,
    label: &str,
    start: &str,
    stop: &str,
    remove_audio: bool,
    label_position: LabelPosition,
    label_display: bool,
    label_font_color: &str,
    source_is_file: bool,
    destination_is_file: bool,
) -> (decision: Decision)
    ensures
        decision@ == decided(
            ClipView {
                source: source@,
                label: label@,
                start: start@,
                stop: stop@,
                remove_audio,
                label_position,
                label_display,
                label_font_color: label_font_color@,
            },
            destination@,
            source_is_file,
            destination_is_file,
        ),
{
    if destination_is_file {
        Decision::Skip
    } else if !source_is_file {
        Decision::MissingSource
    } else {
        let clip = Clip {
            source: String::from_str(source),
            label: String::from_str(label),
            start: String::from_str(start),
            stop: String::from_str(stop),
            remove_audio,
            label_position,
            label_display,
            label_font_color: String::from_str(label_font_color),
        };
        Decision::Encode(build(&clip, destination))
    }
}

/// An existing destination is never cut again, and a clip is never cut
/// without its source: the engine is run exactly when the destination does
/// not exist and the source does.
pub proof fn law_encode_exactly_when_due(
    clip: ClipView,
    destination: Seq<char>,
    source_is_file: bool,
    destination_is_file: bool,
)
    ensures
        decided(clip, destination, source_is_file, destination_is_file) is Encode <==> (
        source_is_file && !destination_is_file),
        destination_is_file ==> decided(clip, destination, source_is_file, destination_is_file)
            == DecisionView::Skip,
{
}

} // verus!
