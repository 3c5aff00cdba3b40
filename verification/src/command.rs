//! The command that cuts one clip: the transcoder's arguments, and the
//! filter that draws the label.

use crate::model::{Clip, ClipView};
use crate::position::{coordinates, rendered, resolve};
use crate::text::{decimal, decimal_text};
use vstd::prelude::*;
use vstd::string::*;

verus! {

/// The transcoder that the commands are written for.
pub const ENGINE: &'static str = "ffmpeg";

/// The bold monospace font that labels are drawn in.
pub const FONT_FILE: &'static str = "C\\:/Windows/Fonts/courbd.ttf";

/// A label is as tall as the frame's height divided by this.
pub const FONT_DIVISOR: u64 = 22;

/// Width, in pixels, of the border of the box behind a label.
pub const BOX_BORDER: u64 = 3;

/// A program and the arguments it is started with.
#[derive(Debug, PartialEq, Eq)]
pub struct CommandSpec {
    pub program: String,
    pub arguments: Vec<String>,
}

/// A command, its program and arguments as sequences of characters.
pub struct CommandView {
    pub program: Seq<char>,
    pub arguments: Seq<Seq<char>>,
}

impl View for CommandSpec {
    type V = CommandView;

    open spec fn view(&self) -> CommandView {
        CommandView { program: self.program@, arguments: self.arguments.deep_view() }
    }
}

/// What follows the colon that ends an option of the label's text overlay.
pub open spec fn option_break() -> Seq<char> {
    "\n            "@
}

/// The filter graph that draws a clip's label: the input pad, one text
/// overlay with its options, and the output pad. The options are the font
/// size, the color, the font, the text, the box behind it with its color and
/// border, and the coordinates of the clip's label position.
pub open spec fn label_filter(clip: ClipView) -> Seq<char> {
    "[in]"@
        + "drawtext=fontsize=(h/"@ + decimal(FONT_DIVISOR as nat) + "):"@ + option_break()
        + "fontcolor="@ + clip.label_font_color + ":"@ + option_break()
        + "fontfile='"@ + FONT_FILE@ + "':"@ + option_break()
        + "text='"@ + clip.label + "':"@ + option_break()
        + "box=1:boxcolor=Black@0.7:"@ + option_break()
        + "boxborderw="@ + decimal(BOX_BORDER as nat) + ":"@ + option_break()
        + rendered(coordinates(clip.label_position))
        + "\n    "@
        + "[out]"@
}

/// The arguments that decide the output's audio: none at all, or the
/// input's audio copied as it is.
pub open spec fn audio_arguments(remove_audio: bool) -> Seq<Seq<char>> {
    if remove_audio {
        seq!["-an"@]
    } else {
        seq!["-c:a"@, "copy"@]
    }
}

/// The arguments that fix how the video is encoded.
pub open spec fn encode_profile() -> Seq<Seq<char>> {
    seq!["-c:v"@, "libx265"@, "-crf"@, "20"@, "-preset"@, "slow"@]
}

/// The arguments that draw the label; none where the clip displays no label.
pub open spec fn filter_arguments(clip: ClipView) -> Seq<Seq<char>> {
    if clip.label_display {
        seq!["-vf"@, label_filter(clip)]
    } else {
        Seq::empty()
    }
}

/// The transcoder's arguments for one clip, in order: the input, the range,
/// the audio handling, the encode profile, the label filter if the label is
/// displayed, and the destination, overwritten if it exists.
pub open spec fn clip_arguments(clip: ClipView, destination: Seq<char>) -> Seq<Seq<char>> {
    seq!["-i"@, clip.source, "-ss"@, clip.start, "-to"@, clip.stop] + audio_arguments(
        clip.remove_audio,
    ) + encode_profile() + filter_arguments(clip) + seq!["-y"@, destination]
}

/// The command that cuts `clip` into `destination`.
pub open spec fn clip_command(clip: ClipView, destination: Seq<char>) -> CommandView {
    CommandView { program: ENGINE@, arguments: clip_arguments(clip, destination) }
}

/// Appends one argument.
pub fn push_argument(arguments: &mut Vec<String>, argument: &str)
    ensures
        final(arguments).deep_view() == old(arguments).deep_view().push(argument@),
{
    arguments.push(String::from_str(argument));
    assert(arguments.deep_view() =~= old(arguments).deep_view().push(argument@));
}

/// Writes the filter graph that draws a clip's label.
pub fn draw_label(clip: &Clip) -> (filter: String)
    ensures
        filter@ == label_filter(clip@),
{
    let gap = "\n            ";
    String::from_str("[in]")
        .concat("drawtext=fontsize=(h/").concat(decimal_text(FONT_DIVISOR).as_str()).concat("):")
        .concat(gap)
        .concat("fontcolor=").concat(clip.label_font_color.as_str()).concat(":")
        .concat(gap)
        .concat("fontfile='").concat(FONT_FILE).concat("':")
        .concat(gap)
        .concat("text='").concat(clip.label.as_str()).concat("':")
        .concat(gap)
        .concat("box=1:boxcolor=Black@0.7:")
        .concat(gap)
        .concat("boxborderw=").concat(decimal_text(BOX_BORDER).as_str()).concat(":")
        .concat(gap)
        .concat(resolve(clip.label_position).render().as_str())
        .concat("\n    ")
        .concat("[out]")
}

/// Builds the command that cuts `clip` into `destination`. Nothing is looked
/// up on disk: the command is a function of the clip and the destination.
pub fn build(clip: &Clip, destination: &str) -> (command: CommandSpec)
    ensures
        command@ == clip_command(clip@, destination@),
{
    let mut arguments: Vec<String> = Vec::new();
    assert(arguments.deep_view() =~= Seq::<Seq<char>>::empty());
    push_argument(&mut arguments, "-i");
    push_argument(&mut arguments, clip.source.as_str());
    push_argument(&mut arguments, "-ss");
    push_argument(&mut arguments, clip.start.as_str());
    push_argument(&mut arguments, "-to");
    push_argument(&mut arguments, clip.stop.as_str());
    if clip.remove_audio {
        push_argument(&mut arguments, "-an");
    } else {
        push_argument(&mut arguments, "-c:a");
        push_argument(&mut arguments, "copy");
    }
    push_argument(&mut arguments, "-c:v");
    push_argument(&mut arguments, "libx265");
    push_argument(&mut arguments, "-crf");
    push_argument(&mut arguments, "20");
    push_argument(&mut arguments, "-preset");
    push_argument(&mut arguments, "slow");
    if clip.label_display {
        let filter = draw_label(clip);
        push_argument(&mut arguments, "-vf");
        push_argument(&mut arguments, filter.as_str());
    }
    push_argument(&mut arguments, "-y");
    push_argument(&mut arguments, destination);
    assert(arguments.deep_view() =~= clip_arguments(clip@, destination@));
    CommandSpec { program: String::from_str(ENGINE), arguments }
}

/// The audio of a clip is either removed or copied, never both: a clip
/// that removes its audio has the one argument that does so, and neither of
/// the two that copy it; any other clip has those two, and not the one.
pub proof fn law_audio_handling(remove_audio: bool)
    ensures
        remove_audio ==> audio_arguments(remove_audio) == seq!["-an"@],
        remove_audio ==> !audio_arguments(remove_audio).contains("-c:a"@),
        remove_audio ==> !audio_arguments(remove_audio).contains("copy"@),
        !remove_audio ==> audio_arguments(remove_audio) == seq!["-c:a"@, "copy"@],
        !remove_audio ==> !audio_arguments(remove_audio).contains("-an"@),
{
    reveal_strlit("-an");
    reveal_strlit("-c:a");
    reveal_strlit("copy");
    assert("-an"@.len() == 3);
    assert("-c:a"@.len() == 4);
    assert("copy"@.len() == 4);
}

/// Where each part of a clip's command stands: the input and the range in
/// the first six arguments, then the audio handling, the encode profile,
/// the label filter if there is one, and last the destination, after the
/// argument that lets the engine overwrite it.
pub proof fn law_arguments_layout(clip: ClipView, destination: Seq<char>)
    ensures
        ({
            let arguments = clip_arguments(clip, destination);
            let audio = audio_arguments(clip.remove_audio);
            let filter = filter_arguments(clip);
            let count = arguments.len() as int;
            let profile = 6 + audio.len() as int;
            &&& count == profile + 6 + filter.len() + 2
            &&& arguments.subrange(0, 6) == seq![
                "-i"@,
                clip.source,
                "-ss"@,
                clip.start,
                "-to"@,
                clip.stop,
            ]
            &&& arguments.subrange(6, profile) == audio
            &&& arguments.subrange(profile, profile + 6) == encode_profile()
            &&& arguments.subrange(profile + 6, count - 2) == filter
            &&& arguments[count - 2] == "-y"@
            &&& arguments[count - 1] == destination
        }),
{
    let arguments = clip_arguments(clip, destination);
    let audio = audio_arguments(clip.remove_audio);
    let filter = filter_arguments(clip);
    let count = arguments.len() as int;
    let profile = 6 + audio.len() as int;
    assert(arguments.subrange(0, 6) =~= seq![
        "-i"@,
        clip.source,
        "-ss"@,
        clip.start,
        "-to"@,
        clip.stop,
    ]);
    assert(arguments.subrange(6, profile) =~= audio);
    assert(arguments.subrange(profile, profile + 6) =~= encode_profile());
    assert(arguments.subrange(profile + 6, count - 2) =~= filter);
}

/// A clip that displays no label is trimmed and encoded, and nothing is
/// drawn on it; one that displays its label has the one filter that draws it.
pub proof fn law_label_display(clip: ClipView)
    ensures
        !clip.label_display ==> filter_arguments(clip).len() == 0,
        clip.label_display ==> filter_arguments(clip).len() == 2 && filter_arguments(clip)[1]
            == label_filter(clip),
{
}

} // verus!
