//! The command that stamps a whole video: its number at the top, the
//! running time below it, and the frame count at the bottom left.

use crate::command::{
    option_break, push_argument, CommandSpec, CommandView, ENGINE, FONT_FILE,
};
use crate::text::{decimal, decimal_text};
use vstd::prelude::*;
use vstd::string::*;

verus! {

/// The overlay that shows the video's number, centered at the top.
pub open spec fn number_overlay(number: nat) -> Seq<char> {
    "drawtext=fontsize=30:"@ + option_break()
        + "fontcolor=#00ff37:"@ + option_break()
        + "fontfile='"@ + FONT_FILE@ + "':"@ + option_break()
        + "text='#"@ + decimal(number) + "':"@ + option_break()
        + "box=1:boxcolor=Black@0.7:"@ + option_break()
        + "boxborderw=5:"@ + option_break()
        + "x=(w-text_w)/2:"@ + option_break()
        + "y=(5)"@
        + "\n    "@
}

/// The options that the two lower overlays share, up to the text.
pub open spec fn counter_options(size: Seq<char>) -> Seq<char> {
    option_break()
        + "drawtext=fontsize="@ + size + ":"@ + option_break()
        + "fontcolor=#00ff37:"@ + option_break()
        + "fontfile='"@ + FONT_FILE@ + "':"@ + option_break()
        + "start_number=0:"@ + option_break()
        + "box=1:"@ + option_break()
        + "boxcolor=Black@0.7:"@ + option_break()
        + "boxborderw=4:"@ + option_break()
}

/// The overlay that shows the running time, centered below the number.
pub open spec fn time_overlay() -> Seq<char> {
    counter_options("27"@)
        + "text='PTS\\:%{pts \\: hms}':"@ + option_break()
        + "x=(w-text_w)/2:"@ + option_break()
        + "y=(text_h+20)"@
        + "\n        "@
}

/// The overlay that shows the video's number and the frame count, at the
/// bottom left.
pub open spec fn frame_overlay(number: nat) -> Seq<char> {
    counter_options("20"@)
        + "text='#"@ + decimal(number) + " Frame\\:%{frame_num}':"@ + option_break()
        + "x=5:"@ + option_break()
        + "y=(h-text_h-5)"@
        + "\n        "@
}

/// The filter graph that stamps a video: the three overlays, one after the
/// other, between the input pad and the output pad.
pub open spec fn watermark_filter(number: nat) -> Seq<char> {
    "[in]"@ + number_overlay(number) + ","@ + time_overlay() + ","@ + frame_overlay(number)
        + "[out]"@
}

/// The engine's arguments for stamping a video: the input, the audio
/// copied, the encode profile, the filter, and the destination,
/// overwritten if it exists.
pub open spec fn watermark_arguments(source: Seq<char>, destination: Seq<char>, number: nat) -> Seq<
    Seq<char>,
> {
    seq![
        "-i"@,
        source,
        "-c:a"@,
        "copy"@,
        "-c:v"@,
        "hevc_nvenc"@,
        "-preset"@,
        "slow"@,
        "-tune"@,
        "hq"@,
        "-vf"@,
        watermark_filter(number),
        "-y"@,
        destination,
    ]
}

/// The command that stamps the video `source` with `number` into
/// `destination`.
pub open spec fn watermark_command(source: Seq<char>, destination: Seq<char>, number: nat)
    -> CommandView {
    CommandView { program: ENGINE@, arguments: watermark_arguments(source, destination, number) }
}

fn counter_text(size: &str) -> (text: String)
    ensures
        text@ == counter_options(size@),
{
    let gap = "\n            ";
    String::from_str(gap)
        .concat("drawtext=fontsize=").concat(size).concat(":")
        .concat(gap)
        .concat("fontcolor=#00ff37:")
        .concat(gap)
        .concat("fontfile='").concat(FONT_FILE).concat("':")
        .concat(gap)
        .concat("start_number=0:")
        .concat(gap)
        .concat("box=1:")
        .concat(gap)
        .concat("boxcolor=Black@0.7:")
        .concat(gap)
        .concat("boxborderw=4:")
        .concat(gap)
}

/// Writes the filter graph that stamps a video with its number.
pub fn draw_watermark(id_number: usize) -> (filter: String)
    ensures
        filter@ == watermark_filter(id_number as nat),
{
    let gap = "\n            ";
    let number = decimal_text(id_number as u64);
    let top = String::from_str("drawtext=fontsize=30:")
        .concat(gap)
        .concat("fontcolor=#00ff37:")
        .concat(gap)
        .concat("fontfile='").concat(FONT_FILE).concat("':")
        .concat(gap)
        .concat("text='#").concat(number.as_str()).concat("':")
        .concat(gap)
        .concat("box=1:boxcolor=Black@0.7:")
        .concat(gap)
        .concat("boxborderw=5:")
        .concat(gap)
        .concat("x=(w-text_w)/2:")
        .concat(gap)
        .concat("y=(5)")
        .concat("\n    ");
    let time = counter_text("27")
        .concat("text='PTS\\:%{pts \\: hms}':")
        .concat(gap)
        .concat("x=(w-text_w)/2:")
        .concat(gap)
        .concat("y=(text_h+20)")
        .concat("\n        ");
    let frame = counter_text("20")
        .concat("text='#").concat(number.as_str()).concat(" Frame\\:%{frame_num}':")
        .concat(gap)
        .concat("x=5:")
        .concat(gap)
        .concat("y=(h-text_h-5)")
        .concat("\n        ");
    String::from_str("[in]")
        .concat(top.as_str())
        .concat(",")
        .concat(time.as_str())
        .concat(",")
        .concat(frame.as_str())
        .concat("[out]")
}

/// Builds the command that stamps a video with its number.
/// `source_is_file` says what the caller found on disk: a video is stamped
/// only where its source is a file.
pub fn watermark_video(
    source: &str,
    destination: &str,
    id_number: usize,
    source_is_file: bool,
) -> (command: CommandSpec)
    requires
        source_is_file,
    ensures
        command@ == watermark_command(source@, destination@, id_number as nat),
{
    let filter = draw_watermark(id_number);
    let mut arguments: Vec<String> = Vec::new();
    assert(arguments.deep_view() =~= Seq::<Seq<char>>::empty());
    push_argument(&mut arguments, "-i");
    push_argument(&mut arguments, source);
    push_argument(&mut arguments, "-c:a");
    push_argument(&mut arguments, "copy");
    push_argument(&mut arguments, "-c:v");
    push_argument(&mut arguments, "hevc_nvenc");
    push_argument(&mut arguments, "-preset");
    push_argument(&mut arguments, "slow");
    push_argument(&mut arguments, "-tune");
    push_argument(&mut arguments, "hq");
    push_argument(&mut arguments, "-vf");
    push_argument(&mut arguments, filter.as_str());
    push_argument(&mut arguments, "-y");
    push_argument(&mut arguments, destination);
    assert(arguments.deep_view() =~= watermark_arguments(
        source@,
        destination@,
        id_number as nat,
    ));
    CommandSpec { program: String::from_str(ENGINE), arguments }
}

} // verus!
