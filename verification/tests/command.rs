use clipper::command::{build, draw_label, CommandSpec, ENGINE, FONT_FILE};
use clipper::model::Clip;
use clipper::position::LabelPosition;

fn clip() -> Clip {
    Clip {
        source: "a.mp4".to_string(),
        label: "Ex1".to_string(),
        start: "00:00:00".to_string(),
        stop: "00:00:05".to_string(),
        remove_audio: false,
        label_position: LabelPosition::BottomMiddle,
        label_display: true,
        label_font_color: "#32b1ac".to_string(),
    }
}

fn filter_for(label: &str, color: &str, coordinates: &str) -> String {
    format!(
        "[in]drawtext=fontsize=(h/22):\n            fontcolor={color}:\n            \
         fontfile='{FONT_FILE}':\n            text='{label}':\n            \
         box=1:boxcolor=Black@0.7:\n            boxborderw=3:\n            {coordinates}\n    [out]"
    )
}

#[test]
fn label_filter_text() {
    assert_eq!(
        draw_label(&clip()),
        "[in]drawtext=fontsize=(h/22):\n            fontcolor=#32b1ac:\n            fontfile='C\\:/Windows/Fonts/courbd.ttf':\n            text='Ex1':\n            box=1:boxcolor=Black@0.7:\n            boxborderw=3:\n            x=(w-text_w)/2:y=(h-(text_h+5))\n    [out]"
    );
}

#[test]
fn label_filter_follows_the_clip() {
    let mut c = clip();
    c.label = "Ex. 192 A".to_string();
    c.label_font_color = "#38b1fc".to_string();
    c.label_position = LabelPosition::TopRight;
    assert_eq!(
        draw_label(&c),
        filter_for("Ex. 192 A", "#38b1fc", "x=(w-(text_w+5)):y=(5+5)")
    );
}

#[test]
fn command_with_label_and_audio() {
    let command = build(&clip(), "out/Ex1.mp4");
    let filter = filter_for("Ex1", "#32b1ac", "x=(w-text_w)/2:y=(h-(text_h+5))");
    let expected: Vec<String> = [
        "-i", "a.mp4", "-ss", "00:00:00", "-to", "00:00:05", "-c:a", "copy", "-c:v", "libx265",
        "-crf", "20", "-preset", "slow", "-vf", filter.as_str(), "-y", "out/Ex1.mp4",
    ]
    .iter()
    .map(|s| s.to_string())
    .collect();
    assert_eq!(command, CommandSpec { program: "ffmpeg".to_string(), arguments: expected });
    assert_eq!(command.program, ENGINE);
}

#[test]
fn command_without_audio() {
    let mut c = clip();
    c.remove_audio = true;
    let command = build(&c, "out/Ex1.mp4");
    assert_eq!(command.arguments[6], "-an");
    assert_eq!(command.arguments[7], "-c:v");
    assert!(command.arguments.iter().all(|a| a != "-c:a" && a != "copy"));
    assert_eq!(command.arguments.len(), 17);
}

#[test]
fn command_with_audio_copies_it() {
    let command = build(&clip(), "out/Ex1.mp4");
    assert_eq!(&command.arguments[6..8], ["-c:a", "copy"]);
    assert!(command.arguments.iter().all(|a| a != "-an"));
}

#[test]
fn command_without_label_is_a_plain_trim() {
    let mut c = clip();
    c.label_display = false;
    let command = build(&c, "out/Ex1.mp4");
    let expected = [
        "-i", "a.mp4", "-ss", "00:00:00", "-to", "00:00:05", "-c:a", "copy", "-c:v", "libx265",
        "-crf", "20", "-preset", "slow", "-y", "out/Ex1.mp4",
    ];
    assert_eq!(command.arguments, expected);
}

#[test]
fn command_ends_with_overwrite_and_destination() {
    let command = build(&clip(), r".\test\output\a.mp4");
    let n = command.arguments.len();
    assert_eq!(command.arguments[n - 2], "-y");
    assert_eq!(command.arguments[n - 1], r".\test\output\a.mp4");
}

#[test]
fn timecodes_pass_through_as_written() {
    let mut c = clip();
    c.start = "00:04:00".to_string();
    c.stop = "00:04:05.100".to_string();
    let command = build(&c, "x.mp4");
    assert_eq!(&command.arguments[2..6], ["-ss", "00:04:00", "-to", "00:04:05.100"]);
}
