use clipper::command::{CommandSpec, FONT_FILE};
use clipper::watermark::{draw_watermark, watermark_video};

fn expected_filter(number: &str) -> String {
    let b = "\n            ";
    let mut f = String::from("[in]");
    f += &format!(
        "drawtext=fontsize=30:{b}fontcolor=#00ff37:{b}fontfile='{FONT_FILE}':{b}text='#{number}':{b}\
         box=1:boxcolor=Black@0.7:{b}boxborderw=5:{b}x=(w-text_w)/2:{b}y=(5)\n    "
    );
    f += ",";
    f += &format!(
        "{b}drawtext=fontsize=27:{b}fontcolor=#00ff37:{b}fontfile='{FONT_FILE}':{b}start_number=0:{b}\
         box=1:{b}boxcolor=Black@0.7:{b}boxborderw=4:{b}text='PTS\\:%{{pts \\: hms}}':{b}\
         x=(w-text_w)/2:{b}y=(text_h+20)\n        "
    );
    f += ",";
    f += &format!(
        "{b}drawtext=fontsize=20:{b}fontcolor=#00ff37:{b}fontfile='{FONT_FILE}':{b}start_number=0:{b}\
         box=1:{b}boxcolor=Black@0.7:{b}boxborderw=4:{b}text='#{number} Frame\\:%{{frame_num}}':{b}\
         x=5:{b}y=(h-text_h-5)\n        "
    );
    f += "[out]";
    f
}

#[test]
fn test_draw() {
    let input_path = r".\testvideo\b.mp4";
    let output_path = r".\testvideo\out\b.mp4";

    let command = watermark_video(input_path, output_path, 295, true);
    let filter = expected_filter("295");
    let arguments: Vec<String> = [
        "-i",
        r".\testvideo\b.mp4",
        "-c:a",
        "copy",
        "-c:v",
        "hevc_nvenc",
        "-preset",
        "slow",
        "-tune",
        "hq",
        "-vf",
        filter.as_str(),
        "-y",
        r".\testvideo\out\b.mp4",
    ]
    .iter()
    .map(|s| s.to_string())
    .collect();
    assert_eq!(command, CommandSpec { program: "ffmpeg".to_string(), arguments });
}

#[test]
fn watermark_filter_shows_the_number_twice() {
    let filter = draw_watermark(7);
    assert_eq!(filter, expected_filter("7"));
    assert_eq!(filter.matches("#7").count(), 2);
    assert!(filter.starts_with("[in]drawtext=fontsize=30:\n"));
    assert!(filter.ends_with("y=(h-text_h-5)\n        [out]"));
}

#[test]
fn watermark_filter_of_number_zero() {
    assert_eq!(draw_watermark(0), expected_filter("0"));
}
