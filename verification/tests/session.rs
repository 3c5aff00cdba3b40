use clipper::command::{CommandSpec, FONT_FILE};
use clipper::loader::{ConfigError, Warning};
use clipper::position::LabelPosition;
use clipper::cut::{cut_clip, Decision};
use clipper::session::{run_job, Action, ClipOutcome, Event, RunError, Session, Stage};

const ONE_CLIP: &str = "\
output_directory: out
clips:
  - label: Ex1
    source: a.mp4
    start: \"00:00:00\"
    stop: \"00:00:05\"
";

const THREE_CLIPS: &str = "\
output_directory: out
label_font_color: \"#38b1fc\"
clips:
  - label: One
    source: a.mp4
    start: \"0\"
    stop: \"5\"
  - label: \"Two: the sequel\"
    source: media/b.mov
    start: \"00:01:00\"
    stop: \"00:01:30.500\"
    remove_audio: true
    label_position: top_left
  - label: Three
    source: c.mkv
    start: \"10\"
    stop: \"20\"
    label_display: false
";

fn open(yaml: &str) -> Session {
    let opening = run_job(yaml);
    assert!(opening.warnings.is_empty());
    opening.session.expect("the description is a job")
}

fn filter_for(label: &str, color: &str, coordinates: &str) -> String {
    format!(
        "[in]drawtext=fontsize=(h/22):\n            fontcolor={color}:\n            \
         fontfile='{FONT_FILE}':\n            text='{label}':\n            \
         box=1:boxcolor=Black@0.7:\n            boxborderw=3:\n            {coordinates}\n    [out]"
    )
}

fn arguments(list: &[&str]) -> Vec<String> {
    list.iter().map(|s| s.to_string()).collect()
}

/// Goes through the start of a run: the directory is there, and so is every source.
fn past_the_checks(mut session: Session) -> Session {
    assert!(matches!(session.action(), Action::EnsureDirectory { .. }));
    session = session.handle(Event::Directory { ready: true });
    while let Action::CheckSource { .. } = session.action() {
        session = session.handle(Event::Source { present: true });
    }
    session
}

fn exited(success: bool, detail: &str) -> Event {
    Event::Exited { success, detail: detail.to_string() }
}

fn probed(source_is_file: bool, destination_is_file: bool) -> Event {
    Event::Probed { source_is_file, destination_is_file }
}

#[test]
fn test_cut() {
    let input_path = r".\test\a.mp4";
    let output_path = r".\test\output\a.mp4";
    let label = "Ex. 192 A";
    let start = "00:04:00";
    let stop = "00:04:05.100";

    let decision = cut_clip(
        input_path,
        output_path,
        label,
        start,
        stop,
        false,
        LabelPosition::BottomLeft,
        true,
        "#38b1fc",
        true,
        false,
    );
    let filter = filter_for("Ex. 192 A", "#38b1fc", "x=(5):y=(h-(text_h+5))");
    assert_eq!(
        decision,
        Decision::Encode(CommandSpec {
            program: "ffmpeg".to_string(),
            arguments: arguments(&[
                "-i",
                r".\test\a.mp4",
                "-ss",
                "00:04:00",
                "-to",
                "00:04:05.100",
                "-c:a",
                "copy",
                "-c:v",
                "libx265",
                "-crf",
                "20",
                "-preset",
                "slow",
                "-vf",
                filter.as_str(),
                "-y",
                r".\test\output\a.mp4",
            ]),
        })
    );
}

#[test]
fn cut_clip_skips_an_existing_destination() {
    for source_is_file in [true, false] {
        let decision = cut_clip(
            "a.mp4",
            "out/a.mp4",
            "a",
            "0",
            "1",
            false,
            LabelPosition::BottomLeft,
            true,
            "#38b1fc",
            source_is_file,
            true,
        );
        assert_eq!(decision, Decision::Skip);
    }
}

#[test]
fn cut_clip_reports_a_missing_source() {
    let decision = cut_clip(
        "a.mp4",
        "out/a.mp4",
        "a",
        "0",
        "1",
        false,
        LabelPosition::BottomLeft,
        true,
        "#38b1fc",
        false,
        false,
    );
    assert_eq!(decision, Decision::MissingSource);
}

#[test]
fn test_parse_yaml() {
    // What is handed over is the description itself: a path is a scalar, and no job.
    let opening = run_job("./test/example.yaml");
    assert_eq!(opening.session.err(), Some(ConfigError::RootNotMapping));
    assert!(opening.warnings.is_empty());

    let session = open(THREE_CLIPS);
    let job = session.job();
    assert_eq!(job.output_directory, "out");
    assert_eq!(job.default_label_color, "#38b1fc");
    assert_eq!(job.clips.len(), 3);
    assert_eq!(job.clips[0].label, "One");
    assert_eq!(job.clips[0].label_font_color, "#38b1fc");
    assert_eq!(job.clips[0].label_position, LabelPosition::BottomMiddle);
    assert!(!job.clips[0].remove_audio);
    assert!(job.clips[0].label_display);
    assert_eq!(job.clips[1].label, "Two: the sequel");
    assert_eq!(job.clips[1].source, "media/b.mov");
    assert_eq!(job.clips[1].stop, "00:01:30.500");
    assert!(job.clips[1].remove_audio);
    assert_eq!(job.clips[1].label_position, LabelPosition::TopLeft);
    assert!(!job.clips[2].label_display);
    assert_eq!(session.stage(), Stage::Directory);
}

#[test]
fn broken_yaml_opens_nothing() {
    let opening = run_job("output_directory: [out");
    assert_eq!(opening.session.err(), Some(ConfigError::Syntax));
    assert!(opening.warnings.is_empty());
}

#[test]
fn a_description_without_output_directory_opens_nothing() {
    let opening = run_job("clips: []\nnote: hello\n");
    assert_eq!(opening.session.err(), Some(ConfigError::MissingOutputDirectory));
    assert_eq!(
        opening.warnings,
        vec![Warning::UnrecognizedKey { key: Some("note".to_string()) }]
    );
}

#[test]
fn an_unrecognized_key_does_not_stop_the_run() {
    let opening = run_job("output_directory: out\nauthor: me\n");
    assert_eq!(
        opening.warnings,
        vec![Warning::UnrecognizedKey { key: Some("author".to_string()) }]
    );
    let session = opening.session.expect("the description is a job");
    assert_eq!(session.job().output_directory, "out");
    assert!(session.job().clips.is_empty());
}

#[test]
fn the_run_starts_by_making_sure_of_the_directory() {
    let session = open(ONE_CLIP);
    assert_eq!(session.action(), Action::EnsureDirectory { path: "out".to_string() });
    assert!(!session.is_over());
    assert!(session.outcomes().is_empty());
}

#[test]
fn no_directory_ends_the_run() {
    let session = open(ONE_CLIP).handle(Event::Directory { ready: false });
    assert_eq!(session.stage(), Stage::Aborted(RunError::NoDirectory));
    assert_eq!(session.failure(), Some(RunError::NoDirectory));
    assert_eq!(session.action(), Action::Stop);
    assert!(session.is_over());
}

#[test]
fn sources_are_looked_for_before_any_clip_is_cut() {
    let mut session = open(THREE_CLIPS).handle(Event::Directory { ready: true });
    assert_eq!(
        session.action(),
        Action::CheckSource { clip: 0, source: "a.mp4".to_string() }
    );
    session = session.handle(Event::Source { present: true });
    assert_eq!(
        session.action(),
        Action::CheckSource { clip: 1, source: "media/b.mov".to_string() }
    );
    session = session.handle(Event::Source { present: false });
    assert_eq!(
        session.action(),
        Action::CheckSource { clip: 2, source: "c.mkv".to_string() }
    );
    session = session.handle(Event::Source { present: true });
    assert_eq!(
        session.warnings(),
        &vec![Warning::SourceNotFound { clip: 1, source: "media/b.mov".to_string() }]
    );
    assert_eq!(session.stage(), Stage::Probe(0));
    assert!(session.failure().is_none());
}

#[test]
fn end_to_end_one_clip() {
    let mut session = past_the_checks(open(ONE_CLIP));
    assert_eq!(
        session.action(),
        Action::Probe {
            clip: 0,
            source: "a.mp4".to_string(),
            destination: "out/Ex1.mp4".to_string(),
            renamed: false,
        }
    );
    session = session.handle(probed(true, false));
    let filter = filter_for("Ex1", "#32b1ac", "x=(w-text_w)/2:y=(h-(text_h+5))");
    assert_eq!(
        session.action(),
        Action::Invoke {
            clip: 0,
            command: CommandSpec {
                program: "ffmpeg".to_string(),
                arguments: arguments(&[
                    "-i",
                    "a.mp4",
                    "-ss",
                    "00:00:00",
                    "-to",
                    "00:00:05",
                    "-c:a",
                    "copy",
                    "-c:v",
                    "libx265",
                    "-crf",
                    "20",
                    "-preset",
                    "slow",
                    "-vf",
                    filter.as_str(),
                    "-y",
                    "out/Ex1.mp4",
                ]),
            },
        }
    );
    session = session.handle(exited(true, ""));
    assert_eq!(session.action(), Action::Stop);
    assert_eq!(session.stage(), Stage::Finished);
    assert_eq!(session.outcomes(), &vec![ClipOutcome::Completed]);
}

#[test]
fn end_to_end_counts_one_invocation() {
    let mut session = open(ONE_CLIP);
    let mut invocations = 0;
    let mut steps = 0;
    loop {
        steps += 1;
        assert!(steps < 20);
        let event = match session.action() {
            Action::EnsureDirectory { .. } => Event::Directory { ready: true },
            Action::CheckSource { .. } => Event::Source { present: true },
            Action::Probe { .. } => probed(true, false),
            Action::Invoke { .. } => {
                invocations += 1;
                exited(true, "")
            }
            Action::Stop => break,
        };
        session = session.handle(event);
    }
    assert_eq!(invocations, 1);
}

#[test]
fn end_to_end_colon_in_label() {
    let yaml = ONE_CLIP.replace("label: Ex1", "label: \"Ex:1\"");
    let mut session = past_the_checks(open(&yaml));
    assert_eq!(
        session.action(),
        Action::Probe {
            clip: 0,
            source: "a.mp4".to_string(),
            destination: "out/Ex-1.mp4".to_string(),
            renamed: true,
        }
    );
    session = session.handle(probed(true, false));
    match session.action() {
        Action::Invoke { clip: 0, command } => {
            assert_eq!(command.arguments.last().unwrap(), "out/Ex-1.mp4");
            let filter = &command.arguments[command.arguments.len() - 3];
            assert!(filter.contains("text='Ex:1':"));
        }
        other => panic!("expected the engine to be run, got {other:?}"),
    }
}

#[test]
fn end_to_end_remove_audio() {
    let yaml = format!("{ONE_CLIP}    remove_audio: true\n");
    let session = past_the_checks(open(&yaml)).handle(probed(true, false));
    match session.action() {
        Action::Invoke { clip: 0, command } => {
            assert!(command.arguments.iter().any(|a| a == "-an"));
            assert!(command.arguments.iter().all(|a| a != "-c:a" && a != "copy"));
        }
        other => panic!("expected the engine to be run, got {other:?}"),
    }
}

#[test]
fn an_existing_destination_is_skipped_without_the_engine() {
    for source_is_file in [true, false] {
        let mut session = past_the_checks(open(THREE_CLIPS));
        session = session.handle(probed(source_is_file, true));
        assert_eq!(session.outcomes(), &vec![ClipOutcome::Skipped]);
        assert_eq!(session.stage(), Stage::Probe(1));
        assert!(matches!(session.action(), Action::Probe { clip: 1, .. }));
    }
}

#[test]
fn a_rerun_of_a_finished_job_runs_nothing() {
    let mut session = past_the_checks(open(THREE_CLIPS));
    let mut invocations = 0;
    loop {
        let event = match session.action() {
            Action::Probe { .. } => probed(true, true),
            Action::Invoke { .. } => {
                invocations += 1;
                exited(true, "")
            }
            Action::Stop => break,
            other => panic!("unexpected {other:?}"),
        };
        session = session.handle(event);
    }
    assert_eq!(invocations, 0);
    assert_eq!(
        session.outcomes(),
        &vec![ClipOutcome::Skipped, ClipOutcome::Skipped, ClipOutcome::Skipped]
    );
    assert_eq!(session.stage(), Stage::Finished);
}

#[test]
fn a_missing_source_ends_the_run() {
    let mut session = past_the_checks(open(THREE_CLIPS));
    session = session.handle(probed(true, false)).handle(exited(true, ""));
    session = session.handle(probed(false, false));
    assert_eq!(session.stage(), Stage::Aborted(RunError::MissingSource { clip: 1 }));
    assert_eq!(session.failure(), Some(RunError::MissingSource { clip: 1 }));
    assert_eq!(session.action(), Action::Stop);
    assert_eq!(session.outcomes(), &vec![ClipOutcome::Completed]);
    let same = session.handle(probed(true, false));
    assert_eq!(same.stage(), Stage::Aborted(RunError::MissingSource { clip: 1 }));
}

#[test]
fn an_engine_failure_is_reported_and_the_run_goes_on() {
    let mut session = past_the_checks(open(THREE_CLIPS));
    session = session.handle(probed(true, false));
    session = session.handle(exited(false, "a.mp4: Invalid data found when processing input\n"));
    assert_eq!(
        session.outcomes(),
        &vec![ClipOutcome::Failed {
            detail: "a.mp4: Invalid data found when processing input\n".to_string()
        }]
    );
    assert_eq!(session.stage(), Stage::Probe(1));
    assert!(session.failure().is_none());
    session = session.handle(probed(true, false)).handle(exited(true, ""));
    session = session.handle(probed(true, false)).handle(exited(true, ""));
    assert_eq!(session.stage(), Stage::Finished);
    assert_eq!(session.outcomes().len(), 3);
    assert_eq!(session.outcomes()[1], ClipOutcome::Completed);
}

#[test]
fn clips_are_cut_in_the_order_of_the_job() {
    let mut session = past_the_checks(open(THREE_CLIPS));
    let mut destinations = Vec::new();
    loop {
        let event = match session.action() {
            Action::Probe { destination, .. } => {
                destinations.push(destination);
                probed(true, false)
            }
            Action::Invoke { .. } => exited(true, ""),
            Action::Stop => break,
            other => panic!("unexpected {other:?}"),
        };
        session = session.handle(event);
    }
    assert_eq!(destinations, ["out/One.mp4", "out/Two- the sequel.mov", "out/Three.mkv"]);
}

#[test]
fn the_second_clip_of_three_has_no_audio_and_a_top_left_label() {
    let mut session = past_the_checks(open(THREE_CLIPS));
    session = session.handle(probed(true, true)).handle(probed(true, false));
    let filter = filter_for("Two: the sequel", "#38b1fc", "x=(5):y=(5+5)");
    assert_eq!(
        session.action(),
        Action::Invoke {
            clip: 1,
            command: CommandSpec {
                program: "ffmpeg".to_string(),
                arguments: arguments(&[
                    "-i",
                    "media/b.mov",
                    "-ss",
                    "00:01:00",
                    "-to",
                    "00:01:30.500",
                    "-an",
                    "-c:v",
                    "libx265",
                    "-crf",
                    "20",
                    "-preset",
                    "slow",
                    "-vf",
                    filter.as_str(),
                    "-y",
                    "out/Two- the sequel.mov",
                ]),
            },
        }
    );
}

#[test]
fn a_clip_without_label_display_is_a_plain_trim() {
    let mut session = past_the_checks(open(THREE_CLIPS));
    session = session.handle(probed(true, true)).handle(probed(true, true));
    session = session.handle(probed(true, false));
    match session.action() {
        Action::Invoke { clip: 2, command } => {
            assert!(command.arguments.iter().all(|a| a != "-vf"));
            assert_eq!(command.arguments.len(), 16);
        }
        other => panic!("expected the engine to be run, got {other:?}"),
    }
}

#[test]
fn a_source_without_extension_ends_the_run() {
    let yaml = ONE_CLIP.replace("source: a.mp4", "source: a");
    let session = past_the_checks(open(&yaml));
    assert_eq!(session.stage(), Stage::Aborted(RunError::NoExtension { clip: 0 }));
    assert_eq!(session.action(), Action::Stop);
    assert!(session.outcomes().is_empty());
}

#[test]
fn an_event_that_answers_nothing_changes_nothing() {
    let session = open(ONE_CLIP);
    let session = session.handle(probed(true, false));
    assert_eq!(session.stage(), Stage::Directory);
    let session = session.handle(exited(true, "")).handle(Event::Source { present: false });
    assert_eq!(session.stage(), Stage::Directory);
    assert!(session.warnings().is_empty());
    let session = past_the_checks(session).handle(Event::Directory { ready: false });
    assert_eq!(session.stage(), Stage::Probe(0));
}

#[test]
fn a_job_without_clips_finishes_after_the_directory() {
    let session = open("output_directory: out\n").handle(Event::Directory { ready: true });
    assert_eq!(session.stage(), Stage::Finished);
    assert_eq!(session.action(), Action::Stop);
    assert!(session.is_over());
}

/// What cutting clip by clip comes to, written as the plain loop.
fn expected_end(
    clips: usize,
    destination: &[bool],
    source: &[bool],
    success: &[bool],
) -> (Stage, Vec<ClipOutcome>) {
    let mut outcomes = Vec::new();
    for clip in 0..clips {
        if destination[clip] {
            outcomes.push(ClipOutcome::Skipped);
        } else if !source[clip] {
            return (Stage::Aborted(RunError::MissingSource { clip }), outcomes);
        } else if success[clip] {
            outcomes.push(ClipOutcome::Completed);
        } else {
            outcomes.push(ClipOutcome::Failed { detail: format!("failed on {clip}") });
        }
    }
    (Stage::Finished, outcomes)
}

#[test]
fn every_world_ends_as_the_plain_loop_does() {
    for world in 0..512u32 {
        let bit = |n: u32| world & (1 << n) != 0;
        let destination = [bit(0), bit(1), bit(2)];
        let source = [bit(3), bit(4), bit(5)];
        let success = [bit(6), bit(7), bit(8)];
        let mut session = past_the_checks(open(THREE_CLIPS));
        let mut invoked = Vec::new();
        let mut steps = 0;
        loop {
            steps += 1;
            assert!(steps <= 7);
            let event = match session.action() {
                Action::Probe { clip, .. } => probed(source[clip], destination[clip]),
                Action::Invoke { clip, .. } => {
                    invoked.push(clip);
                    exited(success[clip], &format!("failed on {clip}"))
                }
                Action::Stop => break,
                other => panic!("unexpected {other:?}"),
            };
            session = session.handle(event);
        }
        let (stage, outcomes) = expected_end(3, &destination, &source, &success);
        assert_eq!(session.stage(), stage);
        assert_eq!(session.outcomes(), &outcomes);
        for clip in invoked {
            assert!(source[clip] && !destination[clip]);
        }
    }
}

#[test]
fn a_job_color_written_last_colors_the_label() {
    let yaml = format!("{ONE_CLIP}label_font_color: \"#ff0000\"\n");
    let session = past_the_checks(open(&yaml)).handle(probed(true, false));
    assert_eq!(session.job().clips[0].label_font_color, "#ff0000");
    match session.action() {
        Action::Invoke { clip: 0, command } => {
            let filter = &command.arguments[command.arguments.len() - 3];
            assert!(filter.contains("fontcolor=#ff0000:"));
        }
        other => panic!("expected the engine to be run, got {other:?}"),
    }
}
