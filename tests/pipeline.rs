use vibbon::command::command_text;
use vibbon::graph::OutputSpec;
use vibbon::naming::{
    choose_title, default_title, output_file_name, output_path_for, upload_extension,
};
use vibbon::pages::{render_failure_page, render_home, render_result_page};
use vibbon::pipeline::{
    accepts_record, accepts_upload, artifact_ok, source_kind, step, template_refusal, tools_warning,
    upload_large_enough, Action,
    Event, Job, Op, Outcome, Phase, SourceKind, Tools, NO_DURATION, RECORD_REJECTED,
    UPLOAD_REJECTED,
};
use vibbon::probe::parse_duration_ms;
use vibbon::template::Registry;

fn tools() -> Tools {
    Tools { encoder: "/usr/bin/ffmpeg".to_string(), prober: "/usr/bin/ffprobe".to_string() }
}

fn job(source: SourceKind, ext: &str, mime: &str) -> Job {
    Job {
        source,
        ext: ext.to_string(),
        mime: mime.to_string(),
        title: "clip".to_string(),
        raw_path: "uploads/raw_1".to_string(),
        input_path: "uploads/vid_1.mp4".to_string(),
        graph_path: "uploads/fc_1.txt".to_string(),
        output_path: "outputs/clip.mp4".to_string(),
    }
}

fn exited(success: bool, size: Option<u64>, stdout: &str, stderr: &str) -> Event {
    Event::Exited { success, output_size: size, stdout: stdout.to_string(), stderr: stderr.to_string() }
}

fn run(phase: Phase, job: &Job, event: Event) -> (Phase, Action) {
    let reg = Registry::builtin();
    step(&tools(), &OutputSpec::standard(), &reg.templates[0], job, phase, event)
}

fn composing() -> Phase {
    Phase::Composing { graph: "G".to_string(), command: "C".to_string() }
}

#[test]
fn parse_durations() {
    assert_eq!(parse_duration_ms("12.345678\n"), 12346);
    assert_eq!(parse_duration_ms("30.500000"), 30500);
    assert_eq!(parse_duration_ms("  7 "), 7000);
    assert_eq!(parse_duration_ms("0.0004"), 1);
    assert_eq!(parse_duration_ms("0.999"), 999);
    assert_eq!(parse_duration_ms("+3."), 3000);
    assert_eq!(parse_duration_ms(".5"), 500);
    assert_eq!(parse_duration_ms("0.0"), 0);
    assert_eq!(parse_duration_ms("N/A"), 0);
    assert_eq!(parse_duration_ms(""), 0);
    assert_eq!(parse_duration_ms("."), 0);
    assert_eq!(parse_duration_ms("1.2.3"), 0);
    assert_eq!(parse_duration_ms("-5"), 0);
    assert_eq!(parse_duration_ms("99999999999999999999"), 0);
}

#[test]
fn probe_error_rejects_before_compose() {
    let j = job(SourceKind::Upload, "mp4", "video/mp4");
    let (next, act) = run(Phase::Probing, &j, exited(false, None, "", "boom"));
    assert!(matches!(next, Phase::Done));
    assert_eq!(act.remove, vec!["uploads/vid_1.mp4"]);
    match act.op {
        Op::Reject { message } => assert_eq!(message, "ffprobe failed: boom"),
        _ => panic!("expected a rejection"),
    }
}

#[test]
fn zero_duration_rejects_before_compose() {
    let j = job(SourceKind::Upload, "mp4", "video/mp4");
    let (next, act) = run(Phase::Probing, &j, exited(true, None, "0.0\n", ""));
    assert!(matches!(next, Phase::Done));
    match act.op {
        Op::Reject { message } => assert_eq!(message, NO_DURATION),
        _ => panic!("expected a rejection"),
    }
    let (next, act) = run(Phase::Done, &j, Event::Begin);
    assert!(matches!(next, Phase::Done));
    assert!(matches!(act.op, Op::Internal));
}

#[test]
fn probed_duration_starts_compose() {
    let j = job(SourceKind::Upload, "mp4", "video/mp4");
    let (next, act) = run(Phase::Probing, &j, exited(true, None, "45.0\n", ""));
    assert!(act.remove.is_empty());
    let graph_text = match next {
        Phase::Composing { graph, command } => {
            assert!(command.starts_with("/usr/bin/ffmpeg -y -i \"uploads/vid_1.mp4\" "));
            assert!(command.contains("-t 30 "));
            graph
        }
        _ => panic!("expected composing"),
    };
    match act.op {
        Op::WriteGraphAndRun { graph_path, graph, program, args } => {
            assert_eq!(graph_path, "uploads/fc_1.txt");
            assert_eq!(graph, graph_text);
            assert_eq!(program, "/usr/bin/ffmpeg");
            let i = args.iter().position(|a| a == "-t").unwrap();
            assert_eq!(args[i + 1], "30");
        }
        _ => panic!("expected the compose run"),
    }
}

#[test]
fn failed_normalization_removes_raw_and_input() {
    let j = job(SourceKind::Record, "webm", "video/webm");
    let (next, act) = run(Phase::Normalizing, &j, exited(true, Some(10), "", "bad"));
    assert!(matches!(next, Phase::Done));
    assert_eq!(act.remove, vec!["uploads/raw_1", "uploads/vid_1.mp4"]);
    match act.op {
        Op::Reject { message } => assert_eq!(message, "Gagal konversi rekaman ke MP4.\nbad"),
        _ => panic!("expected a rejection"),
    }
    let (_, act) = run(Phase::Normalizing, &j, exited(false, Some(5000), "", ""));
    assert!(matches!(act.op, Op::Reject { .. }));
}

#[test]
fn normalized_recording_is_probed() {
    let j = job(SourceKind::Record, "webm", "video/webm");
    let (next, act) = run(Phase::Normalizing, &j, exited(true, Some(5000), "", ""));
    assert!(matches!(next, Phase::Probing));
    assert_eq!(act.remove, vec!["uploads/raw_1"]);
    match act.op {
        Op::Run { program, args } => {
            assert_eq!(program, "/usr/bin/ffprobe");
            assert_eq!(args.last().unwrap(), "uploads/vid_1.mp4");
        }
        _ => panic!("expected the prober"),
    }
}

#[test]
fn encoder_success_reports_output_path() {
    let j = job(SourceKind::Upload, "mp4", "video/mp4");
    let (next, act) = run(composing(), &j, exited(true, Some(5000), "", ""));
    assert!(matches!(next, Phase::Done));
    assert_eq!(act.remove, vec!["uploads/fc_1.txt", "uploads/vid_1.mp4"]);
    match act.op {
        Op::Report { outcome: Outcome::Success { title, output_path, command } } => {
            assert_eq!(title, "clip");
            assert_eq!(output_path, "/outputs/clip.mp4");
            assert_eq!(command, "C");
        }
        _ => panic!("expected success"),
    }
}

#[test]
fn undersized_output_is_failure() {
    let j = job(SourceKind::Upload, "mp4", "video/mp4");
    let (_, act) = run(composing(), &j, exited(true, Some(999), "", "trunc"));
    match act.op {
        Op::Report { outcome: Outcome::Failure { command, graph, stderr } } => {
            assert_eq!(command, "C");
            assert_eq!(graph, "G");
            assert_eq!(stderr, "trunc");
        }
        _ => panic!("expected failure"),
    }
    let (_, act) = run(composing(), &j, exited(true, None, "", ""));
    assert!(matches!(act.op, Op::Report { outcome: Outcome::Failure { .. } }));
}

#[test]
fn intake_decisions() {
    let (next, act) = run(Phase::Start, &job(SourceKind::Upload, "mp4", "video/mp4"), Event::Begin);
    assert!(matches!(next, Phase::Moving));
    match act.op {
        Op::Rename { from, to } => {
            assert_eq!(from, "uploads/raw_1");
            assert_eq!(to, "uploads/vid_1.mp4");
        }
        _ => panic!("expected a rename"),
    }
    let (next, act) = run(Phase::Start, &job(SourceKind::Upload, "mov", "video/quicktime"), Event::Begin);
    assert!(matches!(next, Phase::Done));
    assert_eq!(act.remove, vec!["uploads/raw_1"]);
    assert!(matches!(act.op, Op::Reject { message } if message == UPLOAD_REJECTED));
    let (next, act) = run(Phase::Start, &job(SourceKind::Record, "webm", "video/webm;codecs=vp9"), Event::Begin);
    assert!(matches!(next, Phase::Normalizing));
    assert!(matches!(act.op, Op::Run { program, .. } if program == "/usr/bin/ffmpeg"));
    let (_, act) = run(Phase::Start, &job(SourceKind::Record, "ogg", "video/ogg"), Event::Begin);
    assert!(matches!(act.op, Op::Reject { message } if message == RECORD_REJECTED));
    let (next, act) = run(Phase::Moving, &job(SourceKind::Upload, "mp4", "video/mp4"), Event::Moved { ok: false });
    assert!(matches!(next, Phase::Done));
    assert!(matches!(act.op, Op::Internal));
}

#[test]
fn acceptance_rules() {
    assert!(accepts_upload("mp4", "application/octet-stream"));
    assert!(!accepts_upload("webm", "video/webm"));
    assert!(!accepts_upload("mp4", "video/webm"));
    assert!(accepts_record("mp4", "video/mp4"));
    assert!(accepts_record("webm", "application/octet-stream"));
    assert!(!accepts_record("webm", "audio/ogg"));
    assert!(artifact_ok(true, Some(1000)));
    assert!(!artifact_ok(true, Some(999)));
    assert!(!artifact_ok(false, Some(5000)));
    assert!(upload_large_enough(1000));
    assert!(!upload_large_enough(999));
    assert!(matches!(source_kind(Some("record")), SourceKind::Record));
    assert!(matches!(source_kind(Some("upload")), SourceKind::Upload));
    assert!(matches!(source_kind(None), SourceKind::Upload));
}

#[test]
fn titles_and_names() {
    assert_eq!(default_title("2025-08-24T10:20:30.123Z", "abc"), "twibbon-2025-08-2410203012" .to_string() + "3-abc");
    assert_eq!(choose_title("  \t", "2025-01-01T00:00:00Z", "x"), "twibbon-2025-01-01000000-x");
    assert_eq!(choose_title("a/b:c", "s", "t"), "abc");
    assert_eq!(output_file_name("my video!"), "my-video-.mp4");
    assert_eq!(output_path_for("Reuni 3/91"), "outputs/Reuni-391.mp4");
}

#[test]
fn pages_escape_their_text() {
    let page = render_result_page("a<b", "/outputs/x.mp4", "ffmpeg \"x\" & y");
    assert!(page.contains("<title>Hasil: a&lt;b</title>"));
    assert!(page.contains("src=\"/outputs/x.mp4\""));
    assert!(page.contains("ffmpeg &quot;x&quot; &amp; y"));
    let home = render_home(Some("it's <bad>"), &Registry::builtin());
    assert!(home.contains("<p style='color:#b00'>it&#x27;s &lt;bad&gt;</p>"));
    assert!(home.contains("<option value=\"reuni_391\">Reuni SMA 3 Jakarta • 24 Agustus 2025 (3-91) (reuni_391)</option>"));
    let plain = render_home(None, &Registry::builtin());
    assert!(!plain.contains("color:#b00'>"));
    assert_eq!(
        render_failure_page("c", "g<", "e"),
        "<h3>Gagal generate video</h3><pre>c</pre><pre>--- filter graph ---\ng&lt;</pre><pre>e</pre>"
    );
}

#[test]
fn command_line_text() {
    let reg = Registry::builtin();
    let text = command_text("ffmpeg", &OutputSpec::standard(), &reg.templates[0], "in.mp4", false, "fc.txt", "outputs/o.mp4");
    assert_eq!(
        text,
        "ffmpeg -y -i \"in.mp4\" -loop 1 -framerate 30 -i \"templates/2d.png\" -filter_complex_script \"fc.txt\" -c:v libx264 -crf 23 -preset veryfast -pix_fmt yuv420p -c:a aac -movflags +faststart -shortest -map [v1] -map 0:a? \"outputs/o.mp4\""
    );
}

#[test]
fn upload_extensions() {
    assert_eq!(upload_extension("Clip.MP4"), "mp4");
    assert_eq!(upload_extension("a.tar.WebM"), "webm");
    assert_eq!(upload_extension("noext"), "");
    assert_eq!(upload_extension(".hidden"), "");
    assert_eq!(upload_extension("trailing."), "");
    assert_eq!(upload_extension("..x"), "x");
}

#[test]
fn unknown_or_missing_template_removes_raw_upload() {
    let a = template_refusal(true, Some("uploads/raw_1"));
    assert_eq!(a.remove, vec!["uploads/raw_1"]);
    assert!(matches!(a.op, Op::Reject { message } if message == "Template tidak dikenali"));
    let a = template_refusal(false, Some("uploads/raw_2"));
    assert_eq!(a.remove, vec!["uploads/raw_2"]);
    assert!(matches!(a.op, Op::Reject { message } if message == "Template wajib diisi"));
    let a = template_refusal(false, None);
    assert!(a.remove.is_empty());
}

#[test]
fn missing_tools_warning() {
    assert_eq!(tools_warning(false, false), None);
    assert_eq!(
        tools_warning(true, false).unwrap(),
        "FFmpeg tidak ditemukan. Ubuntu: `sudo apt install ffmpeg`."
    );
    assert_eq!(
        tools_warning(false, true).unwrap(),
        "FFprobe tidak ditemukan. Ubuntu: `sudo apt install ffmpeg`."
    );
    assert_eq!(
        tools_warning(true, true).unwrap(),
        "FFmpeg tidak ditemukan. Ubuntu: `sudo apt install ffmpeg`. FFprobe tidak ditemukan. Ubuntu: `sudo apt install ffmpeg`."
    );
}

#[test]
fn plain_titles_are_kept() {
    assert_eq!(choose_title("video-twibbon_1", "s", "t"), "video-twibbon_1");
    assert_eq!(output_path_for("video-twibbon_1"), "outputs/video-twibbon_1.mp4");
    assert_eq!(choose_title("a<b>c", "s", "t"), "abc");
}

#[test]
fn home_page_has_recording_pane() {
    let home = render_home(None, &Registry::builtin());
    assert!(home.contains("id=\"record-pane\""));
    assert!(home.contains("id=\"waitNote\""));
    assert!(home.contains("<script>"));
}
