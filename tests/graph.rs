use vibbon::command::{compose_args, needs_trim, probe_args, transcode_args};
use vibbon::graph::{build_filter_graph, FillPolicy, OutputSpec};
use vibbon::template::{Overlay, OverlayMode, Registry, Template};

fn template(overlays: Vec<Overlay>) -> Template {
    Template { key: "t".to_string(), title: "T".to_string(), overlays }
}

fn overlay(mode: OverlayMode, start_ms: u64, end_ms: u64) -> Overlay {
    Overlay { path: "templates/a.png".to_string(), mode, start_ms, end_ms }
}

const CROP_BASE: &str = "[0:v]scale=if(gte(a\\,0.5625)\\,-2\\,720):if(gte(a\\,0.5625)\\,1280\\,-2):flags=fast_bilinear,crop=720:1280:(iw-720)/2:(ih-1280)/2,setsar=1[base]";

#[test]
fn builtin_template_graph() {
    let reg = Registry::builtin();
    let tpl = reg.lookup("reuni_391").expect("builtin template");
    let (graph, last) = build_filter_graph(&OutputSpec::standard(), tpl);
    assert_eq!(last, 1);
    let parts: Vec<&str> = graph.split(';').collect();
    assert_eq!(parts.len(), 3);
    assert_eq!(parts[0], CROP_BASE);
    assert_eq!(parts[1], "[1:v]scale=720:1280:flags=fast_bilinear[ov1]");
    assert_eq!(
        parts[2],
        "[base][ov1]overlay=shortest=1:x=0:y=0:enable=between(t\\,0.000\\,30.000)[v1]"
    );
}

#[test]
fn no_overlays_gives_base_only() {
    let (graph, last) = build_filter_graph(&OutputSpec::standard(), &template(vec![]));
    assert_eq!(graph, CROP_BASE);
    assert_eq!(last, 0);
}

#[test]
fn pad_policy_base_statement() {
    let mut spec = OutputSpec::standard();
    spec.fill = FillPolicy::Pad;
    let (graph, _) = build_filter_graph(&spec, &template(vec![]));
    assert_eq!(
        graph,
        "[0:v]scale=720:1280:force_original_aspect_ratio=decrease:flags=fast_bilinear,pad=720:1280:(ow-iw)/2:(oh-ih)/2,setsar=1[base]"
    );
}

#[test]
fn overlays_chain_in_order_with_defaults() {
    let ovs = vec![
        overlay(OverlayMode::Band { h: None, x: None, y: None }, 1500, 12345),
        overlay(OverlayMode::Logo { w: None, h: None, x: None, y: None }, 0, 5),
        overlay(
            OverlayMode::Logo { w: Some(100), h: Some(50), x: Some("10".to_string()), y: Some("20".to_string()) },
            2000,
            3000,
        ),
    ];
    let (graph, last) = build_filter_graph(&OutputSpec::standard(), &template(ovs));
    assert_eq!(last, 3);
    let parts: Vec<&str> = graph.split(';').collect();
    assert_eq!(parts.len(), 7);
    assert_eq!(parts[1], "[1:v]scale=720:160:flags=fast_bilinear[ov1]");
    assert_eq!(
        parts[2],
        "[base][ov1]overlay=shortest=1:x=(main_w-w)/2:y=main_h-h:enable=between(t\\,1.500\\,12.345)[v1]"
    );
    assert_eq!(parts[3], "[2:v]scale=220:-1:flags=fast_bilinear[ov2]");
    assert_eq!(
        parts[4],
        "[v1][ov2]overlay=shortest=1:x=main_w-w-24:y=24:enable=between(t\\,0.000\\,0.005)[v2]"
    );
    assert_eq!(parts[5], "[3:v]scale=100:50:flags=fast_bilinear[ov3]");
    assert_eq!(
        parts[6],
        "[v2][ov3]overlay=shortest=1:x=10:y=20:enable=between(t\\,2.000\\,3.000)[v3]"
    );
}

#[test]
fn statement_count_matches_overlays() {
    for k in 0..5usize {
        let ovs: Vec<Overlay> = (0..k).map(|_| overlay(OverlayMode::Full, 0, 1000)).collect();
        let (graph, last) = build_filter_graph(&OutputSpec::standard(), &template(ovs));
        assert_eq!(last, k);
        let parts: Vec<&str> = graph.split(';').collect();
        assert_eq!(parts.len(), 2 * k + 1);
        assert_eq!(parts.iter().filter(|p| p.contains("]overlay=")).count(), k);
    }
}

#[test]
fn time_window_is_written_with_three_decimals() {
    let ovs = vec![overlay(OverlayMode::Full, 250, 30000)];
    let (graph, _) = build_filter_graph(&OutputSpec::standard(), &template(ovs));
    assert!(graph.contains("enable=between(t\\,0.250\\,30.000)"));
}

#[test]
fn trim_within_tolerance() {
    let spec = OutputSpec::standard();
    assert!(!needs_trim(&spec, 30500));
    assert!(!needs_trim(&spec, 30499));
    assert!(needs_trim(&spec, 30501));
    assert!(needs_trim(&spec, 45000));
    let mut off = OutputSpec::standard();
    off.trim_allowed = false;
    assert!(!needs_trim(&off, 45000));
}

#[test]
fn compose_args_trim_and_map() {
    let spec = OutputSpec::standard();
    let reg = Registry::builtin();
    let tpl = reg.lookup("reuni_391").unwrap();
    let args = compose_args(&spec, tpl, "uploads/in.mp4", needs_trim(&spec, 45000), "uploads/fc.txt", "outputs/x.mp4");
    let expected: Vec<&str> = vec![
        "-y", "-i", "uploads/in.mp4", "-loop", "1", "-framerate", "30", "-i", "templates/2d.png",
        "-t", "30", "-filter_complex_script", "uploads/fc.txt", "-c:v", "libx264", "-crf", "23",
        "-preset", "veryfast", "-pix_fmt", "yuv420p", "-c:a", "aac", "-movflags", "+faststart",
        "-shortest", "-map", "[v1]", "-map", "0:a?", "outputs/x.mp4",
    ];
    assert_eq!(args, expected);
    let short = compose_args(&spec, tpl, "in", needs_trim(&spec, 30500), "g", "o");
    assert!(!short.iter().any(|a| a == "-t"));
}

#[test]
fn compose_args_without_overlays_map_base() {
    let spec = OutputSpec::standard();
    let args = compose_args(&spec, &template(vec![]), "in", false, "g", "o");
    let i = args.iter().position(|a| a == "-map").unwrap();
    assert_eq!(args[i + 1], "[base]");
}

#[test]
fn prober_and_transcoder_args() {
    assert_eq!(
        probe_args("uploads/v.mp4"),
        vec!["-v", "error", "-show_entries", "format=duration", "-of", "default=noprint_wrappers=1:nokey=1", "uploads/v.mp4"]
    );
    assert_eq!(
        transcode_args(&OutputSpec::standard(), "uploads/raw", "uploads/v.mp4"),
        vec!["-y", "-i", "uploads/raw", "-c:v", "libx264", "-preset", "veryfast", "-crf", "23", "-c:a", "aac", "-movflags", "+faststart", "uploads/v.mp4"]
    );
}

#[test]
fn registry_lookup() {
    let reg = Registry::builtin();
    assert_eq!(reg.templates.len(), 1);
    let t = reg.lookup("reuni_391").unwrap();
    assert_eq!(t.title, "Reuni SMA 3 Jakarta • 24 Agustus 2025 (3-91)");
    assert!(reg.lookup("reuni").is_none());
    assert!(reg.lookup("").is_none());
}

#[test]
fn crop_ratio_is_written_in_decimal() {
    let mut spec = OutputSpec::standard();
    spec.width = 1280;
    spec.height = 720;
    let (graph, _) = build_filter_graph(&spec, &template(vec![]));
    assert!(graph.starts_with("[0:v]scale=if(gte(a\\,1.7777777777777777)\\,-2\\,1280):if(gte(a\\,1.7777777777777777)\\,720\\,-2)"));
    spec.width = 720;
    spec.height = 720;
    let (graph, _) = build_filter_graph(&spec, &template(vec![]));
    assert!(graph.starts_with("[0:v]scale=if(gte(a\\,1)\\,-2\\,720)"));
    spec.width = 1080;
    spec.height = 1920;
    let (graph, _) = build_filter_graph(&spec, &template(vec![]));
    assert!(graph.contains("gte(a\\,0.5625)"));
}
