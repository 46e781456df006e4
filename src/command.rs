//! Argument lists of the prober and encoder invocations, and the command line
//! shown to the user for diagnostics.
use vstd::prelude::*;
use crate::graph::{label, OutputSpec};
use crate::template::{Overlay, Template};
use crate::text::{decimal, push_arg, push_owned, views, write_decimal};

verus! {

/// Slack, in milliseconds, above the maximum duration before a video is trimmed.
pub const TRIM_TOLERANCE_MS: u64 = 500;

/// Whether the encoder must cut the output at the maximum duration.
pub open spec fn trim_needed(spec: OutputSpec, duration_ms: nat) -> bool {
    spec.trim_allowed && duration_ms > spec.max_duration_secs * 1000 + TRIM_TOLERANCE_MS
}

/// Whether the encoder must cut the output at the maximum duration: trimming
/// is allowed and the video is longer than the maximum plus the tolerance.
pub fn needs_trim(spec: &OutputSpec, duration_ms: u64) -> (r: bool)
    ensures
        r == trim_needed(*spec, duration_ms as nat),
{
    spec.trim_allowed && duration_ms > spec.max_duration_secs as u64 * 1000 + TRIM_TOLERANCE_MS
}

/// The decimal text of `n` as a string.
pub fn decimal_string(n: u64) -> (r: String)
    ensures
        r@ == decimal(n as nat),
{
    let mut s = String::new();
    write_decimal(&mut s, n);
    assert(s@ =~= decimal(n as nat));
    s
}

/// Arguments that ask the prober for the container duration alone, as a bare number.
pub open spec fn probe_args_spec(input: Seq<char>) -> Seq<Seq<char>> {
    seq![
        "-v"@, "error"@, "-show_entries"@, "format=duration"@, "-of"@,
        "default=noprint_wrappers=1:nokey=1"@, input,
    ]
}

/// Arguments of the prober invocation for `input`.
pub fn probe_args(input: &str) -> (r: Vec<String>)
    ensures
        views(r@) == probe_args_spec(input@),
{
    let mut a: Vec<String> = Vec::new();
    push_arg(&mut a, "-v");
    push_arg(&mut a, "error");
    push_arg(&mut a, "-show_entries");
    push_arg(&mut a, "format=duration");
    push_arg(&mut a, "-of");
    push_arg(&mut a, "default=noprint_wrappers=1:nokey=1");
    push_arg(&mut a, input);
    assert(views(a@) =~= probe_args_spec(input@));
    a
}

/// Arguments that re-encode `raw` to H.264/AAC mp4 at `input`, ready for streaming.
pub open spec fn transcode_args_spec(spec: OutputSpec, raw: Seq<char>, input: Seq<char>) -> Seq<Seq<char>> {
    seq![
        "-y"@, "-i"@, raw, "-c:v"@, "libx264"@, "-preset"@, spec.preset@, "-crf"@,
        decimal(spec.crf as nat), "-c:a"@, "aac"@, "-movflags"@, "+faststart"@, input,
    ]
}

/// Arguments of the encoder invocation that normalizes a recording.
pub fn transcode_args(spec: &OutputSpec, raw: &str, input: &str) -> (r: Vec<String>)
    ensures
        views(r@) == transcode_args_spec(*spec, raw@, input@),
{
    let mut a: Vec<String> = Vec::new();
    push_arg(&mut a, "-y");
    push_arg(&mut a, "-i");
    push_arg(&mut a, raw);
    push_arg(&mut a, "-c:v");
    push_arg(&mut a, "libx264");
    push_arg(&mut a, "-preset");
    push_arg(&mut a, spec.preset.as_str());
    push_arg(&mut a, "-crf");
    push_owned(&mut a, decimal_string(spec.crf as u64));
    push_arg(&mut a, "-c:a");
    push_arg(&mut a, "aac");
    push_arg(&mut a, "-movflags");
    push_arg(&mut a, "+faststart");
    push_arg(&mut a, input);
    assert(views(a@) =~= transcode_args_spec(*spec, raw@, input@));
    a
}

/// One looped still-image input per overlay, in template order.
pub open spec fn overlay_inputs(ovs: Seq<Overlay>) -> Seq<Seq<char>>
    decreases ovs.len(),
{
    if ovs.len() == 0 {
        Seq::empty()
    } else {
        overlay_inputs(ovs.drop_last()) + seq![
            "-loop"@, "1"@, "-framerate"@, "30"@, "-i"@, ovs.last().path@,
        ]
    }
}

/// The stream selector of the final video label.
pub open spec fn map_label(k: nat) -> Seq<char> {
    "["@ + label(k) + "]"@
}

/// Arguments of the composing encoder invocation.
pub open spec fn compose_args_spec(
    spec: OutputSpec,
    ovs: Seq<Overlay>,
    input: Seq<char>,
    trim: bool,
    graph_path: Seq<char>,
    output: Seq<char>,
) -> Seq<Seq<char>> {
    seq!["-y"@, "-i"@, input] + overlay_inputs(ovs) + (if trim {
        seq!["-t"@, decimal(spec.max_duration_secs as nat)]
    } else {
        Seq::empty()
    }) + seq![
        "-filter_complex_script"@, graph_path, "-c:v"@, "libx264"@, "-crf"@,
        decimal(spec.crf as nat), "-preset"@, spec.preset@, "-pix_fmt"@, "yuv420p"@, "-c:a"@,
        "aac"@, "-movflags"@, "+faststart"@, "-shortest"@, "-map"@, map_label(ovs.len()), "-map"@,
        "0:a?"@, output,
    ]
}

fn map_label_string(k: u64) -> (r: String)
    ensures
        r@ == map_label(k as nat),
{
    let mut s = String::from_str("[");
    if k == 0 {
        s.append("base");
    } else {
        s.append("v");
        write_decimal(&mut s, k);
    }
    s.append("]");
    assert(s@ =~= map_label(k as nat));
    s
}

/// Arguments of the encoder invocation that composites the template's
/// overlays onto `input`, through the graph script at `graph_path`, into
/// `output`; cut at the maximum duration when `trim` holds.
pub fn compose_args(
    spec: &OutputSpec,
    tpl: &Template,
    input: &str,
    trim: bool,
    graph_path: &str,
    output: &str,
) -> (r: Vec<String>)
    requires
        tpl.overlays@.len() < u64::MAX,
    ensures
        views(r@) == compose_args_spec(*spec, tpl.overlays@, input@, trim, graph_path@, output@),
{
    let ovs = &tpl.overlays;
    let mut a: Vec<String> = Vec::new();
    push_arg(&mut a, "-y");
    push_arg(&mut a, "-i");
    push_arg(&mut a, input);
    let ghost head = seq!["-y"@, "-i"@, input@];
    assert(views(a@) =~= head);
    assert(ovs@.subrange(0, 0) =~= Seq::<Overlay>::empty());
    let mut i: usize = 0;
    while i < ovs.len()
        invariant
            i <= ovs@.len(),
            views(a@) == head + overlay_inputs(ovs@.subrange(0, i as int)),
        decreases ovs@.len() - i,
    {
        let ghost before = views(a@);
        push_arg(&mut a, "-loop");
        push_arg(&mut a, "1");
        push_arg(&mut a, "-framerate");
        push_arg(&mut a, "30");
        push_arg(&mut a, "-i");
        push_arg(&mut a, ovs[i].path.as_str());
        proof {
            let next = ovs@.subrange(0, i + 1);
            assert(next.drop_last() =~= ovs@.subrange(0, i as int));
            assert(views(a@) =~= head + overlay_inputs(next));
        }
        i = i + 1;
    }
    assert(ovs@.subrange(0, ovs@.len() as int) =~= ovs@);
    let ghost mid = views(a@);
    if trim {
        push_arg(&mut a, "-t");
        push_owned(&mut a, decimal_string(spec.max_duration_secs as u64));
    }
    let ghost after_trim = views(a@);
    assert(after_trim =~= mid + (if trim {
        seq!["-t"@, decimal(spec.max_duration_secs as nat)]
    } else {
        Seq::empty()
    }));
    push_arg(&mut a, "-filter_complex_script");
    push_arg(&mut a, graph_path);
    push_arg(&mut a, "-c:v");
    push_arg(&mut a, "libx264");
    push_arg(&mut a, "-crf");
    push_owned(&mut a, decimal_string(spec.crf as u64));
    push_arg(&mut a, "-preset");
    push_arg(&mut a, spec.preset.as_str());
    push_arg(&mut a, "-pix_fmt");
    push_arg(&mut a, "yuv420p");
    push_arg(&mut a, "-c:a");
    push_arg(&mut a, "aac");
    push_arg(&mut a, "-movflags");
    push_arg(&mut a, "+faststart");
    push_arg(&mut a, "-shortest");
    push_arg(&mut a, "-map");
    push_owned(&mut a, map_label_string(ovs.len() as u64));
    push_arg(&mut a, "-map");
    push_arg(&mut a, "0:a?");
    push_arg(&mut a, output);
    assert(views(a@) =~= compose_args_spec(*spec, ovs@, input@, trim, graph_path@, output@));
    a
}

/// The overlay inputs as they read on a command line.
pub open spec fn overlay_inputs_text(ovs: Seq<Overlay>) -> Seq<char>
    decreases ovs.len(),
{
    if ovs.len() == 0 {
        Seq::empty()
    } else {
        overlay_inputs_text(ovs.drop_last()) + "-loop 1 -framerate 30 -i \""@ + ovs.last().path@
            + "\" "@
    }
}

/// The trim option as it reads on a command line.
pub open spec fn trim_text(spec: OutputSpec, trim: bool) -> Seq<char> {
    if trim {
        "-t "@ + decimal(spec.max_duration_secs as nat) + " "@
    } else {
        Seq::empty()
    }
}

/// The composing invocation written out as one command line, paths quoted.
pub open spec fn command_text_spec(
    encoder: Seq<char>,
    spec: OutputSpec,
    ovs: Seq<Overlay>,
    input: Seq<char>,
    trim: bool,
    graph_path: Seq<char>,
    output: Seq<char>,
) -> Seq<char> {
    encoder + " -y -i \""@ + input + "\" "@ + overlay_inputs_text(ovs) + trim_text(spec, trim)
        + "-filter_complex_script \""@ + graph_path + "\" -c:v libx264 -crf "@ + decimal(
        spec.crf as nat,
    ) + " -preset "@ + spec.preset@
        + " -pix_fmt yuv420p -c:a aac -movflags +faststart -shortest -map "@ + map_label(ovs.len())
        + " -map 0:a? \""@ + output + "\""@
}

/// The composing invocation written out as one command line, for the result
/// page and for diagnostics.
pub fn command_text(
    encoder: &str,
    spec: &OutputSpec,
    tpl: &Template,
    input: &str,
    trim: bool,
    graph_path: &str,
    output: &str,
) -> (r: String)
    requires
        tpl.overlays@.len() < u64::MAX,
    ensures
        r@ == command_text_spec(encoder@, *spec, tpl.overlays@, input@, trim, graph_path@, output@),
{
    let ovs = &tpl.overlays;
    let mut s = String::from_str(encoder);
    s.append(" -y -i \"");
    s.append(input);
    s.append("\" ");
    let ghost head = s@;
    assert(ovs@.subrange(0, 0) =~= Seq::<Overlay>::empty());
    assert(s@ =~= head + overlay_inputs_text(ovs@.subrange(0, 0)));
    let mut i: usize = 0;
    while i < ovs.len()
        invariant
            i <= ovs@.len(),
            s@ == head + overlay_inputs_text(ovs@.subrange(0, i as int)),
        decreases ovs@.len() - i,
    {
        s.append("-loop 1 -framerate 30 -i \"");
        s.append(ovs[i].path.as_str());
        s.append("\" ");
        proof {
            let next = ovs@.subrange(0, i + 1);
            assert(next.drop_last() =~= ovs@.subrange(0, i as int));
            assert(s@ =~= head + overlay_inputs_text(next));
        }
        i = i + 1;
    }
    assert(ovs@.subrange(0, ovs@.len() as int) =~= ovs@);
    let ghost mid = s@;
    if trim {
        s.append("-t ");
        write_decimal(&mut s, spec.max_duration_secs as u64);
        s.append(" ");
    }
    assert(s@ =~= mid + trim_text(*spec, trim));
    s.append("-filter_complex_script \"");
    s.append(graph_path);
    s.append("\" -c:v libx264 -crf ");
    write_decimal(&mut s, spec.crf as u64);
    s.append(" -preset ");
    s.append(spec.preset.as_str());
    s.append(" -pix_fmt yuv420p -c:a aac -movflags +faststart -shortest -map ");
    let m = map_label_string(ovs.len() as u64);
    s.append(m.as_str());
    s.append(" -map 0:a? \"");
    s.append(output);
    s.append("\"");
    assert(s@ =~= command_text_spec(encoder@, *spec, ovs@, input@, trim, graph_path@, output@));
    s
}

} // verus!
