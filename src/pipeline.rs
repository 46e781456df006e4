//! The decisions of one composition request, as a state machine. The caller
//! performs each action (run a process, rename or remove files, answer the
//! client) and feeds back what happened; every decision is made here.
//!
//! Order of stages: normalize the upload, probe its duration, build the
//! graph, compose, report. Every scratch file is named for removal on the
//! path that leaves it behind.
use vstd::prelude::*;
use crate::command::{
    command_text, command_text_spec, compose_args, compose_args_spec, needs_trim, probe_args,
    probe_args_spec, transcode_args, transcode_args_spec, trim_needed,
};
use crate::graph::{build_filter_graph, graph_statements, join, OutputSpec};
use crate::probe::{duration_millis, parse_duration_ms};
use crate::template::Template;
use crate::text::{contains_text, has_substring, push_owned, same_text, views};

verus! {

/// Where the video came from.
pub enum SourceKind {
    /// A file chosen by the user.
    Upload,
    /// A recording made in the browser.
    Record,
}

/// The installed prober and encoder.
pub struct Tools {
    pub encoder: String,
    pub prober: String,
}

/// One composition request: what the upload declared, the title, and the
/// paths of its files (raw upload, normalized input, graph script, output).
pub struct Job {
    pub source: SourceKind,
    pub ext: String,
    pub mime: String,
    pub title: String,
    pub raw_path: String,
    pub input_path: String,
    pub graph_path: String,
    pub output_path: String,
}

/// Where a request stands.
pub enum Phase {
    Start,
    /// The recording is being re-encoded to the input path.
    Normalizing,
    /// The upload is being renamed to the input path.
    Moving,
    /// The prober is reading the input's duration.
    Probing,
    /// The encoder is composing; the graph and the command line are kept for
    /// the report.
    Composing { graph: String, command: String },
    Done,
}

/// What the caller observed.
pub enum Event {
    /// The request has been received.
    Begin,
    /// The rename finished, or failed.
    Moved { ok: bool },
    /// The process finished: whether it exited with status zero, the size of
    /// the file it was to write (if that file exists), and its output.
    Exited { success: bool, output_size: Option<u64>, stdout: String, stderr: String },
}

/// What the caller is to do next.
pub enum Op {
    /// Run `program` with `args`, then report `Exited`.
    Run { program: String, args: Vec<String> },
    /// Rename `from` to `to`, then report `Moved`.
    Rename { from: String, to: String },
    /// Write `graph` to `graph_path`, run `program` with `args`, then report `Exited`.
    WriteGraphAndRun { graph_path: String, graph: String, program: String, args: Vec<String> },
    /// Refuse the request; the client is at fault.
    Reject { message: String },
    /// Fail the request with an internal error.
    Internal,
    /// Answer with the outcome of the composition.
    Report { outcome: Outcome },
}

/// An action: files to remove (errors ignored), then an operation.
pub struct Action {
    pub remove: Vec<String>,
    pub op: Op,
}

/// The result of a composition.
pub enum Outcome {
    Success { title: String, output_path: String, command: String },
    Failure { command: String, graph: String, stderr: String },
}

/// Files smaller than this many bytes are taken as broken.
pub const MIN_ARTIFACT_BYTES: u64 = 1000;

pub const RECORD_REJECTED: &'static str = "Rekaman harus WEBM/MP4.";

pub const UPLOAD_REJECTED: &'static str = "File harus MP4.";

pub const TRANSCODE_FAILED: &'static str = "Gagal konversi rekaman ke MP4.\n";

pub const PROBE_FAILED: &'static str = "ffprobe failed: ";

pub const NO_DURATION: &'static str = "Tidak bisa membaca durasi video (ffprobe).";

/// A process produced its file: exit status zero, the file exists and is not
/// undersized.
pub open spec fn artifact_good(success: bool, size: Option<u64>) -> bool {
    success && match size {
        Some(n) => n >= MIN_ARTIFACT_BYTES,
        None => false,
    }
}

/// Whether a process produced its file.
pub fn artifact_ok(success: bool, size: Option<u64>) -> (r: bool)
    ensures
        r == artifact_good(success, size),
{
    success && match size {
        Some(n) => n >= MIN_ARTIFACT_BYTES,
        None => false,
    }
}

/// Whether an uploaded file is large enough to be a video.
pub fn upload_large_enough(size: u64) -> (r: bool)
    ensures
        r == (size >= MIN_ARTIFACT_BYTES),
{
    size >= MIN_ARTIFACT_BYTES
}

/// The source named by the form field: a recording only when it says `record`.
pub fn source_kind(field: Option<&str>) -> (r: SourceKind)
    ensures
        r is Record <==> (field is Some && field->Some_0@ == "record"@),
{
    match field {
        Some(f) => if same_text(f, "record") { SourceKind::Record } else { SourceKind::Upload },
        None => SourceKind::Upload,
    }
}

pub open spec fn mp4_like(mime: Seq<char>) -> bool {
    has_substring(mime, "video/mp4"@) || mime == "application/octet-stream"@
}

/// A recording is accepted as webm or mp4.
pub open spec fn record_accepted(ext: Seq<char>, mime: Seq<char>) -> bool {
    (ext == "webm"@ || ext == "mp4"@) && (has_substring(mime, "video/webm"@) || mp4_like(mime))
}

/// An uploaded file is accepted as mp4 only.
pub open spec fn upload_accepted(ext: Seq<char>, mime: Seq<char>) -> bool {
    ext == "mp4"@ && mp4_like(mime)
}

fn mp4_like_exec(mime: &str) -> (r: bool)
    ensures
        r == mp4_like(mime@),
{
    contains_text(mime, "video/mp4") || same_text(mime, "application/octet-stream")
}

/// Whether a recording with this extension and type is accepted.
pub fn accepts_record(ext: &str, mime: &str) -> (r: bool)
    ensures
        r == record_accepted(ext@, mime@),
{
    (same_text(ext, "webm") || same_text(ext, "mp4")) && (contains_text(mime, "video/webm")
        || mp4_like_exec(mime))
}

/// Whether an upload with this extension and type is accepted.
pub fn accepts_upload(ext: &str, mime: &str) -> (r: bool)
    ensures
        r == upload_accepted(ext@, mime@),
{
    same_text(ext, "mp4") && mp4_like_exec(mime)
}

pub open spec fn runs(op: Op, program: Seq<char>, args: Seq<Seq<char>>) -> bool {
    op matches Op::Run { program: p, args: a } && p@ == program && views(a@) == args
}

pub open spec fn rejects(op: Op, message: Seq<char>) -> bool {
    op matches Op::Reject { message: m } && m@ == message
}

pub open spec fn removes(a: Action, paths: Seq<Seq<char>>) -> bool {
    views(a.remove@) == paths
}

/// Whether `op` starts a process.
pub open spec fn starts_process(op: Op) -> bool {
    op is Run || op is WriteGraphAndRun
}

/// The answer to an event that the phase does not expect.
pub open spec fn unexpected(r: (Phase, Action)) -> bool {
    r.0 is Done && removes(r.1, Seq::empty()) && r.1.op is Internal
}

/// The encoder run that composes, with the graph it reads.
pub open spec fn composes(
    op: Op,
    tools: Tools,
    spec: OutputSpec,
    tpl: Template,
    job: Job,
    duration_ms: nat,
) -> bool {
    op matches Op::WriteGraphAndRun { graph_path, graph, program, args } && graph_path@
        == job.graph_path@ && graph@ == join(graph_statements(spec, tpl.overlays@)) && program@
        == tools.encoder@ && views(args@) == compose_args_spec(
        spec,
        tpl.overlays@,
        job.input_path@,
        trim_needed(spec, duration_ms),
        job.graph_path@,
        job.output_path@,
    )
}

/// The report of a finished composition.
pub open spec fn reports(op: Op, job: Job, graph: Seq<char>, command: Seq<char>, good: bool, stderr: Seq<char>) -> bool {
    op matches Op::Report { outcome } && if good {
        outcome matches Outcome::Success { title, output_path, command: c } && title@ == job.title@
            && output_path@ == "/"@ + job.output_path@ && c@ == command
    } else {
        outcome matches Outcome::Failure { command: c, graph: g, stderr: e } && c@ == command && g@
            == graph && e@ == stderr
    }
}

/// One step of a request: the next phase and the action, for each phase and event.
pub open spec fn step_spec(
    tools: Tools,
    spec: OutputSpec,
    tpl: Template,
    job: Job,
    phase: Phase,
    event: Event,
    r: (Phase, Action),
) -> bool {
    let (next, act) = r;
    match phase {
        Phase::Start => match event {
            Event::Begin => match job.source {
                SourceKind::Record => if record_accepted(job.ext@, job.mime@) {
                    next is Normalizing && removes(act, Seq::empty()) && runs(
                        act.op,
                        tools.encoder@,
                        transcode_args_spec(spec, job.raw_path@, job.input_path@),
                    )
                } else {
                    next is Done && removes(act, seq![job.raw_path@]) && rejects(
                        act.op,
                        RECORD_REJECTED@,
                    )
                },
                SourceKind::Upload => if upload_accepted(job.ext@, job.mime@) {
                    next is Moving && removes(act, Seq::empty()) && (act.op matches Op::Rename {
                        from,
                        to,
                    } && from@ == job.raw_path@ && to@ == job.input_path@)
                } else {
                    next is Done && removes(act, seq![job.raw_path@]) && rejects(
                        act.op,
                        UPLOAD_REJECTED@,
                    )
                },
            },
            _ => unexpected(r),
        },
        Phase::Normalizing => match event {
            Event::Exited { success, output_size, stderr, .. } => if artifact_good(
                success,
                output_size,
            ) {
                next is Probing && removes(act, seq![job.raw_path@]) && runs(
                    act.op,
                    tools.prober@,
                    probe_args_spec(job.input_path@),
                )
            } else {
                next is Done && removes(act, seq![job.raw_path@, job.input_path@]) && rejects(
                    act.op,
                    TRANSCODE_FAILED@ + stderr@,
                )
            },
            _ => unexpected(r),
        },
        Phase::Moving => match event {
            Event::Moved { ok } => if ok {
                next is Probing && removes(act, Seq::empty()) && runs(
                    act.op,
                    tools.prober@,
                    probe_args_spec(job.input_path@),
                )
            } else {
                next is Done && removes(act, seq![job.raw_path@, job.input_path@]) && act.op is Internal
            },
            _ => unexpected(r),
        },
        Phase::Probing => match event {
            Event::Exited { success, stdout, stderr, .. } => if !success {
                next is Done && removes(act, seq![job.input_path@]) && rejects(
                    act.op,
                    PROBE_FAILED@ + stderr@,
                )
            } else if duration_millis(stdout@) == 0 {
                next is Done && removes(act, seq![job.input_path@]) && rejects(act.op, NO_DURATION@)
            } else {
                removes(act, Seq::empty()) && composes(
                    act.op,
                    tools,
                    spec,
                    tpl,
                    job,
                    duration_millis(stdout@),
                ) && (next matches Phase::Composing { graph, command } && graph@ == join(
                    graph_statements(spec, tpl.overlays@),
                ) && command@ == command_text_spec(
                    tools.encoder@,
                    spec,
                    tpl.overlays@,
                    job.input_path@,
                    trim_needed(spec, duration_millis(stdout@)),
                    job.graph_path@,
                    job.output_path@,
                ))
            },
            _ => unexpected(r),
        },
        Phase::Composing { graph, command } => match event {
            Event::Exited { success, output_size, stderr, .. } => next is Done && removes(
                act,
                seq![job.graph_path@, job.input_path@],
            ) && reports(
                act.op,
                job,
                graph@,
                command@,
                artifact_good(success, output_size),
                stderr@,
            ),
            _ => unexpected(r),
        },
        Phase::Done => unexpected(r),
    }
}

fn owned(s: &str) -> (r: String)
    ensures
        r@ == s@,
{
    String::from_str(s)
}

fn remove_list1(a: &str) -> (r: Vec<String>)
    ensures
        views(r@) == seq![a@],
{
    let mut v: Vec<String> = Vec::new();
    push_owned(&mut v, owned(a));
    assert(views(v@) =~= seq![a@]);
    v
}

fn remove_list2(a: &str, b: &str) -> (r: Vec<String>)
    ensures
        views(r@) == seq![a@, b@],
{
    let mut v: Vec<String> = Vec::new();
    push_owned(&mut v, owned(a));
    push_owned(&mut v, owned(b));
    assert(views(v@) =~= seq![a@, b@]);
    v
}

fn no_removal() -> (r: Vec<String>)
    ensures
        views(r@) == Seq::<Seq<char>>::empty(),
{
    let v: Vec<String> = Vec::new();
    assert(views(v@) =~= Seq::<Seq<char>>::empty());
    v
}

fn reject(remove: Vec<String>, message: String) -> (r: (Phase, Action))
    ensures
        r.0 is Done,
        r.1.remove == remove,
        r.1.op matches Op::Reject { message: m } && m == message,
{
    (Phase::Done, Action { remove, op: Op::Reject { message } })
}

fn unexpected_event() -> (r: (Phase, Action))
    ensures
        unexpected(r),
{
    (Phase::Done, Action { remove: no_removal(), op: Op::Internal })
}

/// Decides the next phase and action of a request from its phase and the
/// event the caller observed.
pub fn step(
    tools: &Tools,
    spec: &OutputSpec,
    tpl: &Template,
    job: &Job,
    phase: Phase,
    event: Event,
) -> (r: (Phase, Action))
    requires
        spec.well_formed(),
        tpl.overlays@.len() < u64::MAX,
    ensures
        step_spec(*tools, *spec, *tpl, *job, phase, event, r),
{
    match phase {
        Phase::Start => match event {
            Event::Begin => match job.source {
                SourceKind::Record => {
                    if accepts_record(job.ext.as_str(), job.mime.as_str()) {
                        let args = transcode_args(spec, job.raw_path.as_str(), job.input_path.as_str());
                        let op = Op::Run { program: owned(tools.encoder.as_str()), args };
                        (Phase::Normalizing, Action { remove: no_removal(), op })
                    } else {
                        reject(remove_list1(job.raw_path.as_str()), owned(RECORD_REJECTED))
                    }
                },
                SourceKind::Upload => {
                    if accepts_upload(job.ext.as_str(), job.mime.as_str()) {
                        let op = Op::Rename {
                            from: owned(job.raw_path.as_str()),
                            to: owned(job.input_path.as_str()),
                        };
                        (Phase::Moving, Action { remove: no_removal(), op })
                    } else {
                        reject(remove_list1(job.raw_path.as_str()), owned(UPLOAD_REJECTED))
                    }
                },
            },
            _ => unexpected_event(),
        },
        Phase::Normalizing => match event {
            Event::Exited { success, output_size, stderr, .. } => {
                if artifact_ok(success, output_size) {
                    let op = Op::Run {
                        program: owned(tools.prober.as_str()),
                        args: probe_args(job.input_path.as_str()),
                    };
                    (Phase::Probing, Action { remove: remove_list1(job.raw_path.as_str()), op })
                } else {
                    let message = owned(TRANSCODE_FAILED).concat(stderr.as_str());
                    reject(remove_list2(job.raw_path.as_str(), job.input_path.as_str()), message)
                }
            },
            _ => unexpected_event(),
        },
        Phase::Moving => match event {
            Event::Moved { ok } => {
                if ok {
                    let op = Op::Run {
                        program: owned(tools.prober.as_str()),
                        args: probe_args(job.input_path.as_str()),
                    };
                    (Phase::Probing, Action { remove: no_removal(), op })
                } else {
                    let remove = remove_list2(job.raw_path.as_str(), job.input_path.as_str());
                    (Phase::Done, Action { remove, op: Op::Internal })
                }
            },
            _ => unexpected_event(),
        },
        Phase::Probing => match event {
            Event::Exited { success, stdout, stderr, .. } => {
                if !success {
                    let message = owned(PROBE_FAILED).concat(stderr.as_str());
                    reject(remove_list1(job.input_path.as_str()), message)
                } else {
                    let duration = parse_duration_ms(stdout.as_str());
                    if duration == 0 {
                        reject(remove_list1(job.input_path.as_str()), owned(NO_DURATION))
                    } else {
                        let trim = needs_trim(spec, duration);
                        let (graph, _count) = build_filter_graph(spec, tpl);
                        let input = job.input_path.as_str();
                        let graph_path = job.graph_path.as_str();
                        let output = job.output_path.as_str();
                        let args = compose_args(spec, tpl, input, trim, graph_path, output);
                        let command = command_text(
                            tools.encoder.as_str(),
                            spec,
                            tpl,
                            input,
                            trim,
                            graph_path,
                            output,
                        );
                        let op = Op::WriteGraphAndRun {
                            graph_path: owned(graph_path),
                            graph: owned(graph.as_str()),
                            program: owned(tools.encoder.as_str()),
                            args,
                        };
                        (Phase::Composing { graph, command }, Action { remove: no_removal(), op })
                    }
                }
            },
            _ => unexpected_event(),
        },
        Phase::Composing { graph, command } => match event {
            Event::Exited { success, output_size, stderr, .. } => {
                let remove = remove_list2(job.graph_path.as_str(), job.input_path.as_str());
                let outcome = if artifact_ok(success, output_size) {
                    Outcome::Success {
                        title: owned(job.title.as_str()),
                        output_path: owned("/").concat(job.output_path.as_str()),
                        command,
                    }
                } else {
                    Outcome::Failure { command, graph, stderr }
                };
                (Phase::Done, Action { remove, op: Op::Report { outcome } })
            },
            _ => unexpected_event(),
        },
        Phase::Done => unexpected_event(),
    }
}

/// A prober that exits with an error, or whose answer gives no positive
/// duration, ends the request: it is rejected, the input is removed, and no
/// process is started.
pub proof fn lemma_probe_failure_rejects(
    tools: Tools,
    spec: OutputSpec,
    tpl: Template,
    job: Job,
    success: bool,
    output_size: Option<u64>,
    stdout: String,
    stderr: String,
    r: (Phase, Action),
)
    requires
        step_spec(
            tools,
            spec,
            tpl,
            job,
            Phase::Probing,
            Event::Exited { success, output_size, stdout, stderr },
            r,
        ),
        !success || duration_millis(stdout@) == 0,
    ensures
        r.0 is Done,
        r.1.op is Reject,
        !starts_process(r.1.op),
        removes(r.1, seq![job.input_path@]),
{
}

/// The composing encoder runs only right after a prober that succeeded and
/// gave a positive duration, and with that duration's trim decision.
pub proof fn lemma_compose_needs_duration(
    tools: Tools,
    spec: OutputSpec,
    tpl: Template,
    job: Job,
    phase: Phase,
    event: Event,
    r: (Phase, Action),
)
    requires
        step_spec(tools, spec, tpl, job, phase, event, r),
        r.1.op is WriteGraphAndRun,
    ensures
        phase is Probing,
        event matches Event::Exited { success, stdout, .. } && success && duration_millis(stdout@)
            > 0 && composes(r.1.op, tools, spec, tpl, job, duration_millis(stdout@)),
{
}

/// A finished request stays finished and starts nothing.
pub proof fn lemma_done_is_final(
    tools: Tools,
    spec: OutputSpec,
    tpl: Template,
    job: Job,
    event: Event,
    r: (Phase, Action),
)
    requires
        step_spec(tools, spec, tpl, job, Phase::Done, event, r),
    ensures
        r.0 is Done,
        !starts_process(r.1.op),
{
}

/// A recording whose re-encoding fails (error exit, or a missing or
/// undersized file) is rejected; the raw upload and whatever was written at
/// the input path are removed, and nothing is probed.
pub proof fn lemma_failed_normalization_cleans_up(
    tools: Tools,
    spec: OutputSpec,
    tpl: Template,
    job: Job,
    success: bool,
    output_size: Option<u64>,
    stdout: String,
    stderr: String,
    r: (Phase, Action),
)
    requires
        step_spec(
            tools,
            spec,
            tpl,
            job,
            Phase::Normalizing,
            Event::Exited { success, output_size, stdout, stderr },
            r,
        ),
        !artifact_good(success, output_size),
    ensures
        r.0 is Done,
        r.1.op is Reject,
        !starts_process(r.1.op),
        views(r.1.remove@).contains(job.raw_path@),
        views(r.1.remove@).contains(job.input_path@),
{
    assert(views(r.1.remove@)[0] == job.raw_path@);
    assert(views(r.1.remove@)[1] == job.input_path@);
}

/// The encoder's result: status zero with an output file of at least the
/// minimum size is reported as success, naming the output path; status
/// zero with an undersized file is still a failure. Either way the graph
/// script and the input are removed.
pub proof fn lemma_encoder_result(
    tools: Tools,
    spec: OutputSpec,
    tpl: Template,
    job: Job,
    graph: String,
    command: String,
    success: bool,
    output_size: Option<u64>,
    stdout: String,
    stderr: String,
    r: (Phase, Action),
)
    requires
        step_spec(
            tools,
            spec,
            tpl,
            job,
            Phase::Composing { graph, command },
            Event::Exited { success, output_size, stdout, stderr },
            r,
        ),
    ensures
        r.0 is Done,
        removes(r.1, seq![job.graph_path@, job.input_path@]),
        artifact_good(success, output_size) ==> (r.1.op matches Op::Report { outcome }
            && outcome matches Outcome::Success { output_path, .. } && output_path@ == "/"@
            + job.output_path@),
        (output_size matches Some(n) && n < MIN_ARTIFACT_BYTES) ==> (r.1.op matches Op::Report {
            outcome,
        } && outcome is Failure),
{
}

pub const TEMPLATE_MISSING: &'static str = "Template wajib diisi";

pub const TEMPLATE_UNKNOWN: &'static str = "Template tidak dikenali";

/// The answer to a request whose template is missing (`key_given` false) or
/// not in the catalog: it is rejected before any process runs, and the raw
/// upload, if one was saved, is removed.
pub fn template_refusal(key_given: bool, raw_path: Option<&str>) -> (r: Action)
    ensures
        rejects(r.op, if key_given { TEMPLATE_UNKNOWN@ } else { TEMPLATE_MISSING@ }),
        removes(
            r,
            match raw_path {
                Some(p) => seq![p@],
                None => Seq::empty(),
            },
        ),
{
    let remove = match raw_path {
        Some(p) => remove_list1(p),
        None => no_removal(),
    };
    let message = if key_given { owned(TEMPLATE_UNKNOWN) } else { owned(TEMPLATE_MISSING) };
    Action { remove, op: Op::Reject { message } }
}

pub const ENCODER_MISSING: &'static str = "FFmpeg tidak ditemukan. Ubuntu: `sudo apt install ffmpeg`.";

pub const PROBER_MISSING: &'static str = "FFprobe tidak ditemukan. Ubuntu: `sudo apt install ffmpeg`.";

/// The warning the home page shows about tools that were not found: one
/// sentence per missing tool, joined by a space; none when both are there.
pub fn tools_warning(encoder_missing: bool, prober_missing: bool) -> (r: Option<String>)
    ensures
        encoder_missing && prober_missing ==> r is Some && r->Some_0@ == ENCODER_MISSING@ + " "@
            + PROBER_MISSING@,
        encoder_missing && !prober_missing ==> r is Some && r->Some_0@ == ENCODER_MISSING@,
        !encoder_missing && prober_missing ==> r is Some && r->Some_0@ == PROBER_MISSING@,
        !encoder_missing && !prober_missing ==> r is None,
{
    if encoder_missing && prober_missing {
        let s = owned(ENCODER_MISSING).concat(" ").concat(PROBER_MISSING);
        Some(s)
    } else if encoder_missing {
        Some(owned(ENCODER_MISSING))
    } else if prober_missing {
        Some(owned(PROBER_MISSING))
    } else {
        None
    }
}

} // verus!
