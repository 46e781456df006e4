//! The filter graph: one statement that scales the source video to the output
//! frame, then per overlay one statement that scales the overlay image and
//! one that composites it, for a time window, onto the result so far.
use vstd::prelude::*;
use crate::text::{
    decimal, digit_char, int_text, millis_text, push_char, ratio_text, write_decimal, write_int,
    write_millis, write_ratio,
};
use crate::template::{Overlay, OverlayMode, Template};
use vstd::arithmetic::div_mod::{lemma_div_by_multiple, lemma_div_is_ordered};

verus! {

/// How the source frame is fitted to the output frame.
pub enum FillPolicy {
    /// Cover the frame, then cut the overflow equally from both sides.
    Crop,
    /// Fit inside the frame, then fill the rest equally on both sides.
    Pad,
}

/// Fixed settings of the output video.
pub struct OutputSpec {
    pub width: u32,
    pub height: u32,
    pub fill: FillPolicy,
    pub crf: u32,
    pub preset: String,
    pub max_duration_secs: u32,
    pub trim_allowed: bool,
}

impl OutputSpec {
    /// A frame of positive, even dimensions.
    pub open spec fn well_formed(&self) -> bool {
        &&& 0 < self.width && self.width % 2 == 0
        &&& 0 < self.height && self.height % 2 == 0
    }

    /// 720 x 1280 portrait, cropped, quality 23 at preset `veryfast`, videos
    /// longer than thirty seconds trimmed.
    pub fn standard() -> (r: OutputSpec)
        ensures
            r.well_formed(),
            r.width == 720,
            r.height == 1280,
            r.fill is Crop,
            r.crf == 23,
            r.preset@ == "veryfast"@,
            r.max_duration_secs == 30,
            r.trim_allowed,
    {
        OutputSpec {
            width: 720,
            height: 1280,
            fill: FillPolicy::Crop,
            crf: 23,
            preset: String::from_str("veryfast"),
            max_duration_secs: 30,
            trim_allowed: true,
        }
    }
}

/// The stream label after `n` overlays: `base`, then `v1`, `v2`, ...
pub open spec fn label(n: nat) -> Seq<char> {
    if n == 0 {
        "base"@
    } else {
        "v"@ + decimal(n)
    }
}

/// The statement that scales input 0 to the output frame, labelled `base`.
pub open spec fn base_stmt(spec: OutputSpec) -> Seq<char> {
    let w = decimal(spec.width as nat);
    let h = decimal(spec.height as nat);
    let ratio = ratio_text(spec.width as nat, spec.height as nat);
    match spec.fill {
        FillPolicy::Crop => "[0:v]scale=if(gte(a\\,"@ + ratio + ")\\,-2\\,"@ + w
            + "):if(gte(a\\,"@ + ratio + ")\\,"@ + h
            + "\\,-2):flags=fast_bilinear,crop="@ + w + ":"@ + h + ":(iw-"@ + w
            + ")/2:(ih-"@ + h + ")/2,setsar=1[base]"@,
        FillPolicy::Pad => "[0:v]scale="@ + w + ":"@ + h
            + ":force_original_aspect_ratio=decrease:flags=fast_bilinear,pad="@ + w + ":"@ + h
            + ":(ow-iw)/2:(oh-ih)/2,setsar=1[base]"@,
    }
}

/// The size an overlay image is scaled to.
pub open spec fn scale_dims(spec: OutputSpec, mode: OverlayMode) -> Seq<char> {
    match mode {
        OverlayMode::Full => decimal(spec.width as nat) + ":"@ + decimal(spec.height as nat),
        OverlayMode::Band { h, .. } => decimal(spec.width as nat) + ":"@ + int_text(
            match h { Some(v) => v as int, None => 160 },
        ),
        OverlayMode::Logo { w, h, .. } => int_text(match w { Some(v) => v as int, None => 220 })
            + ":"@ + int_text(match h { Some(v) => v as int, None => -1 }),
    }
}

/// The horizontal position expression of an overlay.
pub open spec fn pos_x(mode: OverlayMode) -> Seq<char> {
    match mode {
        OverlayMode::Full => "0"@,
        OverlayMode::Band { x, .. } => match x { Some(s) => s@, None => "(main_w-w)/2"@ },
        OverlayMode::Logo { x, .. } => match x { Some(s) => s@, None => "main_w-w-24"@ },
    }
}

/// The vertical position expression of an overlay.
pub open spec fn pos_y(mode: OverlayMode) -> Seq<char> {
    match mode {
        OverlayMode::Full => "0"@,
        OverlayMode::Band { y, .. } => match y { Some(s) => s@, None => "main_h-h"@ },
        OverlayMode::Logo { y, .. } => match y { Some(s) => s@, None => "24"@ },
    }
}

/// The statement that scales input `n` (overlay `n`, counted from one) to `ov<n>`.
pub open spec fn scale_stmt(spec: OutputSpec, n: nat, ov: Overlay) -> Seq<char> {
    "["@ + decimal(n) + ":v]scale="@ + scale_dims(spec, ov.mode) + ":flags=fast_bilinear[ov"@
        + decimal(n) + "]"@
}

/// The time-window predicate of an overlay, in the compositor's syntax.
pub open spec fn window_expr(ov: Overlay) -> Seq<char> {
    "between(t\\,"@ + millis_text(ov.start_ms as nat) + "\\,"@ + millis_text(ov.end_ms as nat)
        + ")"@
}

/// The statement that composites `ov<n>` onto label `n - 1`, giving label `n`.
pub open spec fn overlay_stmt(n: nat, ov: Overlay) -> Seq<char> {
    "["@ + label((n - 1) as nat) + "][ov"@ + decimal(n) + "]overlay=shortest=1:x="@ + pos_x(ov.mode)
        + ":y="@ + pos_y(ov.mode) + ":enable="@ + window_expr(ov) + "["@ + label(n) + "]"@
}

/// The statements of the graph for the given overlays, in order.
pub open spec fn graph_statements(spec: OutputSpec, ovs: Seq<Overlay>) -> Seq<Seq<char>>
    decreases ovs.len(),
{
    if ovs.len() == 0 {
        seq![base_stmt(spec)]
    } else {
        graph_statements(spec, ovs.drop_last()).push(scale_stmt(spec, ovs.len(), ovs.last())).push(
            overlay_stmt(ovs.len(), ovs.last()),
        )
    }
}

/// Statements joined with `;`.
pub open spec fn join(ss: Seq<Seq<char>>) -> Seq<char>
    decreases ss.len(),
{
    if ss.len() == 0 {
        Seq::empty()
    } else if ss.len() == 1 {
        ss[0]
    } else {
        join(ss.drop_last()) + seq![';'] + ss.last()
    }
}

proof fn lemma_join_push(ss: Seq<Seq<char>>, s: Seq<char>)
    requires
        ss.len() >= 1,
    ensures
        join(ss.push(s)) == join(ss) + seq![';'] + s,
{
    assert(ss.push(s).drop_last() =~= ss);
}

fn append_str(out: &mut String, s: &str)
    ensures
        final(out)@ == old(out)@ + s@,
{
    out.append(s);
}

fn write_label(out: &mut String, n: u64)
    ensures
        final(out)@ == old(out)@ + label(n as nat),
{
    if n == 0 {
        append_str(out, "base");
    } else {
        append_str(out, "v");
        write_decimal(out, n);
        assert(final(out)@ =~= old(out)@ + label(n as nat));
    }
}

fn write_opt_int(out: &mut String, v: &Option<i32>, default: i32)
    ensures
        final(out)@ == old(out)@ + int_text(match *v { Some(x) => x as int, None => default as int }),
{
    match v {
        Some(x) => write_int(out, *x as i64),
        None => write_int(out, default as i64),
    }
}

fn write_opt_text(out: &mut String, v: &Option<String>, default: &str)
    ensures
        final(out)@ == old(out)@ + match *v { Some(s) => s@, None => default@ },
{
    match v {
        Some(s) => append_str(out, s.as_str()),
        None => append_str(out, default),
    }
}

fn base_statement(spec: &OutputSpec) -> (r: String)
    requires
        spec.well_formed(),
    ensures
        r@ == base_stmt(*spec),
{
    let w = spec.width as u64;
    let h = spec.height as u64;
    match spec.fill {
        FillPolicy::Crop => {
            let mut s = String::from_str("[0:v]scale=if(gte(a\\,");
            write_ratio(&mut s, w, h);
            append_str(&mut s, ")\\,-2\\,");
            write_decimal(&mut s, w);
            append_str(&mut s, "):if(gte(a\\,");
            write_ratio(&mut s, w, h);
            append_str(&mut s, ")\\,");
            write_decimal(&mut s, h);
            append_str(&mut s, "\\,-2):flags=fast_bilinear,crop=");
            write_decimal(&mut s, w);
            append_str(&mut s, ":");
            write_decimal(&mut s, h);
            append_str(&mut s, ":(iw-");
            write_decimal(&mut s, w);
            append_str(&mut s, ")/2:(ih-");
            write_decimal(&mut s, h);
            append_str(&mut s, ")/2,setsar=1[base]");
            s
        },
        FillPolicy::Pad => {
            let mut s = String::from_str("[0:v]scale=");
            write_decimal(&mut s, w);
            append_str(&mut s, ":");
            write_decimal(&mut s, h);
            append_str(&mut s, ":force_original_aspect_ratio=decrease:flags=fast_bilinear,pad=");
            write_decimal(&mut s, w);
            append_str(&mut s, ":");
            write_decimal(&mut s, h);
            append_str(&mut s, ":(ow-iw)/2:(oh-ih)/2,setsar=1[base]");
            s
        },
    }
}

fn write_scale_dims(out: &mut String, spec: &OutputSpec, mode: &OverlayMode)
    ensures
        final(out)@ == old(out)@ + scale_dims(*spec, *mode),
{
    match mode {
        OverlayMode::Full => {
            write_decimal(out, spec.width as u64);
            append_str(out, ":");
            write_decimal(out, spec.height as u64);
        },
        OverlayMode::Band { h, .. } => {
            write_decimal(out, spec.width as u64);
            append_str(out, ":");
            write_opt_int(out, h, 160);
        },
        OverlayMode::Logo { w, h, .. } => {
            write_opt_int(out, w, 220);
            append_str(out, ":");
            write_opt_int(out, h, -1);
        },
    }
    assert(final(out)@ =~= old(out)@ + scale_dims(*spec, *mode));
}

fn write_pos(out: &mut String, mode: &OverlayMode, horizontal: bool)
    ensures
        final(out)@ == old(out)@ + if horizontal { pos_x(*mode) } else { pos_y(*mode) },
{
    match mode {
        OverlayMode::Full => append_str(out, "0"),
        OverlayMode::Band { x, y, .. } => {
            if horizontal {
                write_opt_text(out, x, "(main_w-w)/2")
            } else {
                write_opt_text(out, y, "main_h-h")
            }
        },
        OverlayMode::Logo { x, y, .. } => {
            if horizontal {
                write_opt_text(out, x, "main_w-w-24")
            } else {
                write_opt_text(out, y, "24")
            }
        },
    }
}

fn scale_statement(spec: &OutputSpec, n: u64, ov: &Overlay) -> (r: String)
    ensures
        r@ == scale_stmt(*spec, n as nat, *ov),
{
    let mut s = String::from_str("[");
    write_decimal(&mut s, n);
    append_str(&mut s, ":v]scale=");
    write_scale_dims(&mut s, spec, &ov.mode);
    append_str(&mut s, ":flags=fast_bilinear[ov");
    write_decimal(&mut s, n);
    append_str(&mut s, "]");
    s
}

fn write_window(out: &mut String, ov: &Overlay)
    ensures
        final(out)@ == old(out)@ + window_expr(*ov),
{
    append_str(out, "between(t\\,");
    write_millis(out, ov.start_ms);
    append_str(out, "\\,");
    write_millis(out, ov.end_ms);
    append_str(out, ")");
    assert(final(out)@ =~= old(out)@ + window_expr(*ov));
}

fn overlay_statement(n: u64, ov: &Overlay) -> (r: String)
    requires
        n >= 1,
    ensures
        r@ == overlay_stmt(n as nat, *ov),
{
    let mut s = String::from_str("[");
    write_label(&mut s, n - 1);
    append_str(&mut s, "][ov");
    write_decimal(&mut s, n);
    append_str(&mut s, "]overlay=shortest=1:x=");
    write_pos(&mut s, &ov.mode, true);
    append_str(&mut s, ":y=");
    write_pos(&mut s, &ov.mode, false);
    append_str(&mut s, ":enable=");
    write_window(&mut s, ov);
    append_str(&mut s, "[");
    write_label(&mut s, n);
    append_str(&mut s, "]");
    s
}

/// Builds the filter graph of a template: the statements joined with `;`,
/// and the number of overlays, whose `label` names the final video stream.
pub fn build_filter_graph(spec: &OutputSpec, tpl: &Template) -> (r: (String, usize))
    requires
        spec.well_formed(),
        tpl.overlays@.len() < u64::MAX,
    ensures
        r.0@ == join(graph_statements(*spec, tpl.overlays@)),
        r.1 == tpl.overlays@.len(),
{
    let ovs = &tpl.overlays;
    let mut out = base_statement(spec);
    let mut i: usize = 0;
    assert(ovs@.subrange(0, 0) =~= Seq::<Overlay>::empty());
    while i < ovs.len()
        invariant
            i <= ovs@.len(),
            ovs@.len() < u64::MAX,
            out@ == join(graph_statements(*spec, ovs@.subrange(0, i as int))),
        decreases ovs@.len() - i,
    {
        let n = (i + 1) as u64;
        let ov = &ovs[i];
        let sc = scale_statement(spec, n, ov);
        let co = overlay_statement(n, ov);
        proof {
            let pre = ovs@.subrange(0, i as int);
            let next = ovs@.subrange(0, i + 1);
            assert(next.drop_last() =~= pre);
            assert(next.last() == ovs@[i as int]);
            let g = graph_statements(*spec, pre);
            lemma_statements_nonempty(*spec, pre);
            lemma_join_push(g, sc@);
            lemma_join_push(g.push(sc@), co@);
        }
        push_char(&mut out, ';');
        append_str(&mut out, sc.as_str());
        push_char(&mut out, ';');
        append_str(&mut out, co.as_str());
        i = i + 1;
    }
    assert(ovs@.subrange(0, ovs@.len() as int) =~= ovs@);
    (out, i)
}

proof fn lemma_statements_nonempty(spec: OutputSpec, ovs: Seq<Overlay>)
    ensures
        graph_statements(spec, ovs).len() >= 1,
    decreases ovs.len(),
{
    if ovs.len() > 0 {
        lemma_statements_nonempty(spec, ovs.drop_last());
    }
}

/// Shape of the graph: for `k` overlays there are `2k + 1` statements, the
/// base-scaling statement first, then per overlay, in template order, the
/// statement that scales it and the statement that composites it. Composite
/// `i` reads `label(i)` and writes `label(i + 1)`, so the final video stream
/// is `label(k)`, which is `base` when there are no overlays.
pub proof fn lemma_graph_shape(spec: OutputSpec, ovs: Seq<Overlay>)
    ensures
        graph_statements(spec, ovs).len() == 2 * ovs.len() + 1,
        graph_statements(spec, ovs)[0] == base_stmt(spec),
        forall|i: int|
            0 <= i < ovs.len() ==> graph_statements(spec, ovs)[2 * i + 1] == scale_stmt(
                spec,
                (i + 1) as nat,
                #[trigger] ovs[i],
            ) && graph_statements(spec, ovs)[2 * i + 2] == overlay_stmt((i + 1) as nat, ovs[i]),
        label(0) == "base"@,
    decreases ovs.len(),
{
    if ovs.len() > 0 {
        let pre = ovs.drop_last();
        lemma_graph_shape(spec, pre);
        assert forall|i: int| 0 <= i < ovs.len() implies graph_statements(spec, ovs)[2 * i + 1]
            == scale_stmt(spec, (i + 1) as nat, #[trigger] ovs[i])
            && graph_statements(spec, ovs)[2 * i + 2] == overlay_stmt((i + 1) as nat, ovs[i]) by {
            if i < pre.len() {
                assert(pre[i] == ovs[i]);
            }
        }
    }
}

/// What the compositor's `between(t, start, end)` means: `t` lies in the
/// closed window.
pub open spec fn window_holds(start_ms: nat, end_ms: nat, t_ms: int) -> bool {
    start_ms <= t_ms <= end_ms
}

/// The time window of an overlay with `start < end` admits every instant
/// strictly between its ends and none outside `[start, end]`.
pub proof fn lemma_time_window(ov: Overlay, t_ms: int)
    requires
        ov.start_ms < ov.end_ms,
    ensures
        ov.start_ms < t_ms < ov.end_ms ==> window_holds(ov.start_ms as nat, ov.end_ms as nat, t_ms),
        t_ms < ov.start_ms || t_ms > ov.end_ms ==> !window_holds(
            ov.start_ms as nat,
            ov.end_ms as nat,
            t_ms,
        ),
{
}

/// Window texts of overlays with different bounds differ: the predicate in
/// the graph names the overlay's start and end exactly.
pub proof fn lemma_window_text_exact(a: Overlay, b: Overlay)
    requires
        window_expr(a) == window_expr(b),
    ensures
        a.start_ms == b.start_ms,
        a.end_ms == b.end_ms,
{
    let pre = "between(t\\,"@;
    let mid = "\\,"@;
    let sa = millis_text(a.start_ms as nat);
    let sb = millis_text(b.start_ms as nat);
    let ea = millis_text(a.end_ms as nat);
    let eb = millis_text(b.end_ms as nat);
    reveal_strlit("between(t\\,");
    reveal_strlit("\\,");
    reveal_strlit(")");
    lemma_millis_text_shape(a.start_ms as nat);
    lemma_millis_text_shape(b.start_ms as nat);
    lemma_millis_text_shape(a.end_ms as nat);
    lemma_millis_text_shape(b.end_ms as nat);
    let wa = window_expr(a);
    let wb = window_expr(b);
    let p0: int = pre.len() as int;
    // Each time text is digits, one '.', then three digits; the separator
    // after the start begins with a backslash, which no time text holds, so
    // both start texts end at the same place.
    if sa.len() < sb.len() {
        let k = p0 + sa.len();
        assert(wa[k] == mid[0]);
        assert(wb[k] == sb[sa.len() as int]);
    } else if sb.len() < sa.len() {
        let k = p0 + sb.len();
        assert(wb[k] == mid[0]);
        assert(wa[k] == sa[sb.len() as int]);
    }
    assert(sa =~= wa.subrange(p0, p0 + sa.len()));
    assert(sb =~= wb.subrange(p0, p0 + sb.len()));
    lemma_millis_text_injective(a.start_ms as nat, b.start_ms as nat);
    let off: int = p0 + sa.len() + mid.len();
    assert(ea.len() == wa.len() - off - 1);
    assert(eb.len() == wb.len() - off - 1);
    assert(ea =~= wa.subrange(off, off + ea.len()));
    assert(eb =~= wb.subrange(off, off + eb.len()));
    lemma_millis_text_injective(a.end_ms as nat, b.end_ms as nat);
}

proof fn lemma_decimal_digits(n: nat)
    ensures
        decimal(n).len() >= 1,
        n >= 10 ==> decimal(n).len() >= 2,
        forall|i: int| 0 <= i < decimal(n).len() ==> '0' <= #[trigger] decimal(n)[i] <= '9',
    decreases n,
{
    if n >= 10 {
        lemma_decimal_digits(n / 10);
        assert forall|i: int| 0 <= i < decimal(n).len() implies '0' <= #[trigger] decimal(n)[i] <= '9' by {
            if i < decimal(n / 10).len() {
                assert(decimal(n)[i] == decimal(n / 10)[i]);
            }
        }
    }
}

proof fn lemma_decimal_injective(a: nat, b: nat)
    requires
        decimal(a) == decimal(b),
    ensures
        a == b,
    decreases a,
{
    lemma_decimal_digits(a);
    lemma_decimal_digits(b);
    if a >= 10 && b >= 10 {
        assert(decimal(a).last() == decimal(b).last());
        assert(decimal(a).drop_last() =~= decimal(a / 10));
        assert(decimal(b).drop_last() =~= decimal(b / 10));
        lemma_decimal_injective(a / 10, b / 10);
        assert(decimal(a).last() == digit_char(a % 10));
        assert(decimal(b).last() == digit_char(b % 10));
        lemma_digit_char_injective(a % 10, b % 10);
    } else if a < 10 && b < 10 {
        assert(decimal(a) == seq![digit_char(a)]);
        assert(decimal(b) == seq![digit_char(b)]);
        assert(decimal(a)[0] == digit_char(a));
        assert(decimal(b)[0] == digit_char(b));
        lemma_digit_char_injective(a, b);
    } else {
        assert(decimal(a).len() != decimal(b).len());
    }
}

proof fn lemma_millis_text_shape(ms: nat)
    ensures
        millis_text(ms).len() == decimal(ms / 1000).len() + 4,
        millis_text(ms).len() >= 5,
        forall|i: int| 0 <= i < millis_text(ms).len() ==> millis_text(ms)[i] != '\\',
        forall|i: int|
            0 <= i < millis_text(ms).len() && i != millis_text(ms).len() - 4 ==> '0'
                <= #[trigger] millis_text(ms)[i] <= '9',
{
    lemma_decimal_digits(ms / 1000);
    let d = decimal(ms / 1000);
    assert forall|i: int|
        0 <= i < millis_text(ms).len() && i != millis_text(ms).len() - 4 implies '0'
            <= #[trigger] millis_text(ms)[i] <= '9' by {
        if i < d.len() {
            assert(millis_text(ms)[i] == d[i]);
        }
    }
}

proof fn lemma_millis_text_injective(a: nat, b: nat)
    requires
        millis_text(a) == millis_text(b),
    ensures
        a == b,
{
    lemma_millis_text_shape(a);
    lemma_millis_text_shape(b);
    let da = decimal(a / 1000);
    let db = decimal(b / 1000);
    assert(da =~= millis_text(a).subrange(0, da.len() as int));
    assert(db =~= millis_text(b).subrange(0, db.len() as int));
    lemma_decimal_injective(a / 1000, b / 1000);
    let n = da.len() as int;
    let ra = a % 1000;
    let rb = b % 1000;
    assert(millis_text(a)[n + 1] == digit_char(ra / 100));
    assert(millis_text(b)[n + 1] == digit_char(rb / 100));
    assert(millis_text(a)[n + 2] == digit_char((ra / 10) % 10));
    assert(millis_text(b)[n + 2] == digit_char((rb / 10) % 10));
    assert(millis_text(a)[n + 3] == digit_char(ra % 10));
    assert(millis_text(b)[n + 3] == digit_char(rb % 10));
    lemma_digit_char_injective(ra / 100, rb / 100);
    lemma_digit_char_injective((ra / 10) % 10, (rb / 10) % 10);
    lemma_digit_char_injective(ra % 10, rb % 10);
}

proof fn lemma_digit_char_injective(x: nat, y: nat)
    requires
        x < 10,
        y < 10,
        digit_char(x) == digit_char(y),
    ensures
        x == y,
{
}

/// A number rounded down to an even number.
pub open spec fn even_down(x: nat) -> nat {
    x / 2 * 2
}

/// Size of a `sw` x `sh` source after the crop policy's scale to a `w` x `h`
/// frame: a source at least as wide (in aspect) as the frame gets height `h`,
/// otherwise width `w`; the other side follows the aspect ratio, rounded down
/// to even.
pub open spec fn crop_scaled(w: nat, h: nat, sw: nat, sh: nat) -> (nat, nat) {
    if sw * h >= w * sh {
        (even_down(sw * h / sh), h)
    } else {
        (w, even_down(sh * w / sw))
    }
}

/// Size of a `sw` x `sh` source after the pad policy's scale to a `w` x `h`
/// frame: the largest size of the source's aspect ratio that fits.
pub open spec fn pad_scaled(w: nat, h: nat, sw: nat, sh: nat) -> (nat, nat) {
    if sw * h >= w * sh {
        (w, sh * w / sw)
    } else {
        (sw * h / sh, h)
    }
}

/// Under the crop policy the scaled source covers the frame whatever its
/// aspect ratio, so the centred crop window `w` x `h` at
/// `((iw - w) / 2, (ih - h) / 2)` lies inside it and the output is exactly
/// `w` x `h`.
pub proof fn lemma_crop_covers_frame(w: nat, h: nat, sw: nat, sh: nat)
    requires
        w > 0 && w % 2 == 0,
        h > 0 && h % 2 == 0,
        sw > 0,
        sh > 0,
    ensures
        crop_scaled(w, h, sw, sh).0 >= w,
        crop_scaled(w, h, sw, sh).1 >= h,
        (crop_scaled(w, h, sw, sh).0 - w) / 2 + w <= crop_scaled(w, h, sw, sh).0,
        (crop_scaled(w, h, sw, sh).1 - h) / 2 + h <= crop_scaled(w, h, sw, sh).1,
{
    if sw * h >= w * sh {
        lemma_div_is_ordered((w * sh) as int, (sw * h) as int, sh as int);
        lemma_div_by_multiple(w as int, sh as int);
        let x = sw * h / sh;
        lemma_div_is_ordered(w as int, x as int, 2);
        assert(w / 2 * 2 == w);
    } else {
        assert(sh * w >= h * sw) by (nonlinear_arith)
            requires sw * h < w * sh;
        lemma_div_is_ordered((h * sw) as int, (sh * w) as int, sw as int);
        lemma_div_by_multiple(h as int, sw as int);
        let y = sh * w / sw;
        lemma_div_is_ordered(h as int, y as int, 2);
        assert(h / 2 * 2 == h);
    }
}

/// Under the pad policy the scaled source fits in the frame whatever its
/// aspect ratio, so the centred padding at `((w - iw) / 2, (h - ih) / 2)`
/// holds it whole and the output is exactly `w` x `h`.
pub proof fn lemma_pad_fits_frame(w: nat, h: nat, sw: nat, sh: nat)
    requires
        w > 0,
        h > 0,
        sw > 0,
        sh > 0,
    ensures
        pad_scaled(w, h, sw, sh).0 <= w,
        pad_scaled(w, h, sw, sh).1 <= h,
        (w - pad_scaled(w, h, sw, sh).0) / 2 + pad_scaled(w, h, sw, sh).0 <= w,
        (h - pad_scaled(w, h, sw, sh).1) / 2 + pad_scaled(w, h, sw, sh).1 <= h,
{
    if sw * h >= w * sh {
        assert(h * sw >= sh * w) by (nonlinear_arith)
            requires sw * h >= w * sh;
        lemma_div_is_ordered((sh * w) as int, (h * sw) as int, sw as int);
        lemma_div_by_multiple(h as int, sw as int);
    } else {
        lemma_div_is_ordered((sw * h) as int, (w * sh) as int, sh as int);
        lemma_div_by_multiple(w as int, sh as int);
    }
}

} // verus!
