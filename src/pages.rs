//! The HTML pages: the upload form, the result page and the failure report.
use vstd::prelude::*;
use crate::template::{Registry, Template};

verus! {

/// The entity that stands for `c` in HTML text, or `c` itself.
pub open spec fn escape_char(c: char) -> Seq<char> {
    if c == '"' {
        "&quot;"@
    } else if c == '&' {
        "&amp;"@
    } else if c == '\'' {
        "&#x27;"@
    } else if c == '<' {
        "&lt;"@
    } else if c == '>' {
        "&gt;"@
    } else {
        seq![c]
    }
}

/// `s` with each of `"`, `&`, `'`, `<`, `>` replaced by its entity.
pub open spec fn escaped(s: Seq<char>) -> Seq<char>
    decreases s.len(),
{
    if s.len() == 0 {
        Seq::empty()
    } else {
        escaped(s.drop_last()) + escape_char(s.last())
    }
}

/// Relies on htmlescape::encode_minimal: it replaces `"`, `&`, `'`, `<`, `>`
/// by `&quot;`, `&amp;`, `&#x27;`, `&lt;`, `&gt;` and keeps every other
/// character.
#[verifier::external_body]
pub(crate) fn html_escape(s: &str) -> (r: String)
    ensures
        r@ == escaped(s@),
{
    htmlescape::encode_minimal(s)
}

pub const HOME_HEAD: &'static str = "<!doctype html>
<html lang=\"id\"><head>
  <meta charset=\"utf-8\"><title>Video Twibbon</title>
  <meta name=\"viewport\" content=\"width=device-width,initial-scale=1\">
  <style>
    body{font-family:system-ui,-apple-system,Segoe UI,Roboto,Arial;color:#222;padding:24px;max-width:900px;margin:auto}
    .card{border:1px solid #ddd;border-radius:12px;padding:18px;margin:12px 0;background:#fff}
    label{display:block;margin:10px 0 6px;font-weight:600}
    input[type=file],select,input[type=text]{padding:10px;border:1px solid #ccc;border-radius:8px;width:100%}
    button{padding:12px 18px;border:0;border-radius:10px;background:#111;color:#fff;font-weight:700;cursor:pointer}
    button:hover{opacity:.9}.hint{color:#666;font-size:.9em}code{background:#f6f6f6;padding:2px 6px;border-radius:6px}
  </style>
</head><body>
  <h1>Video Twibbon Generator (Rust)</h1>
  ";

pub const HOME_MID: &'static str = r#"
  <p class="hint">Pilih sumber video: upload berkas atau rekam dari kamera. Maks 30 detik.</p>

  <form id="twb-form" class="card" method="post" enctype="multipart/form-data" action="/">
    <fieldset style="border:0;padding:0;margin:0 0 12px">
      <legend style="font-weight:700;margin-bottom:6px">Sumber Video</legend>
      <label style="margin-right:12px"><input type="radio" name="source" value="upload" checked> Upload</label>
      <label><input type="radio" name="source" value="record"> Rekam kamera</label>
    </fieldset>

    <div id="upload-pane">
      <label>Video (MP4/WEBM)</label>
      <input type="file" name="video" accept="video/mp4,video/webm,video/*">
      <p class="hint">Format disarankan: MP4 (h.264+aac) atau WEBM (vp8/9+opus).</p>
    </div>

    <div id="record-pane" hidden>
      <div style="display:grid;gap:8px">
        <video id="cam" autoplay muted playsinline style="width:360px;max-height:640px;border-radius:12px;border:1px solid #ddd;background:#000"></video>
        <div style="display:flex;gap:8px;flex-wrap:wrap">
          <button type="button" id="btnOpen" class="btn" style="background:#0a7">Nyalakan Kamera</button>
          <button type="button" id="btnRec"  class="btn" style="background:#0a7" disabled>Rekam</button>
          <button type="button" id="btnStop" class="btn" style="background:#a70" disabled>Stop</button>
          <span id="timer" class="hint" style="align-self:center">00:00</span>
        </div>
        <video id="playback" controls hidden style="width:360px;max-height:640px;border-radius:12px;border:1px solid #ddd"></video>
        <p class="hint">Rekaman otomatis berhenti di 30 detik.</p>
      </div>
    </div>

    <label style="margin-top:12px">Pilih Template</label>
    <select name="template" required>
      "#;

pub const HOME_TAIL: &'static str = r#"
    </select>

    <label>Judul Output (opsional)</label>
    <input type="text" name="title" placeholder="mis. video-twibbon">

    <button type="submit" id="btnSubmit" class="btn" style="margin-top:12px">Generate</button>
    <div id="waitNote" class="hint" style="display:none;margin-top:8px">⏳ Memproses… mohon tunggu sebentar.</div>
  </form>

<script>
(function () {
  var form = document.getElementById('twb-form');
  var fileInput = form.querySelector('input[name=video]');
  var cam = document.getElementById('cam');
  var playback = document.getElementById('playback');
  var btnOpen = document.getElementById('btnOpen');
  var btnRec = document.getElementById('btnRec');
  var btnStop = document.getElementById('btnStop');
  var timer = document.getElementById('timer');
  var stream = null, recorder = null, chunks = [], started = 0, tick = null, stopAt = null;
  form.querySelectorAll('input[name=source]').forEach(function (r) {
    r.addEventListener('change', function () {
      var rec = form.source.value === 'record';
      document.getElementById('upload-pane').hidden = rec;
      document.getElementById('record-pane').hidden = !rec;
    });
  });
  btnOpen.onclick = function () {
    navigator.mediaDevices.getUserMedia({ video: true, audio: true }).then(function (s) {
      stream = s;
      cam.srcObject = s;
      btnRec.disabled = false;
    }).catch(function (e) { alert('Kamera tidak bisa dibuka: ' + e); });
  };
  btnRec.onclick = function () {
    chunks = [];
    var type = MediaRecorder.isTypeSupported('video/webm') ? 'video/webm' : 'video/mp4';
    recorder = new MediaRecorder(stream, { mimeType: type });
    recorder.ondataavailable = function (e) { if (e.data.size > 0) chunks.push(e.data); };
    recorder.onstop = function () {
      clearInterval(tick);
      clearTimeout(stopAt);
      var blob = new Blob(chunks, { type: type });
      var dt = new DataTransfer();
      dt.items.add(new File([blob], 'rekaman.' + (type === 'video/webm' ? 'webm' : 'mp4'), { type: type }));
      fileInput.files = dt.files;
      playback.src = URL.createObjectURL(blob);
      playback.hidden = false;
      btnRec.disabled = false;
      btnStop.disabled = true;
    };
    recorder.start();
    started = Date.now();
    tick = setInterval(function () {
      var s = Math.floor((Date.now() - started) / 1000);
      timer.textContent = '00:' + (s < 10 ? '0' : '') + s;
    }, 250);
    stopAt = setTimeout(function () { if (recorder.state === 'recording') recorder.stop(); }, 30000);
    btnRec.disabled = true;
    btnStop.disabled = false;
  };
  btnStop.onclick = function () { if (recorder && recorder.state === 'recording') recorder.stop(); };
  form.addEventListener('submit', function () {
    document.getElementById('btnSubmit').disabled = true;
    document.getElementById('waitNote').style.display = 'block';
  });
})();
</script>
</body></html>"#;

/// The warning paragraph of the home page; empty without a warning.
pub open spec fn warning_html(warn: Option<Seq<char>>) -> Seq<char> {
    match warn {
        Some(w) => "<p style='color:#b00'>"@ + escaped(w) + "</p>"@,
        None => Seq::empty(),
    }
}

/// One `<option>` of the template selector.
pub open spec fn option_html(t: Template) -> Seq<char> {
    "<option value=\""@ + escaped(t.key@) + "\">"@ + escaped(t.title@) + " ("@ + escaped(t.key@)
        + ")</option>"@
}

/// The options of the template selector, in catalog order.
pub open spec fn options_html(ts: Seq<Template>) -> Seq<char>
    decreases ts.len(),
{
    if ts.len() == 0 {
        Seq::empty()
    } else {
        options_html(ts.drop_last()) + option_html(ts.last())
    }
}

/// The home page: the form, with the warning (if any) above it and one
/// option per template.
pub open spec fn home_page(warn: Option<Seq<char>>, ts: Seq<Template>) -> Seq<char> {
    HOME_HEAD@ + warning_html(warn) + HOME_MID@ + options_html(ts) + HOME_TAIL@
}

/// Renders the home page.
pub fn render_home(warn: Option<&str>, registry: &Registry) -> (r: String)
    ensures
        r@ == home_page(
            match warn {
                Some(w) => Some(w@),
                None => None,
            },
            registry.templates@,
        ),
{
    let ts = &registry.templates;
    let mut opts = String::new();
    let mut i: usize = 0;
    assert(ts@.take(0) =~= Seq::<Template>::empty());
    while i < ts.len()
        invariant
            i <= ts@.len(),
            opts@ == options_html(ts@.take(i as int)),
        decreases ts@.len() - i,
    {
        let t = &ts[i];
        let key = html_escape(t.key.as_str());
        let title = html_escape(t.title.as_str());
        opts.append("<option value=\"");
        opts.append(key.as_str());
        opts.append("\">");
        opts.append(title.as_str());
        opts.append(" (");
        opts.append(key.as_str());
        opts.append(")</option>");
        assert(ts@.take(i + 1).drop_last() =~= ts@.take(i as int));
        assert(opts@ =~= options_html(ts@.take(i + 1)));
        i = i + 1;
    }
    assert(ts@.take(ts@.len() as int) =~= ts@);
    let mut page = String::from_str(HOME_HEAD);
    match warn {
        Some(w) => {
            let e = html_escape(w);
            page.append("<p style='color:#b00'>");
            page.append(e.as_str());
            page.append("</p>");
        },
        None => {},
    }
    page.append(HOME_MID);
    page.append(opts.as_str());
    page.append(HOME_TAIL);
    let ghost wv = match warn {
        Some(w) => Some(w@),
        None => None,
    };
    assert(page@ =~= home_page(wv, ts@));
    page
}

pub const RESULT_HEAD: &'static str = "<!doctype html>
<html lang=\"id\"><head>
  <meta charset=\"utf-8\"><title>Hasil: ";

pub const RESULT_STYLE: &'static str = "</title>
  <meta name=\"viewport\" content=\"width=device-width,initial-scale=1\">
  <style>
    body{font-family:system-ui,-apple-system,Segoe UI,Roboto,Arial;color:#222;padding:24px;max-width:900px;margin:auto}
    .card{border:1px solid #ddd;border-radius:12px;padding:18px;margin:12px 0;background:#fff}
    video{width:360px;max-height:640px;border-radius:12px;border:1px solid #ddd}
    a.btn{display:inline-block;margin-top:12px;padding:12px 18px;background:#111;color:#fff;text-decoration:none;border-radius:10px;font-weight:700}
    .mono{font-family:ui-monospace,SFMono-Regular,Menlo,Consolas,monospace;font-size:.9em;color:#333;background:#f8f8f8;border-radius:8px;padding:10px;white-space:pre-wrap}
  </style>
</head><body>
  <h1>✅ Video berhasil dibuat</h1>
  <div class=\"card\">
    <video controls src=\"";

pub const RESULT_LINK: &'static str = "\"></video>
    <div>
      <a class=\"btn\" href=\"";

pub const RESULT_CMD: &'static str = "\" download>Download Video</a>
      <a class=\"btn\" href=\"/\">Buat Lagi</a>
    </div>
    <p class=\"mono\">";

pub const RESULT_TAIL: &'static str = "</p>
  </div>
</body></html>";

/// The page that shows the finished video, a download link and the command
/// that made it.
pub open spec fn result_page(title: Seq<char>, out_path: Seq<char>, cmd: Seq<char>) -> Seq<char> {
    RESULT_HEAD@ + escaped(title) + RESULT_STYLE@ + escaped(out_path) + RESULT_LINK@ + escaped(
        out_path,
    ) + RESULT_CMD@ + escaped(cmd) + RESULT_TAIL@
}

/// Renders the result page.
pub fn render_result_page(title: &str, out_path: &str, full_cmd: &str) -> (r: String)
    ensures
        r@ == result_page(title@, out_path@, full_cmd@),
{
    let t = html_escape(title);
    let o = html_escape(out_path);
    let c = html_escape(full_cmd);
    let mut page = String::from_str(RESULT_HEAD);
    page.append(t.as_str());
    page.append(RESULT_STYLE);
    page.append(o.as_str());
    page.append(RESULT_LINK);
    page.append(o.as_str());
    page.append(RESULT_CMD);
    page.append(c.as_str());
    page.append(RESULT_TAIL);
    page
}

/// The report of a failed composition: the command line, the graph and the
/// encoder's error output.
pub open spec fn failure_page(cmd: Seq<char>, graph: Seq<char>, stderr: Seq<char>) -> Seq<char> {
    "<h3>Gagal generate video</h3><pre>"@ + escaped(cmd) + "</pre><pre>--- filter graph ---\n"@
        + escaped(graph) + "</pre><pre>"@ + escaped(stderr) + "</pre>"@
}

/// Renders the report of a failed composition.
pub fn render_failure_page(cmd: &str, graph: &str, stderr: &str) -> (r: String)
    ensures
        r@ == failure_page(cmd@, graph@, stderr@),
{
    let c = html_escape(cmd);
    let g = html_escape(graph);
    let e = html_escape(stderr);
    let mut page = String::from_str("<h3>Gagal generate video</h3><pre>");
    page.append(c.as_str());
    page.append("</pre><pre>--- filter graph ---\n");
    page.append(g.as_str());
    page.append("</pre><pre>");
    page.append(e.as_str());
    page.append("</pre>");
    page
}

} // verus!
