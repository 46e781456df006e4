//! Overlay templates: what each overlay looks like and when it is shown, and
//! the fixed catalog of templates the service offers.
use vstd::prelude::*;
use crate::text::same_text;

verus! {

/// How an overlay image is scaled and placed on the frame.
pub enum OverlayMode {
    /// Scaled to fill the whole output frame.
    Full,
    /// Output width by `h` (default 160); placed at `x`, `y` (default:
    /// centred horizontally, aligned to the bottom).
    Band { h: Option<i32>, x: Option<String>, y: Option<String> },
    /// `w` (default 220) by `h` (default -1, keep the aspect ratio); placed at
    /// `x`, `y` (default: top right, 24 pixels in).
    Logo { w: Option<i32>, h: Option<i32>, x: Option<String>, y: Option<String> },
}

/// One still image shown from `start_ms` to `end_ms` (both included).
pub struct Overlay {
    pub path: String,
    pub mode: OverlayMode,
    pub start_ms: u64,
    pub end_ms: u64,
}

/// A named, ordered list of overlays; later overlays are drawn on top.
pub struct Template {
    pub key: String,
    pub title: String,
    pub overlays: Vec<Overlay>,
}

/// The catalog of templates, in registration order.
pub struct Registry {
    pub templates: Vec<Template>,
}

impl Registry {
    /// The catalog the service ships with: one template, `reuni_391`, whose
    /// single full-frame overlay is shown for the first thirty seconds.
    pub fn builtin() -> (r: Registry)
        ensures
            r.templates@.len() == 1,
            r.templates@[0].key@ == "reuni_391"@,
            r.templates@[0].title@ == "Reuni SMA 3 Jakarta • 24 Agustus 2025 (3-91)"@,
            r.templates@[0].overlays@.len() == 1,
            r.templates@[0].overlays@[0].path@ == "templates/2d.png"@,
            r.templates@[0].overlays@[0].mode is Full,
            r.templates@[0].overlays@[0].start_ms == 0,
            r.templates@[0].overlays@[0].end_ms == 30000,
    {
        let overlay = Overlay {
            path: String::from_str("templates/2d.png"),
            mode: OverlayMode::Full,
            start_ms: 0,
            end_ms: 30000,
        };
        let tpl = Template {
            key: String::from_str("reuni_391"),
            title: String::from_str("Reuni SMA 3 Jakarta • 24 Agustus 2025 (3-91)"),
            overlays: vec![overlay],
        };
        Registry { templates: vec![tpl] }
    }

    /// The first template whose key is `key`, if any.
    pub fn lookup(&self, key: &str) -> (r: Option<&Template>)
        ensures
            match r {
                Some(t) => exists|i: int|
                    0 <= i < self.templates@.len() && #[trigger] self.templates@[i] == *t
                        && t.key@ == key@ && forall|j: int|
                        0 <= j < i ==> #[trigger] self.templates@[j].key@ != key@,
                None => forall|i: int|
                    0 <= i < self.templates@.len() ==> #[trigger] self.templates@[i].key@ != key@,
            },
    {
        let mut i: usize = 0;
        while i < self.templates.len()
            invariant
                i <= self.templates@.len(),
                forall|k: int| 0 <= k < i ==> #[trigger] self.templates@[k].key@ != key@,
            decreases self.templates@.len() - i,
        {
            if same_text(self.templates[i].key.as_str(), key) {
                return Some(&self.templates[i]);
            }
            i = i + 1;
        }
        None
    }
}

} // verus!
