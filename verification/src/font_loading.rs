//! Loading the font source after the editor window has appeared: the load
//! is started once, on the first frame after startup, and never retried.

use vstd::prelude::*;

verus! {

/// Where the font comes from and how far loading has got.
#[derive(Debug, Clone)]
pub struct DeferredFontLoading {
    pub font_path: Option<String>,
    pub loading: bool,
    pub loaded: bool,
}

impl Default for DeferredFontLoading {
    /// No font to load.
    fn default() -> (r: Self)
        ensures
            r.font_path is None,
            !r.loading,
            !r.loaded,
    {
        DeferredFontLoading { font_path: None, loading: false, loaded: false }
    }
}

/// At startup: remember the font source given on the command line, to be
/// loaded once the window shows.
pub fn load_fontir_font(font_source: Option<String>) -> (r: DeferredFontLoading)
    ensures
        r.font_path == font_source,
        !r.loading,
        !r.loaded,
{
    DeferredFontLoading { font_path: font_source, loading: false, loaded: false }
}

/// Whether a load is due: there is a source and no load has started or
/// finished.
pub open spec fn load_due(s: DeferredFontLoading) -> bool {
    !s.loaded && !s.loading && s.font_path is Some
}

impl DeferredFontLoading {
    /// The font to load now, if a load is due; the load is then under way.
    pub fn start_loading(&mut self) -> (r: Option<String>)
        ensures
            final(self).font_path == old(self).font_path,
            final(self).loaded == old(self).loaded,
            if load_due(*old(self)) {
                r == old(self).font_path && final(self).loading
            } else {
                r is None && final(self).loading == old(self).loading
            },
    {
        if self.loaded || self.loading {
            return None;
        }
        match &self.font_path {
            Some(p) => {
                let path = p.clone();
                self.loading = true;
                Some(path)
            },
            None => None,
        }
    }

    /// A load has ended, well or not: it is not tried again.
    pub fn finish_loading(&mut self)
        ensures
            final(self).font_path == old(self).font_path,
            final(self).loaded,
            !final(self).loading,
    {
        self.loaded = true;
        self.loading = false;
    }
}

/// The font is loaded at most once: once a load has started, and after it
/// has ended, well or not, no further load is due.
pub proof fn font_loads_at_most_once(s: DeferredFontLoading)
    requires
        s.loading || s.loaded,
    ensures
        !load_due(s),
{
}

} // verus!
