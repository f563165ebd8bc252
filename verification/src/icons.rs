//! Bootstrap icons: a typed wrapper of an icon's raw HTML and the file
//! set of an icon distribution.

use vstd::prelude::*;

verus! {

/// One bootstrap icon, a transparent wrapper of its raw HTML.
///
/// Icon values are produced as constants by the embedding application;
/// copying one is cheap.
#[derive(Clone, Copy)]
pub struct BI(pub &'static str);

impl BI {
    /// The raw HTML of this icon.
    pub fn raw_html(self) -> (r: &'static str)
        ensures
            r@ == self.0@,
    {
        self.0
    }
}

/// The files of a bootstrap-icons distribution, to be served next to the
/// application.
pub struct BIFiles {
    /// Contents of the stylesheet `bootstrap-icons.css`.
    pub css: &'static str,
    /// Contents of the font file `fonts/bootstrap-icons.woff`.
    pub font_woff: &'static [u8],
    /// Contents of the font file `fonts/bootstrap-icons.woff2`.
    pub font_woff2: &'static [u8],
    /// Contents of the accompanying `fonts/LICENSE`.
    pub license: &'static str,
}

} // verus!
