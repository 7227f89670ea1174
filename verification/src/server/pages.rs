//! The HTML pages that `/` serves.
use vstd::prelude::*;

verus! {

/// The page layout chosen for a client.
#[derive(Debug, Clone, Copy, PartialEq, Eq, Structural)]
pub enum Page {
    Desktop,
    Mobile,
}

impl Page {
    pub open spec fn spec_path(&self) -> Seq<char> {
        match self {
            Page::Desktop => "resources/web_resources/html_pages/index_desktop.html"@,
            Page::Mobile => "resources/web_resources/html_pages/index_mobile.html"@,
        }
    }

    /// Where the page's file lies, relative to the working directory.
    pub fn path(&self) -> (res: &'static str)
        ensures
            res@ == self.spec_path(),
    {
        match self {
            Page::Desktop => "resources/web_resources/html_pages/index_desktop.html",
            Page::Mobile => "resources/web_resources/html_pages/index_mobile.html",
        }
    }
}

} // verus!
