//! Where the server puts what it serves.

use vstd::prelude::*;

verus! {

/// The layout of the site: the paths under which the page and the style
/// sheets are served, and the directory that the style sheets are read from.
#[derive(Debug, Clone)]
pub struct Site {
    /// The path of the page.
    pub page_mount: String,
    /// The path under which the files of `asset_dir` are served.
    pub asset_mount: String,
    /// The directory of the files that are served as they are.
    pub asset_dir: String,
}

impl Site {
    /// The site as it is launched: the page at `/`, and the files of
    /// `static/css` under `/css`.
    pub fn rocket() -> (site: Site)
        ensures
            site.page_mount@ == "/"@,
            site.asset_mount@ == "/css"@,
            site.asset_dir@ == "static/css"@,
    {
        Site {
            page_mount: String::from_str("/"),
            asset_mount: String::from_str("/css"),
            asset_dir: String::from_str("static/css"),
        }
    }
}

} // verus!
