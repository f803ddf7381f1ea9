use vstd::prelude::*;

verus! {

/// The cosmetic display theme of the page. It affects only which CSS class
/// the surrounding page attaches; no other state depends on it.
#[derive(Clone, Copy, PartialEq, Eq, Structural, Debug)]
pub enum Theme {
    Teal,
    Lilac,
    Dark,
}

/// The CSS class that each theme renders as.
pub open spec fn spec_theme_class(t: Theme) -> Seq<char> {
    match t {
        Theme::Teal => "theme-teal"@,
        Theme::Lilac => "theme-lilac"@,
        Theme::Dark => "theme-dark"@,
    }
}

/// The theme that an incoming selection string maps to: the two named
/// alternatives are recognized, everything else falls back to teal.
pub open spec fn spec_theme_of(v: Seq<char>) -> Theme {
    if v == "Lilac"@ {
        Theme::Lilac
    } else if v == "Dark"@ {
        Theme::Dark
    } else {
        Theme::Teal
    }
}

impl Theme {
    /// The CSS class name for this theme.
    pub fn as_class(&self) -> (r: &'static str)
        ensures
            r@ == spec_theme_class(*self),
    {
        match self {
            Theme::Teal => "theme-teal",
            Theme::Lilac => "theme-lilac",
            Theme::Dark => "theme-dark",
        }
    }
}

} // verus!
