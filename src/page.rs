use vstd::prelude::*;

verus! {

/// One of the five content sections of the site.
#[derive(Clone, Copy, Debug, PartialEq, Eq, Structural)]
pub enum Page {
    Home,
    AboutUs,
    Timeline,
    Deliverables,
    Contact,
}

/// The page that follows `p` in the reading order, if any.
pub open spec fn spec_next(p: Page) -> Option<Page> {
    match p {
        Page::Home => Some(Page::AboutUs),
        Page::AboutUs => Some(Page::Timeline),
        Page::Timeline => Some(Page::Deliverables),
        Page::Deliverables => Some(Page::Contact),
        Page::Contact => None,
    }
}

/// The heading shown for a page, which is also its label in the header
/// menu and in the footer's "Next" control.
pub open spec fn spec_title(p: Page) -> Seq<char> {
    match p {
        Page::Home => APP_NAME@,
        Page::AboutUs => "About Us"@,
        Page::Timeline => "Timeline"@,
        Page::Deliverables => "Deliverables"@,
        Page::Contact => "Contact"@,
    }
}

/// The product the site presents; the home page carries its name.
pub const APP_NAME: &'static str = "Plistr";

impl Page {
    /// The heading of this page and its label in the navigation controls.
    pub fn title(self) -> (r: &'static str)
        ensures
            r@ == spec_title(self),
    {
        match self {
            Page::Home => APP_NAME,
            Page::AboutUs => "About Us",
            Page::Timeline => "Timeline",
            Page::Deliverables => "Deliverables",
            Page::Contact => "Contact",
        }
    }

    /// The target of the footer's "Next" control on this page; `None` on
    /// the last page, where no such control is shown.
    pub fn next(self) -> (r: Option<Page>)
        ensures
            r == spec_next(self),
    {
        match self {
            Page::Home => Some(Page::AboutUs),
            Page::AboutUs => Some(Page::Timeline),
            Page::Timeline => Some(Page::Deliverables),
            Page::Deliverables => Some(Page::Contact),
            Page::Contact => None,
        }
    }
}

} // verus!
