use vstd::prelude::*;
use vstd::string::StringExecFns;
use crate::page::Page;

verus! {

/// Where the work breakdown structure is published.
pub const WBS_URL: &'static str = "https://github.com/mrnrm/plistr/blob/master/assets/wbs.pdf";

/// Where the wireframes (the rough prototype) are published.
pub const WIREFRAMES_URL: &'static str =
    "https://github.com/mrnrm/plistr/blob/master/assets/wireframes.pdf";

/// Where the first prototype is published.
pub const PROTOTYPE_URL: &'static str =
    "https://github.com/mrnrm/plistr/blob/master/assets/first_prototype.pdf";

/// The project's discussion boards, linked from the contact page.
pub const DISCUSSIONS_URL: &'static str = "https://github.com/mrnrm/plistr/discussions";

/// A deliverable listed on the deliverables page, each with a "View PDF" link.
#[derive(Clone, Copy, Debug, PartialEq, Eq, Structural)]
pub enum Document {
    Wbs,
    Wireframes,
    Prototype,
}

/// What differs between builds of the site: whether the timeline is
/// reachable from the header menu and the home page, and where each
/// deliverable's PDF lives.
#[derive(Clone, Debug)]
pub struct Settings {
    pub show_timeline: bool,
    pub wbs_url: String,
    pub wireframes_url: String,
    pub prototype_url: String,
}

/// The header menu, left to right.
pub open spec fn spec_header_menu(show_timeline: bool) -> Seq<Page> {
    if show_timeline {
        seq![Page::Home, Page::AboutUs, Page::Timeline, Page::Deliverables, Page::Contact]
    } else {
        seq![Page::Home, Page::AboutUs, Page::Deliverables, Page::Contact]
    }
}

/// The links in the home page's body, top to bottom.
pub open spec fn spec_home_links(show_timeline: bool) -> Seq<Page> {
    if show_timeline {
        seq![Page::Timeline, Page::AboutUs, Page::Deliverables]
    } else {
        seq![Page::AboutUs, Page::Deliverables]
    }
}

impl Settings {
    /// The URL that a document's "View PDF" link opens.
    pub open spec fn spec_doc_url(&self, d: Document) -> Seq<char> {
        match d {
            Document::Wbs => self.wbs_url@,
            Document::Wireframes => self.wireframes_url@,
            Document::Prototype => self.prototype_url@,
        }
    }

    /// The published configuration: no timeline in the menus, and the
    /// documents hosted in the project's repository.
    pub fn new() -> (r: Settings)
        ensures
            !r.show_timeline,
            r.wbs_url@ == WBS_URL@,
            r.wireframes_url@ == WIREFRAMES_URL@,
            r.prototype_url@ == PROTOTYPE_URL@,
    {
        Settings {
            show_timeline: false,
            wbs_url: String::from_str(WBS_URL),
            wireframes_url: String::from_str(WIREFRAMES_URL),
            prototype_url: String::from_str(PROTOTYPE_URL),
        }
    }

    /// The URL that the "View PDF" link of `d` opens.
    pub fn doc_url(&self, d: Document) -> (r: &str)
        ensures
            r@ == self.spec_doc_url(d),
    {
        match d {
            Document::Wbs => self.wbs_url.as_str(),
            Document::Wireframes => self.wireframes_url.as_str(),
            Document::Prototype => self.prototype_url.as_str(),
        }
    }

    /// The pages offered in the header menu, left to right.
    pub fn header_menu(&self) -> (r: Vec<Page>)
        ensures
            r@ == spec_header_menu(self.show_timeline),
    {
        let mut r: Vec<Page> = Vec::new();
        r.push(Page::Home);
        r.push(Page::AboutUs);
        if self.show_timeline {
            r.push(Page::Timeline);
        }
        r.push(Page::Deliverables);
        r.push(Page::Contact);
        proof {
            assert(r@ =~= spec_header_menu(self.show_timeline));
        }
        r
    }

    /// The pages linked from the home page's body, top to bottom.
    pub fn home_links(&self) -> (r: Vec<Page>)
        ensures
            r@ == spec_home_links(self.show_timeline),
    {
        let mut r: Vec<Page> = Vec::new();
        if self.show_timeline {
            r.push(Page::Timeline);
        }
        r.push(Page::AboutUs);
        r.push(Page::Deliverables);
        proof {
            assert(r@ =~= spec_home_links(self.show_timeline));
        }
        r
    }
}

} // verus!
