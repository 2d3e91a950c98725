use vstd::prelude::*;
use crate::page::{spec_next, Page};
use crate::settings::{
    spec_header_menu, spec_home_links, Document, Settings, DISCUSSIONS_URL,
};

verus! {

/// The narrowest available width, in layout units, at which the home page
/// puts its description and its links side by side.
pub const WIDE_LAYOUT_MIN_WIDTH: u32 = 700;

/// How the home page arranges its description and its links.
#[derive(Clone, Copy, Debug, PartialEq, Eq, Structural)]
pub enum HomeLayout {
    /// Description on the left, links on the right, each half the width.
    TwoColumn,
    /// Description above the links.
    Stacked,
}

/// The home page layout for the width available to the page body.
pub open spec fn spec_home_layout(width: u32) -> HomeLayout {
    if width >= WIDE_LAYOUT_MIN_WIDTH {
        HomeLayout::TwoColumn
    } else {
        HomeLayout::Stacked
    }
}

/// Chooses the home page layout; it depends on the available width alone.
pub fn home_layout(width: u32) -> (r: HomeLayout)
    ensures
        r == spec_home_layout(width),
{
    if width >= WIDE_LAYOUT_MIN_WIDTH {
        HomeLayout::TwoColumn
    } else {
        HomeLayout::Stacked
    }
}

/// A control that the user activated during a render pass.
#[derive(Clone, Copy, Debug, PartialEq, Eq, Structural)]
pub enum Event {
    /// An entry of the header menu.
    Menu(Page),
    /// The footer's "Next" control.
    Next,
    /// A link in the home page's body.
    HomeLink(Page),
    /// The link to the contact page at the foot of the deliverables page.
    ContactLink,
    /// The light/dark switch in the header.
    ToggleTheme,
    /// The "View PDF" link of a deliverable.
    ViewPdf(Document),
    /// The link to the discussion boards on the contact page.
    OpenDiscussions,
}

/// What the front end is asked to do after an event.
#[derive(Clone, Debug, PartialEq, Eq)]
pub enum Action {
    /// Nothing beyond drawing the new state.
    Nothing,
    /// Replace the whole visual theme with the dark or the light preset.
    ApplyTheme { dark: bool },
    /// Open `url` in the browser, in a new tab when `new_tab` holds.
    OpenUrl { url: String, new_tab: bool },
}

/// The navigation state of the site: the page on show and the display mode.
#[derive(Clone, Copy, Debug, PartialEq, Eq, Structural)]
pub struct Program {
    pub page: Page,
    pub dark_mode: bool,
}

/// The state after navigating to `p`.
pub open spec fn spec_navigate(s: Program, p: Page) -> Program {
    Program { page: p, dark_mode: s.dark_mode }
}

/// The state after flipping the display mode.
pub open spec fn spec_toggle(s: Program) -> Program {
    Program { page: s.page, dark_mode: !s.dark_mode }
}

/// The state after pressing "Next" where the footer offers it; unchanged
/// where it does not.
pub open spec fn spec_advance(s: Program) -> Program {
    match spec_next(s.page) {
        Some(p) => spec_navigate(s, p),
        None => s,
    }
}

/// Whether the control behind `e` is on screen in state `s`.
pub open spec fn spec_offered(settings: Settings, s: Program, e: Event) -> bool {
    match e {
        Event::Menu(p) => spec_header_menu(settings.show_timeline).contains(p),
        Event::Next => spec_next(s.page) is Some,
        Event::HomeLink(p) => s.page == Page::Home && spec_home_links(
            settings.show_timeline,
        ).contains(p),
        Event::ContactLink => s.page == Page::Deliverables,
        Event::ToggleTheme => true,
        Event::ViewPdf(_) => s.page == Page::Deliverables,
        Event::OpenDiscussions => s.page == Page::Contact,
    }
}

/// The state after an event whose control is on screen.
pub open spec fn spec_step(s: Program, e: Event) -> Program {
    match e {
        Event::Menu(p) => spec_navigate(s, p),
        Event::Next => spec_advance(s),
        Event::HomeLink(p) => spec_navigate(s, p),
        Event::ContactLink => spec_navigate(s, Page::Contact),
        Event::ToggleTheme => spec_toggle(s),
        Event::ViewPdf(_) => s,
        Event::OpenDiscussions => s,
    }
}

/// The request that goes with an event whose control is on screen, given
/// the state after it.
pub open spec fn spec_action(settings: Settings, after: Program, e: Event, a: Action) -> bool {
    match e {
        Event::ToggleTheme => a == Action::ApplyTheme { dark: after.dark_mode },
        Event::ViewPdf(d) => a matches Action::OpenUrl { url, new_tab } && url@
            == settings.spec_doc_url(d) && new_tab,
        Event::OpenDiscussions => a matches Action::OpenUrl { url, new_tab } && url@
            == DISCUSSIONS_URL@ && new_tab,
        _ => a == Action::Nothing,
    }
}

impl Program {
    /// The state at startup: the home page, in light mode.
    pub fn new() -> (r: Program)
        ensures
            r.page == Page::Home,
            !r.dark_mode,
    {
        Program { page: Page::Home, dark_mode: false }
    }

    /// Shows page `p`; the display mode is kept.
    pub fn navigate(&mut self, p: Page)
        ensures
            *final(self) == spec_navigate(*old(self), p),
            final(self).page == p,
            final(self).dark_mode == old(self).dark_mode,
    {
        self.page = p;
    }

    /// Flips between light and dark mode; the page is kept.
    pub fn toggle_dark_mode(&mut self)
        ensures
            *final(self) == spec_toggle(*old(self)),
    {
        self.dark_mode = !self.dark_mode;
    }

    /// The page that the footer's "Next" control leads to; `None` where the
    /// footer is empty.
    pub fn footer_next(&self) -> (r: Option<Page>)
        ensures
            r == spec_next(self.page),
    {
        self.page.next()
    }

    /// Presses the footer's "Next" control; nothing happens where the
    /// footer offers none.
    pub fn advance(&mut self)
        ensures
            *final(self) == spec_advance(*old(self)),
    {
        match self.page.next() {
            Some(p) => self.navigate(p),
            None => {},
        }
    }

    /// Whether the control behind `e` is on screen in this state.
    pub fn offers(&self, settings: &Settings, e: Event) -> (r: bool)
        ensures
            r == spec_offered(*settings, *self, e),
    {
        match e {
            Event::Menu(p) => {
                let menu = settings.header_menu();
                contains_page(&menu, p)
            },
            Event::Next => self.page.next().is_some(),
            Event::HomeLink(p) => {
                let links = settings.home_links();
                self.page == Page::Home && contains_page(&links, p)
            },
            Event::ContactLink => self.page == Page::Deliverables,
            Event::ToggleTheme => true,
            Event::ViewPdf(_) => self.page == Page::Deliverables,
            Event::OpenDiscussions => self.page == Page::Contact,
        }
    }

    /// Handles one activated control. A control that is not on screen in
    /// this state leaves it unchanged and asks for nothing; any other moves
    /// to the state that the control leads to and asks the front end for
    /// the one request that goes with it.
    pub fn update(&mut self, settings: &Settings, e: Event) -> (a: Action)
        ensures
            spec_offered(*settings, *old(self), e) ==> *final(self) == spec_step(*old(self), e)
                && spec_action(*settings, *final(self), e, a),
            !spec_offered(*settings, *old(self), e) ==> *final(self) == *old(self) && a
                == Action::Nothing,
    {
        if !self.offers(settings, e) {
            return Action::Nothing;
        }
        match e {
            Event::Menu(p) => {
                self.navigate(p);
                Action::Nothing
            },
            Event::Next => {
                self.advance();
                Action::Nothing
            },
            Event::HomeLink(p) => {
                self.navigate(p);
                Action::Nothing
            },
            Event::ContactLink => {
                self.navigate(Page::Contact);
                Action::Nothing
            },
            Event::ToggleTheme => {
                self.toggle_dark_mode();
                Action::ApplyTheme { dark: self.dark_mode }
            },
            Event::ViewPdf(d) => Action::OpenUrl { url: settings.doc_url(d).to_owned(), new_tab: true },
            Event::OpenDiscussions => Action::OpenUrl {
                url: DISCUSSIONS_URL.to_owned(),
                new_tab: true,
            },
        }
    }
}

/// Whether `p` is one of `pages`.
fn contains_page(pages: &Vec<Page>, p: Page) -> (r: bool)
    ensures
        r == pages@.contains(p),
{
    let mut i: usize = 0;
    while i < pages.len()
        invariant
            i <= pages.len(),
            forall|j: int| 0 <= j < i ==> pages@[j] != p,
        decreases pages.len() - i,
    {
        if pages[i] == p {
            return true;
        }
        i = i + 1;
    }
    false
}

} // verus!
