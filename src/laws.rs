//! Properties of the navigation state machine that hold for every state.

use vstd::prelude::*;
use crate::page::{spec_next, Page};
use crate::program::{
    spec_action, spec_advance, spec_navigate, spec_offered, spec_step, spec_toggle, Action,
    Event, Program,
};
use crate::settings::{Document, Settings};

verus! {

/// The footer's reading order, first page to last.
pub open spec fn reading_order() -> Seq<Page> {
    seq![Page::Home, Page::AboutUs, Page::Timeline, Page::Deliverables, Page::Contact]
}

/// The state after pressing "Next" `n` times, starting from `s`.
pub open spec fn advanced(s: Program, n: nat) -> Program
    decreases n,
{
    if n == 0 {
        s
    } else {
        spec_advance(advanced(s, (n - 1) as nat))
    }
}

/// Navigating to any page shows exactly that page and changes nothing else.
pub proof fn navigate_sets_page_only(s: Program, p: Page)
    ensures
        spec_navigate(s, p).page == p,
        spec_navigate(s, p).dark_mode == s.dark_mode,
{
}

/// Navigating to the page already on show leaves the state as it was.
pub proof fn navigate_to_current_is_noop(s: Program)
    ensures
        spec_navigate(s, s.page) == s,
{
}

/// The contact page offers no "Next" control, so pressing "Next" there is
/// not possible and, as an update, changes nothing.
pub proof fn no_next_on_contact(settings: Settings, s: Program)
    requires
        s.page == Page::Contact,
    ensures
        spec_next(s.page) is None,
        !spec_offered(settings, s, Event::Next),
        spec_advance(s) == s,
{
}

/// "Next" walks the reading order one page at a time, and only the last
/// page has no successor.
pub proof fn next_follows_reading_order()
    ensures
        forall|i: int|
            0 <= i < 4 ==> spec_next(#[trigger] reading_order()[i]) == Some(reading_order()[i + 1]),
        spec_next(reading_order()[4]) is None,
{
    assert(spec_next(reading_order()[0]) == Some(reading_order()[1]));
    assert(spec_next(reading_order()[1]) == Some(reading_order()[2]));
    assert(spec_next(reading_order()[2]) == Some(reading_order()[3]));
    assert(spec_next(reading_order()[3]) == Some(reading_order()[4]));
}

/// Pressing "Next" `n` times from the home page reaches the `n`-th page of
/// the reading order, and the contact page from the fourth press on; the
/// display mode is kept throughout.
pub proof fn advancing_from_home(s: Program, n: nat)
    requires
        s.page == Page::Home,
    ensures
        advanced(s, n).page == reading_order()[if n < 4 { n as int } else { 4 }],
        advanced(s, n).dark_mode == s.dark_mode,
        n >= 4 ==> advanced(s, n).page == Page::Contact,
    decreases n,
{
    if n > 0 {
        advancing_from_home(s, (n - 1) as nat);
    }
}

/// Flipping the display mode twice restores the state.
pub proof fn toggle_twice_is_identity(s: Program)
    ensures
        spec_toggle(s).dark_mode == !s.dark_mode,
        spec_toggle(spec_toggle(s)) == s,
{
}

/// On the deliverables page a "View PDF" link is always offered; it keeps
/// the state and asks to open the document's configured URL in a new tab,
/// whatever the display mode or the way the page was reached.
pub proof fn view_pdf_opens_configured_url(settings: Settings, s: Program, d: Document, a: Action)
    requires
        s.page == Page::Deliverables,
        spec_action(settings, spec_step(s, Event::ViewPdf(d)), Event::ViewPdf(d), a),
    ensures
        spec_offered(settings, s, Event::ViewPdf(d)),
        spec_step(s, Event::ViewPdf(d)) == s,
        a matches Action::OpenUrl { url, new_tab } && url@ == settings.spec_doc_url(d) && new_tab,
{
}

} // verus!
