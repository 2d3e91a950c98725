use plistr::program::WIDE_LAYOUT_MIN_WIDTH;
use plistr::settings::{DISCUSSIONS_URL, PROTOTYPE_URL, WBS_URL, WIREFRAMES_URL};
use plistr::{home_layout, Action, Document, Event, HomeLayout, Page, Program, Settings};

fn all_pages() -> Vec<Page> {
    vec![Page::Home, Page::AboutUs, Page::Timeline, Page::Deliverables, Page::Contact]
}

fn with_timeline() -> Settings {
    let mut s = Settings::new();
    s.show_timeline = true;
    s
}

#[test]
fn starts_on_home_in_light_mode() {
    let s = Program::new();
    assert_eq!(s.page, Page::Home);
    assert!(!s.dark_mode);
}

#[test]
fn navigate_sets_page_and_keeps_mode() {
    for dark in [false, true] {
        for from in all_pages() {
            for to in all_pages() {
                let mut s = Program { page: from, dark_mode: dark };
                s.navigate(to);
                assert_eq!(s, Program { page: to, dark_mode: dark });
            }
        }
    }
}

#[test]
fn navigate_to_current_page_is_noop() {
    for p in all_pages() {
        let before = Program { page: p, dark_mode: true };
        let mut s = before;
        s.navigate(p);
        assert_eq!(s, before);
    }
}

#[test]
fn contact_offers_no_next() {
    let settings = Settings::new();
    let mut s = Program { page: Page::Contact, dark_mode: false };
    assert_eq!(s.footer_next(), None);
    assert!(!s.offers(&settings, Event::Next));
    assert_eq!(s.update(&settings, Event::Next), Action::Nothing);
    assert_eq!(s, Program { page: Page::Contact, dark_mode: false });
}

#[test]
fn next_walks_the_reading_order() {
    let settings = Settings::new();
    let mut s = Program::new();
    let expected = [
        Page::AboutUs,
        Page::Timeline,
        Page::Deliverables,
        Page::Contact,
        Page::Contact,
        Page::Contact,
    ];
    for want in expected {
        assert_eq!(s.update(&settings, Event::Next), Action::Nothing);
        assert_eq!(s.page, want);
        assert!(!s.dark_mode);
    }
}

#[test]
fn next_targets_per_page() {
    assert_eq!(Page::Home.next(), Some(Page::AboutUs));
    assert_eq!(Page::AboutUs.next(), Some(Page::Timeline));
    assert_eq!(Page::Timeline.next(), Some(Page::Deliverables));
    assert_eq!(Page::Deliverables.next(), Some(Page::Contact));
    assert_eq!(Page::Contact.next(), None);
}

#[test]
fn advance_five_times_from_home_reaches_contact() {
    let mut s = Program { page: Page::Home, dark_mode: true };
    for _ in 0..5 {
        s.advance();
    }
    assert_eq!(s, Program { page: Page::Contact, dark_mode: true });
    s.advance();
    assert_eq!(s, Program { page: Page::Contact, dark_mode: true });
}

#[test]
fn toggle_twice_restores_mode() {
    for p in all_pages() {
        for dark in [false, true] {
            let mut s = Program { page: p, dark_mode: dark };
            s.toggle_dark_mode();
            assert_eq!(s, Program { page: p, dark_mode: !dark });
            s.toggle_dark_mode();
            assert_eq!(s, Program { page: p, dark_mode: dark });
        }
    }
}

#[test]
fn toggle_event_asks_for_theme() {
    let settings = Settings::new();
    let mut s = Program::new();
    assert_eq!(s.update(&settings, Event::ToggleTheme), Action::ApplyTheme { dark: true });
    assert!(s.dark_mode);
    assert_eq!(s.update(&settings, Event::ToggleTheme), Action::ApplyTheme { dark: false });
    assert!(!s.dark_mode);
    assert_eq!(s.page, Page::Home);
}

#[test]
fn home_layout_by_width() {
    assert_eq!(home_layout(1000), HomeLayout::TwoColumn);
    assert_eq!(home_layout(400), HomeLayout::Stacked);
    assert_eq!(home_layout(WIDE_LAYOUT_MIN_WIDTH), HomeLayout::TwoColumn);
    assert_eq!(home_layout(699), HomeLayout::Stacked);
    assert_eq!(home_layout(0), HomeLayout::Stacked);
    assert_eq!(home_layout(u32::MAX), HomeLayout::TwoColumn);
}

#[test]
fn view_pdf_opens_the_configured_url() {
    let settings = Settings::new();
    let cases = [
        (Document::Wbs, WBS_URL),
        (Document::Wireframes, WIREFRAMES_URL),
        (Document::Prototype, PROTOTYPE_URL),
    ];
    for (doc, url) in cases {
        for dark in [false, true] {
            let mut s = Program { page: Page::Deliverables, dark_mode: dark };
            let a = s.update(&settings, Event::ViewPdf(doc));
            assert_eq!(a, Action::OpenUrl { url: url.to_string(), new_tab: true });
            assert_eq!(s, Program { page: Page::Deliverables, dark_mode: dark });
        }
    }
}

#[test]
fn view_pdf_follows_custom_urls() {
    let mut settings = Settings::new();
    settings.wireframes_url = "https://example.org/w.pdf".to_string();
    assert_eq!(settings.doc_url(Document::Wireframes), "https://example.org/w.pdf");
    let mut s = Program::new();
    s.update(&settings, Event::Menu(Page::Deliverables));
    let a = s.update(&settings, Event::ViewPdf(Document::Wireframes));
    assert_eq!(
        a,
        Action::OpenUrl { url: "https://example.org/w.pdf".to_string(), new_tab: true }
    );
}

#[test]
fn view_pdf_elsewhere_is_ignored() {
    let settings = Settings::new();
    let mut s = Program::new();
    assert_eq!(s.update(&settings, Event::ViewPdf(Document::Wbs)), Action::Nothing);
    assert_eq!(s, Program::new());
}

#[test]
fn discussions_link_on_contact() {
    let settings = Settings::new();
    let mut s = Program { page: Page::Contact, dark_mode: false };
    assert_eq!(
        s.update(&settings, Event::OpenDiscussions),
        Action::OpenUrl { url: DISCUSSIONS_URL.to_string(), new_tab: true }
    );
    assert_eq!(s.page, Page::Contact);
    let mut h = Program::new();
    assert_eq!(h.update(&settings, Event::OpenDiscussions), Action::Nothing);
}

#[test]
fn contact_link_only_from_deliverables() {
    let settings = Settings::new();
    let mut s = Program { page: Page::Deliverables, dark_mode: true };
    assert_eq!(s.update(&settings, Event::ContactLink), Action::Nothing);
    assert_eq!(s, Program { page: Page::Contact, dark_mode: true });
    let mut h = Program::new();
    h.update(&settings, Event::ContactLink);
    assert_eq!(h.page, Page::Home);
}

#[test]
fn published_settings() {
    let settings = Settings::new();
    assert!(!settings.show_timeline);
    assert_eq!(settings.doc_url(Document::Wbs), WBS_URL);
    assert_eq!(settings.doc_url(Document::Wireframes), WIREFRAMES_URL);
    assert_eq!(settings.doc_url(Document::Prototype), PROTOTYPE_URL);
    assert_eq!(
        WBS_URL,
        "https://github.com/mrnrm/plistr/blob/master/assets/wbs.pdf"
    );
}

#[test]
fn header_menu_hides_timeline_by_default() {
    assert_eq!(
        Settings::new().header_menu(),
        vec![Page::Home, Page::AboutUs, Page::Deliverables, Page::Contact]
    );
    assert_eq!(with_timeline().header_menu(), all_pages());
}

#[test]
fn hidden_timeline_menu_entry_is_ignored() {
    let settings = Settings::new();
    let mut s = Program::new();
    assert!(!s.offers(&settings, Event::Menu(Page::Timeline)));
    s.update(&settings, Event::Menu(Page::Timeline));
    assert_eq!(s.page, Page::Home);
    let shown = with_timeline();
    s.update(&shown, Event::Menu(Page::Timeline));
    assert_eq!(s.page, Page::Timeline);
}

#[test]
fn menu_reaches_every_listed_page() {
    let settings = Settings::new();
    for p in settings.header_menu() {
        let mut s = Program { page: Page::Contact, dark_mode: true };
        assert_eq!(s.update(&settings, Event::Menu(p)), Action::Nothing);
        assert_eq!(s, Program { page: p, dark_mode: true });
    }
}

#[test]
fn home_links_per_variant() {
    assert_eq!(Settings::new().home_links(), vec![Page::AboutUs, Page::Deliverables]);
    assert_eq!(
        with_timeline().home_links(),
        vec![Page::Timeline, Page::AboutUs, Page::Deliverables]
    );
}

#[test]
fn home_links_only_on_home() {
    let settings = Settings::new();
    let mut s = Program::new();
    s.update(&settings, Event::HomeLink(Page::Deliverables));
    assert_eq!(s.page, Page::Deliverables);
    s.update(&settings, Event::HomeLink(Page::AboutUs));
    assert_eq!(s.page, Page::Deliverables);
    let mut h = Program::new();
    h.update(&settings, Event::HomeLink(Page::Contact));
    assert_eq!(h.page, Page::Home);
}

#[test]
fn page_titles() {
    assert_eq!(Page::Home.title(), "Plistr");
    assert_eq!(Page::AboutUs.title(), "About Us");
    assert_eq!(Page::Timeline.title(), "Timeline");
    assert_eq!(Page::Deliverables.title(), "Deliverables");
    assert_eq!(Page::Contact.title(), "Contact");
}
