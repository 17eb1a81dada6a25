use ao3reader::pages::{judge, redirect, Index, IndexType, Response, Verdict};
use ao3reader::text::{
    about_message, ends_with, error_notice, history_uri, network_notice, not_saved_notice,
    saved_notice, screenshot_file, script_line, search_uri, trim_end, work_uri, Stamp,
};
use ao3reader::vocabulary::HistoryView;

fn tag() -> Index<String> {
    Index { link: "https://example.org/tags/A/works".to_string(), kind: IndexType::TagWorks }
}

fn readings() -> Index<String> {
    Index {
        link: "https://example.org/users/ann/readings".to_string(),
        kind: IndexType::History(HistoryView::Full),
    }
}

fn answered(status: u16, location: Option<&[u8]>) -> Response<String, Vec<u8>> {
    Response::Answered { status, location: location.map(|bytes| bytes.to_vec()) }
}

#[test]
fn a_list_that_is_there_is_opened() {
    assert_eq!(judge(tag(), &answered(200, None)), Verdict::Open(tag()));
    assert_eq!(judge(readings(), &answered(200, Some(b"/works"))), Verdict::Open(readings()));
}

#[test]
fn a_synonym_is_followed_to_its_works() {
    let target = "https://example.org/tags/B/works";
    let open = Verdict::Open(Index { link: target.to_string(), kind: IndexType::TagWorks });
    assert_eq!(judge(tag(), &answered(302, Some(target.as_bytes()))), open);
    let search = Index {
        link: "https://example.org/search".to_string(),
        kind: IndexType::Search("tea".to_string()),
    };
    let open = Verdict::Open(Index { link: target.to_string(), kind: IndexType::TagWorks });
    assert_eq!(judge(search, &answered(301, Some(target.as_bytes()))), open);
}

#[test]
fn other_redirections_are_passed_over() {
    assert_eq!(judge(tag(), &answered(302, Some(b"https://example.org/tags/B"))), Verdict::Nothing);
    assert_eq!(judge(tag(), &answered(302, Some(b""))), Verdict::Nothing);
    assert_eq!(redirect(&Some("/caf\u{e9}/works".as_bytes().to_vec())), Verdict::Nothing);
    assert_eq!(redirect(&Some(b"/a\n/works".to_vec())), Verdict::Nothing);
    let tabbed = Index { link: "\t/works".to_string(), kind: IndexType::TagWorks };
    assert_eq!(redirect(&Some(b"\t/works".to_vec())), Verdict::Open(tabbed));
}

#[test]
fn an_unwrangled_tag_is_reported() {
    let message = Verdict::Notify("Unwrangled tag! No works available.".to_string());
    assert_eq!(judge(tag(), &answered(302, None)), message);
    assert_eq!(redirect(&None), message);
}

#[test]
fn readings_are_not_redirected() {
    assert_eq!(
        judge(readings(), &answered(302, Some(b"/works"))),
        Verdict::Notify("Error: 302 Found".to_string()),
    );
}

#[test]
fn errors_are_shown_with_their_words() {
    assert_eq!(judge(tag(), &answered(404, None)), Verdict::Notify("Error: 404 Not Found".to_string()));
    assert_eq!(
        judge(tag(), &answered(503, None)),
        Verdict::Notify("Error: 503 Service Unavailable".to_string()),
    );
    assert_eq!(
        judge(tag(), &answered(999, None)),
        Verdict::Notify("Error: 999 <unknown status code>".to_string()),
    );
    assert_eq!(
        judge(tag(), &Response::Failed("no route".to_string())),
        Verdict::Notify("Error: no route".to_string()),
    );
}

#[test]
fn links_are_spelled_out() {
    assert_eq!(
        work_uri("42"),
        "https://archiveofourown.org/works/42?view_full_work=true&view_adult=true",
    );
    assert_eq!(
        search_uri("a b"),
        "https://archiveofourown.org/works/search?work_search%5Bquery%5D=a b",
    );
    assert_eq!(
        history_uri("ann", HistoryView::Full),
        "https://archiveofourown.org/users/ann/readings",
    );
    assert_eq!(
        history_uri("ann", HistoryView::MarkedForLater),
        "https://archiveofourown.org/users/ann/readings?show=to-read",
    );
    assert_ne!(work_uri("42"), work_uri("43"));
}

#[test]
fn notices_are_spelled_out() {
    assert_eq!(error_notice("x"), "Error: x");
    assert_eq!(saved_notice("x.png"), "Saved x.png.");
    assert_eq!(not_saved_notice("no space"), "Couldn't take screenshot: no space).");
    assert_eq!(network_notice("1.2.3.4", "home"), "Network is up (1.2.3.4, home).");
    assert_eq!(about_message("1.0"), "Plato 1.0");
}

#[test]
fn endings_are_found() {
    assert!(ends_with("/tags/x/works", "/works"));
    assert!(ends_with("/works", "/works"));
    assert!(!ends_with("works", "/works"));
    assert!(!ends_with("/works/", "/works"));
    assert!(ends_with("caf\u{e9}", "\u{e9}"));
    assert!(ends_with("", ""));
}

#[test]
fn scripts_print_a_line() {
    assert_eq!(script_line(&b"10.0.0.7\n".to_vec()), "10.0.0.7");
    assert_eq!(script_line(&b"  my net \t\r\n".to_vec()), "  my net");
    assert_eq!(script_line(&"caf\u{e9}\u{3000}\u{a0}".as_bytes().to_vec()), "caf\u{e9}");
    assert_eq!(script_line(&vec![0x61, 0xff, 0x20]), "a\u{fffd}");
    assert_eq!(script_line(&b" \n".to_vec()), "");
    assert_eq!(script_line(&Vec::new()), "");
    assert_eq!(trim_end("a\u{200b}"), "a\u{200b}");
    for c in '\u{0}'..='\u{ffff}' {
        let text = format!("x{}", c);
        assert_eq!(trim_end(&text), text.trim_end());
    }
}

#[test]
fn screenshots_are_named_by_the_second() {
    let stamp = Stamp { year: 2024, month: 3, day: 5, hour: 7, minute: 8, second: 9 };
    assert_eq!(screenshot_file(&stamp), "screenshot-20240305_070809.png");
}

#[test]
fn stamps_are_calendar_days() {
    let day = |year, month, day| Stamp { year, month, day, hour: 0, minute: 0, second: 0 };
    assert!(day(2024, 2, 29).is_valid());
    assert!(!day(2023, 2, 29).is_valid());
    assert!(!day(1900, 2, 29).is_valid());
    assert!(day(2000, 2, 29).is_valid());
    assert!(!day(2024, 4, 31).is_valid());
    assert!(!day(2024, 13, 1).is_valid());
    assert!(!day(2024, 0, 1).is_valid());
    assert!(!day(2024, 1, 0).is_valid());
    assert!(day(262142, 12, 31).is_valid());
    assert!(!day(262143, 1, 1).is_valid());
    assert!(day(-262143, 1, 1).is_valid());
    assert!(!day(-262144, 12, 31).is_valid());
    assert!(!Stamp { second: 60, ..day(2024, 1, 1) }.is_valid());
    assert!(!Stamp { minute: 60, ..day(2024, 1, 1) }.is_valid());
    assert!(!Stamp { hour: 24, ..day(2024, 1, 1) }.is_valid());
    assert!(Stamp { hour: 23, minute: 59, second: 59, ..day(2024, 1, 1) }.is_valid());
}

#[test]
fn statuses_have_three_digits() {
    assert!(answered(100, None).is_valid());
    assert!(answered(999, None).is_valid());
    assert!(!answered(99, None).is_valid());
    assert!(!answered(1000, None).is_valid());
    let failed: Response<String, Vec<u8>> = Response::Failed("x".to_string());
    assert!(failed.is_valid());
}
