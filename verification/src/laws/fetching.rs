//! Laws of the lists of works, of screenshots and of what is written about
//! them, letter by letter.

use crate::action::{Action, Flow, Kept, Page, Wait};
use crate::answer::{continued, Answer};
use crate::dispatch::{page_step, screen_step, PageEvent, ScreenEvent};
use crate::laws::plans::group_plans;
use crate::navigation::{on_response, screenshot_text};
use crate::pages::{Index, IndexType, Response};
use crate::session::{ask, settle, Facts, SessionView, Step};
use crate::text::{
    decimal, digit, header_text, history_link, is_space, is_visible, lossy_text, not_saved_text,
    reason_phrase, saved_text, screenshot_name, script_text, trimmed, two_digits, work_link,
    search_link, year_text, Stamp, Text,
};
use crate::vocabulary::HistoryView;
use vstd::prelude::*;

verus! {

broadcast use group_plans;

/// A list of works is fetched from the link that is named, from the search for
/// the words that are named, or from the readings of the user that is named;
/// it is remembered as what it is, and nothing changes before it is there.
pub proof fn where_lists_are_fetched_from<V>(
    s: SessionView<V>,
    link: Text,
    query: Text,
    name: Text,
    part: HistoryView,
    facts: Facts,
)
    ensures
        ({
            let tag = page_step(s, PageEvent::LoadIndex(link), facts);
            let search = page_step(s, PageEvent::LoadSearch(query), facts);
            let own = page_step(s, PageEvent::LoadHistory { part, username: Some(name) }, facts);
            let readings = "https://archiveofourown.org/users/"@ + name + "/readings"@;
            &&& tag.next == s && search.next == s && own.next == s
            &&& tag.actions.len() == 0 && search.actions.len() == 0 && own.actions.len() == 0
            &&& tag.flow == Flow::Await(
                Wait::Fetch(Index { link, kind: IndexType::<Text>::TagWorks }),
            )
            &&& search.flow == Flow::Await(
                Wait::Fetch(
                    Index {
                        link: "https://archiveofourown.org/works/search?work_search%5Bquery%5D="@
                            + query,
                        kind: IndexType::Search(query),
                    },
                ),
            )
            &&& own.flow matches Flow::Await(Wait::Fetch(Index { link: from, kind }))
            &&& kind == IndexType::<Text>::History(part)
            &&& part == HistoryView::Full ==> from == readings
            &&& part == HistoryView::MarkedForLater ==> from == readings + "?show=to-read"@
        }),
{
}

/// The whole reading history and what is marked for later are fetched from two
/// different links: the second is the first with a mark behind it, and the first
/// has no such mark.
pub proof fn the_parts_of_a_history_differ<V>(s: SessionView<V>, name: Text, facts: Facts)
    ensures
        ({
            let full = PageEvent::LoadHistory { part: HistoryView::Full, username: Some(name) };
            let later = PageEvent::LoadHistory {
                part: HistoryView::MarkedForLater,
                username: Some(name),
            };
            &&& page_step(s, full, facts).flow matches Flow::Await(Wait::Fetch(all))
            &&& page_step(s, later, facts).flow matches Flow::Await(Wait::Fetch(marked))
            &&& marked.link == all.link + "?show=to-read"@
            &&& all.link != marked.link
            &&& "?show=to-read"@.is_suffix_of(marked.link)
            &&& !"?show=to-read"@.is_suffix_of(all.link)
            &&& "/readings"@.is_suffix_of(all.link)
        }),
{
    let mark = "?show=to-read"@;
    let end = "/readings"@;
    let all = "https://archiveofourown.org/users/"@ + name + end;
    let marked = all + mark;
    reveal_strlit("?show=to-read");
    reveal_strlit("/readings");
    assert(marked.subrange(marked.len() - mark.len(), marked.len() as int) =~= mark);
    assert(all.subrange(all.len() - end.len(), all.len() as int) =~= end);
    assert(marked.len() > all.len());
    if mark.is_suffix_of(all) {
        let tail = all.subrange(all.len() - mark.len(), all.len() as int);
        assert(tail[mark.len() - 1] == all[all.len() - 1]);
        assert(all[all.len() - 1] == end[end.len() - 1]);
    }
}

/// Nothing is fetched for a reader without a name, and that is said.
pub proof fn no_name_no_history<V>(s: SessionView<V>, part: HistoryView, facts: Facts)
    ensures
        page_step(s, PageEvent::LoadHistory { part, username: None }, facts) == settle(
            s,
            seq![Action::Notify("Can't load history without a username!"@)],
        ),
{
}

/// A list is opened after the menus are gone, and nothing is noted of the screen
/// before its view is there.
pub open spec fn opens_list<V>(s: SessionView<V>, list: Index<Text>) -> Step<V> {
    ask(
        s,
        seq![Action::CloseMenus],
        Wait::Build {
            page: Page::Works(list),
            kept: Kept { rotation: None, monochrome: None, dithered: None },
        },
    )
}

/// Every byte is a visible character, or a tab.
pub open spec fn readable(bytes: Seq<u8>) -> bool {
    forall|i: int|
        0 <= i < bytes.len() ==> bytes[i] == 9 || (32 <= #[trigger] bytes[i] && bytes[i] <= 126)
}

/// The text is spelled by the bytes.
pub open spec fn spelled(text: Text, bytes: Seq<u8>) -> bool {
    &&& text.len() == bytes.len()
    &&& forall|i: int| 0 <= i < bytes.len() ==> #[trigger] text[i] == bytes[i] as char
}

/// A header is read exactly where all of it is readable, and as it is spelled.
pub proof fn how_a_header_is_read(bytes: Seq<u8>)
    ensures
        header_text(bytes) is Some <==> readable(bytes),
        readable(bytes) ==> spelled(header_text(bytes)->0, bytes),
{
    if header_text(bytes) is Some {
        assert forall|i: int| 0 <= i < bytes.len() implies bytes[i] == 9 || (32
            <= #[trigger] bytes[i] && bytes[i] <= 126) by {
            assert(is_visible(bytes[i]));
        }
    }
    if readable(bytes) {
        assert forall|i: int| 0 <= i < bytes.len() implies is_visible(#[trigger] bytes[i]) by {}
    }
}

/// A failure is shown with its cause.
pub proof fn what_a_failure_leads_to<V>(
    s: SessionView<V>,
    index: Index<Text>,
    cause: Text,
    facts: Facts,
)
    ensures
        continued(
            s,
            Wait::Fetch(index),
            Answer::Response(Response::Failed(cause)),
            facts,
        ) == settle(s, seq![Action::Notify("Error: "@ + cause)]),
{
    let answer = Answer::<V, _, _>::Response(Response::Failed(cause));
    assert(continued(s, Wait::Fetch(index), answer, facts) == on_response(
        s,
        index,
        Response::Failed(cause),
    ));
}

/// A list that is there is opened as it was asked for. One that has moved is
/// followed, unless it is a user's own: to nowhere, which is said; to another
/// list of works, which is opened as the works of a tag; to anything else, which
/// is passed over. Every other status is shown.
pub proof fn what_an_answer_leads_to<V>(
    s: SessionView<V>,
    index: Index<Text>,
    status: u16,
    location: Option<Seq<u8>>,
    facts: Facts,
)
    ensures
        ({
            let response = Response::Answered { status, location };
            let decision = continued(s, Wait::Fetch(index), Answer::Response(response), facts);
            let moved = (status == 301 || status == 302) && !(index.kind is History);
            let target = header_text(location->0);
            let followed = location is Some && readable(location->0) && "/works"@.is_suffix_of(
                target->0,
            );
            &&& status == 200 ==> decision == opens_list(s, index)
            &&& moved && location is None ==> decision == settle(
                s,
                seq![Action::Notify("Unwrangled tag! No works available."@)],
            )
            &&& moved && followed ==> decision == opens_list(
                s,
                Index { link: target->0, kind: IndexType::TagWorks },
            )
            &&& moved && location is Some && !followed ==> decision == settle(s, seq![])
            &&& status != 200 && !moved ==> decision == settle(
                s,
                seq![
                    Action::Notify(
                        "Error: "@ + (decimal(status as nat) + " "@ + reason_phrase(status)),
                    ),
                ],
            )
        }),
{
    let response = Response::Answered { status, location };
    let answer = Answer::<V, _, _>::Response(response);
    assert(continued(s, Wait::Fetch(index), answer, facts) == on_response(s, index, response));
    if let Some(bytes) = location {
        how_a_header_is_read(bytes);
    }
}

/// A status is written in its three digits.
pub proof fn how_a_status_is_written(status: u16)
    requires
        100 <= status < 1000,
    ensures
        decimal(status as nat) == seq![
            (48 + status / 100) as char,
            (48 + status / 10 % 10) as char,
            (48 + status % 10) as char,
        ],
{
    reveal_with_fuel(decimal, 3);
    assert(decimal(status as nat) =~= seq![
        digit(status as int / 100),
        digit(status as int / 10 % 10),
        digit(status as int % 10),
    ]);
}

/// The digits of a number below a hundred.
pub open spec fn pair(n: u32) -> Text {
    seq![(48 + n / 10) as char, (48 + n % 10) as char]
}

/// The name of a screenshot holds the time at which it was taken: the year, the
/// month and the day, and then the hour, the minute and the second.
pub proof fn how_a_screenshot_is_named(stamp: Stamp)
    requires
        stamp.valid(),
        0 <= stamp.year < 10000,
    ensures
        screenshot_name(stamp) == "screenshot-"@ + pair((stamp.year / 100) as u32) + pair(
            (stamp.year % 100) as u32,
        ) + pair(stamp.month) + pair(stamp.day) + seq!['_'] + pair(stamp.hour) + pair(stamp.minute)
            + pair(stamp.second) + ".png"@,
{
    let year = stamp.year as int;
    assert(two_digits(year / 100) =~= pair((stamp.year / 100) as u32));
    assert(two_digits(year % 100) =~= pair((stamp.year % 100) as u32));
    assert(two_digits(stamp.month as int) =~= pair(stamp.month));
    assert(two_digits(stamp.day as int) =~= pair(stamp.day));
    assert(two_digits(stamp.hour as int) =~= pair(stamp.hour));
    assert(two_digits(stamp.minute as int) =~= pair(stamp.minute));
    assert(two_digits(stamp.second as int) =~= pair(stamp.second));
    assert(screenshot_name(stamp) =~= "screenshot-"@ + pair((stamp.year / 100) as u32) + pair(
        (stamp.year % 100) as u32,
    ) + pair(stamp.month) + pair(stamp.day) + seq!['_'] + pair(stamp.hour) + pair(stamp.minute)
        + pair(stamp.second) + ".png"@);
}

/// A year beyond four digits is signed.
pub proof fn how_a_far_year_is_written(year: int)
    requires
        year < 0 || year >= 10000,
    ensures
        year_text(year).len() >= 5,
        year_text(year)[0] == if year < 0 {
            '-'
        } else {
            '+'
        },
        year <= -10000 ==> year_text(year) == seq!['-'] + decimal((-year) as nat),
        year >= 10000 ==> year_text(year) == seq!['+'] + decimal(year as nat),
        -10000 < year < 0 ==> year_text(year) == seq!['-'] + year_text(-year),
{
    reveal_with_fuel(decimal, 5);
}

/// A screenshot is taken in three steps: the time is asked for, the screen is
/// saved under the name for that time, and what came of it is shown.
pub proof fn how_a_screenshot_is_taken<V>(
    s: SessionView<V>,
    stamp: Stamp,
    name: Text,
    cause: Text,
    facts: Facts,
)
    ensures
        ({
            let asked = screen_step(s, ScreenEvent::TakeScreenshot, facts);
            let timed = continued(s, Wait::Stamp, Answer::Stamp(stamp), facts);
            let kept = continued(s, Wait::Screenshot { name }, Answer::Saved(None), facts);
            let lost = continued(s, Wait::Screenshot { name }, Answer::Saved(Some(cause)), facts);
            &&& asked == ask(s, seq![], Wait::Stamp)
            &&& timed == ask(s, seq![], Wait::Screenshot { name: screenshot_name(stamp) })
            &&& kept == settle(s, seq![Action::Notify("Saved "@ + name + "."@)])
            &&& lost == settle(s, seq![Action::Notify(cause)])
        }),
{
    let wait = Wait::Screenshot { name };
    assert(continued(s, wait, Answer::<V, _, _>::Saved(None), facts) == settle(
        s,
        seq![Action::Notify(screenshot_text(name, None))],
    ));
    assert(continued(s, wait, Answer::<V, _, _>::Saved(Some(cause)), facts) == settle(
        s,
        seq![Action::Notify(screenshot_text(name, Some(cause)))],
    ));
}

/// The links, word by word: the name that they hold stands between what is the
/// same for all.
pub proof fn how_links_are_spelled(name: Text)
    ensures
        work_link(name) == "https://archiveofourown.org/works/"@ + name
            + "?view_full_work=true&view_adult=true"@,
        search_link(name) == "https://archiveofourown.org/works/search?work_search%5Bquery%5D="@
            + name,
        history_link(name, HistoryView::Full) == "https://archiveofourown.org/users/"@ + name
            + "/readings"@,
        history_link(name, HistoryView::MarkedForLater) == history_link(name, HistoryView::Full)
            + "?show=to-read"@,
        saved_text(name) == "Saved "@ + name + "."@,
        not_saved_text(name) == "Couldn't take screenshot: "@ + name + ")."@,
{
}

/// A text loses the space at its end, all of it and nothing else.
pub proof fn what_trimming_leaves(text: Text)
    ensures
        trimmed(text).is_prefix_of(text),
        trimmed(text).len() > 0 ==> !is_space(trimmed(text).last()),
        forall|i: int| trimmed(text).len() <= i < text.len() ==> is_space(#[trigger] text[i]),
        trimmed(trimmed(text)) == trimmed(text),
    decreases text.len(),
{
    if text.len() > 0 && is_space(text.last()) {
        what_trimming_leaves(text.drop_last());
        let rest = trimmed(text.drop_last());
        assert(text.subrange(0, rest.len() as int) =~= text.drop_last().subrange(
            0,
            rest.len() as int,
        ));
        assert forall|i: int| rest.len() <= i < text.len() implies is_space(
            #[trigger] text[i],
        ) by {
            if i < text.len() - 1 {
                assert(text.drop_last()[i] == text[i]);
            }
        }
    } else {
        assert(text.subrange(0, text.len() as int) =~= text);
    }
}

/// What a script prints is read up to its last letter: it begins as it was
/// printed, does not end with space, and lacks nothing but space.
pub proof fn how_a_script_is_read(stdout: Seq<u8>)
    ensures
        script_text(stdout).is_prefix_of(lossy_text(stdout)),
        script_text(stdout).len() > 0 ==> !is_space(script_text(stdout).last()),
        forall|i: int|
            script_text(stdout).len() <= i < lossy_text(stdout).len() ==> is_space(
                #[trigger] lossy_text(stdout)[i],
            ),
{
    what_trimming_leaves(lossy_text(stdout));
}

/// Of the plain characters, the space, the tab and the ends of lines and pages
/// leave only space; of the others, the spaces of other scripts do, but not the
/// joiners.
pub proof fn what_leaves_only_space(c: char)
    ensures
        (c as u32) < 128 ==> (is_space(c) <==> c == ' ' || 9 <= c as u32 <= 13),
        128 <= c as u32 <= 0x167f ==> (is_space(c) <==> c as u32 == 0x85 || c as u32 == 0xa0),
        0x2000 <= c as u32 <= 0x200a ==> is_space(c),
        0x200b <= c as u32 <= 0x2027 ==> !is_space(c),
        c as u32 == 0x1680 || c as u32 == 0x2028 || c as u32 == 0x2029 || c as u32 == 0x202f || c
            as u32 == 0x205f || c as u32 == 0x3000 ==> is_space(c),
        c as u32 > 0x3000 ==> !is_space(c),
{
}

/// A day is in the calendar exactly where its month has it: February has a day
/// more every four years, but for the centuries that cannot be divided by four
/// hundred.
pub proof fn which_days_there_are(stamp: Stamp)
    requires
        -262143 <= stamp.year <= 262142,
        1 <= stamp.month <= 12,
        stamp.hour < 24,
        stamp.minute < 60,
        stamp.second < 60,
    ensures
        1 <= stamp.day <= 28 ==> stamp.valid(),
        stamp.day == 0 || stamp.day > 31 ==> !stamp.valid(),
        stamp.day == 29 && stamp.month == 2 ==> (stamp.valid() <==> if stamp.year as int % 100
            == 0 {
            stamp.year as int % 400 == 0
        } else {
            stamp.year as int % 4 == 0
        }),
        (stamp.day == 29 || stamp.day == 30) && stamp.month != 2 ==> stamp.valid(),
        stamp.day == 30 && stamp.month == 2 ==> !stamp.valid(),
        stamp.day == 31 ==> (stamp.valid() <==> stamp.month == 1 || stamp.month == 3 || stamp.month
            == 5 || stamp.month == 7 || stamp.month == 8 || stamp.month == 10 || stamp.month
            == 12),
{
}

/// A time that is not on the clock, or a year that dates are not kept for, is no
/// valid one.
pub proof fn which_times_there_are(stamp: Stamp)
    ensures
        stamp.valid() ==> -262143 <= stamp.year <= 262142 && 1 <= stamp.month <= 12 && stamp.hour
            < 24 && stamp.minute < 60 && stamp.second < 60,
{
}

/// An answer is valid exactly where it has a status of three digits, or none.
pub proof fn which_answers_there_are(response: Response<Text, Seq<u8>>)
    ensures
        response.valid() <==> (match response {
            Response::Answered { status, .. } => 99 < status && status <= 999,
            Response::Failed(_) => true,
        }),
{
}

} // verus!
