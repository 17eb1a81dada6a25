//! Laws of the links, the answers and the names of screenshots.

use crate::action::{Action, Flow, Page, Wait};
use crate::navigation::{nothing_kept, on_load_history, on_response};
use crate::pages::{
    verdict_on, Index, IndexType, Response, Verdict, STATUS_FOUND, STATUS_MOVED_PERMANENTLY,
    STATUS_OK,
};
use crate::session::SessionView;
use crate::text::{
    decimal, digit, error_text, four_digits, history_link, screenshot_name, search_link,
    status_line, two_digits, work_link, year_text, Stamp, Text,
};
use crate::vocabulary::HistoryView;
use vstd::prelude::*;

verus! {

/// A list of works that is there is opened as it was asked for, whatever else
/// the answer holds.
pub proof fn a_list_that_is_there_is_opened(index: Index<Text>, location: Option<Seq<u8>>)
    ensures
        verdict_on(index, Response::Answered { status: STATUS_OK, location }) == Verdict::Open(
            index,
        ),
{
}

/// A list is opened only as it was asked for or, where it is not a user's own,
/// as the list of the works of another tag: its link then ends so.
pub proof fn what_is_opened(index: Index<Text>, response: Response<Text, Seq<u8>>)
    ensures
        verdict_on(index, response) matches Verdict::Open(list) ==> list == index || (list.kind
            == IndexType::<Text>::TagWorks && "/works"@.is_suffix_of(list.link) && !(
        index.kind is History)),
{
}

/// What a user has read is never redirected.
pub proof fn own_lists_are_not_redirected(
    link: Text,
    part: HistoryView,
    response: Response<Text, Seq<u8>>,
)
    ensures
        ({
            let index = Index { link, kind: IndexType::History(part) };
            match response {
                Response::Failed(cause) => verdict_on(index, response) == Verdict::Notify(
                    error_text(cause),
                ),
                Response::Answered { status, .. } => verdict_on(index, response) == if status
                    == STATUS_OK {
                    Verdict::Open(index)
                } else {
                    Verdict::Notify(error_text(status_line(status)))
                },
            }
        }),
{
}

/// Every answer is shown for what it is: something is opened or said, unless
/// it is a redirection to what is not a list of works.
pub proof fn what_is_passed_over(index: Index<Text>, response: Response<Text, Seq<u8>>)
    ensures
        verdict_on(index, response) == Verdict::<Text>::Nothing ==> (response matches
            Response::Answered { status, location } && (status == STATUS_FOUND || status
            == STATUS_MOVED_PERMANENTLY) && location is Some),
{
}

/// A tag that stands for nothing yet is redirected nowhere, and that is said.
pub proof fn an_unwrangled_tag_is_reported(index: Index<Text>, status: u16)
    requires
        status == STATUS_FOUND || status == STATUS_MOVED_PERMANENTLY,
        !(index.kind is History),
    ensures
        verdict_on(index, Response::Answered { status, location: None }) == Verdict::Notify(
            "Unwrangled tag! No works available."@,
        ),
{
}

/// A view is made exactly for the lists that are opened, and the session waits
/// for it unchanged.
pub proof fn only_opened_lists_are_built<V>(
    s: SessionView<V>,
    index: Index<Text>,
    response: Response<Text, Seq<u8>>,
)
    ensures
        on_response(s, index, response).next == s,
        forall|list: Index<Text>|
            #[trigger] on_response(s, index, response).flow == Flow::Await(
                Wait::Build { page: Page::Works(list), kept: nothing_kept() },
            ) <==> verdict_on(index, response) == Verdict::Open(list),
{
}

/// Nothing is fetched for a reader without a name.
pub proof fn no_history_without_a_name<V>(s: SessionView<V>, part: HistoryView)
    ensures
        on_load_history(s, part, None).next == s,
        on_load_history(s, part, None).flow == Flow::<Wait<Text>>::Settle,
        on_load_history(s, part, None).actions == seq![
            Action::Notify("Can't load history without a username!"@),
        ],
{
}

proof fn lemma_same_middle(prefix: Text, a: Text, b: Text, suffix: Text)
    requires
        prefix + a + suffix == prefix + b + suffix,
    ensures
        a == b,
{
    let left = prefix + a + suffix;
    let right = prefix + b + suffix;
    let from = prefix.len() as int;
    assert(left.len() == right.len());
    assert(left.subrange(from, from + a.len()) =~= a);
    assert(right.subrange(from, from + a.len()) =~= b);
}

/// Different works have different links, and so have different searches and
/// the readings of different users.
pub proof fn links_tell_apart(a: Text, b: Text, part: HistoryView)
    ensures
        work_link(a) == work_link(b) ==> a == b,
        search_link(a) == search_link(b) ==> a == b,
        history_link(a, part) == history_link(b, part) ==> a == b,
{
    if work_link(a) == work_link(b) {
        lemma_same_middle(
            "https://archiveofourown.org/works/"@,
            a,
            b,
            "?view_full_work=true&view_adult=true"@,
        );
    }
    if search_link(a) == search_link(b) {
        let prefix = "https://archiveofourown.org/works/search?work_search%5Bquery%5D="@;
        let none = Seq::<char>::empty();
        assert(prefix + a + none =~= search_link(a));
        assert(prefix + b + none =~= search_link(b));
        lemma_same_middle(prefix, a, b, none);
    }
    if history_link(a, part) == history_link(b, part) {
        let prefix = "https://archiveofourown.org/users/"@;
        let all = "/readings"@;
        if part == HistoryView::MarkedForLater {
            let later = all + "?show=to-read"@;
            assert(prefix + a + later =~= history_link(a, part));
            assert(prefix + b + later =~= history_link(b, part));
            lemma_same_middle(prefix, a, b, later);
        } else {
            lemma_same_middle(prefix, a, b, all);
        }
    }
}

proof fn lemma_two_digits(a: int, b: int)
    requires
        0 <= a < 100,
        0 <= b < 100,
        two_digits(a) == two_digits(b),
    ensures
        a == b,
{
    assert(two_digits(a)[0] == digit(a / 10));
    assert(two_digits(a)[1] == digit(a % 10));
    assert(two_digits(b)[0] == digit(b / 10));
    assert(two_digits(b)[1] == digit(b % 10));
}

proof fn lemma_decimal(a: nat, b: nat)
    requires
        decimal(a) == decimal(b),
    ensures
        a == b,
    decreases a,
{
    lemma_decimal_is_not_empty(a);
    lemma_decimal_is_not_empty(b);
    if a >= 10 && b >= 10 {
        assert(decimal(a).last() == digit((a % 10) as int));
        assert(decimal(b).last() == digit((b % 10) as int));
        assert(decimal(a).drop_last() =~= decimal(a / 10));
        assert(decimal(b).drop_last() =~= decimal(b / 10));
        lemma_decimal(a / 10, b / 10);
    } else if a >= 10 {
        lemma_decimal_is_not_empty(a / 10);
    } else if b >= 10 {
        lemma_decimal_is_not_empty(b / 10);
    } else {
        assert(decimal(a)[0] == digit(a as int));
        assert(decimal(b)[0] == digit(b as int));
    }
}

proof fn lemma_decimal_is_not_empty(n: nat)
    ensures
        decimal(n).len() > 0,
{
}

proof fn lemma_four_digits(a: int, b: int)
    requires
        0 <= a,
        0 <= b,
        four_digits(a) == four_digits(b),
    ensures
        a == b,
{
    if a < 10000 && b < 10000 {
        assert(four_digits(a).subrange(0, 2) =~= two_digits(a / 100));
        assert(four_digits(b).subrange(0, 2) =~= two_digits(b / 100));
        assert(four_digits(a).subrange(2, 4) =~= two_digits(a % 100));
        assert(four_digits(b).subrange(2, 4) =~= two_digits(b % 100));
        lemma_two_digits(a / 100, b / 100);
        lemma_two_digits(a % 100, b % 100);
    } else if a >= 10000 && b >= 10000 {
        lemma_decimal(a as nat, b as nat);
    } else if a >= 10000 {
        lemma_decimal_is_long(a as nat);
    } else {
        lemma_decimal_is_long(b as nat);
    }
}

proof fn lemma_decimal_is_long(n: nat)
    requires
        n >= 10000,
    ensures
        decimal(n).len() > 4,
{
    reveal_with_fuel(decimal, 5);
    lemma_decimal_is_not_empty(n / 10 / 10 / 10 / 10);
}

proof fn lemma_digits_are_no_signs(n: int)
    requires
        0 <= n < 10000,
    ensures
        four_digits(n).len() == 4,
        four_digits(n)[0] != '-',
        four_digits(n)[0] != '+',
{
    assert(four_digits(n)[0] == digit(n / 100 / 10));
}

proof fn lemma_year_text(a: int, b: int)
    requires
        year_text(a) == year_text(b),
    ensures
        a == b,
{
    if 0 <= a < 10000 {
        lemma_digits_are_no_signs(a);
    }
    if 0 <= b < 10000 {
        lemma_digits_are_no_signs(b);
    }
    if 0 <= a < 10000 || 0 <= b < 10000 {
        if 0 <= a < 10000 && 0 <= b < 10000 {
            lemma_four_digits(a, b);
        } else if 0 <= a < 10000 {
            assert(year_text(b)[0] == '-' || year_text(b)[0] == '+');
        } else {
            assert(year_text(a)[0] == '-' || year_text(a)[0] == '+');
        }
    } else {
        let abs_a = if a < 0 { -a } else { a };
        let abs_b = if b < 0 { -b } else { b };
        assert(year_text(a)[0] == if a < 0 { '-' } else { '+' });
        assert(year_text(b)[0] == if b < 0 { '-' } else { '+' });
        assert(year_text(a).drop_first() =~= four_digits(abs_a));
        assert(year_text(b).drop_first() =~= four_digits(abs_b));
        lemma_four_digits(abs_a, abs_b);
    }
}

/// What stands in a screenshot's name behind the year.
spec fn rest_of_name(stamp: Stamp) -> Text {
    two_digits(stamp.month as int) + two_digits(stamp.day as int) + seq!['_'] + two_digits(
        stamp.hour as int,
    ) + two_digits(stamp.minute as int) + two_digits(stamp.second as int) + ".png"@
}

/// Screenshots that are not taken in the same second have different names.
#[verifier::rlimit(30)]
pub proof fn screenshots_have_their_own_names(a: Stamp, b: Stamp)
    requires
        a.valid(),
        b.valid(),
        screenshot_name(a) == screenshot_name(b),
    ensures
        a == b,
{
    let prefix = "screenshot-"@;
    let year_a = year_text(a.year as int);
    let year_b = year_text(b.year as int);
    let rest_a = rest_of_name(a);
    let rest_b = rest_of_name(b);
    let left = screenshot_name(a);
    let right = screenshot_name(b);
    let n = prefix.len() as int;
    let m = left.len() - rest_a.len();
    assert(left =~= prefix + year_a + rest_a);
    assert(right =~= prefix + year_b + rest_b);
    assert(rest_a.len() == rest_b.len());
    assert(left.subrange(n, m) =~= year_a);
    assert(right.subrange(n, m) =~= year_b);
    assert(left.subrange(m, left.len() as int) =~= rest_a);
    assert(right.subrange(m, left.len() as int) =~= rest_b);
    lemma_year_text(a.year as int, b.year as int);
    assert(rest_a.subrange(0, 2) =~= two_digits(a.month as int));
    assert(rest_b.subrange(0, 2) =~= two_digits(b.month as int));
    assert(rest_a.subrange(2, 4) =~= two_digits(a.day as int));
    assert(rest_b.subrange(2, 4) =~= two_digits(b.day as int));
    assert(rest_a.subrange(5, 7) =~= two_digits(a.hour as int));
    assert(rest_b.subrange(5, 7) =~= two_digits(b.hour as int));
    assert(rest_a.subrange(7, 9) =~= two_digits(a.minute as int));
    assert(rest_b.subrange(7, 9) =~= two_digits(b.minute as int));
    assert(rest_a.subrange(9, 11) =~= two_digits(a.second as int));
    assert(rest_b.subrange(9, 11) =~= two_digits(b.second as int));
    lemma_two_digits(a.month as int, b.month as int);
    lemma_two_digits(a.day as int, b.day as int);
    lemma_two_digits(a.hour as int, b.hour as int);
    lemma_two_digits(a.minute as int, b.minute as int);
    lemma_two_digits(a.second as int, b.second as int);
}

} // verus!
