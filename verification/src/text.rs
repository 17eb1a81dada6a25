//! The links that are fetched and the messages that are shown.

use crate::vocabulary::HistoryView;
use chrono::NaiveDate;
use reqwest::header::HeaderValue;
use reqwest::StatusCode;
use vstd::prelude::*;
use vstd::string::*;
use vstd::utf8::{decode_utf8, valid_utf8};

verus! {

/// The model of a text.
pub type Text = Seq<char>;

/// The character that stands for a digit.
pub open spec fn digit(d: int) -> char {
    (48 + d) as char
}

/// A number in decimal, without leading zeros.
pub open spec fn decimal(n: nat) -> Text
    decreases n,
{
    if n < 10 {
        seq![digit(n as int)]
    } else {
        decimal(n / 10).push(digit((n % 10) as int))
    }
}

/// A number below a hundred in two digits.
pub open spec fn two_digits(n: int) -> Text {
    seq![digit(n / 10), digit(n % 10)]
}

/// A number in at least four digits.
pub open spec fn four_digits(n: int) -> Text {
    if n < 10000 {
        two_digits(n / 100) + two_digits(n % 100)
    } else {
        decimal(n as nat)
    }
}

/// A year in at least four digits, with a sign unless it lies between 0 and
/// 9999.
pub open spec fn year_text(year: int) -> Text {
    if year < 0 {
        seq!['-'] + four_digits(-year)
    } else if year < 10000 {
        four_digits(year)
    } else {
        seq!['+'] + four_digits(year)
    }
}

/// A second of a calendar day.
#[derive(Clone, Copy, Debug, PartialEq, Eq)]
pub struct Stamp {
    pub year: i32,
    pub month: u32,
    pub day: u32,
    pub hour: u32,
    pub minute: u32,
    pub second: u32,
}

/// Whether February has a day more.
pub open spec fn is_leap(year: int) -> bool {
    year % 4 == 0 && (year % 100 != 0 || year % 400 == 0)
}

/// The days of a month.
pub open spec fn days_in(year: int, month: int) -> int {
    if month == 2 {
        if is_leap(year) { 29 } else { 28 }
    } else if month == 4 || month == 6 || month == 9 || month == 11 {
        30
    } else {
        31
    }
}

impl Stamp {
    /// The day is in the calendar and the second is on that day. The calendar
    /// spans the years that dates are kept for.
    pub open spec fn valid(self) -> bool {
        &&& -262143 <= self.year <= 262142
        &&& 1 <= self.month <= 12
        &&& 1 <= self.day <= days_in(self.year as int, self.month as int)
        &&& self.hour < 24
        &&& self.minute < 60
        &&& self.second < 60
    }

    /// Whether the day is in the calendar and the second is on that day.
    pub fn is_valid(&self) -> (valid: bool)
        ensures
            valid == self.valid(),
    {
        let y: i32 = self.year;
        let leap = y % 4 == 0 && (y % 100 != 0 || y % 400 == 0);
        let month: u32 = self.month;
        let days: u32 = if month == 2 {
            if leap { 29 } else { 28 }
        } else if month == 4 || month == 6 || month == 9 || month == 11 {
            30
        } else {
            31
        };
        -262143 <= y && y <= 262142 && 1 <= month && month <= 12 && 1 <= self.day && self.day
            <= days && self.hour < 24 && self.minute < 60 && self.second < 60
    }
}

/// A second as it is written in the name of a file: the day and the time of
/// day.
pub open spec fn stamp_text(stamp: Stamp) -> Text {
    year_text(stamp.year as int) + two_digits(stamp.month as int) + two_digits(stamp.day as int)
        + seq!['_'] + two_digits(stamp.hour as int) + two_digits(stamp.minute as int) + two_digits(
        stamp.second as int,
    )
}

/// The name of the file that a screenshot taken at this time is kept in.
pub open spec fn screenshot_name(stamp: Stamp) -> Text {
    "screenshot-"@ + stamp_text(stamp) + ".png"@
}

/// Calls `chrono`'s `NaiveDate::from_ymd_opt` and `NaiveDate::and_hms_opt`,
/// which know every valid stamp, and `NaiveDateTime::format` on the result. The
/// specifiers write the year in at least four digits, with a sign unless it
/// lies between 0 and 9999, and the others in two digits; the underscore
/// between them is written as it stands.
#[verifier::external_body]
pub(crate) fn format_stamp(stamp: &Stamp) -> (text: String)
    requires
        stamp.valid(),
    ensures
        text@ == stamp_text(*stamp),
{
    let day = NaiveDate::from_ymd_opt(stamp.year, stamp.month, stamp.day).unwrap();
    let time = day.and_hms_opt(stamp.hour, stamp.minute, stamp.second).unwrap();
    time.format("%Y%m%d_%H%M%S").to_string()
}

/// The name of the file that a screenshot taken at this time is kept in.
pub fn screenshot_file(stamp: &Stamp) -> (name: String)
    requires
        stamp.valid(),
    ensures
        name@ == screenshot_name(*stamp),
{
    let text = format_stamp(stamp);
    let mut name = "screenshot-".to_owned();
    name.append(text.as_str());
    name.append(".png");
    name
}

/// The words that stand behind a status code: those that `reqwest`'s
/// `StatusCode::canonical_reason` gives, or the words for a code without any.
pub uninterp spec fn reason_phrase(status: u16) -> Seq<char>;

/// A status code as it is shown: the number and its words.
pub open spec fn status_line(status: u16) -> Text {
    decimal(status as nat) + " "@ + reason_phrase(status)
}

/// Calls `reqwest`'s `StatusCode::from_u16`, which knows every number of three
/// digits, and the `Display` of the result, which writes the number, a space
/// and the words for it. What the words are is left unsaid.
#[verifier::external_body]
pub(crate) fn format_status(status: u16) -> (line: String)
    requires
        100 <= status < 1000,
    ensures
        line@ == decimal(status as nat) + " "@ + reason_phrase(status),
{
    StatusCode::from_u16(status).unwrap().to_string()
}

/// A byte that a header's text may hold.
pub open spec fn is_visible(b: u8) -> bool {
    32 <= b < 127 || b == 9
}

/// The text of a header's value, if every byte of it is visible.
pub open spec fn header_text(value: Seq<u8>) -> Option<Text> {
    if forall|i: int| 0 <= i < value.len() ==> is_visible(#[trigger] value[i]) {
        Some(value.map_values(|b: u8| b as char))
    } else {
        None
    }
}

/// Calls `reqwest`'s `HeaderValue::from_bytes` and `HeaderValue::to_str`. The
/// first refuses control characters; the second gives the bytes as a text if
/// all of them are visible ASCII or tabs, and an error otherwise.
#[verifier::external_body]
pub(crate) fn read_header(value: &Vec<u8>) -> (text: Option<String>)
    ensures
        text is Some <==> header_text(value@) is Some,
        text is Some ==> text->0@ == header_text(value@)->0,
{
    match HeaderValue::from_bytes(value) {
        Ok(value) => match value.to_str() {
            Ok(text) => Some(text.to_string()),
            Err(_) => None,
        },
        Err(_) => None,
    }
}

/// Whether a text ends with another.
pub fn ends_with(text: &str, ending: &str) -> (found: bool)
    ensures
        found == ending@.is_suffix_of(text@),
{
    let n: usize = text.unicode_len();
    let m: usize = ending.unicode_len();
    if n < m {
        return false;
    }
    for i in 0..m
        invariant
            n == text@.len(),
            m == ending@.len(),
            m <= n,
            forall|j: int| 0 <= j < i ==> ending@[j] == text@[n - m + j],
    {
        if text.get_char(n - m + i) != ending.get_char(i) {
            assert(ending@[i as int] != text@.subrange(n - m, n as int)[i as int]);
            return false;
        }
    }
    assert(ending@ =~= text@.subrange(n - m, n as int));
    true
}

/// The link to a whole work.
pub open spec fn work_link(id: Text) -> Text {
    "https://archiveofourown.org/works/"@ + id + "?view_full_work=true&view_adult=true"@
}

/// The link to a whole work.
pub fn work_uri(id: &str) -> (link: String)
    ensures
        link@ == work_link(id@),
{
    let mut link = "https://archiveofourown.org/works/".to_owned();
    link.append(id);
    link.append("?view_full_work=true&view_adult=true");
    link
}

/// The link to the works that a search finds.
pub open spec fn search_link(query: Text) -> Text {
    "https://archiveofourown.org/works/search?work_search%5Bquery%5D="@ + query
}

/// The link to the works that a search finds.
pub fn search_uri(query: &str) -> (link: String)
    ensures
        link@ == search_link(query@),
{
    let mut link = "https://archiveofourown.org/works/search?work_search%5Bquery%5D=".to_owned();
    link.append(query);
    link
}

/// The link to what a user has read or means to read.
pub open spec fn history_link(username: Text, part: HistoryView) -> Text {
    let all = "https://archiveofourown.org/users/"@ + username + "/readings"@;
    if part == HistoryView::MarkedForLater {
        all + "?show=to-read"@
    } else {
        all
    }
}

/// The link to what a user has read or means to read.
pub fn history_uri(username: &str, part: HistoryView) -> (link: String)
    ensures
        link@ == history_link(username@, part),
{
    let mut link = "https://archiveofourown.org/users/".to_owned();
    link.append(username);
    link.append("/readings");
    if part == HistoryView::MarkedForLater {
        link.append("?show=to-read");
    }
    link
}

/// What is shown of a failure.
pub open spec fn error_text(cause: Text) -> Text {
    "Error: "@ + cause
}

/// What is shown of a failure.
pub fn error_notice(cause: &str) -> (notice: String)
    ensures
        notice@ == error_text(cause@),
{
    let mut notice = "Error: ".to_owned();
    notice.append(cause);
    notice
}

/// What is shown when a screenshot is kept.
pub open spec fn saved_text(name: Text) -> Text {
    "Saved "@ + name + "."@
}

/// What is shown when a screenshot is kept.
pub fn saved_notice(name: &str) -> (notice: String)
    ensures
        notice@ == saved_text(name@),
{
    let mut notice = "Saved ".to_owned();
    notice.append(name);
    notice.append(".");
    notice
}

/// What the emulator shows when a screenshot is not kept.
pub open spec fn not_saved_text(cause: Text) -> Text {
    "Couldn't take screenshot: "@ + cause + ")."@
}

/// What the emulator shows when a screenshot is not kept.
pub fn not_saved_notice(cause: &str) -> (notice: String)
    ensures
        notice@ == not_saved_text(cause@),
{
    let mut notice = "Couldn't take screenshot: ".to_owned();
    notice.append(cause);
    notice.append(").");
    notice
}

/// The text that `String::from_utf8_lossy` reads from bytes.
pub uninterp spec fn lossy_text(bytes: Seq<u8>) -> Seq<char>;

/// Calls `String::from_utf8_lossy`, which reads bytes that encode a text as
/// that text, and puts a mark in place of what encodes none. What other bytes
/// are read as is left unsaid, but for that it depends on them alone.
#[verifier::external_body]
pub(crate) fn read_lossy(bytes: &Vec<u8>) -> (text: String)
    ensures
        text@ == lossy_text(bytes@),
        valid_utf8(bytes@) ==> text@ == decode_utf8(bytes@),
{
    String::from_utf8_lossy(bytes).into_owned()
}

/// A character that leaves only space: the white space of Unicode.
pub open spec fn is_space(c: char) -> bool {
    let n = c as u32;
    9 <= n <= 13 || n == 0x20 || n == 0x85 || n == 0xa0 || n == 0x1680 || 0x2000 <= n <= 0x200a || n
        == 0x2028 || n == 0x2029 || n == 0x202f || n == 0x205f || n == 0x3000
}

/// The text without the space at its end.
pub open spec fn trimmed(text: Text) -> Text
    decreases text.len(),
{
    if text.len() > 0 && is_space(text.last()) {
        trimmed(text.drop_last())
    } else {
        text
    }
}

/// The text without the space at its end.
pub fn trim_end(text: &str) -> (rest: String)
    ensures
        rest@ == trimmed(text@),
{
    let mut n: usize = text.unicode_len();
    assert(text@.subrange(0, n as int) =~= text@);
    while n > 0
        invariant_except_break
            n <= text@.len(),
            trimmed(text@.subrange(0, n as int)) == trimmed(text@),
        ensures
            n <= text@.len(),
            text@.subrange(0, n as int) == trimmed(text@),
        decreases n,
    {
        let code: u32 = text.get_char(n - 1) as u32;
        let space = (9 <= code && code <= 13) || code == 0x20 || code == 0x85 || code == 0xa0
            || code == 0x1680 || (0x2000 <= code && code <= 0x200a) || code == 0x2028 || code
            == 0x2029 || code == 0x202f || code == 0x205f || code == 0x3000;
        assert(text@.subrange(0, n as int).drop_last() =~= text@.subrange(0, n - 1));
        if !space {
            break ;
        }
        n = n - 1;
    }
    text.substring_char(0, n).to_owned()
}

/// What a script prints, without the space at its end.
pub open spec fn script_text(stdout: Seq<u8>) -> Text {
    trimmed(lossy_text(stdout))
}

/// What a script prints, without the space at its end.
pub fn script_line(stdout: &Vec<u8>) -> (line: String)
    ensures
        line@ == trimmed(lossy_text(stdout@)),
        line@ == script_text(stdout@),
        valid_utf8(stdout@) ==> line@ == trimmed(decode_utf8(stdout@)),
{
    let text = read_lossy(stdout);
    trim_end(text.as_str())
}

/// What is shown when the network is up.
pub open spec fn network_text(ip: Text, essid: Text) -> Text {
    "Network is up ("@ + ip + ", "@ + essid + ")."@
}

/// What is shown when the network is up.
pub fn network_notice(ip: &str, essid: &str) -> (notice: String)
    ensures
        notice@ == network_text(ip@, essid@),
{
    let mut notice = "Network is up (".to_owned();
    notice.append(ip);
    notice.append(", ");
    notice.append(essid);
    notice.append(").");
    notice
}

/// What the dialog on the program says.
pub open spec fn about_text(version: Text) -> Text {
    "Plato "@ + version
}

/// What the dialog on the program says.
pub fn about_message(version: &str) -> (message: String)
    ensures
        message@ == about_text(version@),
{
    let mut message = "Plato ".to_owned();
    message.append(version);
    message
}

} // verus!
