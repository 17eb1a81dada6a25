//! The lists of works that are fetched and what their answers lead to.

use crate::text::{
    ends_with, error_notice, error_text, format_status, header_text, read_header, status_line, Text,
};
use crate::vocabulary::HistoryView;
use vstd::prelude::*;

verus! {

/// What a list of works is a list of.
#[derive(Debug, PartialEq, Eq)]
pub enum IndexType<T> {
    TagWorks,
    Search(T),
    History(HistoryView),
}

impl View for IndexType<String> {
    type V = IndexType<Text>;

    open spec fn view(&self) -> IndexType<Text> {
        match self {
            IndexType::TagWorks => IndexType::TagWorks,
            IndexType::Search(query) => IndexType::Search(query@),
            IndexType::History(part) => IndexType::History(*part),
        }
    }
}

/// A list of works and the link to it. What a user has read is fetched in the
/// user's name; everything else is fetched anonymously and without following
/// redirections.
#[derive(Debug, PartialEq, Eq)]
pub struct Index<T> {
    pub link: T,
    pub kind: IndexType<T>,
}

impl View for Index<String> {
    type V = Index<Text>;

    open spec fn view(&self) -> Index<Text> {
        Index { link: self.link@, kind: self.kind@ }
    }
}

/// What came back for a link: the words for why nothing did, or the status
/// and the bytes of the redirection's target.
#[derive(Debug, PartialEq, Eq)]
pub enum Response<T, B> {
    Failed(T),
    Answered { status: u16, location: Option<B> },
}

impl View for Response<String, Vec<u8>> {
    type V = Response<Text, Seq<u8>>;

    open spec fn view(&self) -> Response<Text, Seq<u8>> {
        match self {
            Response::Failed(cause) => Response::Failed(cause@),
            Response::Answered { status, location } => Response::Answered {
                status: *status,
                location: match location {
                    Some(bytes) => Some(bytes@),
                    None => None,
                },
            },
        }
    }
}

impl<T, B> Response<T, B> {
    /// A status has three digits.
    pub open spec fn valid(self) -> bool {
        self matches Response::Answered { status, .. } ==> 100 <= status < 1000
    }

    /// Whether the status, if there is one, has three digits.
    pub fn is_valid(&self) -> (valid: bool)
        ensures
            valid == self.valid(),
    {
        match self {
            Response::Answered { status, .. } => 100 <= *status && *status < 1000,
            Response::Failed(_) => true,
        }
    }
}

/// What an answer leads to.
#[derive(Debug, PartialEq, Eq)]
pub enum Verdict<T> {
    /// The list is opened.
    Open(Index<T>),
    /// A message is shown.
    Notify(T),
    /// The answer is passed over.
    Nothing,
}

impl View for Verdict<String> {
    type V = Verdict<Text>;

    open spec fn view(&self) -> Verdict<Text> {
        match self {
            Verdict::Open(index) => Verdict::Open(index@),
            Verdict::Notify(message) => Verdict::Notify(message@),
            Verdict::Nothing => Verdict::Nothing,
        }
    }
}

pub const STATUS_OK: u16 = 200;

pub const STATUS_MOVED_PERMANENTLY: u16 = 301;

pub const STATUS_FOUND: u16 = 302;

/// Where a redirection leads. A tag that stands for another is redirected to
/// the works of that other tag; one that stands for nothing yet names no
/// target.
pub open spec fn redirected(location: Option<Seq<u8>>) -> Verdict<Text> {
    match location {
        None => Verdict::Notify("Unwrangled tag! No works available."@),
        Some(bytes) => match header_text(bytes) {
            Some(target) if "/works"@.is_suffix_of(target) => Verdict::Open(
                Index { link: target, kind: IndexType::TagWorks },
            ),
            _ => Verdict::Nothing,
        },
    }
}

/// What the answer for a list of works leads to. Only anonymous requests are
/// redirected.
pub open spec fn verdict_on(index: Index<Text>, response: Response<Text, Seq<u8>>) -> Verdict<
    Text,
> {
    match response {
        Response::Failed(cause) => Verdict::Notify(error_text(cause)),
        Response::Answered { status, location } => if status == STATUS_OK {
            Verdict::Open(index)
        } else if (status == STATUS_FOUND || status == STATUS_MOVED_PERMANENTLY)
            && !(index.kind is History) {
            redirected(location)
        } else {
            Verdict::Notify(error_text(status_line(status)))
        },
    }
}

/// Where a redirection leads.
pub fn redirect(location: &Option<Vec<u8>>) -> (verdict: Verdict<String>)
    ensures
        verdict@ == redirected(
            match location {
                Some(bytes) => Some(bytes@),
                None => None,
            },
        ),
{
    match location {
        None => Verdict::Notify("Unwrangled tag! No works available.".to_owned()),
        Some(bytes) => match read_header(bytes) {
            Some(target) => if ends_with(target.as_str(), "/works") {
                Verdict::Open(Index { link: target, kind: IndexType::TagWorks })
            } else {
                Verdict::Nothing
            },
            None => Verdict::Nothing,
        },
    }
}

/// What the answer for a list of works leads to.
pub fn judge(index: Index<String>, response: &Response<String, Vec<u8>>) -> (verdict: Verdict<
    String,
>)
    requires
        response.valid(),
    ensures
        verdict@ == verdict_on(index@, response@),
{
    match response {
        Response::Failed(cause) => Verdict::Notify(error_notice(cause.as_str())),
        Response::Answered { status, location } => {
            let own = match &index.kind {
                IndexType::History(_) => true,
                _ => false,
            };
            if *status == STATUS_OK {
                Verdict::Open(index)
            } else if (*status == STATUS_FOUND || *status == STATUS_MOVED_PERMANENTLY) && !own {
                redirect(location)
            } else {
                let line = format_status(*status);
                Verdict::Notify(error_notice(line.as_str()))
            }
        },
    }
}

} // verus!
