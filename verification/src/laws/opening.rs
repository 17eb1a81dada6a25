//! Laws of opening views and of the way back: what is noted of the screen, and
//! what is made of the note.

use crate::action::{Action, Flow, Kept, Page, ViewEvent, Wait};
use crate::answer::{continued, Answer};
use crate::dispatch::{page_step, PageEvent};
use crate::laws::plans::{group_plans, precedes};
use crate::laws::sharing::one_shorter;
use crate::navigation::{
    on_back_turned, on_file_missing, on_open_reverted, on_open_turned, opened, ReaderInfo,
};
use crate::session::{settle, Facts, SessionView};
use crate::text::Text;
use crate::vocabulary::{ExitStatus, Rotation};
use vstd::prelude::*;

verus! {

broadcast use group_plans;

/// A file is dithered as it was when it was read last, or else as files of its
/// kind are. The screen is turned for it exactly where it was read in another
/// orientation, and is dithered when that is done; how it was rotated and
/// dithered before is noted either way.
pub proof fn how_a_file_is_opened<V>(
    s: SessionView<V>,
    reader: Option<ReaderInfo>,
    dithered_kind: bool,
    facts: Facts,
)
    ensures
        ({
            let decision = page_step(s, PageEvent::Open { reader, dithered_kind }, facts);
            let wanted = if reader is Some {
                reader->0.dithered
            } else {
                dithered_kind
            };
            let turns = reader is Some && reader->0.rotation is Some && facts.orientation
                != s.display.rotation.orientation;
            &&& decision.next == s
            &&& decision.actions == if turns {
                seq![Action::<Text>::WaitForUpdates]
            } else {
                seq![Action::SetDithered(wanted)]
            }
            &&& turns ==> {
                &&& decision.flow matches Flow::Await(Wait::OpenTurn {
                    target,
                    dithered,
                    rotation,
                    was_dithered,
                })
                &&& Some(target.index) == reader->0.rotation
                &&& target.orientation == facts.orientation
                &&& dithered == wanted
                &&& rotation == s.display.rotation
                &&& was_dithered == facts.dithered
            }
            &&& !turns ==> {
                &&& decision.flow matches Flow::Await(Wait::Build {
                    page: Page::File { rotation, dithered },
                    kept,
                })
                &&& rotation == s.display.rotation
                &&& dithered == facts.dithered
                &&& kept.rotation == Some(rotation)
                &&& kept.monochrome is None
                &&& kept.dithered == Some(dithered)
            }
        }),
{
}

/// The screen has turned for a file, or has not: what took place is announced
/// and known, the screen is dithered as the file wants it, and the view is made
/// with what was noted before the turn.
pub proof fn how_a_turned_file_is_opened<V>(
    s: SessionView<V>,
    target: Rotation,
    dithered: bool,
    rotation: Rotation,
    was_dithered: bool,
    dims: Option<(u32, u32)>,
    facts: Facts,
)
    ensures
        ({
            let wait = Wait::OpenTurn { target, dithered, rotation, was_dithered };
            let decision = continued(s, wait, Answer::Turned(dims), facts);
            &&& decision.actions == match dims {
                Some(_) => seq![
                    Action::<Text>::AnnounceRotation(target.index),
                    Action::SetDithered(dithered),
                ],
                None => seq![Action::SetDithered(dithered)],
            }
            &&& decision.next == (SessionView { display: decision.next.display, ..s })
            &&& dims matches Some((width, height)) ==> decision.next.display.rotation == target
                && decision.next.display.width == width && decision.next.display.height == height
            &&& dims is None ==> decision.next.display == s.display
            &&& decision.flow matches Flow::Await(Wait::Build {
                page: Page::File { rotation: before, dithered: was },
                kept,
            })
            &&& before == rotation
            &&& was == was_dithered
            &&& kept.rotation == Some(rotation)
            &&& kept.monochrome is None
            &&& kept.dithered == Some(was_dithered)
        }),
{
    let wait = Wait::OpenTurn { target, dithered, rotation, was_dithered };
    let decision = continued(s, wait, Answer::Turned(dims), facts);
    assert(decision == on_open_turned(s, target, dithered, rotation, was_dithered, dims));
    assert(decision.actions =~= match dims {
        Some(_) => seq![
            Action::<Text>::AnnounceRotation(target.index),
            Action::SetDithered(dithered),
        ],
        None => seq![Action::SetDithered(dithered)],
    });
}

/// A file for which there is no view leaves the screen as it was: it is turned
/// back first if it was turned, dithered as it was, and then the views are told.
pub proof fn how_a_file_is_given_up<V>(
    s: SessionView<V>,
    rotation: Rotation,
    dithered: bool,
    kept: Kept,
    dims: Option<(u32, u32)>,
    facts: Facts,
)
    ensures
        ({
            let wait = Wait::Build { page: Page::File { rotation, dithered }, kept };
            let decision = continued(s, wait, Answer::View(None), facts);
            let revert = Wait::OpenRevert { target: rotation, dithered };
            let reverted = continued(s, revert, Answer::Turned(dims), facts);
            let ending = seq![Action::<Text>::SetDithered(dithered), Action::ReportInvalid];
            &&& decision.next == s
            &&& if rotation.index == s.display.rotation.index {
                decision.actions == ending && decision.flow == Flow::<Wait<Text>>::Settle
            } else {
                decision.actions.len() == 0 && decision.flow == Flow::Await(revert)
            }
            &&& reverted.flow == Flow::<Wait<Text>>::Settle
            &&& reverted.next == (SessionView { display: reverted.next.display, ..s })
            &&& match dims {
                Some((width, height)) => {
                    &&& reverted.next.display.rotation == rotation
                    &&& reverted.next.display.width == width
                    &&& reverted.next.display.height == height
                    &&& reverted.actions == seq![Action::AnnounceRotation(rotation.index)] + ending
                },
                None => reverted.next.display == s.display && reverted.actions == ending,
            }
        }),
{
    let wait = Wait::Build { page: Page::File { rotation, dithered }, kept };
    let revert = Wait::OpenRevert { target: rotation, dithered };
    let ending = seq![Action::<Text>::SetDithered(dithered), Action::ReportInvalid];
    let reverted = continued(s, revert, Answer::<V, _, _>::Turned(dims), facts);
    assert(continued(s, wait, Answer::View(None), facts) == on_file_missing(s, rotation, dithered));
    assert(reverted == on_open_reverted(s, rotation, dithered, dims));
    if dims is None {
        assert(reverted.actions =~= ending);
    }
}

/// A view that was made takes the place of the current one, which goes on top of
/// the history with the screen as it was: what was noted before, and else what
/// is seen now.
pub proof fn what_a_new_view_notes<V>(
    s: SessionView<V>,
    page: Page<Text>,
    kept: Kept,
    next: V,
    facts: Facts,
)
    ensures
        ({
            let wait = Wait::Build { page, kept };
            let decision = continued(s, wait, Answer::View(Some(next)), facts);
            let item = decision.next.history.last();
            &&& decision.next.view == next
            &&& one_shorter(decision.next.history, s.history)
            &&& item.view == s.view
            &&& item.rotation == if kept.rotation is Some {
                kept.rotation->0
            } else {
                s.display.rotation
            }
            &&& item.monochrome == if kept.monochrome is Some {
                kept.monochrome->0
            } else {
                facts.monochrome
            }
            &&& item.dithered == if kept.dithered is Some {
                kept.dithered->0
            } else {
                facts.dithered
            }
            &&& decision.next == (SessionView {
                view: next,
                history: decision.next.history,
                ..s
            })
            &&& decision.actions.len() == 0
            &&& decision.leaving.len() == 0
            &&& decision.flow == Flow::<Wait<Text>>::Settle
        }),
{
    let wait = Wait::Build { page, kept };
    assert(continued(s, wait, Answer::View(Some(next)), facts) == settle(
        opened(s, next, kept, facts),
        seq![],
    ));
}

/// A page, the page on the system and an application are made after the menus
/// are gone, a work at once. Of the screen, how it was rotated and dithered is
/// noted before a work is made, whether it was monochrome before an application
/// is, and the rest when the view is there.
pub proof fn how_pages_are_opened<V>(s: SessionView<V>, id: Text, facts: Facts)
    ensures
        ({
            let none = Kept { rotation: None, monochrome: None, dithered: None };
            let html = page_step(s, PageEvent::OpenHtml, facts);
            let system = page_step(s, PageEvent::SystemInfo, facts);
            let launch = page_step(s, PageEvent::Launch, facts);
            let work = page_step(s, PageEvent::OpenWork(id), facts);
            let menus = seq![Action::<Text>::CloseMenus];
            &&& html.next == s && system.next == s && launch.next == s && work.next == s
            &&& html.actions == menus && system.actions == menus && launch.actions == menus
            &&& work.actions.len() == 0
            &&& html.flow == Flow::Await(Wait::<Text>::Build { page: Page::Html, kept: none })
            &&& system.flow == Flow::Await(
                Wait::<Text>::Build { page: Page::SystemInfo, kept: none },
            )
            &&& launch.flow == Flow::Await(
                Wait::<Text>::Build {
                    page: Page::Application,
                    kept: Kept { monochrome: Some(facts.monochrome), ..none },
                },
            )
            &&& work.flow matches Flow::Await(Wait::Build { page: Page::Work(link), kept })
            &&& link == "https://archiveofourown.org/works/"@ + id
                + "?view_full_work=true&view_adult=true"@
            &&& kept == (Kept {
                rotation: Some(s.display.rotation),
                monochrome: None,
                dithered: Some(facts.dithered),
            })
        }),
{
}

/// The way back leads to the view on top of the history, and off it; the screen
/// is told to be as it was under that view exactly where it is not; and it is
/// turned exactly where it has another orientation.
pub proof fn what_the_way_back_does<V>(s: SessionView<V>, facts: Facts)
    requires
        s.history.len() > 0,
    ensures
        ({
            let decision = page_step(s, PageEvent::Back, facts);
            let item = s.history.last();
            let turns = item.rotation.orientation != s.display.rotation.orientation;
            let actions = decision.actions;
            &&& decision.next.view == item.view
            &&& one_shorter(s.history, decision.next.history)
            &&& decision.next == (SessionView {
                view: item.view,
                history: decision.next.history,
                ..s
            })
            &&& forall|on: bool| #[trigger]
                actions.contains(Action::SetMonochrome(on)) <==> on == item.monochrome && on
                    != facts.monochrome
            &&& forall|on: bool| #[trigger]
                actions.contains(Action::SetDithered(on)) <==> on == item.dithered && on
                    != facts.dithered
            &&& precedes(
                actions,
                Action::SetMonochrome(item.monochrome),
                Action::SetDithered(item.dithered),
            )
            &&& actions.last() == if turns {
                Action::<Text>::WaitForUpdates
            } else {
                Action::View(ViewEvent::Reseed)
            }
            &&& actions.len() == 1 + (if item.monochrome != facts.monochrome {
                1int
            } else {
                0
            }) + (if item.dithered != facts.dithered {
                1int
            } else {
                0
            })
            &&& decision.flow == if turns {
                Flow::Await(Wait::<Text>::BackTurn { target: item.rotation })
            } else {
                Flow::Settle
            }
        }),
{
}

/// When the screen has turned for the view that came back, or has not, the view
/// shows itself anew.
pub proof fn what_the_way_back_does_turned<V>(
    s: SessionView<V>,
    target: Rotation,
    dims: Option<(u32, u32)>,
    facts: Facts,
)
    ensures
        ({
            let wait = Wait::BackTurn { target };
            let decision = continued(s, wait, Answer::Turned(dims), facts);
            let shown = Action::<Text>::View(ViewEvent::Reseed);
            &&& decision.flow == Flow::<Wait<Text>>::Settle
            &&& decision.next == (SessionView { display: decision.next.display, ..s })
            &&& match dims {
                Some((width, height)) => {
                    &&& decision.next.display.rotation == target
                    &&& decision.next.display.width == width
                    &&& decision.next.display.height == height
                    &&& decision.actions == seq![Action::AnnounceRotation(target.index), shown]
                },
                None => decision.next.display == s.display && decision.actions == seq![shown],
            }
        }),
{
    let wait = Wait::BackTurn { target };
    let decision = continued(s, wait, Answer::<V, _, _>::Turned(dims), facts);
    assert(decision == on_back_turned(s, target, dims));
    let shown = Action::<Text>::View(ViewEvent::Reseed);
    if dims is None {
        assert(decision.actions =~= seq![shown]);
    } else {
        assert(decision.actions =~= seq![Action::AnnounceRotation(target.index), shown]);
    }
}

/// Where there is no view to go back to, the way back leads out of the program,
/// but for a list of works, which stays.
pub proof fn where_the_way_back_ends<V>(s: SessionView<V>, facts: Facts)
    requires
        s.history.len() == 0,
    ensures
        ({
            let decision = page_step(s, PageEvent::Back, facts);
            &&& decision.next == s
            &&& decision.actions.len() == 0
            &&& decision.flow == if facts.works {
                Flow::Settle
            } else {
                Flow::Exit::<Wait<Text>>(ExitStatus::Quit)
            }
        }),
{
}

/// Opening a view and going back at once changes nothing on the screen: with
/// nothing noted before, what is noted is the screen as it is, and the way back
/// finds it so. The view is only shown anew.
pub proof fn back_at_once_leaves_the_screen_alone<V>(
    s: SessionView<V>,
    page: Page<Text>,
    next: V,
    facts: Facts,
)
    ensures
        ({
            let kept = Kept { rotation: None, monochrome: None, dithered: None };
            let made = continued(s, Wait::Build { page, kept }, Answer::View(Some(next)), facts);
            let item = made.next.history.last();
            let back = page_step(made.next, PageEvent::Back, facts);
            &&& item.rotation == s.display.rotation
            &&& item.monochrome == facts.monochrome
            &&& item.dithered == facts.dithered
            &&& back.actions == seq![Action::<Text>::View(ViewEvent::Reseed)]
            &&& back.flow == Flow::<Wait<Text>>::Settle
            &&& back.next == s
        }),
{
    let kept = Kept { rotation: None, monochrome: None, dithered: None };
    let made = continued(s, Wait::Build { page, kept }, Answer::View(Some(next)), facts);
    what_a_new_view_notes(s, page, kept, next, facts);
    what_the_way_back_does(made.next, facts);
    let back = page_step(made.next, PageEvent::Back, facts);
    assert(back.actions =~= seq![Action::<Text>::View(ViewEvent::Reseed)]);
    assert(back.next.history =~= s.history);
}

/// Whatever a view did to the colors of the screen since, the way back asks for
/// those that the screen had when the view was opened, and asks for no other.
pub proof fn back_asks_for_the_colors_from_before<V>(
    s: SessionView<V>,
    page: Page<Text>,
    next: V,
    facts: Facts,
    later: Facts,
    on: bool,
)
    ensures
        ({
            let kept = Kept { rotation: None, monochrome: None, dithered: None };
            let made = continued(s, Wait::Build { page, kept }, Answer::View(Some(next)), facts);
            let back = page_step(made.next, PageEvent::Back, later);
            &&& back.actions.contains(Action::SetDithered(on)) <==> on == facts.dithered && on
                != later.dithered
            &&& back.actions.contains(Action::SetMonochrome(on)) <==> on == facts.monochrome && on
                != later.monochrome
        }),
{
    let kept = Kept { rotation: None, monochrome: None, dithered: None };
    let made = continued(s, Wait::Build { page, kept }, Answer::View(Some(next)), facts);
    what_a_new_view_notes(s, page, kept, next, facts);
    what_the_way_back_does(made.next, later);
}

/// A file that is read is left again with the screen as it was before it was
/// opened: dithered as it was, and in the rotation that it had.
pub proof fn a_file_is_left_as_it_was_found<V>(
    s: SessionView<V>,
    reader: Option<ReaderInfo>,
    dithered_kind: bool,
    at_open: Facts,
    next: V,
    at_build: Facts,
    at_back: Facts,
    on: bool,
)
    requires
        reader matches Some(info) ==> info.rotation is None || at_open.orientation
            == s.display.rotation.orientation,
    ensures
        ({
            let ask = page_step(s, PageEvent::Open { reader, dithered_kind }, at_open);
            &&& ask.flow matches Flow::Await(wait)
            &&& {
                let made = continued(ask.next, wait, Answer::View(Some(next)), at_build);
                let back = page_step(made.next, PageEvent::Back, at_back);
                &&& made.next.history.last().rotation == s.display.rotation
                &&& made.next.history.last().dithered == at_open.dithered
                &&& back.actions.contains(Action::SetDithered(on)) <==> on == at_open.dithered
                    && on != at_back.dithered
                &&& back.next.view == s.view
            }
        }),
{
    how_a_file_is_opened(s, reader, dithered_kind, at_open);
    let ask = page_step(s, PageEvent::Open { reader, dithered_kind }, at_open);
    if let Flow::Await(Wait::Build { page, kept }) = ask.flow {
        what_a_new_view_notes(ask.next, page, kept, next, at_build);
        let made = continued(
            ask.next,
            Wait::Build { page, kept },
            Answer::View(Some(next)),
            at_build,
        );
        what_the_way_back_does(made.next, at_back);
    }
}

} // verus!
