//! Laws of the switches, the menus and the buttons: what each of them sets, and
//! what it leaves alone.

use crate::action::{Action, DialogId, Flow, HubEvent, Routine, Script, ViewEvent, Wait};
use crate::answer::{continued, Answer};
use crate::dispatch::{
    device_step, page_step, power_step, screen_step, step, Event, PageEvent, PowerEvent,
    ScreenEvent, StyleEvent,
};
use crate::laws::plans::group_plans;
use crate::navigation::{on_inversion, on_regions, on_turned};
use crate::power::on_network;
use crate::session::{settle, Facts, SessionView};
use crate::tasks::TaskId;
use crate::text::Text;
use crate::vocabulary::{
    ButtonCode, ButtonScheme, ButtonStatus, DeviceEvent, DiagDir, ExitStatus, FingerStatus,
    Orientation, Point, Region, Rotation, RotationLock, Settings, Style, TextAlign, UpdateMode,
    ViewId,
};
use vstd::prelude::*;

verus! {

broadcast use group_plans;

/// What happens to the device, to its power, to the views and to the screen is
/// decided each by itself.
pub proof fn each_event_has_its_part<V>(
    s: SessionView<V>,
    device: DeviceEvent,
    power: PowerEvent,
    page: PageEvent<Text>,
    screen: ScreenEvent<Text>,
    facts: Facts,
)
    ensures
        step(s, Event::Device(device), facts) == device_step(s, device, facts),
        step(s, Event::Power(power), facts) == power_step(s, power),
        step(s, Event::Page(page), facts) == page_step(s, page, facts),
        step(s, Event::Screen(screen), facts) == screen_step(s, screen, facts),
{
}

/// What the program does not know goes to the views, what it knows by name is
/// carried out, and the wish to restart or to quit is granted.
pub proof fn the_plain_events<V>(s: SessionView<V>, routine: Routine, facts: Facts)
    ensures
        step(s, Event::Other, facts) == settle(s, seq![Action::Delegate]),
        step(s, Event::Routine(routine), facts) == settle(s, seq![Action::Routine(routine)]),
        step(s, Event::Reboot, facts).flow == Flow::Exit::<Wait<Text>>(ExitStatus::Reboot),
        step(s, Event::Quit, facts).flow == Flow::Exit::<Wait<Text>>(ExitStatus::Quit),
        step(s, Event::Reboot, facts).next == s,
        step(s, Event::Quit, facts).next == s,
        step(s, Event::Reboot, facts).actions.len() == 0,
        step(s, Event::Quit, facts).actions.len() == 0,
{
}

/// What a list of works handles reaches one list at most: the current view, or
/// else the one at the bottom of the history.
pub proof fn works_are_told_once<V>(s: SessionView<V>, facts: Facts)
    ensures
        ({
            let decision = step(s, Event::Fetcher, facts);
            &&& decision.next == s
            &&& decision.flow == Flow::<Wait<Text>>::Settle
            &&& decision.actions.contains(Action::Delegate) <==> facts.works
            &&& decision.actions.contains(Action::BaseViewIt) <==> facts.base_works && !facts.works
            &&& decision.actions.len() == if facts.works || facts.base_works {
                1int
            } else {
                0
            }
        }),
{
}

/// Each part of the style is set by its own event to what that event says, and
/// the rest of the session stays as it is.
pub proof fn how_the_style_is_set<V>(
    s: SessionView<V>,
    family: Text,
    align: TextAlign,
    width: i32,
    facts: Facts,
)
    ensures
        ({
            let fonts = step(s, Event::Style(StyleEvent::FontFamily(family)), facts);
            let lines = step(s, Event::Style(StyleEvent::TextAlign(align)), facts);
            let margins = step(s, Event::Style(StyleEvent::MarginWidth(width)), facts);
            &&& fonts.next == (SessionView {
                style: Style { font_family: family, ..s.style },
                ..s
            })
            &&& lines.next == (SessionView { style: Style { text_align: align, ..s.style }, ..s })
            &&& margins.next == (SessionView {
                style: Style { margin_width: width, ..s.style },
                ..s
            })
            &&& fonts.actions.len() == 0 && lines.actions.len() == 0 && margins.actions.len() == 0
            &&& fonts.flow == Flow::<Wait<Text>>::Settle
            &&& lines.flow == Flow::<Wait<Text>>::Settle
            &&& margins.flow == Flow::<Wait<Text>>::Settle
        }),
{
}

/// A lock is what it was set to, whatever it was before and whatever it is set
/// to; taking it off is setting it to none.
pub proof fn how_the_rotation_is_locked<V>(
    s: SessionView<V>,
    lock: Option<RotationLock>,
    facts: Facts,
)
    ensures
        ({
            let decision = screen_step(s, ScreenEvent::SetRotationLock(lock), facts);
            &&& decision.next.settings.rotation_lock == lock
            &&& decision.next == (SessionView {
                settings: Settings { rotation_lock: lock, ..s.settings },
                ..s
            })
            &&& decision.actions.len() == 0
            &&& decision.flow == Flow::<Wait<Text>>::Settle
        }),
{
}

/// The gyroscope of a device that is awake and its own turns the screen exactly
/// where the lock that was set last lets it: without a lock always, so that a
/// lock can be taken off; with a lock on the rotation never; with a lock on an
/// orientation to that orientation.
pub proof fn a_lock_holds_until_the_next<V>(
    s: SessionView<V>,
    lock: Option<RotationLock>,
    n: i8,
    at_lock: Facts,
    facts: Facts,
)
    requires
        !s.shared,
        !s.tasks.contains(TaskId::PrepareSuspend),
        !s.tasks.contains(TaskId::Suspend),
    ensures
        ({
            let locked = screen_step(s, ScreenEvent::SetRotationLock(lock), at_lock).next;
            let decision = device_step(locked, DeviceEvent::RotateScreen(n), facts);
            let free = match lock {
                None => true,
                Some(RotationLock::Current) => false,
                Some(RotationLock::Portrait) => facts.orientation == Orientation::Portrait,
                Some(RotationLock::Landscape) => facts.orientation == Orientation::Landscape,
            };
            &&& decision.actions.contains(Action::Send(HubEvent::Rotate(n))) <==> free
            &&& decision.flow == if free {
                Flow::Settle
            } else {
                Flow::<Wait<Text>>::Skip
            }
            &&& decision.next == locked
        }),
{
    how_the_rotation_is_locked(s, lock, at_lock);
}

/// The gyroscope sends nothing but the rotation that it reports, which is
/// printed for the view that shows it, locked or not; it does nothing to a
/// device that is asleep or shared.
pub proof fn what_the_gyroscope_does<V>(s: SessionView<V>, n: i8, facts: Facts)
    ensures
        ({
            let decision = device_step(s, DeviceEvent::RotateScreen(n), facts);
            let deaf = s.shared || s.tasks.contains(TaskId::PrepareSuspend) || s.tasks.contains(
                TaskId::Suspend,
            );
            let print = Action::<Text>::PrintRotation(n);
            let send = Action::<Text>::Send(HubEvent::Rotate(n));
            &&& decision.next == s
            &&& decision.actions.contains(print) <==> facts.rotation_values && !deaf
            &&& deaf ==> decision.actions.len() == 0
            &&& decision.actions == seq![print, send] || decision.actions == seq![print]
                || decision.actions == seq![send] || decision.actions.len() == 0
        }),
{
    let decision = device_step(s, DeviceEvent::RotateScreen(n), facts);
    let print = Action::<Text>::PrintRotation(n);
    let send = Action::<Text>::Send(HubEvent::Rotate(n));
    assert(decision.actions =~= seq![print, send] || decision.actions =~= seq![print]
        || decision.actions =~= seq![send] || decision.actions.len() == 0);
}

/// A rotation from the menu turns the screen exactly where the screen does not
/// have it and the view can be rotated; otherwise the view handles it.
pub proof fn how_the_screen_is_turned<V>(s: SessionView<V>, n: i8, facts: Facts)
    ensures
        ({
            let decision = screen_step(s, ScreenEvent::Rotate(n), facts);
            let turns = n != s.display.rotation.index && facts.might_rotate;
            &&& decision.next == s
            &&& decision.actions == if turns {
                seq![Action::<Text>::WaitForUpdates]
            } else {
                seq![Action::Delegate]
            }
            &&& decision.flow == if turns {
                Flow::Await(
                    Wait::<Text>::Turn {
                        target: Rotation { index: n, orientation: facts.orientation },
                    },
                )
            } else {
                Flow::Settle
            }
        }),
{
}

/// A turn that took place is announced and known; the view is laid out anew
/// exactly where the screen has another size, and redrawn where it has not. A
/// turn that did not take place changes nothing.
pub proof fn what_a_turn_does<V>(
    s: SessionView<V>,
    target: Rotation,
    width: u32,
    height: u32,
    facts: Facts,
)
    ensures
        ({
            let wait = Wait::Turn { target };
            let done = continued(s, wait, Answer::Turned(Some((width, height))), facts);
            let failed = continued(s, wait, Answer::Turned(None), facts);
            let same = width == s.display.width && height == s.display.height;
            &&& done.next.display.rotation == target
            &&& done.next.display.width == width
            &&& done.next.display.height == height
            &&& done.next == (SessionView { display: done.next.display, ..s })
            &&& done.actions == seq![
                Action::<Text>::AnnounceRotation(target.index),
                if same {
                    Action::Refresh(UpdateMode::Full)
                } else {
                    Action::Resize { width, height }
                },
            ]
            &&& done.flow == Flow::<Wait<Text>>::Settle
            &&& failed.next == s
            &&& failed.actions.len() == 0
            &&& failed.flow == Flow::<Wait<Text>>::Settle
        }),
{
    let wait = Wait::Turn { target };
    let dims = Some((width, height));
    let done = continued(s, wait, Answer::<V, _, _>::Turned(dims), facts);
    assert(done == on_turned(s, target, dims));
    assert(continued(s, wait, Answer::<V, _, _>::Turned(None), facts) == on_turned(
        s,
        target,
        None,
    ));
    let same = width == s.display.width && height == s.display.height;
    assert(done.actions =~= seq![
        Action::<Text>::AnnounceRotation(target.index),
        if same {
            Action::Refresh(UpdateMode::Full)
        } else {
            Action::Resize { width, height }
        },
    ]);
}

/// Switching the front light over sets it to what it was not, in the settings
/// and on the device, and the view is told.
pub proof fn how_the_light_is_switched<V>(s: SessionView<V>, facts: Facts)
    ensures
        ({
            let decision = screen_step(s, ScreenEvent::ToggleFrontlight, facts);
            let on = decision.next.settings.frontlight;
            &&& on != s.settings.frontlight
            &&& decision.next == (SessionView {
                settings: Settings { frontlight: on, ..s.settings },
                ..s
            })
            &&& decision.actions == seq![
                Action::<Text>::SetFrontlight(on),
                Action::View(ViewEvent::ToggleFrontlight),
            ]
            &&& decision.flow == Flow::<Wait<Text>>::Settle
        }),
{
}

/// The sliders of the front light come with a light that is on: where it was off
/// it is switched on first, as a switch would.
#[verifier::rlimit(40)]
pub proof fn how_the_sliders_are_shown<V>(s: SessionView<V>, facts: Facts)
    ensures
        ({
            let decision = screen_step(s, ScreenEvent::ShowFrontlight, facts);
            let switch = screen_step(s, ScreenEvent::ToggleFrontlight, facts);
            let window = seq![Action::<Text>::FrontlightWindow];
            &&& decision.next.settings.frontlight
            &&& decision.next == if s.settings.frontlight {
                s
            } else {
                switch.next
            }
            &&& decision.actions == if s.settings.frontlight {
                window
            } else {
                switch.actions + window
            }
            &&& decision.flow == Flow::<Wait<Text>>::Settle
        }),
{
    let decision = screen_step(s, ScreenEvent::ShowFrontlight, facts);
    let switch = screen_step(s, ScreenEvent::ToggleFrontlight, facts);
    let window = seq![Action::<Text>::FrontlightWindow];
    if s.settings.frontlight {
        assert(decision.actions =~= window);
    } else {
        assert(decision.actions =~= switch.actions + window);
    }
}

/// The light button takes a screenshot where that is wanted, and sends for the
/// light where it is not. No other button but the released power button is
/// taken from the views.
pub proof fn what_the_buttons_do<V>(
    s: SessionView<V>,
    time: u32,
    code: ButtonCode,
    status: ButtonStatus,
    facts: Facts,
)
    ensures
        ({
            let decision = device_step(s, DeviceEvent::Button { time, code, status }, facts);
            let light = code == ButtonCode::Light && status == ButtonStatus::Pressed;
            let power = code == ButtonCode::Power && status == ButtonStatus::Released;
            &&& light ==> decision.next == s
            &&& light && s.settings.screenshot_button ==> decision.actions.len() == 0
                && decision.flow == Flow::Await(Wait::<Text>::Stamp)
            &&& light && !s.settings.screenshot_button ==> decision == settle(
                s,
                seq![Action::Send(HubEvent::ToggleFrontlight)],
            )
            &&& !light && !power ==> decision == settle(s, seq![Action::Delegate])
        }),
{
}

/// A finger is left to the views.
pub proof fn what_a_finger_does<V>(
    s: SessionView<V>,
    id: i32,
    status: FingerStatus,
    position: Point,
    time: u32,
    facts: Facts,
)
    ensures
        device_step(s, DeviceEvent::Finger { id, status, position, time }, facts) == settle(
            s,
            seq![Action::Delegate],
        ),
{
}

/// The settings say which button turns which way as they were told, and the
/// reader of raw input is told the same.
pub proof fn how_the_buttons_are_set<V>(s: SessionView<V>, scheme: ButtonScheme, facts: Facts)
    ensures
        ({
            let decision = screen_step(s, ScreenEvent::SetButtonScheme(scheme), facts);
            &&& decision.next == (SessionView {
                settings: Settings { button_scheme: scheme, ..s.settings },
                ..s
            })
            &&& decision.actions.len() == 1
            &&& decision.actions.contains(Action::AnnounceButtons { inverted: true }) <==> scheme
                == ButtonScheme::Inverted
            &&& decision.actions.contains(Action::AnnounceButtons { inverted: false }) <==> scheme
                == ButtonScheme::Natural
            &&& decision.flow == Flow::<Wait<Text>>::Settle
        }),
{
}

/// The screen is inverted first; then the settings take over whether it is, and
/// it is redrawn.
pub proof fn how_the_screen_is_inverted<V>(s: SessionView<V>, inverted: bool, facts: Facts)
    ensures
        ({
            let asked = screen_step(s, ScreenEvent::ToggleInverted, facts);
            let known = continued(s, Wait::Inversion, Answer::Inverted(inverted), facts);
            &&& asked.next == s
            &&& asked.actions == seq![Action::<Text>::ToggleInverted]
            &&& asked.flow == Flow::Await(Wait::<Text>::Inversion)
            &&& known.next.settings.inverted == inverted
            &&& known.next == (SessionView {
                settings: Settings { inverted, ..s.settings },
                ..s
            })
            &&& known.actions == seq![Action::<Text>::Refresh(UpdateMode::Full)]
            &&& known.flow == Flow::<Wait<Text>>::Settle
        }),
{
    assert(continued(s, Wait::Inversion, Answer::<V, _, _>::Inverted(inverted), facts)
        == on_inversion(s, inverted));
}

/// Dithering is switched over before the screen is redrawn.
pub proof fn how_the_screen_is_dithered<V>(s: SessionView<V>, facts: Facts)
    ensures
        ({
            let decision = screen_step(s, ScreenEvent::ToggleDithered, facts);
            &&& decision.next == s
            &&& decision.actions.len() == 2
            &&& decision.actions[0] == Action::<Text>::ToggleDithered
            &&& decision.actions[1] == Action::<Text>::Refresh(UpdateMode::Full)
            &&& decision.flow == Flow::<Wait<Text>>::Settle
        }),
{
}

/// The network is what it was set to; a script runs exactly where it was not so
/// before, the one that makes it so, and the device is off the network exactly
/// where that goes.
pub proof fn how_the_network_is_switched<V>(s: SessionView<V>, enable: bool)
    ensures
        ({
            let decision = power_step(s, PowerEvent::SetWifi(enable));
            let toggle = power_step(s, PowerEvent::ToggleWifi);
            let actions = decision.actions;
            let was = s.settings.wifi;
            &&& decision.next == (SessionView {
                settings: Settings { wifi: enable, ..s.settings },
                ..s
            })
            &&& actions.contains(Action::Run(Script::WifiEnable)) <==> enable && !was
            &&& actions.contains(Action::Run(Script::WifiDisable)) <==> !enable && was
            &&& actions.contains(Action::SetOnline(false)) <==> !enable && was
            &&& actions.len() == if enable == was {
                0int
            } else if enable {
                1
            } else {
                2
            }
            &&& !enable && was ==> actions[0] == Action::<Text>::Run(Script::WifiDisable)
            &&& decision.flow == Flow::<Wait<Text>>::Settle
            &&& toggle == power_step(s, PowerEvent::SetWifi(!was))
            &&& toggle.next.settings.wifi != was
        }),
{
}

/// The network is looked at when it comes up, while the device is awake. What is
/// found is shown, the device is on the network, and one list of works is told
/// at most.
pub proof fn how_the_network_comes_up<V>(s: SessionView<V>, ip: Text, essid: Text, facts: Facts)
    ensures
        ({
            let up = device_step(s, DeviceEvent::NetUp, facts);
            let known = continued(s, Wait::Network, Answer::Network { ip, essid }, facts);
            let asleep = s.tasks.contains(TaskId::PrepareSuspend) || s.tasks.contains(
                TaskId::Suspend,
            );
            let notice = "Network is up ("@ + ip + ", "@ + essid + ")."@;
            &&& up.next == s
            &&& up.actions.len() == 0
            &&& up.flow == if asleep {
                Flow::Skip
            } else {
                Flow::Await(Wait::<Text>::Network)
            }
            &&& known.next == s
            &&& known.actions[0] == Action::Notify(notice)
            &&& known.actions[1] == Action::<Text>::SetOnline(true)
            &&& known.actions.contains(Action::ViewIt) <==> facts.works
            &&& known.actions.contains(Action::BaseViewIt) <==> facts.base_works && !facts.works
            &&& known.actions.len() == if facts.works || facts.base_works {
                3int
            } else {
                2
            }
            &&& known.flow == Flow::<Wait<Text>>::Settle
        }),
{
    let known = continued(s, Wait::Network, Answer::<V, _, _>::Network { ip, essid }, facts);
    assert(known == on_network(s, ip, essid, facts));
}

/// Two taps at once are told apart by where they are: the left one comes first,
/// and the one that was reported first where they lie above each other.
pub proof fn how_two_taps_are_read<V>(s: SessionView<V>, a: Point, b: Point, facts: Facts)
    ensures
        ({
            let decision = screen_step(s, ScreenEvent::MultiTap(a, b), facts);
            &&& decision.next == s
            &&& decision.actions.len() == 0
            &&& decision.flow matches Flow::Await(Wait::Regions { left, right })
            &&& left.x <= right.x
            &&& (left == a && right == b) || (left == b && right == a)
            &&& a.x <= b.x ==> left == a
        }),
{
}

/// Taps in the lower left and the upper right corner redraw the screen, taps in
/// the upper left and the lower right corner send for a screenshot, and any
/// others do nothing.
pub proof fn what_two_taps_do<V>(
    s: SessionView<V>,
    a: Point,
    b: Point,
    left: Region,
    right: Region,
    facts: Facts,
)
    ensures
        ({
            let wait = Wait::Regions { left: a, right: b };
            let decision = continued(s, wait, Answer::Regions(left, right), facts);
            let rising = left == Region::Corner(DiagDir::SouthWest) && right == Region::Corner(
                DiagDir::NorthEast,
            );
            let falling = left == Region::Corner(DiagDir::NorthWest) && right == Region::Corner(
                DiagDir::SouthEast,
            );
            &&& decision.next == s
            &&& decision.actions.contains(Action::Refresh(UpdateMode::Full)) <==> rising
            &&& decision.actions.contains(Action::Send(HubEvent::TakeScreenshot)) <==> falling
            &&& decision.actions.len() == if rising || falling {
                1int
            } else {
                0
            }
            &&& decision.flow == Flow::<Wait<Text>>::Settle
        }),
{
    let wait = Wait::Regions { left: a, right: b };
    assert(continued(s, wait, Answer::<V, _, _>::Regions(left, right), facts) == on_regions(
        s,
        left,
        right,
    ));
}

/// The menu for a preset goes where it is there, and is put up where it is not.
pub proof fn what_the_preset_menu_does<V>(s: SessionView<V>, index: usize, facts: Facts)
    ensures
        screen_step(s, ScreenEvent::TogglePresetMenu { menu: Some(index) }, facts) == settle(
            s,
            seq![Action::RemoveChild { index, mode: UpdateMode::Gui }],
        ),
        screen_step(s, ScreenEvent::TogglePresetMenu { menu: None }, facts) == settle(
            s,
            seq![Action::PresetMenu],
        ),
{
}

/// Closing takes away the child that is meant, and no other: the window of the
/// front light by its type, any other child by its name, and none where it is
/// not there.
pub proof fn what_is_closed<V>(
    s: SessionView<V>,
    id: ViewId,
    window: Option<usize>,
    child: Option<usize>,
    index: usize,
    facts: Facts,
)
    ensures
        ({
            let decision = screen_step(s, ScreenEvent::Close { id, window, child }, facts);
            &&& decision.next == s
            &&& decision.flow == Flow::<Wait<Text>>::Settle
            &&& decision.actions.contains(
                Action::RemoveChild { index, mode: UpdateMode::Gui },
            ) <==> id == ViewId::Frontlight && window == Some(index)
            &&& decision.actions.contains(Action::CloseChild { index }) <==> id == ViewId::Other
                && child == Some(index)
            &&& decision.actions.len() <= 1
            &&& decision.actions.len() == 0 <==> (if id == ViewId::Frontlight {
                window
            } else {
                child
            }) is None
        }),
{
}

/// A message is shown as it is, and the dialog on the program names its version.
pub proof fn what_is_said<V>(s: SessionView<V>, text: Text, facts: Facts)
    ensures
        screen_step(s, ScreenEvent::Notify(text), facts) == settle(s, seq![Action::Notify(text)]),
        screen_step(s, ScreenEvent::About(text), facts) == settle(
            s,
            seq![Action::Dialog { id: DialogId::About, text: "Plato "@ + text }],
        ),
{
}

/// What is not about a switch leaves the settings and the style alone: no event
/// of the device and no wish for a view changes them, and of the power only the
/// network's switch.
#[verifier::rlimit(40)]
pub proof fn only_switches_change_the_settings<V>(
    s: SessionView<V>,
    device: DeviceEvent,
    page: PageEvent<Text>,
    power: PowerEvent,
    facts: Facts,
)
    ensures
        device_step(s, device, facts).next.settings == s.settings,
        device_step(s, device, facts).next.style == s.style,
        page_step(s, page, facts).next.settings == s.settings,
        page_step(s, page, facts).next.style == s.style,
        !(power is SetWifi) && !(power is ToggleWifi) ==> power_step(s, power).next.settings
            == s.settings,
        power_step(s, power).next.style == s.style,
{
}

} // verus!
