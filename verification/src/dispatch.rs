//! The decision on an event, whatever the event is.

use crate::action::{Action, DialogId, Kept, Page, Routine, Wait};
use crate::navigation::{
    close_plan, delegated, keep_nothing, light_plan, lit, nothing_kept, on_back, on_fetcher,
    on_load_history, on_multi_tap, on_open, on_open_page, on_prepare_share, on_rotate,
    on_rotate_screen, preset_menu_plan, reader_kept, restyled, show_frontlight_plan, ReaderInfo,
};
use crate::pages::{Index, IndexType};
use crate::power::{
    on_check_battery, on_cover_off, on_cover_on, on_light_button, on_might_suspend, on_net_up,
    on_plug, on_power_button, on_prepare_suspend, on_share, on_suspend, on_unplug, powered_off,
    wifi_plan, wifi_set,
};
use crate::session::{ask, exit, settle, stepped, Facts, Outcome, Session, SessionView, Step};
use crate::text::{about_message, about_text, search_link, work_link, Text};
use crate::vocabulary::{
    ButtonCode, ButtonScheme, ButtonStatus, DeviceEvent, ExitStatus, HistoryView, Point,
    RotationLock, Settings, Style, TextAlign, UpdateMode, ViewId,
};
use vstd::prelude::*;

verus! {

/// The power of the device, its network and its storage.
#[derive(Clone, Copy, Debug, PartialEq, Eq, Structural)]
pub enum PowerEvent {
    CheckBattery,
    PrepareSuspend,
    Suspend,
    MightSuspend,
    /// The power button is held.
    HoldPower,
    PrepareShare,
    Share,
    SetWifi(bool),
    ToggleWifi,
}

/// The view that is wanted.
#[derive(Debug, PartialEq, Eq)]
pub enum PageEvent<T> {
    /// A file: what its last reading says of the screen, and whether files of
    /// its kind are dithered.
    Open { reader: Option<ReaderInfo>, dithered_kind: bool },
    OpenWork(T),
    OpenHtml,
    LoadIndex(T),
    LoadSearch(T),
    LoadHistory { part: HistoryView, username: Option<T> },
    SystemInfo,
    Launch,
    Back,
}

/// What lies over the current view, and how the screen shows it.
#[derive(Debug, PartialEq, Eq)]
pub enum ScreenEvent<T> {
    /// Two taps at once.
    MultiTap(Point, Point),
    ToggleFrontlight,
    ShowFrontlight,
    /// The menu for a preset, and the child that is it.
    TogglePresetMenu { menu: Option<usize> },
    /// A child of the current view is to be closed: the window of the front
    /// light, and the child of that name.
    Close { id: ViewId, window: Option<usize>, child: Option<usize> },
    ToggleInverted,
    ToggleDithered,
    Rotate(i8),
    SetRotationLock(Option<RotationLock>),
    SetButtonScheme(ButtonScheme),
    TakeScreenshot,
    /// The dialog on the program, with its version.
    About(T),
    Notify(T),
}

/// How the pages of a reader are to be set.
#[derive(Debug, PartialEq, Eq)]
pub enum StyleEvent<T> {
    FontFamily(T),
    TextAlign(TextAlign),
    MarginWidth(i32),
}

/// What the program's loop takes off the queue, as far as the decision reads
/// it.
#[derive(Debug, PartialEq, Eq)]
pub enum Event<T> {
    Device(DeviceEvent),
    Power(PowerEvent),
    Page(PageEvent<T>),
    Screen(ScreenEvent<T>),
    Style(StyleEvent<T>),
    /// Something that a list of works handles.
    Fetcher,
    Routine(Routine),
    Reboot,
    Quit,
    /// Everything else.
    Other,
}

impl View for PageEvent<String> {
    type V = PageEvent<Text>;

    open spec fn view(&self) -> PageEvent<Text> {
        match *self {
            PageEvent::Open { reader, dithered_kind } => PageEvent::Open { reader, dithered_kind },
            PageEvent::OpenWork(id) => PageEvent::OpenWork(id@),
            PageEvent::OpenHtml => PageEvent::OpenHtml,
            PageEvent::LoadIndex(link) => PageEvent::LoadIndex(link@),
            PageEvent::LoadSearch(query) => PageEvent::LoadSearch(query@),
            PageEvent::LoadHistory { part, username } => PageEvent::LoadHistory {
                part,
                username: match username {
                    Some(name) => Some(name@),
                    None => None,
                },
            },
            PageEvent::SystemInfo => PageEvent::SystemInfo,
            PageEvent::Launch => PageEvent::Launch,
            PageEvent::Back => PageEvent::Back,
        }
    }
}

impl View for ScreenEvent<String> {
    type V = ScreenEvent<Text>;

    open spec fn view(&self) -> ScreenEvent<Text> {
        match *self {
            ScreenEvent::MultiTap(first, second) => ScreenEvent::MultiTap(first, second),
            ScreenEvent::ToggleFrontlight => ScreenEvent::ToggleFrontlight,
            ScreenEvent::ShowFrontlight => ScreenEvent::ShowFrontlight,
            ScreenEvent::TogglePresetMenu { menu } => ScreenEvent::TogglePresetMenu { menu },
            ScreenEvent::Close { id, window, child } => ScreenEvent::Close { id, window, child },
            ScreenEvent::ToggleInverted => ScreenEvent::ToggleInverted,
            ScreenEvent::ToggleDithered => ScreenEvent::ToggleDithered,
            ScreenEvent::Rotate(n) => ScreenEvent::Rotate(n),
            ScreenEvent::SetRotationLock(lock) => ScreenEvent::SetRotationLock(lock),
            ScreenEvent::SetButtonScheme(scheme) => ScreenEvent::SetButtonScheme(scheme),
            ScreenEvent::TakeScreenshot => ScreenEvent::TakeScreenshot,
            ScreenEvent::About(version) => ScreenEvent::About(version@),
            ScreenEvent::Notify(message) => ScreenEvent::Notify(message@),
        }
    }
}

impl View for StyleEvent<String> {
    type V = StyleEvent<Text>;

    open spec fn view(&self) -> StyleEvent<Text> {
        match *self {
            StyleEvent::FontFamily(family) => StyleEvent::FontFamily(family@),
            StyleEvent::TextAlign(align) => StyleEvent::TextAlign(align),
            StyleEvent::MarginWidth(width) => StyleEvent::MarginWidth(width),
        }
    }
}

impl View for Event<String> {
    type V = Event<Text>;

    open spec fn view(&self) -> Event<Text> {
        match *self {
            Event::Device(e) => Event::Device(e),
            Event::Power(e) => Event::Power(e),
            Event::Page(e) => Event::Page(e@),
            Event::Screen(e) => Event::Screen(e@),
            Event::Style(e) => Event::Style(e@),
            Event::Fetcher => Event::Fetcher,
            Event::Routine(routine) => Event::Routine(routine),
            Event::Reboot => Event::Reboot,
            Event::Quit => Event::Quit,
            Event::Other => Event::Other,
        }
    }
}

/// The decision on what happened to the device.
pub open spec fn device_step<V>(s: SessionView<V>, event: DeviceEvent, facts: Facts) -> Step<V> {
    match event {
        DeviceEvent::Button {
            code: ButtonCode::Power,
            status: ButtonStatus::Released,
            ..
        } => on_power_button(s, facts),
        DeviceEvent::Button {
            code: ButtonCode::Light,
            status: ButtonStatus::Pressed,
            ..
        } => on_light_button(s),
        DeviceEvent::CoverOn => on_cover_on(s),
        DeviceEvent::CoverOff => on_cover_off(s, facts),
        DeviceEvent::NetUp => on_net_up(s),
        DeviceEvent::Plug(source) => on_plug(s, source, facts),
        DeviceEvent::Unplug(_) => on_unplug(s, facts),
        DeviceEvent::RotateScreen(n) => on_rotate_screen(s, n, facts),
        DeviceEvent::UserActivity if s.settings.auto_suspend => settle(s, seq![Action::ResetIdle]),
        _ => delegated(s),
    }
}

/// The decision on the power of the device, its network and its storage.
pub open spec fn power_step<V>(s: SessionView<V>, event: PowerEvent) -> Step<V> {
    match event {
        PowerEvent::CheckBattery => on_check_battery(s),
        PowerEvent::PrepareSuspend => on_prepare_suspend(s),
        PowerEvent::Suspend => on_suspend(s),
        PowerEvent::MightSuspend => if s.settings.auto_suspend {
            on_might_suspend(s)
        } else {
            delegated(s)
        },
        PowerEvent::HoldPower => powered_off(s),
        PowerEvent::PrepareShare => on_prepare_share(s),
        PowerEvent::Share => on_share(s),
        PowerEvent::SetWifi(enable) => settle(wifi_set(s, enable), wifi_plan(s.settings, enable)),
        PowerEvent::ToggleWifi => settle(
            wifi_set(s, !s.settings.wifi),
            wifi_plan(s.settings, !s.settings.wifi),
        ),
    }
}

/// The decision on a view that is wanted.
pub open spec fn page_step<V>(s: SessionView<V>, event: PageEvent<Text>, facts: Facts) -> Step<V> {
    match event {
        PageEvent::Open { reader, dithered_kind } => on_open(s, reader, dithered_kind, facts),
        PageEvent::OpenWork(id) => ask(
            s,
            seq![],
            Wait::Build {
                page: Page::Work(work_link(id)),
                kept: reader_kept(s.display.rotation, facts.dithered),
            },
        ),
        PageEvent::OpenHtml => on_open_page(s, Page::Html, nothing_kept()),
        PageEvent::LoadIndex(link) => ask(
            s,
            seq![],
            Wait::Fetch(Index { link, kind: IndexType::TagWorks }),
        ),
        PageEvent::LoadSearch(query) => ask(
            s,
            seq![],
            Wait::Fetch(Index { link: search_link(query), kind: IndexType::Search(query) }),
        ),
        PageEvent::LoadHistory { part, username } => on_load_history(s, part, username),
        PageEvent::SystemInfo => on_open_page(s, Page::SystemInfo, nothing_kept()),
        PageEvent::Launch => on_open_page(
            s,
            Page::Application,
            Kept { monochrome: Some(facts.monochrome), ..nothing_kept() },
        ),
        PageEvent::Back => on_back(s, facts),
    }
}

/// The decision on what lies over the current view, and on how the screen
/// shows it.
pub open spec fn screen_step<V>(s: SessionView<V>, event: ScreenEvent<Text>, facts: Facts) -> Step<
    V,
> {
    match event {
        ScreenEvent::MultiTap(first, second) => on_multi_tap(s, first, second),
        ScreenEvent::ToggleFrontlight => settle(
            lit(s, !s.settings.frontlight),
            light_plan(!s.settings.frontlight),
        ),
        ScreenEvent::ShowFrontlight => settle(
            lit(s, true),
            show_frontlight_plan(s.settings.frontlight),
        ),
        ScreenEvent::TogglePresetMenu { menu } => settle(s, preset_menu_plan(menu)),
        ScreenEvent::Close { id, window, child } => settle(s, close_plan(id, window, child)),
        ScreenEvent::ToggleInverted => ask(s, seq![Action::ToggleInverted], Wait::Inversion),
        ScreenEvent::ToggleDithered => settle(
            s,
            seq![Action::ToggleDithered, Action::Refresh(UpdateMode::Full)],
        ),
        ScreenEvent::Rotate(n) => on_rotate(s, n, facts),
        ScreenEvent::SetRotationLock(lock) => settle(
            SessionView { settings: Settings { rotation_lock: lock, ..s.settings }, ..s },
            seq![],
        ),
        ScreenEvent::SetButtonScheme(scheme) => settle(
            SessionView { settings: Settings { button_scheme: scheme, ..s.settings }, ..s },
            seq![Action::AnnounceButtons { inverted: scheme == ButtonScheme::Inverted }],
        ),
        ScreenEvent::TakeScreenshot => ask(s, seq![], Wait::Stamp),
        ScreenEvent::About(version) => settle(
            s,
            seq![Action::Dialog { id: DialogId::About, text: about_text(version) }],
        ),
        ScreenEvent::Notify(message) => settle(s, seq![Action::Notify(message)]),
    }
}

/// The style that is asked for.
pub open spec fn style_after(style: Style<Text>, event: StyleEvent<Text>) -> Style<Text> {
    match event {
        StyleEvent::FontFamily(family) => Style { font_family: family, ..style },
        StyleEvent::TextAlign(align) => Style { text_align: align, ..style },
        StyleEvent::MarginWidth(width) => Style { margin_width: width, ..style },
    }
}

/// The decision on an event.
pub open spec fn step<V>(s: SessionView<V>, event: Event<Text>, facts: Facts) -> Step<V> {
    match event {
        Event::Device(e) => device_step(s, e, facts),
        Event::Power(e) => power_step(s, e),
        Event::Page(e) => page_step(s, e, facts),
        Event::Screen(e) => screen_step(s, e, facts),
        Event::Style(e) => settle(restyled(s, style_after(s.style, e)), seq![]),
        Event::Fetcher => on_fetcher(s, facts),
        Event::Routine(routine) => settle(s, seq![Action::Routine(routine)]),
        Event::Reboot => exit(s, ExitStatus::Reboot),
        Event::Quit => exit(s, ExitStatus::Quit),
        Event::Other => delegated(s),
    }
}

impl<V> Session<V> {
    /// Something happened to the device.
    pub fn device(&mut self, event: DeviceEvent, facts: &Facts) -> (outcome: Outcome<V>)
        ensures
            stepped(*final(self), outcome) == device_step(old(self)@, event, *facts),
    {
        match event {
            DeviceEvent::Button {
                code: ButtonCode::Power,
                status: ButtonStatus::Released,
                ..
            } => self.power_button(facts),
            DeviceEvent::Button {
                code: ButtonCode::Light,
                status: ButtonStatus::Pressed,
                ..
            } => self.light_button(),
            DeviceEvent::CoverOn => self.cover_on(),
            DeviceEvent::CoverOff => self.cover_off(facts),
            DeviceEvent::NetUp => self.net_up(),
            DeviceEvent::Plug(source) => self.plug(source, facts),
            DeviceEvent::Unplug(_) => self.unplug(facts),
            DeviceEvent::RotateScreen(n) => self.rotate_screen(n, facts),
            DeviceEvent::UserActivity if self.settings.auto_suspend => self.perform(
                Action::ResetIdle,
            ),
            _ => self.delegate(),
        }
    }

    /// Something is about the power of the device, its network or its storage.
    pub fn power(&mut self, event: PowerEvent) -> (outcome: Outcome<V>)
        ensures
            stepped(*final(self), outcome) == power_step(old(self)@, event),
    {
        match event {
            PowerEvent::CheckBattery => self.check_battery(),
            PowerEvent::PrepareSuspend => self.prepare_suspend(),
            PowerEvent::Suspend => self.suspend(),
            PowerEvent::MightSuspend => if self.settings.auto_suspend {
                self.might_suspend()
            } else {
                self.delegate()
            },
            PowerEvent::HoldPower => self.power_off(),
            PowerEvent::PrepareShare => self.prepare_share(),
            PowerEvent::Share => self.share(),
            PowerEvent::SetWifi(enable) => self.switch_wifi(enable),
            PowerEvent::ToggleWifi => {
                let enable = !self.settings.wifi;
                self.switch_wifi(enable)
            },
        }
    }

    /// A view is wanted.
    pub fn page(&mut self, event: PageEvent<String>, facts: &Facts) -> (outcome: Outcome<V>)
        ensures
            stepped(*final(self), outcome) == page_step(old(self)@, event@, *facts),
    {
        match event {
            PageEvent::Open { reader, dithered_kind } => self.open(reader, dithered_kind, facts),
            PageEvent::OpenWork(id) => self.open_work(id.as_str(), facts),
            PageEvent::OpenHtml => self.open_page(Page::Html, keep_nothing()),
            PageEvent::LoadIndex(link) => self.load_index(link),
            PageEvent::LoadSearch(query) => self.load_search(query),
            PageEvent::LoadHistory { part, username } => self.load_history(part, &username),
            PageEvent::SystemInfo => self.open_page(Page::SystemInfo, keep_nothing()),
            PageEvent::Launch => {
                let mut kept = keep_nothing();
                kept.monochrome = Some(facts.monochrome);
                self.open_page(Page::Application, kept)
            },
            PageEvent::Back => self.back(facts),
        }
    }

    /// Something is about what lies over the current view, or about how the
    /// screen shows it.
    pub fn screen(&mut self, event: ScreenEvent<String>, facts: &Facts) -> (outcome: Outcome<V>)
        ensures
            stepped(*final(self), outcome) == screen_step(old(self)@, event@, *facts),
    {
        match event {
            ScreenEvent::MultiTap(first, second) => self.multi_tap(first, second),
            ScreenEvent::ToggleFrontlight => self.toggle_frontlight(),
            ScreenEvent::ShowFrontlight => self.show_frontlight(),
            ScreenEvent::TogglePresetMenu { menu } => self.toggle_preset_menu(menu),
            ScreenEvent::Close { id, window, child } => self.close(id, window, child),
            ScreenEvent::ToggleInverted => self.toggle_inverted(),
            ScreenEvent::ToggleDithered => self.toggle_dithered(),
            ScreenEvent::Rotate(n) => self.rotate(n, facts),
            ScreenEvent::SetRotationLock(lock) => self.set_rotation_lock(lock),
            ScreenEvent::SetButtonScheme(scheme) => self.set_button_scheme(scheme),
            ScreenEvent::TakeScreenshot => self.take_screenshot(),
            ScreenEvent::About(version) => self.perform(
                Action::Dialog { id: DialogId::About, text: about_message(version.as_str()) },
            ),
            ScreenEvent::Notify(message) => self.perform(Action::Notify(message)),
        }
    }
}

impl<V> Session<V> {
    /// The pages are to be set otherwise.
    pub fn restyle(&mut self, event: StyleEvent<String>) -> (outcome: Outcome<V>)
        ensures
            stepped(*final(self), outcome) == settle(
                restyled(old(self)@, style_after(old(self)@.style, event@)),
                seq![],
            ),
    {
        match event {
            StyleEvent::FontFamily(family) => self.set_font_family(family),
            StyleEvent::TextAlign(align) => self.set_text_align(align),
            StyleEvent::MarginWidth(width) => self.set_margin_width(width),
        }
    }
}

/// One round of the program's loop: what is done about an event.
#[verifier::rlimit(30)]
pub fn run<V>(session: &mut Session<V>, event: Event<String>, facts: &Facts) -> (outcome: Outcome<
    V,
>)
    ensures
        stepped(*final(session), outcome) == step(old(session)@, event@, *facts),
{
    match event {
        Event::Device(e) => session.device(e, facts),
        Event::Power(e) => session.power(e),
        Event::Page(e) => session.page(e, facts),
        Event::Screen(e) => session.screen(e, facts),
        Event::Style(e) => session.restyle(e),
        Event::Fetcher => session.fetcher(facts),
        Event::Routine(routine) => session.perform(Action::Routine(routine)),
        Event::Reboot => session.leave(ExitStatus::Reboot),
        Event::Quit => session.leave(ExitStatus::Quit),
        Event::Other => session.delegate(),
    }
}

} // verus!
