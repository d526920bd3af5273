use vstd::prelude::*;

verus! {

/// The label of the window that the tray controls.
pub const MAIN_WINDOW: &'static str = "main";

/// The id of the tray icon.
pub const TRAY_ID: &'static str = "tray";

/// The exit code of the process when the user quits from the tray.
pub const EXIT_CODE: i32 = 0;

/// One item of the tray's context menu.
pub struct MenuEntry {
    pub id: String,
    pub label: String,
    pub enabled: bool,
}

/// The tray's context menu, top to bottom: show/hide, then quit, both
/// enabled.
pub open spec fn menu_layout() -> Seq<(Seq<char>, Seq<char>, bool)> {
    seq![("show"@, "Show/Hide"@, true), ("quit"@, "Quit"@, true)]
}

/// The items of the tray's context menu, in order.
pub fn tray_menu() -> (r: Vec<MenuEntry>)
    ensures
        r@.map_values(|e: MenuEntry| (e.id@, e.label@, e.enabled)) == menu_layout(),
{
    let mut items: Vec<MenuEntry> = Vec::new();
    items.push(
        MenuEntry { id: String::from_str("show"), label: String::from_str("Show/Hide"), enabled: true },
    );
    items.push(MenuEntry { id: String::from_str("quit"), label: String::from_str("Quit"), enabled: true });
    assert(items@.map_values(|e: MenuEntry| (e.id@, e.label@, e.enabled)) =~= menu_layout());
    items
}

/// What a selection in the tray menu asks for.
#[derive(PartialEq, Eq, Structural, Clone, Copy, Debug)]
pub enum MenuCommand {
    /// End the application.
    Quit,
    /// Hide the main window if it is visible, else show and focus it.
    ToggleMain,
    /// Nothing: an id that the menu does not hold.
    Ignore,
}

/// The command of the menu item with id `id`.
pub open spec fn menu_command_of(id: Seq<char>) -> MenuCommand {
    if id == "quit"@ {
        MenuCommand::Quit
    } else if id == "show"@ {
        MenuCommand::ToggleMain
    } else {
        MenuCommand::Ignore
    }
}

/// Decides what a selection of the menu item `id` does.
pub fn menu_command(id: &str) -> (r: MenuCommand)
    ensures
        r == menu_command_of(id@),
{
    let id = String::from_str(id);
    if id == String::from_str("quit") {
        MenuCommand::Quit
    } else if id == String::from_str("show") {
        MenuCommand::ToggleMain
    } else {
        MenuCommand::Ignore
    }
}

/// One call on the main window, as the host performs it.
#[derive(PartialEq, Eq, Structural, Clone, Copy, Debug)]
pub enum WindowOp {
    Unminimize,
    Show,
    Hide,
    SetFocus,
}

/// What the tray does to the main window.
#[derive(PartialEq, Eq, Structural, Clone, Copy, Debug)]
pub enum WindowAction {
    /// Hide the window.
    Hide,
    /// Show the window and give it the input focus.
    ShowAndFocus,
    /// Bring the window back whatever its state: restore it from the
    /// taskbar, show it and focus it.
    Restore,
}

impl WindowAction {
    /// The calls that carry out the action, in order.
    pub open spec fn ops_of(self) -> Seq<WindowOp> {
        match self {
            WindowAction::Hide => seq![WindowOp::Hide],
            WindowAction::ShowAndFocus => seq![WindowOp::Show, WindowOp::SetFocus],
            WindowAction::Restore => seq![WindowOp::Unminimize, WindowOp::Show, WindowOp::SetFocus],
        }
    }

    /// The calls that carry out the action, in the order the host makes them.
    pub fn ops(&self) -> (r: Vec<WindowOp>)
        ensures
            r@ == self.ops_of(),
    {
        let mut r: Vec<WindowOp> = Vec::new();
        match self {
            WindowAction::Hide => {
                r.push(WindowOp::Hide);
            },
            WindowAction::ShowAndFocus => {
                r.push(WindowOp::Show);
                r.push(WindowOp::SetFocus);
            },
            WindowAction::Restore => {
                r.push(WindowOp::Unminimize);
                r.push(WindowOp::Show);
                r.push(WindowOp::SetFocus);
            },
        }
        assert(r@ =~= self.ops_of());
        r
    }
}

/// The show/hide toggle, given what the visibility query returned (`None`
/// where it failed, which counts as hidden).
pub open spec fn toggle_of(visible: Option<bool>) -> WindowAction {
    if visible == Some(true) {
        WindowAction::Hide
    } else {
        WindowAction::ShowAndFocus
    }
}

/// Decides the show/hide toggle from the main window's visibility, as the
/// query returned it: a visible window is hidden; a hidden one, or one whose
/// visibility could not be read, is shown and focused.
pub fn toggle_action(visible: Option<bool>) -> (r: WindowAction)
    ensures
        r == toggle_of(visible),
        visible == Some(true) ==> r == WindowAction::Hide,
        visible != Some(true) ==> r == WindowAction::ShowAndFocus,
{
    match visible {
        Some(true) => WindowAction::Hide,
        _ => WindowAction::ShowAndFocus,
    }
}

/// A mouse button on the tray icon.
#[derive(PartialEq, Eq, Structural, Clone, Copy, Debug)]
pub enum MouseButton {
    Left,
    Right,
    Middle,
}

/// An event on the tray icon, as far as the tray reads it.
#[derive(PartialEq, Eq, Structural, Clone, Copy, Debug)]
pub enum IconEvent {
    /// A click with the given button.
    Click { button: MouseButton },
    /// Anything else: a double click, the pointer entering, moving or
    /// leaving.
    Other,
}

/// What an icon event does to the main window, if anything.
pub open spec fn icon_action_of(event: IconEvent) -> Option<WindowAction> {
    match event {
        IconEvent::Click { button: MouseButton::Left } => Some(WindowAction::Restore),
        _ => None,
    }
}

/// Decides what an event on the tray icon does: a left click always brings
/// the main window back; anything else does nothing.
pub fn icon_action(event: IconEvent) -> (r: Option<WindowAction>)
    ensures
        r == icon_action_of(event),
{
    match event {
        IconEvent::Click { button: MouseButton::Left } => Some(WindowAction::Restore),
        _ => None,
    }
}

/// The main window as the window manager holds it.
pub ghost struct WindowModel {
    pub visible: bool,
    pub focused: bool,
    pub minimized: bool,
}

/// The effect of one call on the window.
pub open spec fn apply_op(w: WindowModel, op: WindowOp) -> WindowModel {
    match op {
        WindowOp::Unminimize => WindowModel { minimized: false, ..w },
        WindowOp::Show => WindowModel { visible: true, ..w },
        WindowOp::Hide => WindowModel { visible: false, focused: false, ..w },
        WindowOp::SetFocus => WindowModel { focused: true, ..w },
    }
}

/// The effect of calls made in order.
pub open spec fn apply_ops(w: WindowModel, ops: Seq<WindowOp>) -> WindowModel
    decreases ops.len(),
{
    if ops.len() == 0 {
        w
    } else {
        apply_ops(apply_op(w, ops[0]), ops.drop_first())
    }
}

/// The application as the tray sees it: whether it still runs, and its main
/// window, if there is one.
pub ghost struct TrayModel {
    pub running: bool,
    pub window: Option<WindowModel>,
}

/// An event delivered to the tray.
pub ghost enum TrayEvent {
    Menu(Seq<char>),
    Icon(IconEvent),
}

/// The effect of `action` on the main window, where there is one.
pub open spec fn act_on_window(s: TrayModel, action: WindowAction) -> TrayModel {
    match s.window {
        Some(w) => TrayModel { window: Some(apply_ops(w, action.ops_of())), ..s },
        None => s,
    }
}

/// The effect of one event, as the decisions of this module make it; an
/// application that has ended takes no more events.
pub open spec fn tray_step(s: TrayModel, e: TrayEvent) -> TrayModel {
    if !s.running {
        s
    } else {
        match e {
            TrayEvent::Menu(id) => match menu_command_of(id) {
                MenuCommand::Quit => TrayModel { running: false, ..s },
                MenuCommand::ToggleMain => match s.window {
                    Some(w) => act_on_window(s, toggle_of(Some(w.visible))),
                    None => s,
                },
                MenuCommand::Ignore => s,
            },
            TrayEvent::Icon(ev) => match icon_action_of(ev) {
                Some(action) => act_on_window(s, action),
                None => s,
            },
        }
    }
}

/// The effect of events delivered in order.
pub open spec fn tray_run(s: TrayModel, events: Seq<TrayEvent>) -> TrayModel
    decreases events.len(),
{
    if events.len() == 0 {
        s
    } else {
        tray_run(tray_step(s, events[0]), events.drop_first())
    }
}

/// Quitting ends the application, and no event after it changes anything.
pub proof fn lemma_quit_is_final(s: TrayModel, later: Seq<TrayEvent>)
    requires
        s.running,
    ensures
        !tray_step(s, TrayEvent::Menu("quit"@)).running,
        tray_run(tray_step(s, TrayEvent::Menu("quit"@)), later) == tray_step(
            s,
            TrayEvent::Menu("quit"@),
        ),
{
    let ended = tray_step(s, TrayEvent::Menu("quit"@));
    lemma_ended_stays(ended, later);
}

proof fn lemma_ended_stays(s: TrayModel, events: Seq<TrayEvent>)
    requires
        !s.running,
    ensures
        tray_run(s, events) == s,
    decreases events.len(),
{
    if events.len() > 0 {
        lemma_ended_stays(s, events.drop_first());
    }
}

/// The menu's show/hide item hides a visible main window, and shows and
/// focuses a hidden one; selecting it twice gives the window back its
/// visibility.
pub proof fn lemma_show_toggles(s: TrayModel)
    requires
        s.running,
        s.window is Some,
    ensures
        ({
            let w = s.window->0;
            let once = tray_step(s, TrayEvent::Menu("show"@));
            let twice = tray_step(once, TrayEvent::Menu("show"@));
            &&& once.running
            &&& once.window is Some
            &&& w.visible ==> !once.window->0.visible
            &&& !w.visible ==> once.window->0.visible && once.window->0.focused
            &&& twice.window is Some
            &&& twice.window->0.visible == w.visible
        }),
{
    reveal_strlit("show");
    reveal_strlit("quit");
    assert("show"@ != "quit"@) by {
        assert("show"@[0] != "quit"@[0]);
    }
    let w = s.window->0;
    let once = tray_step(s, TrayEvent::Menu("show"@));
    reveal_with_fuel(apply_ops, 3);
    assert(once.window is Some);
    let w1 = once.window->0;
    assert(w.visible ==> !w1.visible);
    assert(!w.visible ==> w1.visible && w1.focused);
}

/// A left click on the tray icon leaves the main window shown, focused and
/// not minimized, whatever state it was in.
pub proof fn lemma_left_click_restores(s: TrayModel)
    requires
        s.running,
        s.window is Some,
    ensures
        ({
            let after = tray_step(s, TrayEvent::Icon(IconEvent::Click { button: MouseButton::Left }));
            &&& after.running
            &&& after.window is Some
            &&& after.window->0.visible
            &&& after.window->0.focused
            &&& !after.window->0.minimized
        }),
{
    reveal_with_fuel(apply_ops, 4);
}

} // verus!
