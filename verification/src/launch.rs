//! What happens when the global hotkey fires: which window comes up, and
//! where it is put.
//!
//! Windows are commanded, not touched: each function answers with the
//! commands for one window, in the order in which they are to be carried
//! out. A command that fails is skipped by the caller; nothing here depends
//! on its outcome.

use vstd::prelude::*;
use crate::config::AppConfig;

verus! {

/// The two windows of the launcher.
#[derive(Debug, Clone, Copy, PartialEq, Eq)]
pub enum Surface {
    /// The search window.
    Main,
    /// The settings window.
    Settings,
}

impl Surface {
    /// Name under which the window is known to the window system.
    pub open spec fn label_text(self) -> Seq<char> {
        match self {
            Surface::Main => "main"@,
            Surface::Settings => "settings"@,
        }
    }

    /// Name under which the window is known to the window system.
    pub fn label(&self) -> (label: &'static str)
        ensures
            label@ == self.label_text(),
    {
        match self {
            Surface::Main => "main",
            Surface::Settings => "settings",
        }
    }
}

/// One command to a window.
#[derive(Debug, Clone, Copy, PartialEq, Eq)]
pub enum WindowCommand {
    /// Build the window; it does not exist yet.
    Create,
    Show,
    Focus,
    /// Center the window on the screen.
    Center,
    /// Move the top-left corner of the window to a physical position.
    MoveTo { x: i32, y: i32 },
    /// Empty the search field and put the cursor in it.
    ResetSearchInput,
}

/// Script that carries out [`WindowCommand::ResetSearchInput`] in the search
/// window.
pub const RESET_SEARCH_INPUT_SCRIPT: &'static str =
    "const input = document.getElementById('search-input'); if (input) { input.value = ''; input.focus(); }";

/// Answer to the question which display a window is on.
#[derive(Debug, Clone, Copy, PartialEq, Eq)]
pub enum DisplayQuery {
    /// The query itself failed.
    Failed,
    /// The query went through and found no display.
    NoDisplay,
    /// The display that holds the window: the physical position of its
    /// top-left corner among the displays, and its physical size.
    Display { x: i32, y: i32, width: u32, height: u32 },
}

/// Distance from the left edge of a display of `display_width` at which a
/// window of `window_width` is centered: half of the free width, rounded
/// towards zero, negative where the window is the wider one.
pub open spec fn centered_offset(display_width: u32, window_width: u32) -> int {
    if display_width >= window_width {
        (display_width - window_width) / 2
    } else {
        -((window_width - display_width) / 2)
    }
}

/// A quarter of a display's height.
pub open spec fn quarter_offset(display_height: u32) -> int {
    display_height as int / 4
}

/// Horizontal position that centers a window of `window_width` on the
/// display whose left edge is at `display_x`.
pub open spec fn centered_x(display_x: i32, display_width: u32, window_width: u32) -> int {
    display_x + centered_offset(display_width, window_width)
}

/// Vertical position a quarter of the display's height below its top edge,
/// which is at `display_y`.
pub open spec fn quarter_y(display_y: i32, display_height: u32) -> int {
    display_y + quarter_offset(display_height)
}

/// The coordinate of a window position that is nearest to `exact`: `exact`
/// itself where it fits the signed 32-bit range, else the limit of that
/// range on its side.
pub open spec fn nearest_coordinate(exact: int) -> i32 {
    if exact < i32::MIN {
        i32::MIN
    } else if exact > i32::MAX {
        i32::MAX
    } else {
        exact as i32
    }
}

/// The position of a placement is the exact one wherever that is a position
/// a window can be moved to, and the nearest such position where it is not.
///
/// The distances inside the display always fit; on a display whose corner
/// is at the origin the position is therefore exact for every size. Only a
/// display far from the origin can push a coordinate to a limit.
pub proof fn law_placement_is_a_position(
    display_x: i32,
    display_y: i32,
    display_width: u32,
    display_height: u32,
    window_width: u32,
)
    ensures
        -i32::MAX <= centered_offset(display_width, window_width) <= i32::MAX,
        0 <= quarter_offset(display_height) <= i32::MAX / 2,
        ({
            let exact = centered_x(display_x, display_width, window_width);
            let x = nearest_coordinate(exact);
            &&& i32::MIN <= exact <= i32::MAX ==> x == exact
            &&& exact < i32::MIN ==> x == i32::MIN
            &&& exact > i32::MAX ==> x == i32::MAX
            &&& display_x == 0 ==> x == exact
        }),
        ({
            let exact = quarter_y(display_y, display_height);
            let y = nearest_coordinate(exact);
            &&& i32::MIN <= exact <= i32::MAX ==> y == exact
            &&& exact > i32::MAX ==> y == i32::MAX
            &&& exact >= i32::MIN
            &&& display_y <= i32::MAX / 2 ==> y == exact
        }),
{
}

/// A window no wider than its display is centered on that display: it lies
/// between the display's edges with the same room on both sides, the left
/// one smaller by one where the free width is odd. Its top lies on the
/// display, a quarter of the display's height below the display's top.
pub proof fn law_window_is_centered_on_its_display(
    display_x: i32,
    display_y: i32,
    display_width: u32,
    display_height: u32,
    window_width: u32,
)
    requires
        window_width <= display_width,
    ensures
        ({
            let x = centered_x(display_x, display_width, window_width);
            let left = x - display_x;
            let right = (display_x + display_width) - (x + window_width);
            0 <= left <= right <= left + 1
        }),
        ({
            let down = quarter_y(display_y, display_height) - display_y;
            &&& 4 * down <= display_height < 4 * down + 4
            &&& display_y <= quarter_y(display_y, display_height) <= display_y + display_height
        }),
{
}

/// Commands that place the search window, given what the display query
/// answered and the window's width (0 where it is not known).
///
/// On the display that holds the window, the window is moved to
/// [`centered_x`] and [`quarter_y`] of that display, each taken to the
/// [`nearest_coordinate`]. Without such a display, be it that the query
/// failed or that it found none, the window is centered on the screen. The
/// search field is made ready in every case, after the window is placed.
pub open spec fn placement_commands(display: DisplayQuery, window_width: Option<u32>) -> Seq<
    WindowCommand,
> {
    let width: u32 = match window_width {
        Some(width) => width,
        None => 0,
    };
    match display {
        DisplayQuery::Failed => seq![WindowCommand::Center, WindowCommand::ResetSearchInput],
        DisplayQuery::NoDisplay => seq![WindowCommand::Center, WindowCommand::ResetSearchInput],
        DisplayQuery::Display { x, y, width: display_width, height } => seq![
            WindowCommand::MoveTo {
                x: nearest_coordinate(centered_x(x, display_width, width)),
                y: nearest_coordinate(quarter_y(y, height)),
            },
            WindowCommand::ResetSearchInput,
        ],
    }
}

/// Commands that bring the settings window up: an existing one is shown,
/// focused and centered, a missing one is built and shown.
pub open spec fn settings_commands(exists: bool) -> Seq<WindowCommand> {
    if exists {
        seq![WindowCommand::Show, WindowCommand::Focus, WindowCommand::Center]
    } else {
        seq![WindowCommand::Create, WindowCommand::Show]
    }
}

/// The window that a hotkey press brings up under a configuration: the
/// settings window as long as no launch target is configured, the search
/// window after that.
pub open spec fn surface_for(targets: nat) -> Surface {
    if targets == 0 {
        Surface::Settings
    } else {
        Surface::Main
    }
}

/// Commands that bring the search window up: an existing one is shown and
/// focused; a missing one is left alone.
pub open spec fn main_commands(exists: bool) -> Seq<WindowCommand> {
    if exists {
        seq![WindowCommand::Show, WindowCommand::Focus]
    } else {
        Seq::empty()
    }
}

/// Commands of the first reaction to a hotkey press, for the window that
/// comes up with `targets` launch targets configured.
pub open spec fn hotkey_commands(targets: nat, main_exists: bool, settings_exists: bool) -> Seq<
    WindowCommand,
> {
    match surface_for(targets) {
        Surface::Settings => settings_commands(settings_exists),
        Surface::Main => main_commands(main_exists),
    }
}

/// First reaction to a hotkey press.
#[derive(Debug, PartialEq, Eq)]
pub struct HotkeyStep {
    /// The window to bring up.
    pub surface: Surface,
    /// Commands for that window. After those for an existing search window
    /// the caller goes on with [`place_main_window`].
    pub commands: Vec<WindowCommand>,
}

/// The coordinate nearest to `exact`.
fn nearest(exact: i64) -> (coordinate: i32)
    ensures
        coordinate == nearest_coordinate(exact as int),
{
    if exact < -2147483648i64 {
        i32::MIN
    } else if exact > 2147483647i64 {
        i32::MAX
    } else {
        exact as i32
    }
}

/// Position of a window of `window_width` on the display whose top-left
/// corner is at (`display_x`, `display_y`): centered horizontally on that
/// display, a quarter of its height below its top. A coordinate beyond the
/// range of a position becomes the limit of that range.
pub fn placement(
    display_x: i32,
    display_y: i32,
    display_width: u32,
    display_height: u32,
    window_width: u32,
) -> (position: (i32, i32))
    ensures
        position.0 == nearest_coordinate(centered_x(display_x, display_width, window_width)),
        position.1 == nearest_coordinate(quarter_y(display_y, display_height)),
{
    let across: i64 = if display_width >= window_width {
        ((display_width - window_width) / 2) as i64
    } else {
        -(((window_width - display_width) / 2) as i64)
    };
    let down: i64 = (display_height / 4) as i64;
    (nearest(display_x as i64 + across), nearest(display_y as i64 + down))
}

/// Commands that bring the settings window up.
pub fn open_settings_window(exists: bool) -> (commands: Vec<WindowCommand>)
    ensures
        commands@ == settings_commands(exists),
{
    let mut commands: Vec<WindowCommand> = Vec::new();
    if exists {
        commands.push(WindowCommand::Show);
        commands.push(WindowCommand::Focus);
        commands.push(WindowCommand::Center);
    } else {
        commands.push(WindowCommand::Create);
        commands.push(WindowCommand::Show);
    }
    commands
}

/// Decides what a hotkey press brings up.
///
/// With no launch target configured the settings window comes up, built
/// first where `settings_exists` is false. Otherwise the search window is
/// shown and focused, where `main_exists` says that there is one; the
/// caller then asks for its display and goes on with [`place_main_window`].
pub fn on_hotkey(config: &AppConfig, main_exists: bool, settings_exists: bool) -> (step: HotkeyStep)
    ensures
        step.surface == surface_for(config@.ai_engines.len()),
        step.commands@ == hotkey_commands(config@.ai_engines.len(), main_exists, settings_exists),
{
    if config.ai_engines.len() == 0 {
        HotkeyStep { surface: Surface::Settings, commands: open_settings_window(settings_exists) }
    } else {
        let mut commands: Vec<WindowCommand> = Vec::new();
        if main_exists {
            commands.push(WindowCommand::Show);
            commands.push(WindowCommand::Focus);
        }
        HotkeyStep { surface: Surface::Main, commands }
    }
}

/// Commands that place the shown search window and ready its search field.
///
/// On the display that holds the window, the window is centered
/// horizontally on that display, a quarter of the display's height below
/// its top. Where the query failed or found no display, the window is
/// centered on the screen.
pub fn place_main_window(display: DisplayQuery, window_width: Option<u32>) -> (commands: Vec<
    WindowCommand,
>)
    ensures
        commands@ == placement_commands(display, window_width),
{
    let mut commands: Vec<WindowCommand> = Vec::new();
    match display {
        DisplayQuery::Failed => {
            commands.push(WindowCommand::Center);
        },
        DisplayQuery::NoDisplay => {
            commands.push(WindowCommand::Center);
        },
        DisplayQuery::Display { x, y, width, height } => {
            let window: u32 = match window_width {
                Some(known) => known,
                None => 0,
            };
            let position: (i32, i32) = placement(x, y, width, height, window);
            commands.push(WindowCommand::MoveTo { x: position.0, y: position.1 });
        },
    }
    commands.push(WindowCommand::ResetSearchInput);
    commands
}

} // verus!
