//! The command line client: what each command sends to the daemon, and what is said about the
//! answer.
use crate::common::error::FlowError;
use crate::common::types::Direction;
use crate::config::dirs::{
    resolve_config_dir, user_app_config_path_in, user_rules_path_in, DirEnv,
};
use crate::config::types::{FlowConfig, WindowRulesConfig};
use crate::paths::{
    ends_in_a_name, fits_parent, is_backslash_entry, is_entry, is_slash_entry, join, joined, parent,
};
use crate::text::{concat, concat3, signed_decimal, signed_decimal_text, text_of};
use vstd::prelude::*;
use vstd::string::*;

verus! {

/// Longest time to wait for the daemon to become ready, in seconds.
pub const DAEMON_START_TIMEOUT_SECS: u64 = 5;

/// Time between two looks at whether the daemon is ready, in milliseconds.
pub const DAEMON_POLL_MS: u64 = 200;

/// Flags of the system for a process of its own group (`0x200`) without a window (`0x0800_0000`).
pub const DETACHED: u32 = 0x0800_0200;

// ---------------------------------------------------------------------------
// Commands and messages
// ---------------------------------------------------------------------------

/// Configuration commands.
#[derive(Debug, Clone, Copy, PartialEq, Eq, Structural)]
pub enum ConfigCommands {
    /// Set up the configuration directory.
    Init,
    /// Make the daemon read its configuration again.
    Reload,
    /// Open the configuration directory in an editor.
    Edit,
    /// Print the configuration directory.
    Path,
    /// Check the configuration files.
    Check,
}

/// Horizontal direction.
#[derive(Debug, Clone, Copy, PartialEq, Eq, Structural)]
pub enum HorizontalDirection {
    /// Left.
    Left,
    /// Right.
    Right,
}

/// Mode of a window.
#[derive(Debug, Clone, Copy, PartialEq, Eq, Structural)]
pub enum WindowMode {
    /// Floating.
    Float,
    /// Tiled.
    Tile,
    /// The other of the two.
    Cycle,
}

/// Commands that the daemon carries out on its windows.
#[derive(Debug, Clone, Copy, PartialEq, Eq, Structural)]
pub enum DispatchCommands {
    /// Focus a window in a direction.
    Focus {
        /// The direction.
        direction: Direction,
    },
    /// Swap the focused column with its neighbour.
    SwapColumn {
        /// The direction.
        direction: HorizontalDirection,
    },
    /// Move the focused window in a direction.
    MoveWindow {
        /// The direction.
        direction: Direction,
    },
    /// Merge the focused window into the neighbouring column.
    MergeColumn {
        /// The direction.
        direction: HorizontalDirection,
    },
    /// Move the focused window out of its column into one of its own.
    Promote {
        /// The direction.
        direction: HorizontalDirection,
    },
    /// Widen the focused column by a step.
    ExpandColumn,
    /// Narrow the focused column by a step.
    ShrinkColumn,
    /// Bring the focused column to the middle of the screen.
    Center,
    /// Close the focused window.
    CloseWindow,
    /// Set the mode of the focused window.
    SetWindow {
        /// The mode.
        mode: WindowMode,
    },
    /// Switch to a workspace.
    SwitchWorkspace {
        /// The workspace.
        workspace_id: u32,
    },
    /// Swap the active workspace with another.
    SwapWorkspace {
        /// The workspace.
        workspace_id: u32,
    },
    /// Move the focused window to a workspace.
    MoveWindowToWorkspace {
        /// The workspace.
        workspace_id: u32,
    },
}

/// Messages to the daemon.
#[derive(Debug, Clone, Copy, PartialEq, Eq, Structural)]
pub enum SocketMessage {
    /// Exit.
    Stop,
    /// Read the configuration again.
    ReloadConfig,
    /// List all windows.
    QueryWindowsAll,
    /// Focus to the left.
    FocusLeft,
    /// Focus to the right.
    FocusRight,
    /// Focus up.
    FocusUp,
    /// Focus down.
    FocusDown,
    /// Swap columns.
    SwapColumn {
        /// The direction.
        direction: Direction,
    },
    /// Move the focused window.
    MoveWindow {
        /// The direction.
        direction: Direction,
    },
    /// Merge into the neighbouring column.
    MergeColumn {
        /// The direction.
        direction: Direction,
    },
    /// Move into a column of its own.
    Promote {
        /// The direction.
        direction: Direction,
    },
    /// Widen the focused column.
    ExpandColumn,
    /// Narrow the focused column.
    ShrinkColumn,
    /// Centre the focused column.
    Center,
    /// Close the focused window.
    CloseWindow,
    /// Set the mode of the focused window.
    SetWindow {
        /// The mode.
        mode: WindowMode,
    },
    /// Switch to a workspace.
    SwitchWorkspace {
        /// The workspace.
        workspace_id: u32,
    },
    /// Swap workspaces.
    SwapWorkspace {
        /// The workspace.
        workspace_id: u32,
    },
    /// Move the focused window to a workspace.
    MoveWindowToWorkspace {
        /// The workspace.
        workspace_id: u32,
    },
}

/// Answers of the daemon.
#[derive(Debug, Clone, PartialEq)]
pub enum SocketResponse {
    /// Done.
    Done,
    /// Refused.
    Error {
        /// Why.
        message: String,
    },
    /// Done, with data.
    Data {
        /// The data as JSON text.
        payload: String,
    },
}

/// A message to send, and what to say once it was carried out.
#[derive(Debug, Clone, PartialEq)]
pub struct Request {
    /// The message.
    pub message: SocketMessage,
    /// What to say.
    pub success: String,
}

impl HorizontalDirection {
    /// The direction among the four.
    pub open spec fn general(self) -> Direction {
        match self {
            HorizontalDirection::Left => Direction::Left,
            HorizontalDirection::Right => Direction::Right,
        }
    }

    /// The direction among the four.
    pub fn to_direction(self) -> (res: Direction)
        ensures
            res == self.general(),
    {
        match self {
            HorizontalDirection::Left => Direction::Left,
            HorizontalDirection::Right => Direction::Right,
        }
    }
}

/// The message of a dispatch command.
pub open spec fn message_of(command: DispatchCommands) -> SocketMessage {
    match command {
        DispatchCommands::Focus { direction } => match direction {
            Direction::Left => SocketMessage::FocusLeft,
            Direction::Right => SocketMessage::FocusRight,
            Direction::Up => SocketMessage::FocusUp,
            Direction::Down => SocketMessage::FocusDown,
        },
        DispatchCommands::SwapColumn { direction } => SocketMessage::SwapColumn {
            direction: direction.general(),
        },
        DispatchCommands::MoveWindow { direction } => SocketMessage::MoveWindow { direction },
        DispatchCommands::MergeColumn { direction } => SocketMessage::MergeColumn {
            direction: direction.general(),
        },
        DispatchCommands::Promote { direction } => SocketMessage::Promote {
            direction: direction.general(),
        },
        DispatchCommands::ExpandColumn => SocketMessage::ExpandColumn,
        DispatchCommands::ShrinkColumn => SocketMessage::ShrinkColumn,
        DispatchCommands::Center => SocketMessage::Center,
        DispatchCommands::CloseWindow => SocketMessage::CloseWindow,
        DispatchCommands::SetWindow { mode } => SocketMessage::SetWindow { mode },
        DispatchCommands::SwitchWorkspace { workspace_id } => SocketMessage::SwitchWorkspace {
            workspace_id,
        },
        DispatchCommands::SwapWorkspace { workspace_id } => SocketMessage::SwapWorkspace {
            workspace_id,
        },
        DispatchCommands::MoveWindowToWorkspace { workspace_id } => {
            SocketMessage::MoveWindowToWorkspace { workspace_id }
        },
    }
}

/// What to say once a dispatch command was carried out.
pub open spec fn success_of(command: DispatchCommands) -> Seq<char> {
    match command {
        DispatchCommands::Focus { .. } => "focus changed"@,
        DispatchCommands::SwapColumn { .. } => "column swapped"@,
        DispatchCommands::MoveWindow { .. } => "window moved"@,
        DispatchCommands::MergeColumn { .. } => "column merged"@,
        DispatchCommands::Promote { .. } => "window promoted"@,
        DispatchCommands::ExpandColumn => "column expanded"@,
        DispatchCommands::ShrinkColumn => "column shrunk"@,
        DispatchCommands::Center => "viewport centered"@,
        DispatchCommands::CloseWindow => "window closed"@,
        DispatchCommands::SetWindow { mode } => "window set to "@ + match mode {
            WindowMode::Float => "float"@,
            WindowMode::Tile => "tile"@,
            WindowMode::Cycle => "cycle"@,
        },
        DispatchCommands::SwitchWorkspace { .. } => "workspace switched"@,
        DispatchCommands::SwapWorkspace { .. } => "workspace swapped"@,
        DispatchCommands::MoveWindowToWorkspace { .. } => "window moved to workspace"@,
    }
}

fn request(message: SocketMessage, success: &str) -> (res: Request)
    ensures
        res.message == message,
        res.success@ == success@,
{
    Request { message, success: success.to_owned() }
}

/// The request of a dispatch command.
pub fn cmd_dispatch(command: DispatchCommands) -> (res: Request)
    ensures
        res.message == message_of(command),
        res.success@ == success_of(command),
{
    match command {
        DispatchCommands::Focus { direction } => cmd_dispatch_focus(direction),
        DispatchCommands::SwapColumn { direction } => request(
            SocketMessage::SwapColumn { direction: direction.to_direction() },
            "column swapped",
        ),
        DispatchCommands::MoveWindow { direction } => request(
            SocketMessage::MoveWindow { direction },
            "window moved",
        ),
        DispatchCommands::MergeColumn { direction } => request(
            SocketMessage::MergeColumn { direction: direction.to_direction() },
            "column merged",
        ),
        DispatchCommands::Promote { direction } => request(
            SocketMessage::Promote { direction: direction.to_direction() },
            "window promoted",
        ),
        DispatchCommands::ExpandColumn => request(SocketMessage::ExpandColumn, "column expanded"),
        DispatchCommands::ShrinkColumn => request(SocketMessage::ShrinkColumn, "column shrunk"),
        DispatchCommands::Center => request(SocketMessage::Center, "viewport centered"),
        DispatchCommands::CloseWindow => request(SocketMessage::CloseWindow, "window closed"),
        DispatchCommands::SetWindow { mode } => cmd_dispatch_set_window(mode),
        DispatchCommands::SwitchWorkspace { workspace_id } => request(
            SocketMessage::SwitchWorkspace { workspace_id },
            "workspace switched",
        ),
        DispatchCommands::SwapWorkspace { workspace_id } => request(
            SocketMessage::SwapWorkspace { workspace_id },
            "workspace swapped",
        ),
        DispatchCommands::MoveWindowToWorkspace { workspace_id } => request(
            SocketMessage::MoveWindowToWorkspace { workspace_id },
            "window moved to workspace",
        ),
    }
}

/// The request to focus a window in a direction.
pub fn cmd_dispatch_focus(direction: Direction) -> (res: Request)
    ensures
        res.message == message_of(DispatchCommands::Focus { direction }),
        res.success@ == success_of(DispatchCommands::Focus { direction }),
{
    let message = match direction {
        Direction::Left => SocketMessage::FocusLeft,
        Direction::Right => SocketMessage::FocusRight,
        Direction::Up => SocketMessage::FocusUp,
        Direction::Down => SocketMessage::FocusDown,
    };
    request(message, "focus changed")
}

/// The request to set the mode of the focused window.
pub fn cmd_dispatch_set_window(mode: WindowMode) -> (res: Request)
    ensures
        res.message == message_of(DispatchCommands::SetWindow { mode }),
        res.success@ == success_of(DispatchCommands::SetWindow { mode }),
{
    let label: &str = match mode {
        WindowMode::Float => "float",
        WindowMode::Tile => "tile",
        WindowMode::Cycle => "cycle",
    };
    let success: String = concat("window set to ", label);
    Request { message: SocketMessage::SetWindow { mode }, success }
}

/// The request to stop the daemon.
pub fn cmd_stop() -> (res: Request)
    ensures
        res.message == SocketMessage::Stop,
        res.success@ == "daemon stopped"@,
{
    request(SocketMessage::Stop, "daemon stopped")
}

/// The request of a configuration command. Only reloading needs the daemon; the others work on
/// files alone.
pub fn cmd_config(command: ConfigCommands) -> (res: Option<Request>)
    ensures
        res is Some <==> command == ConfigCommands::Reload,
        res is Some ==> res->Some_0.message == SocketMessage::ReloadConfig && res->Some_0.success@
            == "configuration reloaded"@,
{
    match command {
        ConfigCommands::Init => None,
        ConfigCommands::Reload => Some(
            request(SocketMessage::ReloadConfig, "configuration reloaded"),
        ),
        ConfigCommands::Edit => None,
        ConfigCommands::Path => None,
        ConfigCommands::Check => None,
    }
}

/// Each command that goes in a direction sends the message of its own name that goes in the same
/// direction.
pub proof fn messages_go_where_the_command_goes(
    direction: Direction,
    horizontal: HorizontalDirection,
)
    ensures
        direction is Left ==> message_of(DispatchCommands::Focus { direction }) is FocusLeft,
        direction is Right ==> message_of(DispatchCommands::Focus { direction }) is FocusRight,
        direction is Up ==> message_of(DispatchCommands::Focus { direction }) is FocusUp,
        direction is Down ==> message_of(DispatchCommands::Focus { direction }) is FocusDown,
        message_of(DispatchCommands::MoveWindow { direction }) == (SocketMessage::MoveWindow {
            direction,
        }),
        horizontal is Left ==> {
            &&& message_of(DispatchCommands::SwapColumn { direction: horizontal })
                == (SocketMessage::SwapColumn { direction: Direction::Left })
            &&& message_of(DispatchCommands::MergeColumn { direction: horizontal })
                == (SocketMessage::MergeColumn { direction: Direction::Left })
            &&& message_of(DispatchCommands::Promote { direction: horizontal })
                == (SocketMessage::Promote { direction: Direction::Left })
        },
        horizontal is Right ==> {
            &&& message_of(DispatchCommands::SwapColumn { direction: horizontal })
                == (SocketMessage::SwapColumn { direction: Direction::Right })
            &&& message_of(DispatchCommands::MergeColumn { direction: horizontal })
                == (SocketMessage::MergeColumn { direction: Direction::Right })
            &&& message_of(DispatchCommands::Promote { direction: horizontal })
                == (SocketMessage::Promote { direction: Direction::Right })
        },
        horizontal.general() is Left <==> horizontal is Left,
        horizontal.general() is Right <==> horizontal is Right,
{
}

/// Each command without a direction sends the message of its own name, with the same mode or
/// workspace.
pub proof fn messages_carry_mode_and_workspace(mode: WindowMode, workspace_id: u32)
    ensures
        message_of(DispatchCommands::ExpandColumn) is ExpandColumn,
        message_of(DispatchCommands::ShrinkColumn) is ShrinkColumn,
        message_of(DispatchCommands::Center) is Center,
        message_of(DispatchCommands::CloseWindow) is CloseWindow,
        message_of(DispatchCommands::SetWindow { mode }) == (SocketMessage::SetWindow { mode }),
        message_of(DispatchCommands::SwitchWorkspace { workspace_id })
            == (SocketMessage::SwitchWorkspace { workspace_id }),
        message_of(DispatchCommands::SwapWorkspace { workspace_id })
            == (SocketMessage::SwapWorkspace { workspace_id }),
        message_of(DispatchCommands::MoveWindowToWorkspace { workspace_id })
            == (SocketMessage::MoveWindowToWorkspace { workspace_id }),
{
}

/// What is said once a command was carried out tells what was done.
pub proof fn success_tells_what_was_done(
    direction: Direction,
    horizontal: HorizontalDirection,
    workspace_id: u32,
)
    ensures
        success_of(DispatchCommands::Focus { direction }) == "focus changed"@,
        success_of(DispatchCommands::SwapColumn { direction: horizontal }) == "column swapped"@,
        success_of(DispatchCommands::MoveWindow { direction }) == "window moved"@,
        success_of(DispatchCommands::MergeColumn { direction: horizontal }) == "column merged"@,
        success_of(DispatchCommands::Promote { direction: horizontal }) == "window promoted"@,
        success_of(DispatchCommands::ExpandColumn) == "column expanded"@,
        success_of(DispatchCommands::ShrinkColumn) == "column shrunk"@,
        success_of(DispatchCommands::Center) == "viewport centered"@,
        success_of(DispatchCommands::CloseWindow) == "window closed"@,
        success_of(DispatchCommands::SetWindow { mode: WindowMode::Float }) == "window set to "@
            + "float"@,
        success_of(DispatchCommands::SetWindow { mode: WindowMode::Tile }) == "window set to "@
            + "tile"@,
        success_of(DispatchCommands::SetWindow { mode: WindowMode::Cycle }) == "window set to "@
            + "cycle"@,
        success_of(DispatchCommands::SwitchWorkspace { workspace_id }) == "workspace switched"@,
        success_of(DispatchCommands::SwapWorkspace { workspace_id }) == "workspace swapped"@,
        success_of(DispatchCommands::MoveWindowToWorkspace { workspace_id })
            == "window moved to workspace"@,
{
}

/// Different dispatch commands send different messages.
pub proof fn messages_tell_commands_apart(a: DispatchCommands, b: DispatchCommands)
    requires
        message_of(a) == message_of(b),
    ensures
        a == b,
{
}

// ---------------------------------------------------------------------------
// Answers
// ---------------------------------------------------------------------------

/// The line to print, or the error, for what came of sending a message.
pub open spec fn answer_of(
    response: Result<SocketResponse, String>,
    success: Seq<char>,
) -> Result<Seq<char>, Seq<char>> {
    match response {
        Err(cause) => Err("failed to send command: "@ + cause@),
        Ok(SocketResponse::Error { message }) => Err("daemon error: "@ + message@),
        Ok(_) => Ok("stm: "@ + success),
    }
}

/// Whether a result says what is due.
pub open spec fn says(res: Result<String, String>, due: Result<Seq<char>, Seq<char>>) -> bool {
    match due {
        Ok(line) => res is Ok && res->Ok_0@ == line,
        Err(message) => res is Err && res->Err_0@ == message,
    }
}

/// Success is told exactly when the message was sent and not refused. A refusal is told in the
/// words of the daemon, and a message that could not be sent with the cause.
pub proof fn success_is_told_only_when_it_came(
    response: Result<SocketResponse, String>,
    success: Seq<char>,
)
    ensures
        answer_of(response, success) is Ok <==> response is Ok && !(response->Ok_0 is Error),
        answer_of(response, success) is Ok ==> answer_of(response, success)->Ok_0 == "stm: "@
            + success,
        response is Err ==> answer_of(response, success) == Err::<Seq<char>, Seq<char>>(
            "failed to send command: "@ + response->Err_0@,
        ),
        response is Ok && response->Ok_0 is Error ==> answer_of(response, success) == Err::<
            Seq<char>,
            Seq<char>,
        >("daemon error: "@ + response->Ok_0->Error_message@),
{
}

/// A result says what is due exactly when it is the same kind with the same text.
pub proof fn results_say_exactly_what_is_due(
    res: Result<String, String>,
    due: Result<Seq<char>, Seq<char>>,
)
    requires
        says(res, due),
    ensures
        res is Ok <==> due is Ok,
        res is Ok ==> res->Ok_0@ == due->Ok_0,
        res is Err ==> res->Err_0@ == due->Err_0,
{
}

/// The line to print for what came of sending a message, or the error.
pub fn send_command(response: Result<SocketResponse, String>, success_msg: &str) -> (res: Result<
    String,
    String,
>)
    ensures
        says(res, answer_of(response, success_msg@)),
{
    match response {
        Err(cause) => Err(concat("failed to send command: ", cause.as_str())),
        Ok(SocketResponse::Done) => Ok(concat("stm: ", success_msg)),
        Ok(SocketResponse::Error { message }) => Err(concat("daemon error: ", message.as_str())),
        Ok(SocketResponse::Data { .. }) => Ok(concat("stm: ", success_msg)),
    }
}

/// A JSON text laid out for reading: what `serde_json` gives for the value that the text stands
/// for; none for a text that is not JSON.
pub uninterp spec fn pretty_json(text: Seq<char>) -> Option<Seq<char>>;

/// A JSON text laid out for reading.
///
/// The outside functions are `serde_json::from_str`, which reads the text as a value, and
/// `serde_json::to_string_pretty`, which writes the value with line breaks and indentation. The
/// contract claims only that the outcome is determined by the text.
#[verifier::external_body]
fn pretty(text: &str) -> (res: Option<String>)
    ensures
        match pretty_json(text@) {
            Some(p) => res is Some && res->Some_0@ == p,
            None => res is None,
        },
{
    match serde_json::from_str::<serde_json::Value>(text) {
        Ok(value) => serde_json::to_string_pretty(&value).ok(),
        Err(_) => None,
    }
}

/// The lines to print for what came of listing all windows, given the data laid out for reading
/// where that is possible: data is printed as it came where it is not.
pub fn query_answer(
    response: Result<SocketResponse, String>,
    formatted: Option<String>,
) -> (res: Result<String, String>)
    ensures
        match response {
            Err(cause) => res is Err && res->Err_0@ == "failed to send command: "@ + cause@,
            Ok(SocketResponse::Error { message }) => res is Err && res->Err_0@ == "daemon error: "@
                + message@,
            Ok(SocketResponse::Done) => res is Ok && res->Ok_0@ == "stm: ok"@,
            Ok(SocketResponse::Data { payload }) => res is Ok && res->Ok_0@ == match formatted {
                Some(text) => text@,
                None => payload@,
            },
        },
{
    match response {
        Err(cause) => Err(concat("failed to send command: ", cause.as_str())),
        Ok(SocketResponse::Data { payload }) => match formatted {
            Some(text) => Ok(text),
            None => Ok(payload),
        },
        Ok(SocketResponse::Error { message }) => Err(concat("daemon error: ", message.as_str())),
        Ok(SocketResponse::Done) => Ok("stm: ok".to_owned()),
    }
}

/// The lines to print for what came of listing all windows: the data laid out for reading.
pub fn cmd_query_all(response: Result<SocketResponse, String>) -> (res: Result<String, String>)
    ensures
        match response {
            Err(cause) => res is Err && res->Err_0@ == "failed to send command: "@ + cause@,
            Ok(SocketResponse::Error { message }) => res is Err && res->Err_0@ == "daemon error: "@
                + message@,
            Ok(SocketResponse::Done) => res is Ok && res->Ok_0@ == "stm: ok"@,
            Ok(SocketResponse::Data { payload }) => res is Ok && res->Ok_0@ == match pretty_json(
                payload@,
            ) {
                Some(text) => text,
                None => payload@,
            },
        },
{
    let formatted: Option<String> = match &response {
        Ok(SocketResponse::Data { payload }) => pretty(payload.as_str()),
        _ => None,
    };
    query_answer(response, formatted)
}

/// The message to send for listing all windows.
pub fn cmd_query() -> (res: SocketMessage)
    ensures
        res == SocketMessage::QueryWindowsAll,
{
    SocketMessage::QueryWindowsAll
}

/// The line for an error that ends the program.
pub fn error_line(message: &str) -> (res: String)
    ensures
        res@ == "stm: "@ + message@,
{
    concat("stm: ", message)
}

// ---------------------------------------------------------------------------
// Starting the daemon
// ---------------------------------------------------------------------------

/// Whether the daemon may be started: not while it is running.
pub fn start_gate(running: bool) -> (res: Result<(), String>)
    ensures
        res is Ok <==> !running,
        res is Err ==> res->Err_0@ == "daemon is already running"@,
{
    if running {
        return Err("daemon is already running".to_owned());
    }
    Ok(())
}

/// Whether the configuration lets the daemon start, from what came of loading its two files.
/// Settings that cannot be loaded keep it from starting; rules that cannot be loaded only give a
/// warning to print.
pub fn preflight_config_check(
    app: &Result<FlowConfig, FlowError>,
    rules: &Result<WindowRulesConfig, FlowError>,
) -> (res: Result<Option<String>, String>)
    ensures
        match *app {
            Err(e) => res is Err && res->Err_0@ == "stm: cannot start: "@ + e.text(),
            Ok(_) => res is Ok && match *rules {
                Err(e) => res->Ok_0 is Some && res->Ok_0->Some_0@ == "stm: warning: "@ + e.text()
                    + "; using default window rules"@,
                Ok(_) => res->Ok_0 is None,
            },
        },
{
    if let Err(e) = app {
        let text: String = e.to_string();
        return Err(concat("stm: cannot start: ", text.as_str()));
    }
    match rules {
        Err(e) => {
            let text: String = e.to_string();
            Ok(Some(concat3("stm: warning: ", text.as_str(), "; using default window rules")))
        },
        Ok(_) => Ok(None),
    }
}

/// The two files that are looked at before the daemon is started.
pub fn preflight_paths(cli_override: Option<&str>, env: &DirEnv) -> (res: (String, String))
    ensures
        exists|dir: Seq<char>|
            {
                &&& #[trigger] crate::config::dirs::is_config_dir(cli_override, *env, dir)
                &&& joined(dir, "flow.toml"@, res.0@)
                &&& joined(dir, "flow-rules.toml"@, res.1@)
            },
{
    let dir: String = resolve_config_dir(cli_override, env);
    (user_app_config_path_in(dir.as_str()), user_rules_path_in(dir.as_str()))
}

/// Path of the daemon, next to the running program. It is an error where the program has no
/// path, or its path no directory.
pub fn daemon_exe_path(current_exe: Result<String, String>) -> (res: Result<String, String>)
    ensures
        match current_exe {
            Err(cause) => res is Err && res->Err_0@ == "cannot determine current executable: "@
                + cause@,
            Ok(exe) => exists|dir: Option<Seq<char>>| #[trigger]
                fits_parent(exe@, dir) && is_daemon_exe_in(dir, res),
        },
{
    let exe: String = match current_exe {
        Ok(exe) => exe,
        Err(cause) => return Err(
            concat("cannot determine current executable: ", cause.as_str()),
        ),
    };
    let dir: Option<String> = parent(exe.as_str());
    assert(fits_parent(exe@, text_of(dir)));
    daemon_exe_in(dir)
}

/// A program whose path ends in a name has a daemon next to it, and that of a program in a
/// directory lies in the same directory. On a system where a backslash is part of a name, the
/// directory ends at the last slash.
pub proof fn daemon_is_next_to_the_program(
    exe: Seq<char>,
    parent: Option<Seq<char>>,
    res: Result<String, String>,
)
    requires
        fits_parent(exe, parent),
        is_daemon_exe_in(parent, res),
    ensures
        ends_in_a_name(exe) ==> res is Ok,
        forall|dir: Seq<char>, name: Seq<char>| #[trigger]
            is_entry(dir, name, exe) ==> res is Ok && joined(dir, "stmd.exe"@, res->Ok_0@),
        forall|dir: Seq<char>, name: Seq<char>, outer: Seq<char>, rest: Seq<char>|
            #[trigger] is_backslash_entry(dir, name, exe) && #[trigger] is_slash_entry(
                outer,
                rest,
                exe,
            ) ==> res is Ok && (joined(dir, "stmd.exe"@, res->Ok_0@) || joined(
                outer,
                "stmd.exe"@,
                res->Ok_0@,
            )),
        forall|dir: Seq<char>, name: Seq<char>|
            #[trigger] is_backslash_entry(dir, name, exe) && !exe.contains('/') ==> res is Ok && (
            joined(dir, "stmd.exe"@, res->Ok_0@) || joined(
                Seq::<char>::empty(),
                "stmd.exe"@,
                res->Ok_0@,
            )),
{
    if !exe.contains('/') && exe.len() > 0 {
        assert forall|i: int| 0 <= i < exe.len() implies #[trigger] exe[i] != '/' by {
            assert(exe.contains(exe[i]));
        }
        assert(is_slash_entry(Seq::empty(), exe, exe));
    }
    assert forall|dir: Seq<char>, name: Seq<char>|
        #[trigger] is_backslash_entry(dir, name, exe) implies exe.len() > 0 by {
        assert(exe.last() == name.last());
    }
}

/// Whether this is the path of the daemon in the directory of the running program, or the error
/// where there is no such directory.
pub open spec fn is_daemon_exe_in(dir: Option<Seq<char>>, res: Result<String, String>) -> bool {
    match dir {
        Some(d) => res is Ok && joined(d, "stmd.exe"@, res->Ok_0@),
        None => res is Err && res->Err_0@ == "cannot determine executable directory"@,
    }
}

/// Path of the daemon in the directory of the running program, where that is known.
pub fn daemon_exe_in(dir: Option<String>) -> (res: Result<String, String>)
    ensures
        is_daemon_exe_in(text_of(dir), res),
{
    match dir {
        Some(d) => {
            proof {
                reveal_strlit("stmd.exe");
            }
            Ok(join(d.as_str(), "stmd.exe"))
        },
        None => Err("cannot determine executable directory".to_owned()),
    }
}

/// The daemon to start, if it exists.
pub fn find_daemon_exe(path: String, found: bool) -> (res: Result<String, String>)
    ensures
        if found {
            res == Ok::<String, String>(path)
        } else {
            res is Err && res->Err_0@ == "daemon binary not found at "@ + path@
        },
{
    if found {
        return Ok(path);
    }
    Err(concat("daemon binary not found at ", path.as_str()))
}

/// The arguments of the daemon: where to write its log, if that was asked for.
pub fn daemon_args(log_file: Option<&str>) -> (res: Vec<String>)
    ensures
        match log_file {
            Some(path) => res@.len() == 2 && res@[0]@ == "--log-file"@ && res@[1]@ == path@,
            None => res@.len() == 0,
        },
{
    let mut args: Vec<String> = Vec::new();
    if let Some(path) = log_file {
        args.push("--log-file".to_owned());
        args.push(path.to_owned());
    }
    args
}

/// The result of starting the daemon. It is tried as a process of its own first and, where that
/// fails, as a plain one; the error is that of the last try.
pub fn spawn_daemon(
    exe: &str,
    detached: Result<(), String>,
    plain: Result<(), String>,
) -> (res: Result<(), String>)
    ensures
        res is Ok <==> detached is Ok || plain is Ok,
        res is Err ==> res->Err_0@ == "failed to spawn daemon ("@ + exe@ + "): "@ + plain->Err_0@,
{
    if detached.is_ok() {
        return Ok(());
    }
    match plain {
        Ok(()) => Ok(()),
        Err(cause) => {
            let mut s: String = concat3("failed to spawn daemon (", exe, "): ");
            s.append(cause.as_str());
            Err(s)
        },
    }
}

/// What waiting for the daemon comes down to at one moment.
#[derive(Debug, Clone, PartialEq)]
pub enum WaitStep {
    /// It is ready.
    Ready,
    /// It took too long.
    TimedOut(String),
    /// Look again after this many milliseconds.
    Sleep(u64),
}

/// Decides what to do while waiting for the daemon, from whether it is running and for how many
/// milliseconds it was waited for.
pub fn wait_for_daemon(running: bool, waited_ms: u64) -> (res: WaitStep)
    ensures
        if running {
            res is Ready
        } else if waited_ms >= DAEMON_START_TIMEOUT_SECS * 1000 {
            res is TimedOut && res->TimedOut_0@ == "timed out waiting for daemon to start"@
        } else {
            res == WaitStep::Sleep(DAEMON_POLL_MS)
        },
{
    if running {
        return WaitStep::Ready;
    }
    if waited_ms >= DAEMON_START_TIMEOUT_SECS * 1000 {
        return WaitStep::TimedOut("timed out waiting for daemon to start".to_owned());
    }
    WaitStep::Sleep(DAEMON_POLL_MS)
}

// ---------------------------------------------------------------------------
// The editor
// ---------------------------------------------------------------------------

/// Whether a setting is there and not empty.
pub open spec fn is_set(value: Option<&str>) -> bool {
    value is Some && value->Some_0@.len() > 0
}

/// The editor: from the environment variable `EDITOR`, else from `VISUAL`, else the one that
/// every system has. A variable that is empty does not count.
pub fn resolve_editor(editor: Option<&str>, visual: Option<&str>) -> (res: Result<String, String>)
    ensures
        res is Ok,
        res->Ok_0@ == if is_set(editor) {
            editor->Some_0@
        } else if is_set(visual) {
            visual->Some_0@
        } else {
            "notepad.exe"@
        },
{
    if let Some(e) = editor {
        if !e.is_empty() {
            return Ok(e.to_owned());
        }
    }
    if let Some(v) = visual {
        if !v.is_empty() {
            return Ok(v.to_owned());
        }
    }
    Ok("notepad.exe".to_owned())
}

/// How an editor ended.
#[derive(Debug)]
pub enum EditorExit {
    /// It did not start.
    NotStarted(String),
    /// It ended well.
    Success,
    /// It ended with a status, where one is known.
    Failure(Option<i32>),
}

/// The result of running an editor.
pub fn cmd_config_edit(editor: &str, exit: EditorExit) -> (res: Result<(), String>)
    ensures
        match exit {
            EditorExit::NotStarted(cause) => res is Err && res->Err_0@
                == "failed to start editor '"@ + editor@ + "': "@ + cause@,
            EditorExit::Success => res is Ok,
            EditorExit::Failure(code) => res is Err && res->Err_0@ == "editor '"@ + editor@
                + "' exited with status "@ + match code {
                Some(c) => signed_decimal(c as int),
                None => "unknown"@,
            },
        },
{
    match exit {
        EditorExit::NotStarted(cause) => {
            let mut s: String = concat3("failed to start editor '", editor, "': ");
            s.append(cause.as_str());
            Err(s)
        },
        EditorExit::Success => Ok(()),
        EditorExit::Failure(code) => {
            let status: String = match code {
                Some(c) => signed_decimal_text(c as i64),
                None => "unknown".to_owned(),
            };
            let mut s: String = concat3("editor '", editor, "' exited with status ");
            s.append(status.as_str());
            Err(s)
        },
    }
}

/// An editor is always found, and its name is not empty.
pub proof fn editor_is_never_empty(editor: Option<&str>, visual: Option<&str>, name: Seq<char>)
    requires
        name == if is_set(editor) {
            editor->Some_0@
        } else if is_set(visual) {
            visual->Some_0@
        } else {
            "notepad.exe"@
        },
    ensures
        name.len() > 0,
{
    reveal_strlit("notepad.exe");
}

/// A setting counts exactly when it is there and holds at least one character.
pub proof fn empty_settings_do_not_count(value: &str)
    ensures
        !is_set(None),
        is_set(Some(value)) <==> value@.len() > 0,
{
}

/// The daemon is `stmd.exe` in the directory of the program; without one there is an error that
/// says so.
pub proof fn daemon_is_stmd_exe(dir: Option<Seq<char>>, res: Result<String, String>)
    requires
        is_daemon_exe_in(dir, res),
    ensures
        dir is Some ==> res is Ok && joined(dir->Some_0, "stmd.exe"@, res->Ok_0@),
        dir is None ==> res is Err && res->Err_0@ == "cannot determine executable directory"@,
{
}

} // verus!
