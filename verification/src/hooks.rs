//! The input-hook dispatcher: classification of the events the global
//! keyboard and mouse hooks deliver, the shutdown coordination they drive,
//! the install/uninstall state machine of the two hook registrations, and
//! the log lines each event produces.
//!
//! The operating system delivers the raw callbacks and owns the hook
//! chain; the host's callback shells hand the event fields to
//! [`respond_to_keyboard`] and [`respond_to_mouse`] and act on the
//! returned decision.  Both decisions demand forwarding to the next
//! handler on every path: no event is ever swallowed.

use vstd::prelude::*;

use crate::text::{decimal, signed_decimal};
use crate::text::{i32_decimal, u32_decimal};

verus! {

/// Virtual-key code of the escape key.
pub const VK_ESCAPE: u32 = 0x1B;

/// Virtual-key code of the letter C.
pub const VK_C: u32 = 0x43;

/// Message code of an ordinary key-down event.
pub const WM_KEYDOWN: u32 = 0x100;

/// Message code of a system key-down event.
pub const WM_SYSKEYDOWN: u32 = 0x104;

/// Message code of a primary-button-down mouse event.
pub const WM_LBUTTONDOWN: u32 = 0x201;

// ---------------------------------------------------------------------------
// Shutdown coordination
// ---------------------------------------------------------------------------

/// The process-wide shutdown flag.  It starts live and can only ever be
/// stopped: no method of this type re-arms it, so once stopped it stays
/// stopped for the life of the value.
pub struct ShutdownSignal {
    live: bool,
}

impl ShutdownSignal {
    /// Whether the process should keep running.
    pub closed spec fn is_live(&self) -> bool {
        self.live
    }

    /// A fresh signal: the process runs.
    pub fn new() -> (s: Self)
        ensures
            s.is_live(),
    {
        ShutdownSignal { live: true }
    }

    /// Requests shutdown.  Idempotent, and irreversible: the signal is
    /// stopped afterwards whatever it held before.
    pub fn request_stop(&mut self)
        ensures
            !final(self).is_live(),
    {
        self.live = false;
    }

    /// Reads the flag, as the message loop does on each iteration.
    pub fn should_run(&self) -> (b: bool)
        ensures
            b == self.is_live(),
    {
        self.live
    }
}

// ---------------------------------------------------------------------------
// Hook registration state machine
// ---------------------------------------------------------------------------

/// The installed/uninstalled state of the two hook registrations.  The
/// opaque handles themselves stay with the host; this tracks the state
/// machine their owner must follow.
pub struct HookPairState {
    pub keyboard_installed: bool,
    pub mouse_installed: bool,
}

impl HookPairState {
    /// Both hooks registered.
    pub open spec fn fully_installed(&self) -> bool {
        self.keyboard_installed && self.mouse_installed
    }

    /// Neither hook registered.
    pub open spec fn fully_uninstalled(&self) -> bool {
        !self.keyboard_installed && !self.mouse_installed
    }

    /// The state before any installation.
    pub fn new() -> (s: Self)
        ensures
            s.fully_uninstalled(),
    {
        HookPairState { keyboard_installed: false, mouse_installed: false }
    }

    /// Applies the outcome of the two registration calls the host made.
    /// The operation succeeds only when both calls did; if either failed,
    /// the whole installation fails and the state is left unchanged, so
    /// the host must release whichever registration did succeed.
    pub fn install(&mut self, mouse_registered: bool, keyboard_registered: bool) -> (ok: bool)
        requires
            old(self).fully_uninstalled(),
        ensures
            ok == (mouse_registered && keyboard_registered),
            ok ==> final(self).fully_installed(),
            !ok ==> *final(self) == *old(self),
    {
        if mouse_registered && keyboard_registered {
            self.mouse_installed = true;
            self.keyboard_installed = true;
            true
        } else {
            false
        }
    }

    /// Moves any installed hook back to uninstalled.  Idempotent: from
    /// any state it leaves both hooks uninstalled.
    pub fn uninstall(&mut self)
        ensures
            final(self).fully_uninstalled(),
    {
        self.mouse_installed = false;
        self.keyboard_installed = false;
    }
}

// ---------------------------------------------------------------------------
// Keyboard event classification
// ---------------------------------------------------------------------------

/// Whether a hook callback invocation carries a key-down event this
/// process examines: the hook code admits processing and the message is a
/// key-down (ordinary or system).
pub open spec fn is_key_down_message(n_code: i32, message: u32) -> bool {
    n_code >= 0 && (message == WM_KEYDOWN || message == WM_SYSKEYDOWN)
}

/// Whether a hook callback invocation carries a primary-button-down mouse
/// event.
pub open spec fn is_mouse_down_message(n_code: i32, message: u32) -> bool {
    n_code >= 0 && message == WM_LBUTTONDOWN
}

/// What a key-down event means to the dispatcher.
#[derive(Clone, Copy, PartialEq, Eq, Structural, Debug)]
pub enum KeyOutcome {
    /// The escape key: shut the process down.
    ShutdownEsc,
    /// The letter C with the control key held: shut the process down.
    ShutdownCtrlC,
    /// Any other key: log it with the foreground application's context.
    LogKeyDown,
}

/// The classification of a key-down event: escape always shuts down;
/// C shuts down exactly when the control key is held; everything else is
/// logged.
pub open spec fn key_outcome(vk_code: u32, ctrl_held: bool) -> KeyOutcome {
    if vk_code == VK_ESCAPE {
        KeyOutcome::ShutdownEsc
    } else if vk_code == VK_C && ctrl_held {
        KeyOutcome::ShutdownCtrlC
    } else {
        KeyOutcome::LogKeyDown
    }
}

/// Whether an outcome triggers shutdown.
pub open spec fn shuts_down(o: KeyOutcome) -> bool {
    o is ShutdownEsc || o is ShutdownCtrlC
}

/// Classifies one key-down event.  `ctrl_held` is the live state of the
/// control key at the time of the event, as the host queried it.
pub fn classify_key_down(vk_code: u32, ctrl_held: bool) -> (o: KeyOutcome)
    ensures
        o == key_outcome(vk_code, ctrl_held),
{
    if vk_code == VK_ESCAPE {
        KeyOutcome::ShutdownEsc
    } else if vk_code == VK_C && ctrl_held {
        KeyOutcome::ShutdownCtrlC
    } else {
        KeyOutcome::LogKeyDown
    }
}

/// The escape key always and only triggers the escape shutdown, whatever
/// the control key holds; and no key other than escape shuts the process
/// down while the control key is up.
pub proof fn lemma_esc_always_and_only(vk_code: u32, ctrl_held: bool)
    ensures
        key_outcome(VK_ESCAPE, ctrl_held) is ShutdownEsc,
        (key_outcome(vk_code, ctrl_held) is ShutdownEsc) == (vk_code == VK_ESCAPE),
        !ctrl_held ==> (shuts_down(key_outcome(vk_code, ctrl_held)) == (vk_code == VK_ESCAPE)),
{
}

/// The letter C shuts the process down exactly when the control key is
/// held: with it, shutdown; without it, the event is merely logged.
pub proof fn lemma_ctrl_c_needs_ctrl(ctrl_held: bool)
    ensures
        shuts_down(key_outcome(VK_C, ctrl_held)) == ctrl_held,
        !ctrl_held ==> key_outcome(VK_C, ctrl_held) is LogKeyDown,
{
}

// ---------------------------------------------------------------------------
// Callback decisions
// ---------------------------------------------------------------------------

/// The message logged when the escape key triggers shutdown.
pub open spec fn esc_shutdown_message() -> Seq<char> {
    "ESC key pressed — triggering shutdown."@
}

/// The message logged when the control-C combination triggers shutdown.
pub open spec fn ctrl_c_shutdown_message() -> Seq<char> {
    "Ctrl+C keyboard combo detected — triggering shutdown."@
}

/// What the host must do for one keyboard callback, besides forwarding.
pub enum KeyboardAction {
    /// Not a key-down event: nothing to do.
    Ignore,
    /// Log `line`, stop the shutdown signal and wake the message loop.
    Shutdown { line: String },
    /// Resolve the foreground application and log the key-down line for
    /// this virtual key.
    LogContext { vk_code: u32 },
}

/// The dispatcher's decision for one keyboard callback.
pub struct KeyboardResponse {
    pub action: KeyboardAction,
    /// Always true: the event must reach the next handler in the hook
    /// chain on every path, the shutdown path included.
    pub forward_event: bool,
}

/// Decides what one keyboard callback must do.  Events that are not
/// key-down are ignored; the escape key and the control-C combination
/// shut the process down; every other key-down is logged with its
/// foreground context.  Whatever the decision, the event is forwarded.
pub fn respond_to_keyboard(n_code: i32, message: u32, vk_code: u32, ctrl_held: bool) -> (r:
    KeyboardResponse)
    ensures
        r.forward_event,
        !is_key_down_message(n_code, message) ==> r.action is Ignore,
        is_key_down_message(n_code, message) ==> (match key_outcome(vk_code, ctrl_held) {
            KeyOutcome::ShutdownEsc => (r.action matches KeyboardAction::Shutdown { line }
                && line@ == esc_shutdown_message()),
            KeyOutcome::ShutdownCtrlC => (r.action matches KeyboardAction::Shutdown { line }
                && line@ == ctrl_c_shutdown_message()),
            KeyOutcome::LogKeyDown => (r.action matches KeyboardAction::LogContext { vk_code: v }
                && v == vk_code),
        }),
{
    if !(n_code >= 0 && (message == WM_KEYDOWN || message == WM_SYSKEYDOWN)) {
        return KeyboardResponse { action: KeyboardAction::Ignore, forward_event: true };
    }
    match classify_key_down(vk_code, ctrl_held) {
        KeyOutcome::ShutdownEsc => KeyboardResponse {
            action: KeyboardAction::Shutdown {
                line: String::from_str("ESC key pressed — triggering shutdown."),
            },
            forward_event: true,
        },
        KeyOutcome::ShutdownCtrlC => KeyboardResponse {
            action: KeyboardAction::Shutdown {
                line: String::from_str("Ctrl+C keyboard combo detected — triggering shutdown."),
            },
            forward_event: true,
        },
        KeyOutcome::LogKeyDown => KeyboardResponse {
            action: KeyboardAction::LogContext { vk_code },
            forward_event: true,
        },
    }
}

/// What the host must do for one mouse callback, besides forwarding.
#[derive(Clone, Copy, PartialEq, Eq, Structural, Debug)]
pub enum MouseAction {
    /// Not a primary-button-down event: nothing to do.
    Ignore,
    /// Log the button-down line, probe the element at this screen point,
    /// and log what the probe yielded.
    ProbePoint { x: i32, y: i32 },
}

/// The dispatcher's decision for one mouse callback.
pub struct MouseResponse {
    pub action: MouseAction,
    /// Always true: the event must reach the next handler in the hook
    /// chain on every path, probe failures included.
    pub forward_event: bool,
}

/// Decides what one mouse callback must do.  Only primary-button-down
/// events are examined; the event is forwarded in every case.
pub fn respond_to_mouse(n_code: i32, message: u32, x: i32, y: i32) -> (r: MouseResponse)
    ensures
        r.forward_event,
        !is_mouse_down_message(n_code, message) ==> r.action is Ignore,
        is_mouse_down_message(n_code, message) ==> (r.action matches MouseAction::ProbePoint {
            x: px,
            y: py,
        } && px == x && py == y),
{
    if n_code >= 0 && message == WM_LBUTTONDOWN {
        MouseResponse { action: MouseAction::ProbePoint { x, y }, forward_event: true }
    } else {
        MouseResponse { action: MouseAction::Ignore, forward_event: true }
    }
}

// ---------------------------------------------------------------------------
// Log lines
// ---------------------------------------------------------------------------

/// The line logged for an ordinary key-down event.
pub open spec fn key_down_line(app_name: Seq<char>, pid: u32, vk_code: u32) -> Seq<char> {
    "Key Down: App='"@ + app_name + "' (PID="@ + decimal(pid as nat) + "), vkCode: "@ + decimal(
        vk_code as nat,
    )
}

/// Builds the log line for an ordinary key-down event.
pub fn key_down_log_line(app_name: &str, pid: u32, vk_code: u32) -> (s: String)
    ensures
        s@ == key_down_line(app_name@, pid, vk_code),
{
    let mut s = String::from_str("Key Down: App='");
    s.append(app_name);
    s.append("' (PID=");
    s.append(u32_decimal(pid).as_str());
    s.append("), vkCode: ");
    s.append(u32_decimal(vk_code).as_str());
    proof {
        assert(s@ =~= key_down_line(app_name@, pid, vk_code));
    }
    s
}

/// The line logged when a primary-button-down event is seen, before the
/// element probe begins.
pub open spec fn mouse_down_line(x: int, y: int) -> Seq<char> {
    "Mouse Down: Pos=("@ + signed_decimal(x) + ", "@ + signed_decimal(y)
        + ") - Starting UIA lookup..."@
}

/// Builds the line logged when a primary-button-down event is seen.
pub fn mouse_down_log_line(x: i32, y: i32) -> (s: String)
    ensures
        s@ == mouse_down_line(x as int, y as int),
{
    let mut s = String::from_str("Mouse Down: Pos=(");
    s.append(i32_decimal(x).as_str());
    s.append(", ");
    s.append(i32_decimal(y).as_str());
    s.append(") - Starting UIA lookup...");
    proof {
        assert(s@ =~= mouse_down_line(x as int, y as int));
    }
    s
}

/// The line logged for a successfully probed element.
pub open spec fn element_line(
    app_name: Seq<char>,
    pid: u32,
    element_name: Seq<char>,
    automation_id: Seq<char>,
) -> Seq<char> {
    "  Element: App='"@ + app_name + "' (PID="@ + decimal(pid as nat) + "), Name='"@ + element_name
        + "', AutomationID='"@ + automation_id + "'"@
}

/// Builds the log line for a successfully probed element.
pub fn element_log_line(app_name: &str, pid: u32, element_name: &str, automation_id: &str) -> (s:
    String)
    ensures
        s@ == element_line(app_name@, pid, element_name@, automation_id@),
{
    let mut s = String::from_str("  Element: App='");
    s.append(app_name);
    s.append("' (PID=");
    s.append(u32_decimal(pid).as_str());
    s.append("), Name='");
    s.append(element_name);
    s.append("', AutomationID='");
    s.append(automation_id);
    s.append("'");
    proof {
        assert(s@ =~= element_line(app_name@, pid, element_name@, automation_id@));
    }
    s
}

/// The line logged when the element probe fails; `detail` describes the
/// error.  A probe failure is logged and nothing more: it never suppresses
/// forwarding.
pub open spec fn probe_error_line(detail: Seq<char>) -> Seq<char> {
    "  UIA Error: "@ + detail
}

/// Builds the log line for a failed element probe.
pub fn probe_error_log_line(detail: &str) -> (s: String)
    ensures
        s@ == probe_error_line(detail@),
{
    let mut s = String::from_str("  UIA Error: ");
    s.append(detail);
    proof {
        assert(s@ =~= probe_error_line(detail@));
    }
    s
}

} // verus!
