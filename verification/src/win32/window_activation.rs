use std::collections::{HashMap, HashSet};

use vstd::prelude::*;

use super::Hwnd;

verus! {

broadcast use vstd::std_specs::hash::group_hash_axioms;

/// How strongly a guarded window refuses activation.
#[derive(Debug, Clone, Copy, PartialEq, Eq, Structural)]
pub enum ActivationGuardMode {
    /// Mouse clicks do not activate the window; focus and activation messages pass.
    MouseOnly,
    /// Mouse activation, focus and activation messages are all refused.
    Strict,
}

/// The original window procedure of a guarded window and its guard mode.
#[derive(Debug, Clone, Copy, PartialEq, Eq, Structural)]
pub struct WndProcEntry {
    pub previous: isize,
    pub mode: ActivationGuardMode,
}

/// The mode after asking for `requested` on a window guarded with `current`:
/// a strict request makes the guard strict, a mouse-only one leaves it as it was.
pub open spec fn upgraded_mode(
    current: ActivationGuardMode,
    requested: ActivationGuardMode,
) -> ActivationGuardMode {
    if requested == ActivationGuardMode::Strict {
        ActivationGuardMode::Strict
    } else {
        current
    }
}

/// The windows whose window procedure the activation guard has replaced, each
/// with the procedure it replaced.
pub struct WndProcRegistry {
    pub entries: HashMap<isize, WndProcEntry>,
}

impl View for WndProcRegistry {
    type V = Map<isize, WndProcEntry>;

    open spec fn view(&self) -> Map<isize, WndProcEntry> {
        self.entries@
    }
}

impl WndProcRegistry {
    /// No window guarded yet.
    pub fn new() -> (r: Self)
        ensures
            r@ == Map::<isize, WndProcEntry>::empty(),
    {
        WndProcRegistry { entries: HashMap::new() }
    }

    /// First half of guarding `hwnd` with `mode`: when the window is already
    /// guarded, its guard is made strict if `mode` is strict and nothing needs
    /// replacing; otherwise the window procedure must be replaced (returns true).
    pub fn begin_install(&mut self, hwnd: Hwnd, mode: ActivationGuardMode) -> (needs_subclass:
        bool)
        ensures
            needs_subclass == !old(self)@.contains_key(hwnd.0),
            needs_subclass ==> final(self)@ == old(self)@,
            !needs_subclass ==> final(self)@ == old(self)@.insert(
                hwnd.0,
                WndProcEntry {
                    previous: old(self)@[hwnd.0].previous,
                    mode: upgraded_mode(old(self)@[hwnd.0].mode, mode),
                },
            ),
    {
        match self.entries.get(&hwnd.0) {
            Some(entry) => {
                let entry = *entry;
                match mode {
                    ActivationGuardMode::Strict => {
                        self.entries.insert(
                            hwnd.0,
                            WndProcEntry { previous: entry.previous, mode: ActivationGuardMode::Strict },
                        );
                    },
                    ActivationGuardMode::MouseOnly => {
                        assert(self@.insert(hwnd.0, entry) =~= self@);
                    },
                }
                false
            },
            None => true,
        }
    }

    /// Second half of guarding `hwnd`: records the window procedure that the
    /// window system reports as replaced. Zero means the replacement failed and
    /// nothing is recorded (returns false).
    pub fn finish_install(&mut self, hwnd: Hwnd, mode: ActivationGuardMode, previous: isize) -> (r:
        bool)
        ensures
            r == (previous != 0),
            r ==> final(self)@ == old(self)@.insert(hwnd.0, WndProcEntry { previous, mode }),
            !r ==> final(self)@ == old(self)@,
    {
        if previous == 0 {
            return false;
        }
        self.entries.insert(hwnd.0, WndProcEntry { previous, mode });
        true
    }

    /// Stops guarding `hwnd` and returns the window procedure to put back. A
    /// handle that no longer names a window (`is_window` false) is left alone.
    pub fn uninstall_no_activate_handler_for_hwnd(&mut self, hwnd: Hwnd, is_window: bool) -> (r:
        Option<isize>)
        ensures
            !is_window ==> r is None && final(self)@ == old(self)@,
            is_window ==> final(self)@ == old(self)@.remove(hwnd.0),
            is_window ==> r == (if old(self)@.contains_key(hwnd.0) {
                Some(old(self)@[hwnd.0].previous)
            } else {
                None
            }),
    {
        if !is_window {
            return None;
        }
        match self.entries.remove(&hwnd.0) {
            Some(entry) => Some(entry.previous),
            None => None,
        }
    }

    /// How strongly `hwnd` refuses activation, if it is guarded.
    pub fn activation_guard_mode(&self, hwnd: Hwnd) -> (r: Option<ActivationGuardMode>)
        ensures
            r == (if self@.contains_key(hwnd.0) {
                Some(self@[hwnd.0].mode)
            } else {
                None
            }),
    {
        match self.entries.get(&hwnd.0) {
            Some(entry) => Some(entry.mode),
            None => None,
        }
    }

    /// The window procedure that messages of `hwnd` are handed on to, if it is guarded.
    pub fn previous_window_proc(&self, hwnd: Hwnd) -> (r: Option<isize>)
        ensures
            r == (if self@.contains_key(hwnd.0) {
                Some(self@[hwnd.0].previous)
            } else {
                None
            }),
    {
        match self.entries.get(&hwnd.0) {
            Some(entry) => Some(entry.previous),
            None => None,
        }
    }
}

/// The window messages that the activation guard looks at.
#[derive(Debug, Clone, Copy, PartialEq, Eq, Structural)]
pub enum ActivationMessage {
    MouseActivate,
    SetFocus,
    Activate,
    NcActivate,
    Other,
}

/// What a guarded window procedure answers.
#[derive(Debug, Clone, Copy, PartialEq, Eq, Structural)]
pub enum WndProcReply {
    /// Answer a mouse activation with "do not activate".
    MouseNoActivate,
    /// Answer with this result without handing the message on.
    Return(isize),
    /// Hand the message on to the original window procedure.
    Forward,
}

/// The answer of a guarded window procedure: mouse activation is always refused;
/// a strict guard also swallows focus and activation messages and reports
/// non-client activation as handled; everything else is handed on.
pub open spec fn spec_no_activate_reply(
    mode: Option<ActivationGuardMode>,
    message: ActivationMessage,
) -> WndProcReply {
    if message == ActivationMessage::MouseActivate {
        WndProcReply::MouseNoActivate
    } else if mode == Some(ActivationGuardMode::Strict) && (message == ActivationMessage::SetFocus
        || message == ActivationMessage::Activate) {
        WndProcReply::Return(0)
    } else if mode == Some(ActivationGuardMode::Strict) && message
        == ActivationMessage::NcActivate {
        WndProcReply::Return(1)
    } else {
        WndProcReply::Forward
    }
}

/// What the activation guard answers: a mouse activation is refused under every
/// guard; a guard that is not strict (the mouse-only guard of docked windows and
/// overlays, or no guard) hands every other message on to the window's own
/// procedure; a strict guard swallows focus and activation messages (answering
/// 0), reports non-client activation as handled (answering 1), and hands on the
/// rest. Whatever the guard, only those three messages are ever kept from the
/// window's own procedure.
pub proof fn lemma_guard_replies(mode: Option<ActivationGuardMode>, message: ActivationMessage)
    ensures
        message == ActivationMessage::MouseActivate ==> spec_no_activate_reply(mode, message)
            == WndProcReply::MouseNoActivate,
        mode != Some(ActivationGuardMode::Strict) && message != ActivationMessage::MouseActivate
            ==> spec_no_activate_reply(mode, message) == WndProcReply::Forward,
        mode == Some(ActivationGuardMode::Strict) && (message == ActivationMessage::SetFocus
            || message == ActivationMessage::Activate) ==> spec_no_activate_reply(mode, message)
            == WndProcReply::Return(0),
        mode == Some(ActivationGuardMode::Strict) && message == ActivationMessage::NcActivate
            ==> spec_no_activate_reply(mode, message) == WndProcReply::Return(1),
        message == ActivationMessage::Other ==> spec_no_activate_reply(mode, message)
            == WndProcReply::Forward,
{
}

/// Decides how a guarded window procedure answers `message`, given the guard
/// mode of its window.
pub fn no_activate_reply(mode: Option<ActivationGuardMode>, message: ActivationMessage) -> (r:
    WndProcReply)
    ensures
        r == spec_no_activate_reply(mode, message),
        message == ActivationMessage::MouseActivate ==> r == WndProcReply::MouseNoActivate,
        mode != Some(ActivationGuardMode::Strict) && message != ActivationMessage::MouseActivate
            ==> r == WndProcReply::Forward,
{
    proof {
        lemma_guard_replies(mode, message);
    }
    if let ActivationMessage::MouseActivate = message {
        return WndProcReply::MouseNoActivate;
    }
    if let Some(ActivationGuardMode::Strict) = mode {
        match message {
            ActivationMessage::SetFocus | ActivationMessage::Activate => {
                return WndProcReply::Return(0);
            },
            ActivationMessage::NcActivate => {
                return WndProcReply::Return(1);
            },
            _ => {},
        }
    }
    WndProcReply::Forward
}

/// The windows that must never keep the keyboard foreground.
pub struct FocusGuards {
    pub guarded: HashSet<isize>,
}

impl View for FocusGuards {
    type V = Set<isize>;

    open spec fn view(&self) -> Set<isize> {
        self.guarded@
    }
}

impl FocusGuards {
    /// No window guarded yet.
    pub fn new() -> (r: Self)
        ensures
            r@ == Set::<isize>::empty(),
    {
        FocusGuards { guarded: HashSet::new() }
    }

    /// Whether `hwnd` itself is guarded.
    pub fn contains(&self, hwnd: Hwnd) -> (r: bool)
        ensures
            r == self@.contains(hwnd.0),
    {
        self.guarded.contains(&hwnd.0)
    }

    /// Whether `hwnd` is guarded or lies in the tree of a guarded window;
    /// `guarded_ancestor` is the window system's answer to whether some guarded
    /// window has `hwnd` among its descendants.
    pub fn is_guarded_or_child(&self, hwnd: Hwnd, guarded_ancestor: bool) -> (r: bool)
        ensures
            r == (self@.contains(hwnd.0) || guarded_ancestor),
    {
        self.contains(hwnd) || guarded_ancestor
    }
}

/// Registers a window that must never keep the keyboard foreground.
pub fn register_focus_guard_window(guards: &mut FocusGuards, hwnd: Hwnd)
    ensures
        final(guards)@ == old(guards)@.insert(hwnd.0),
{
    guards.guarded.insert(hwnd.0);
}

/// Stops guarding a window against keeping the keyboard foreground.
pub fn unregister_focus_guard_window(guards: &mut FocusGuards, hwnd: Hwnd)
    ensures
        final(guards)@ == old(guards)@.remove(hwnd.0),
{
    guards.guarded.remove(&hwnd.0);
}

/// The user's keyboard target: the foreground top-level window and the control
/// in it that had the focus.
#[derive(Debug, Clone, Copy, PartialEq, Eq, Structural)]
pub struct KeyboardTarget {
    pub foreground: isize,
    pub focus: Option<isize>,
}

/// The keyboard target of `foreground` with the focus handle the window system
/// reported (zero when nothing had the focus).
pub open spec fn spec_keyboard_target(foreground: Hwnd, raw_focus: isize) -> KeyboardTarget {
    KeyboardTarget {
        foreground: foreground.0,
        focus: if raw_focus == 0 {
            None
        } else {
            Some(raw_focus)
        },
    }
}

/// A captured keyboard target is the given foreground window with exactly the
/// focus handle the window system reported, whenever one was reported (also when
/// the foreground window itself holds the focus); the focus captured does not
/// depend on which window is in the foreground.
pub proof fn lemma_keyboard_target_keeps_focus(foreground: Hwnd, raw_focus: isize, other: Hwnd)
    ensures
        spec_keyboard_target(foreground, raw_focus).foreground == foreground.0,
        raw_focus != 0 ==> spec_keyboard_target(foreground, raw_focus).focus == Some(raw_focus),
        raw_focus == 0 ==> spec_keyboard_target(foreground, raw_focus).focus == None::<isize>,
        spec_keyboard_target(foreground, raw_focus).focus == spec_keyboard_target(
            other,
            raw_focus,
        ).focus,
{
}

/// Captures the keyboard target of `foreground`.
pub fn capture_keyboard_target(foreground: Hwnd, raw_focus: isize) -> (r: KeyboardTarget)
    ensures
        r == spec_keyboard_target(foreground, raw_focus),
        r.foreground == foreground.0,
        raw_focus != 0 ==> r.focus == Some(raw_focus),
        raw_focus == 0 ==> r.focus == None::<isize>,
{
    proof {
        lemma_keyboard_target_keeps_focus(foreground, raw_focus, foreground);
    }
    let focus = if raw_focus != 0 {
        Some(raw_focus)
    } else {
        None
    };
    KeyboardTarget { foreground: foreground.0, focus }
}

/// Records the user's current keyboard target for later restoration; a handle
/// that no longer names a window (`is_window` false) is not recorded.
pub fn remember_foreground(
    last_keyboard_target: &mut Option<KeyboardTarget>,
    hwnd: Hwnd,
    is_window: bool,
    raw_focus: isize,
)
    ensures
        *final(last_keyboard_target) == (if is_window {
            Some(spec_keyboard_target(hwnd, raw_focus))
        } else {
            *old(last_keyboard_target)
        }),
{
    if !is_window {
        return;
    }
    *last_keyboard_target = Some(capture_keyboard_target(hwnd, raw_focus));
}

/// Where to move the keyboard back: the foreground window and, when it still
/// exists, the control that had the focus.
#[derive(Debug, Clone, Copy, PartialEq, Eq, Structural)]
pub struct FocusRestore {
    pub foreground: Hwnd,
    pub focus: Option<Hwnd>,
}

/// Decides whether and where keyboard focus goes back after a guarded window took
/// the foreground: to the last recorded target, unless there is none, its window
/// is gone, or it is itself guarded. The three flags are the window system's
/// answers for the recorded foreground window and the recorded focus.
pub fn restore_last_regular_foreground(
    last_keyboard_target: Option<KeyboardTarget>,
    foreground_is_window: bool,
    foreground_guarded: bool,
    focus_is_window: bool,
) -> (r: Option<FocusRestore>)
    ensures
        r == (match last_keyboard_target {
            None => None,
            Some(t) => if !foreground_is_window || foreground_guarded {
                None
            } else {
                Some(
                    FocusRestore {
                        foreground: Hwnd(t.foreground),
                        focus: match t.focus {
                            Some(f) => if focus_is_window {
                                Some(Hwnd(f))
                            } else {
                                None
                            },
                            None => None,
                        },
                    },
                )
            },
        }),
{
    let previous = match last_keyboard_target {
        Some(t) => t,
        None => {
            return None;
        },
    };
    if !foreground_is_window || foreground_guarded {
        return None;
    }
    let focus = match previous.focus {
        Some(f) => if focus_is_window {
            Some(Hwnd(f))
        } else {
            None
        },
        None => None,
    };
    Some(FocusRestore { foreground: Hwnd(previous.foreground), focus })
}

/// What to do when the foreground window changes.
#[derive(Debug, Clone, Copy, PartialEq, Eq, Structural)]
pub enum ForegroundAction {
    /// No window: nothing to do.
    Ignore,
    /// A guarded window took the foreground: move the keyboard back.
    RestorePrevious,
    /// A regular window took the foreground: remember it as the keyboard target.
    Remember(Hwnd),
}

/// Decides what a change of foreground to `raw_hwnd` calls for; `guarded_or_child`
/// tells whether that window is guarded or lies in a guarded window's tree.
pub fn foreground_event_action(raw_hwnd: isize, guarded_or_child: bool) -> (r: ForegroundAction)
    ensures
        r == (if raw_hwnd == 0 {
            ForegroundAction::Ignore
        } else if guarded_or_child {
            ForegroundAction::RestorePrevious
        } else {
            ForegroundAction::Remember(Hwnd(raw_hwnd))
        }),
{
    if raw_hwnd == 0 {
        return ForegroundAction::Ignore;
    }
    if guarded_or_child {
        return ForegroundAction::RestorePrevious;
    }
    ForegroundAction::Remember(Hwnd(raw_hwnd))
}

/// Whether input queues must be joined to read or move the focus of a window
/// owned by thread `target_thread_id`: when that thread is known and is not ours.
pub fn should_attach_input(current_thread_id: u32, target_thread_id: u32) -> (r: bool)
    ensures
        r == (target_thread_id != 0 && target_thread_id != current_thread_id),
{
    target_thread_id != 0 && target_thread_id != current_thread_id
}

/// Guarding a window that is already guarded never loses the window procedure it
/// originally had, and never weakens its guard: a strict guard stays strict.
pub proof fn lemma_reinstall_keeps_original(
    entries: Map<isize, WndProcEntry>,
    hwnd: isize,
    mode: ActivationGuardMode,
)
    requires
        entries.contains_key(hwnd),
    ensures
        ({
            let after = entries.insert(
                hwnd,
                WndProcEntry {
                    previous: entries[hwnd].previous,
                    mode: upgraded_mode(entries[hwnd].mode, mode),
                },
            );
            &&& after[hwnd].previous == entries[hwnd].previous
            &&& entries[hwnd].mode == ActivationGuardMode::Strict ==> after[hwnd].mode
                == ActivationGuardMode::Strict
            &&& mode == ActivationGuardMode::Strict ==> after[hwnd].mode
                == ActivationGuardMode::Strict
            &&& after.dom() == entries.dom()
        }),
{
    assert(entries.insert(
        hwnd,
        WndProcEntry {
            previous: entries[hwnd].previous,
            mode: upgraded_mode(entries[hwnd].mode, mode),
        },
    ).dom() =~= entries.dom());
}

/// Removing the guard of a window hands back the window procedure that guarding
/// it replaced, and leaves the registry as it was before the window was guarded.
pub proof fn lemma_install_then_uninstall(
    entries: Map<isize, WndProcEntry>,
    hwnd: isize,
    mode: ActivationGuardMode,
    previous: isize,
)
    requires
        !entries.contains_key(hwnd),
        previous != 0,
    ensures
        ({
            let guarded = entries.insert(hwnd, WndProcEntry { previous, mode });
            &&& guarded.contains_key(hwnd)
            &&& guarded[hwnd].previous == previous
            &&& guarded.remove(hwnd) == entries
        }),
{
    assert(entries.insert(hwnd, WndProcEntry { previous, mode }).remove(hwnd) =~= entries);
}

/// A window registered as a focus guard is treated as guarded, together with its
/// whole window tree, until it is unregistered.
pub proof fn lemma_focus_guard_register_unregister(guarded: Set<isize>, hwnd: isize)
    ensures
        guarded.insert(hwnd).contains(hwnd),
        !guarded.insert(hwnd).remove(hwnd).contains(hwnd),
        forall|other: isize| other != hwnd ==> (#[trigger] guarded.insert(hwnd).remove(hwnd).contains(other) == guarded.contains(other)),
{
}

/// The handle of the installed foreground-change hook, if any.
#[derive(Debug, Clone, Copy, PartialEq, Eq, Structural)]
pub struct ForegroundHook {
    pub handle: Option<isize>,
}

impl ForegroundHook {
    /// No hook installed.
    pub fn new() -> (r: Self)
        ensures
            r.handle is None,
    {
        ForegroundHook { handle: None }
    }

    /// Whether the hook still has to be installed: it is installed only once.
    pub fn needs_install(&self) -> (r: bool)
        ensures
            r == (self.handle is None),
    {
        self.handle.is_none()
    }

    /// Records the handle that installing the hook returned; a null handle means
    /// the installation failed, and nothing is recorded (returns false).
    pub fn record(&mut self, handle: isize) -> (r: bool)
        ensures
            r == (handle != 0),
            r ==> final(self).handle == Some(handle),
            !r ==> *final(self) == *old(self),
    {
        if handle == 0 {
            return false;
        }
        self.handle = Some(handle);
        true
    }
}

} // verus!
