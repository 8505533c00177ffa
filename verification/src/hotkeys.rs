use vstd::prelude::*;

use crate::history::WindowPrevState;
use crate::hotkey_parser::{KeyName, ParsedHotkey, key_name_spec, parse_hotkey_str, parse_key_name, is_hotkey_text, hotkey_tokens, key_tokens, hotkey_text, is_modifier_token, lemma_hotkey_text_round_trip};
use crate::mode::AppMode;

verus! {

/// What a global hotkey asks the application to do.
#[derive(Clone, Copy, PartialEq, Eq, Debug, Structural)]
pub enum HotkeyAction {
    /// Enter the screenshot mode, remembering how the window was before.
    SetScreenshotMode { prev_state: WindowPrevState },
}

/// A hotkey to register: its modifiers and its key.
#[derive(Clone, Copy, PartialEq, Eq, Debug, Structural)]
pub struct HotkeyBinding {
    pub ctrl: bool,
    pub alt: bool,
    pub shift: bool,
    pub cmd: bool,
    pub key: KeyName,
}

/// The binding for a parsed hotkey whose key name is known.
pub open spec fn binding_spec(ctrl: bool, alt: bool, shift: bool, cmd: bool, key_name: Seq<char>) -> Option<HotkeyBinding> {
    match key_name_spec(key_name) {
        Some(key) => Some(HotkeyBinding { ctrl, alt, shift, cmd, key }),
        None => None,
    }
}

/// The screenshot hotkey used when the configured one cannot be read: `Alt+S`.
pub open spec fn default_screenshot_binding() -> HotkeyBinding {
    HotkeyBinding { ctrl: false, alt: true, shift: false, cmd: false, key: KeyName::Letter('S') }
}

/// The binding for a parsed hotkey, when its key name is one of the known keys.
pub fn parsed_to_hotkey(parsed: &ParsedHotkey) -> (r: Option<HotkeyBinding>)
    ensures
        r == binding_spec(parsed.ctrl, parsed.alt, parsed.shift, parsed.cmd, parsed.key_name@),
        r is Some <==> key_name_spec(parsed.key_name@) is Some,
        r matches Some(b) ==> b.ctrl == parsed.ctrl && b.alt == parsed.alt && b.shift
            == parsed.shift && b.cmd == parsed.cmd && Some(b.key) == key_name_spec(
            parsed.key_name@,
        ),
{
    match parse_key_name(parsed.key_name.as_str()) {
        Some(key) => Some(
            HotkeyBinding {
                ctrl: parsed.ctrl,
                alt: parsed.alt,
                shift: parsed.shift,
                cmd: parsed.cmd,
                key,
            },
        ),
        None => None,
    }
}

/// The binding a configured text names, when it reads as a hotkey with a known key.
pub open spec fn configured_binding(configured: Seq<char>) -> Option<HotkeyBinding> {
    if is_hotkey_text(configured) {
        let parts = hotkey_tokens(configured);
        binding_spec(
            parts.contains("Ctrl"@),
            parts.contains("Alt"@),
            parts.contains("Shift"@),
            parts.contains("Cmd"@) || parts.contains("Super"@),
            key_tokens(parts)[0],
        )
    } else {
        None
    }
}

/// The binding a configured text names, when it reads as a hotkey with a known key.
pub fn binding_for_text(configured: &str) -> (r: Option<HotkeyBinding>)
    ensures
        r == configured_binding(configured@),
{
    match parse_hotkey_str(configured) {
        Some(parsed) => parsed_to_hotkey(&parsed),
        None => None,
    }
}

/// The screenshot hotkey at start-up: the configured text read as a hotkey when it is one
/// with a known key, `Alt+S` otherwise.
pub fn screenshot_binding(configured: &str) -> (r: HotkeyBinding)
    ensures
        r == match configured_binding(configured@) {
            Some(b) => b,
            None => default_screenshot_binding(),
        },
{
    match binding_for_text(configured) {
        Some(b) => b,
        None => HotkeyBinding {
            ctrl: false,
            alt: true,
            shift: false,
            cmd: false,
            key: KeyName::Letter('S'),
        },
    }
}

/// The screenshot hotkey after the settings changed: the newly configured text read as a
/// hotkey when it is one with a known key; otherwise the hotkey in use stays.
pub fn rebind_screenshot(current: HotkeyBinding, configured: &str) -> (r: HotkeyBinding)
    ensures
        r == match configured_binding(configured@) {
            Some(b) => b,
            None => current,
        },
{
    match binding_for_text(configured) {
        Some(b) => b,
        None => current,
    }
}

/// How the window stood when the screenshot hotkey was pressed: hidden in the tray when
/// not visible, else minimized or normal. The second value tells whether the window is to
/// be marked visible now, which is so for any state but normal.
pub fn hotkey_prev_state(is_visible: bool, is_minimized: bool) -> (r: (WindowPrevState, bool))
    ensures
        r.0 == if !is_visible {
            WindowPrevState::Tray
        } else if is_minimized {
            WindowPrevState::Minimized
        } else {
            WindowPrevState::Normal
        },
        r.1 == (r.0 != WindowPrevState::Normal),
{
    let state = if !is_visible {
        WindowPrevState::Tray
    } else if is_minimized {
        WindowPrevState::Minimized
    } else {
        WindowPrevState::Normal
    };
    (state, state != WindowPrevState::Normal)
}

/// The actions for the hotkey events of one frame, each an event id with the window state
/// it saw. Only events of the screenshot hotkey count, and at most one of them per frame,
/// the first; none while the screenshot mode is already on.
pub fn collect_hotkey_actions(
    events: &Vec<(u32, WindowPrevState)>,
    show_id: u32,
    mode: AppMode,
) -> (r: Vec<HotkeyAction>)
    ensures
        mode == AppMode::Screenshot ==> r@.len() == 0,
        mode != AppMode::Screenshot ==> {
            &&& (forall|i: int| 0 <= i < events@.len() ==> (#[trigger] events@[i]).0 != show_id)
                ==> r@.len() == 0
            &&& forall|i: int|
                0 <= i < events@.len() && (#[trigger] events@[i]).0 == show_id && (forall|j: int|
                    0 <= j < i ==> events@[j].0 != show_id) ==> r@ == seq![
                    HotkeyAction::SetScreenshotMode { prev_state: events@[i].1 },
                ]
        },
{
    let mut actions: Vec<HotkeyAction> = Vec::new();
    let mut triggered = false;
    let mut i: usize = 0;
    while i < events.len()
        invariant
            i <= events@.len(),
            triggered == (actions@.len() == 1),
            actions@.len() <= 1,
            mode == AppMode::Screenshot ==> actions@.len() == 0,
            mode != AppMode::Screenshot ==> {
                &&& triggered == exists|j: int| 0 <= j < i && (#[trigger] events@[j]).0 == show_id
                &&& forall|j: int|
                    0 <= j < i && (#[trigger] events@[j]).0 == show_id && (forall|l: int|
                        0 <= l < j ==> events@[l].0 != show_id) ==> actions@ == seq![
                        HotkeyAction::SetScreenshotMode { prev_state: events@[j].1 },
                    ]
            },
        decreases events@.len() - i,
    {
        let (id, prev_state) = events[i];
        if id == show_id {
            if mode != AppMode::Screenshot && !triggered {
                actions.push(HotkeyAction::SetScreenshotMode { prev_state });
                triggered = true;
                assert(actions@ =~= seq![HotkeyAction::SetScreenshotMode { prev_state }]);
            }
        }
        i = i + 1;
    }
    actions
}

/// A binding keeps every modifier of the hotkey it is made from, and its key is the one the
/// key name denotes; there is a binding exactly when the key name denotes a key.
pub proof fn lemma_binding_keeps_modifiers(ctrl: bool, alt: bool, shift: bool, cmd: bool, key_name: Seq<char>)
    ensures
        binding_spec(ctrl, alt, shift, cmd, key_name) is Some <==> key_name_spec(key_name) is Some,
        binding_spec(ctrl, alt, shift, cmd, key_name) matches Some(b) ==> {
            &&& b.ctrl == ctrl
            &&& b.alt == alt
            &&& b.shift == shift
            &&& b.cmd == cmd
            &&& Some(b.key) == key_name_spec(key_name)
        },
{
}

/// A hotkey written in the configuration syntax, with any of the modifiers Ctrl, Alt, Shift
/// and Cmd and a known key, is bound with exactly those modifiers and that key.
pub proof fn lemma_written_hotkey_binding(ctrl: bool, alt: bool, shift: bool, cmd: bool, key_name: Seq<char>, key: KeyName)
    requires
        key_name_spec(key_name) == Some(key),
        !key_name.contains('+'),
        !is_modifier_token(key_name),
    ensures
        configured_binding(hotkey_text(ctrl, alt, shift, cmd, key_name)) == Some(
            HotkeyBinding { ctrl, alt, shift, cmd, key },
        ),
{
    reveal_strlit("Space");
    reveal_strlit("Enter");
    reveal_strlit("Escape");
    reveal_strlit("Tab");
    reveal_strlit("Backspace");
    assert(key_name.len() > 0);
    lemma_hotkey_text_round_trip(ctrl, alt, shift, cmd, key_name);
}

} // verus!
