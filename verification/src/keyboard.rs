//! The input coordinator: fuses the two OS event sources — the system-wide
//! low-level key observer and the registered global hot-keys — into one
//! stream of commands, and drives the switching session and the mode with
//! them.
//!
//! The observer is the only source that reliably reports the modifier's
//! release; the hot-key path is the sole authority for the direction
//! letters, so the observer never swallows them.  The modifier state
//! reflects the most recent observed transition only, so duplicate press
//! notifications from either source cannot corrupt it.

use vstd::prelude::*;
use crate::indicator::StatusIndicator;
use crate::mode::{Mode, ModeManager, toggled};
use crate::window::{
    Direction,
    ExclusionRuleSet,
    WindowInfo,
    WindowManager,
    activation_target,
    enumerated,
    is_initial_selection,
    moved_index,
};

verus! {

/// Virtual-key code of the chord modifier (the Alt key).
pub const MODIFIER_VK: u32 = 0x12;

/// Virtual-key code of the Escape key.
pub const ESCAPE_VK: u32 = 0x1B;

/// Virtual-key code of the letter H, the "previous" direction key.
pub const LEFT_KEY_VK: u32 = 0x48;

/// Virtual-key code of the letter J, the "down" direction key.
pub const DOWN_KEY_VK: u32 = 0x4A;

/// Virtual-key code of the letter K, the "up" direction key.
pub const UP_KEY_VK: u32 = 0x4B;

/// Virtual-key code of the letter L, the "next" direction key.
pub const RIGHT_KEY_VK: u32 = 0x4C;

/// Identifier under which the "previous" hot-key (modifier + H) registers.
pub const HOTKEY_PREVIOUS: u32 = 1;

/// Identifier under which the "next" hot-key (modifier + L) registers.
pub const HOTKEY_NEXT: u32 = 2;

/// One of the four directional letter keys.
#[derive(Debug, Clone, Copy, PartialEq, Eq, Structural)]
pub enum Key {
    Left,
    Right,
    Up,
    Down,
}

/// One observed transition of a key: pressed down or released.
#[derive(Debug, Clone, Copy, PartialEq, Eq, Structural)]
pub enum KeyTransition {
    Pressed,
    Released,
}

/// One command of the fused stream that drives the switching session and
/// the mode.
#[derive(Debug, Clone, Copy, PartialEq, Eq, Structural)]
pub enum Command {
    /// The chord modifier went down: a session starts.
    ChordStart,
    /// A direction key fired while the chord was held.
    Direction(Direction),
    /// The chord modifier went up: the session ends and activates.
    ChordEnd,
    /// Escape outside a session: the mode flips.
    ModeToggle,
}

/// What the key observer decided for one event: the command it emits, if
/// any, and whether the event was consumed (kept from the rest of the OS).
#[derive(Debug, Clone, Copy, PartialEq, Eq)]
pub struct KeyDecision {
    /// The command the event translates to, if any.
    pub command: Option<Command>,
    /// Whether the observer marks the event handled.
    pub handled: bool,
}

/// What applying one command asks the surroundings to do.
#[derive(Debug, Clone, Copy, PartialEq, Eq)]
pub enum CommandOutcome {
    /// Nothing to do; the command was dropped or changed nothing.
    NoChange,
    /// A session started: show the switcher overlay.
    SessionStarted,
    /// The selection moved: repaint the switcher overlay.
    SelectionChanged,
    /// The session ended: hide the overlay and, if a handle is given, make
    /// a best-effort restore-and-focus call on it.
    SessionEnded(Option<u64>),
    /// The mode flipped to the given value: update the indicator display.
    ModeChanged(Mode),
}

/// The direction a letter key stands for.
pub open spec fn direction_of_key(k: Key) -> Direction {
    match k {
        Key::Left => Direction::Left,
        Key::Right => Direction::Right,
        Key::Up => Direction::Up,
        Key::Down => Direction::Down,
    }
}

/// The letter key a virtual-key code names, if it is one of the four.
pub open spec fn key_of_vk(vk: u32) -> Option<Key> {
    if vk == LEFT_KEY_VK {
        Some(Key::Left)
    } else if vk == RIGHT_KEY_VK {
        Some(Key::Right)
    } else if vk == UP_KEY_VK {
        Some(Key::Up)
    } else if vk == DOWN_KEY_VK {
        Some(Key::Down)
    } else {
        None
    }
}

/// The letter key a registered hot-key identifier is bound to.
pub open spec fn key_of_hotkey(id: u32) -> Option<Key> {
    if id == HOTKEY_PREVIOUS {
        Some(Key::Left)
    } else if id == HOTKEY_NEXT {
        Some(Key::Right)
    } else {
        None
    }
}

/// The modifier state after one observed key transition: a modifier event
/// sets it to the transition's direction, anything else leaves it alone.
pub open spec fn modifier_after(pressed: bool, vk: u32, t: KeyTransition) -> bool {
    if vk == MODIFIER_VK {
        t == KeyTransition::Pressed
    } else {
        pressed
    }
}

/// The command one observed key transition emits, given the modifier state:
/// a modifier press while not pressed starts the chord, a modifier release
/// while pressed ends it (the sole release path), and Escape pressed
/// outside a session toggles the mode.  The direction letters are left to
/// the hot-key path, and everything else passes through silently.
pub open spec fn command_of_key(pressed: bool, vk: u32, t: KeyTransition) -> Option<Command> {
    if vk == MODIFIER_VK {
        if t == KeyTransition::Pressed && !pressed {
            Some(Command::ChordStart)
        } else if t == KeyTransition::Released && pressed {
            Some(Command::ChordEnd)
        } else {
            None
        }
    } else if vk == ESCAPE_VK && t == KeyTransition::Pressed && !pressed {
        Some(Command::ModeToggle)
    } else {
        None
    }
}

/// Whether the observer consumes the event: modifier presses always, a
/// modifier release only when it ends a chord; no other key is intercepted.
pub open spec fn key_handled(pressed: bool, vk: u32, t: KeyTransition) -> bool {
    if vk == MODIFIER_VK {
        t == KeyTransition::Pressed || pressed
    } else {
        false
    }
}

/// The command a hot-key firing emits: its bound direction while the
/// modifier is held, and nothing otherwise — the two sources are fed
/// independently by the OS, so a hot-key seen without the modifier is
/// suppressed rather than trusted.
pub open spec fn command_of_hotkey(pressed: bool, id: u32) -> Option<Command> {
    if pressed {
        match key_of_hotkey(id) {
            Some(k) => Some(Command::Direction(direction_of_key(k))),
            None => None,
        }
    } else {
        None
    }
}

/// The virtual-key code of a letter key (used when registering hot-keys).
pub fn vk_of_key(k: Key) -> (r: u32)
    ensures
        key_of_vk(r) == Some(k),
{
    match k {
        Key::Left => LEFT_KEY_VK,
        Key::Right => RIGHT_KEY_VK,
        Key::Up => UP_KEY_VK,
        Key::Down => DOWN_KEY_VK,
    }
}

/// The coordinator: owns the mode, the switching session, the indicator
/// state, and the chord modifier's observed state.
pub struct KeyboardManager {
    mode_manager: ModeManager,
    window_manager: WindowManager,
    indicator: Option<StatusIndicator>,
    alt_pressed: bool,
}

impl KeyboardManager {
    /// Whether the chord modifier is currently observed as pressed.
    pub closed spec fn modifier_pressed(&self) -> bool {
        self.alt_pressed
    }

    /// The switching session's state.
    pub closed spec fn session(&self) -> WindowManager {
        self.window_manager
    }

    /// The mode manager's state.
    pub closed spec fn mode_state(&self) -> ModeManager {
        self.mode_manager
    }

    /// The indicator's state, once one is attached.
    pub closed spec fn indicator_state(&self) -> Option<StatusIndicator> {
        self.indicator
    }

    /// The coordinator is well-formed when its session is.
    pub open spec fn wf(&self) -> bool {
        self.session().wf()
    }

    /// A fresh coordinator: modifier released, session idle, mode Desktop,
    /// no indicator attached.
    pub fn new() -> (r: Self)
        ensures
            r.wf(),
            !r.modifier_pressed(),
            !r.session().active(),
            r.session().candidates() == Seq::<u64>::empty(),
            r.session().selected() == 0,
            r.mode_state().mode() == Mode::Desktop,
            r.indicator_state() is None,
    {
        KeyboardManager {
            mode_manager: ModeManager::new(),
            window_manager: WindowManager::new(),
            indicator: None,
            alt_pressed: false,
        }
    }

    /// Attaches the indicator whose display the coordinator keeps current.
    pub fn set_indicator(&mut self, indicator: StatusIndicator)
        ensures
            final(self).indicator_state() == Some(indicator),
            final(self).modifier_pressed() == old(self).modifier_pressed(),
            final(self).session() == old(self).session(),
            final(self).mode_state() == old(self).mode_state(),
    {
        self.indicator = Some(indicator);
    }

    /// Handles one event of the low-level key observer: updates the
    /// modifier state, and reports the command the event emits and whether
    /// the event is consumed.  Nothing else of the coordinator changes; the
    /// caller routes the command through [`Self::apply_command`].
    pub fn handle_key(&mut self, vk_code: u32, transition: KeyTransition) -> (r: KeyDecision)
        ensures
            final(self).session() == old(self).session(),
            final(self).mode_state() == old(self).mode_state(),
            final(self).indicator_state() == old(self).indicator_state(),
            final(self).modifier_pressed() == modifier_after(
                old(self).modifier_pressed(),
                vk_code,
                transition,
            ),
            r.command == command_of_key(old(self).modifier_pressed(), vk_code, transition),
            r.handled == key_handled(old(self).modifier_pressed(), vk_code, transition),
    {
        if vk_code == MODIFIER_VK {
            match transition {
                KeyTransition::Pressed => {
                    let was_pressed = self.alt_pressed;
                    self.alt_pressed = true;
                    KeyDecision {
                        command: if was_pressed {
                            None
                        } else {
                            Some(Command::ChordStart)
                        },
                        handled: true,
                    }
                },
                KeyTransition::Released => {
                    let was_pressed = self.alt_pressed;
                    self.alt_pressed = false;
                    KeyDecision {
                        command: if was_pressed {
                            Some(Command::ChordEnd)
                        } else {
                            None
                        },
                        handled: was_pressed,
                    }
                },
            }
        } else if vk_code == ESCAPE_VK && !self.alt_pressed {
            match transition {
                KeyTransition::Pressed => KeyDecision {
                    command: Some(Command::ModeToggle),
                    handled: false,
                },
                KeyTransition::Released => KeyDecision { command: None, handled: false },
            }
        } else {
            KeyDecision { command: None, handled: false }
        }
    }

    /// Handles one fired hot-key: reports the direction command it emits,
    /// or nothing when the modifier is not held or the identifier is not a
    /// registered binding.
    pub fn handle_hotkey(&self, hotkey_id: u32) -> (r: Option<Command>)
        ensures
            r == command_of_hotkey(self.modifier_pressed(), hotkey_id),
    {
        if !self.alt_pressed {
            return None;
        }
        if hotkey_id == HOTKEY_PREVIOUS {
            Some(Command::Direction(Direction::Left))
        } else if hotkey_id == HOTKEY_NEXT {
            Some(Command::Direction(Direction::Right))
        } else {
            None
        }
    }

    /// Applies one command to the session and the mode.  `windows`,
    /// `foreground` and `rules` are the OS snapshot a `ChordStart` consumes;
    /// the other commands ignore them.  The returned outcome tells the
    /// caller what to carry out against the OS and the overlay.
    pub fn apply_command(
        &mut self,
        command: Command,
        windows: &Vec<WindowInfo>,
        foreground: &Option<WindowInfo>,
        rules: &ExclusionRuleSet,
    ) -> (r: CommandOutcome)
        requires
            old(self).wf(),
        ensures
            final(self).wf(),
            final(self).modifier_pressed() == old(self).modifier_pressed(),
            command == Command::ChordStart ==> {
                &&& final(self).mode_state() == old(self).mode_state()
                &&& final(self).indicator_state() == old(self).indicator_state()
                &&& (old(self).session().active() ==> final(self).session() == old(self).session()
                    && r == CommandOutcome::NoChange)
                &&& (!old(self).session().active() ==> {
                    &&& final(self).session().active()
                    &&& final(self).session().candidates() == enumerated(
                        windows@,
                        *foreground,
                        *rules,
                    )
                    &&& is_initial_selection(
                        final(self).session().selected(),
                        final(self).session().candidates(),
                        *foreground,
                    )
                    &&& r == CommandOutcome::SessionStarted
                })
            },
            command matches Command::Direction(d) ==> {
                &&& final(self).mode_state() == old(self).mode_state()
                &&& final(self).indicator_state() == old(self).indicator_state()
                &&& final(self).session().active() == old(self).session().active()
                &&& final(self).session().candidates() == old(self).session().candidates()
                &&& (!old(self).session().active() ==> final(self).session() == old(
                    self,
                ).session())
                &&& (old(self).session().active() ==> final(self).session().selected()
                    == moved_index(
                    d,
                    old(self).session().selected(),
                    old(self).session().candidates().len() as int,
                ))
                &&& r == (if old(self).session().active() && old(
                    self,
                ).session().candidates().len() > 1 && (d == Direction::Left || d
                    == Direction::Right) {
                    CommandOutcome::SelectionChanged
                } else {
                    CommandOutcome::NoChange
                })
            },
            command == Command::ChordEnd ==> {
                &&& final(self).mode_state() == old(self).mode_state()
                &&& final(self).indicator_state() == old(self).indicator_state()
                &&& (!old(self).session().active() ==> final(self).session() == old(self).session()
                    && r == CommandOutcome::NoChange)
                &&& (old(self).session().active() ==> {
                    &&& !final(self).session().active()
                    &&& final(self).session().candidates().len() == 0
                    &&& final(self).session().selected() == 0
                    &&& r == CommandOutcome::SessionEnded(
                        activation_target(
                            old(self).session().candidates(),
                            old(self).session().selected(),
                        ),
                    )
                })
            },
            command == Command::ModeToggle ==> {
                &&& final(self).session() == old(self).session()
                &&& final(self).mode_state().mode() == toggled(old(self).mode_state().mode())
                &&& r == CommandOutcome::ModeChanged(toggled(old(self).mode_state().mode()))
                &&& (final(self).indicator_state() is Some) == (old(
                    self,
                ).indicator_state() is Some)
                &&& (final(self).indicator_state() matches Some(ind) ==> ind.displayed()
                    == toggled(old(self).mode_state().mode()))
            },
    {
        match command {
            Command::ChordStart => {
                let started = self.window_manager.start_switching(windows, foreground, rules);
                if started {
                    CommandOutcome::SessionStarted
                } else {
                    CommandOutcome::NoChange
                }
            },
            Command::Direction(d) => {
                let changed = self.window_manager.select_window(d);
                if changed {
                    CommandOutcome::SelectionChanged
                } else {
                    CommandOutcome::NoChange
                }
            },
            Command::ChordEnd => {
                if self.window_manager.is_switching() {
                    let target = self.window_manager.finish_switching();
                    CommandOutcome::SessionEnded(target)
                } else {
                    CommandOutcome::NoChange
                }
            },
            Command::ModeToggle => {
                self.mode_manager.toggle_mode();
                let new_mode = *self.mode_manager.current_mode();
                match &mut self.indicator {
                    Some(ind) => {
                        ind.update_mode(&new_mode);
                    },
                    None => {},
                }
                CommandOutcome::ModeChanged(new_mode)
            },
        }
    }

    /// The switching session, for reading the candidate list and selection
    /// (the overlay renders from these) and for driving it directly.
    pub fn get_window_manager(&mut self) -> (r: &mut WindowManager)
        ensures
            *r == old(self).session(),
            final(self).session() == *final(r),
            final(self).modifier_pressed() == old(self).modifier_pressed(),
            final(self).mode_state() == old(self).mode_state(),
            final(self).indicator_state() == old(self).indicator_state(),
    {
        &mut self.window_manager
    }

    /// The mode currently held.
    pub fn current_mode(&self) -> (r: Mode)
        ensures
            r == self.mode_state().mode(),
    {
        *self.mode_manager.current_mode()
    }
}

} // verus!
