//! The desktop front end's state and its reaction to host events.
//!
//! The host polls its windowing layer, hands each event to [`Ui`], and
//! carries out the [`Command`] that comes back. Emulation speed is held in
//! percent of real time, always a multiple of 25.

use crate::input::Gamepad;
use vstd::prelude::*;

verus! {

/// Normal speed, in percent.
pub const DEFAULT_SPEED: u32 = 100;

/// Slowest speed, in percent.
pub const MIN_SPEED: u32 = 25;

/// Fastest speed, in percent.
pub const MAX_SPEED: u32 = 200;

/// What one press of a speed key adds or takes, in percent.
pub const SPEED_STEP: u32 = 25;

/// Axis readings up to this far from rest count as rest.
pub const GAMEPAD_AXIS_DEADZONE: i16 = 8000;

/// Frames in one on/off cycle of a turbo button.
pub const TURBO_PERIOD: u8 = 6;

/// The keys that the front end reacts to.
#[derive(Debug, Copy, Clone, PartialEq, Eq, Hash, Structural)]
pub enum Key {
    Escape,
    LCtrl,
    RShift,
    Return,
    Space,
    Equals,
    Minus,
    Num1,
    Num2,
    Num3,
    Num4,
    A,
    D,
    L,
    M,
    O,
    P,
    Q,
    R,
    S,
    V,
    X,
    Z,
    Up,
    Down,
    Left,
    Right,
    F9,
    F10,
    /// Any other key.
    Other,
}

/// The buttons of a host gamepad.
#[derive(Debug, Copy, Clone, PartialEq, Eq, Hash, Structural)]
pub enum Button {
    A,
    B,
    X,
    Y,
    Back,
    Start,
    LeftStick,
    RightStick,
    LeftShoulder,
    RightShoulder,
    DPadUp,
    DPadDown,
    DPadLeft,
    DPadRight,
    /// Any other button.
    Other,
}

/// The axes of a host gamepad.
#[derive(Debug, Copy, Clone, PartialEq, Eq, Hash, Structural)]
pub enum Axis {
    LeftX,
    LeftY,
    TriggerLeft,
    TriggerRight,
    /// Any other axis.
    Other,
}

/// An event of the host's windowing layer.
#[derive(Debug, Copy, Clone, PartialEq, Eq, Structural)]
pub enum Event {
    ControllerDeviceAdded { id: u32 },
    Quit,
    KeyDown { key: Key },
    KeyUp { key: Key },
    ControllerButtonDown { which: i32, button: Button },
    ControllerButtonUp { which: i32, button: Button },
    ControllerAxisMotion { which: i32, axis: Axis, value: i16 },
    /// Any other event.
    Other,
}

/// A feature that a key is reserved for and that does nothing yet.
#[derive(Debug, Copy, Clone, PartialEq, Eq, Structural)]
pub enum Pending {
    Open,
    Recording,
    Logging,
}

/// What the host is to do after an event.
#[derive(Debug, Copy, Clone, PartialEq, Eq, Structural)]
pub enum Command {
    /// Nothing is to be done.
    Nothing,
    /// Open the gamepad with this id and keep it as the first or second.
    OpenGamepad { id: u32 },
    Reset,
    PowerCycle,
    /// Run the console at this speed, in percent.
    SetSpeed { percent: u32 },
    SaveState { slot: u8 },
    LoadState { slot: u8 },
    EnableDebug,
    ToggleFullscreen,
    Screenshot,
    /// Tell the user that the feature is not there yet.
    NotImplemented { what: Pending },
}

/// The two controllers that the front end feeds.
#[derive(Debug, Copy, Clone, PartialEq, Eq, Structural)]
pub struct Input {
    pub gamepad1: Gamepad,
    pub gamepad2: Gamepad,
}

/// The front end's state.
#[derive(Debug, Copy, Clone, PartialEq, Eq, Structural)]
pub struct Ui {
    pub paused: bool,
    pub should_close: bool,
    pub fastforward: bool,
    pub sound_enabled: bool,
    /// Whether the left control key is held.
    pub lctrl: bool,
    pub save_slot: u8,
    /// Position in the turbo cycle; turbo buttons are on in its first half.
    pub turbo_clock: u8,
    /// Emulation speed in percent.
    pub speed: u32,
    pub input: Input,
}

/// A front end: its state, where it looks for cartridge images, and the
/// images found there.
#[derive(Debug, Clone)]
pub struct Frontend {
    pub ui: Ui,
    pub path: String,
    pub roms: Vec<String>,
}

/// Settings from which a [`Frontend`] is made.
#[derive(Debug, Clone)]
pub struct UiBuilder {
    pub path: String,
    pub debug: bool,
    pub fullscreen: bool,
    pub sound: bool,
    pub save_slot: u8,
    pub scale: usize,
}

/// The first controller after a key goes down or up. The turbo keys hold
/// their turbo button and press the primary one only in the on phase.
pub open spec fn spec_pad_key(pad: Gamepad, key: Key, down: bool, turbo: bool) -> Gamepad {
    match key {
        Key::Z => Gamepad { a: down, ..pad },
        Key::X => Gamepad { b: down, ..pad },
        Key::A => Gamepad { turbo_a: down, a: turbo && down, ..pad },
        Key::S => Gamepad { turbo_b: down, b: turbo && down, ..pad },
        Key::RShift => Gamepad { select: down, ..pad },
        Key::Return => Gamepad { start: down, ..pad },
        Key::Up => Gamepad { up: down, ..pad },
        Key::Down => Gamepad { down: down, ..pad },
        Key::Left => Gamepad { left: down, ..pad },
        Key::Right => Gamepad { right: down, ..pad },
        _ => pad,
    }
}

/// A controller after a button of its host gamepad goes down or up.
pub open spec fn spec_pad_button(pad: Gamepad, button: Button, down: bool, turbo: bool) -> Gamepad {
    match button {
        Button::A => Gamepad { a: down, ..pad },
        Button::B => Gamepad { b: down, ..pad },
        Button::X => Gamepad { turbo_a: down, a: turbo && down, ..pad },
        Button::Y => Gamepad { turbo_b: down, b: turbo && down, ..pad },
        Button::Back => Gamepad { select: down, ..pad },
        Button::Start => Gamepad { start: down, ..pad },
        Button::DPadUp => Gamepad { up: down, ..pad },
        Button::DPadDown => Gamepad { down: down, ..pad },
        Button::DPadLeft => Gamepad { left: down, ..pad },
        Button::DPadRight => Gamepad { right: down, ..pad },
        _ => pad,
    }
}

/// A controller after an axis of its host gamepad moves to `value`.
///
/// Beyond the dead zone a stick presses the direction it leans to and
/// leaves the opposite one alone; inside it releases both. A trigger
/// beyond the dead zone holds its turbo button.
pub open spec fn spec_pad_axis(pad: Gamepad, axis: Axis, value: i16, turbo: bool) -> Gamepad {
    match axis {
        Axis::LeftX => if value < -GAMEPAD_AXIS_DEADZONE {
            Gamepad { left: true, ..pad }
        } else if value > GAMEPAD_AXIS_DEADZONE {
            Gamepad { right: true, ..pad }
        } else {
            Gamepad { left: false, right: false, ..pad }
        },
        Axis::LeftY => if value < -GAMEPAD_AXIS_DEADZONE {
            Gamepad { up: true, ..pad }
        } else if value > GAMEPAD_AXIS_DEADZONE {
            Gamepad { down: true, ..pad }
        } else {
            Gamepad { up: false, down: false, ..pad }
        },
        Axis::TriggerLeft => if value > GAMEPAD_AXIS_DEADZONE {
            Gamepad { turbo_a: true, a: turbo, ..pad }
        } else {
            Gamepad { turbo_a: false, a: false, ..pad }
        },
        Axis::TriggerRight => if value > GAMEPAD_AXIS_DEADZONE {
            Gamepad { turbo_b: true, b: turbo, ..pad }
        } else {
            Gamepad { turbo_b: false, b: false, ..pad }
        },
        Axis::Other => pad,
    }
}

/// The first controller after a key goes down or up.
pub fn pad_key(pad: Gamepad, key: Key, down: bool, turbo: bool) -> (out: Gamepad)
    ensures
        out == spec_pad_key(pad, key, down, turbo),
{
    match key {
        Key::Z => Gamepad { a: down, ..pad },
        Key::X => Gamepad { b: down, ..pad },
        Key::A => Gamepad { turbo_a: down, a: turbo && down, ..pad },
        Key::S => Gamepad { turbo_b: down, b: turbo && down, ..pad },
        Key::RShift => Gamepad { select: down, ..pad },
        Key::Return => Gamepad { start: down, ..pad },
        Key::Up => Gamepad { up: down, ..pad },
        Key::Down => Gamepad { down: down, ..pad },
        Key::Left => Gamepad { left: down, ..pad },
        Key::Right => Gamepad { right: down, ..pad },
        _ => pad,
    }
}

/// A controller after a button of its host gamepad goes down or up.
pub fn pad_button(pad: Gamepad, button: Button, down: bool, turbo: bool) -> (out: Gamepad)
    ensures
        out == spec_pad_button(pad, button, down, turbo),
{
    match button {
        Button::A => Gamepad { a: down, ..pad },
        Button::B => Gamepad { b: down, ..pad },
        Button::X => Gamepad { turbo_a: down, a: turbo && down, ..pad },
        Button::Y => Gamepad { turbo_b: down, b: turbo && down, ..pad },
        Button::Back => Gamepad { select: down, ..pad },
        Button::Start => Gamepad { start: down, ..pad },
        Button::DPadUp => Gamepad { up: down, ..pad },
        Button::DPadDown => Gamepad { down: down, ..pad },
        Button::DPadLeft => Gamepad { left: down, ..pad },
        Button::DPadRight => Gamepad { right: down, ..pad },
        _ => pad,
    }
}

/// A controller after an axis of its host gamepad moves to `value`.
pub fn pad_axis(pad: Gamepad, axis: Axis, value: i16, turbo: bool) -> (out: Gamepad)
    ensures
        out == spec_pad_axis(pad, axis, value, turbo),
{
    match axis {
        Axis::LeftX => {
            if value < -GAMEPAD_AXIS_DEADZONE {
                Gamepad { left: true, ..pad }
            } else if value > GAMEPAD_AXIS_DEADZONE {
                Gamepad { right: true, ..pad }
            } else {
                Gamepad { left: false, right: false, ..pad }
            }
        },
        Axis::LeftY => {
            if value < -GAMEPAD_AXIS_DEADZONE {
                Gamepad { up: true, ..pad }
            } else if value > GAMEPAD_AXIS_DEADZONE {
                Gamepad { down: true, ..pad }
            } else {
                Gamepad { up: false, down: false, ..pad }
            }
        },
        Axis::TriggerLeft => {
            if value > GAMEPAD_AXIS_DEADZONE {
                Gamepad { turbo_a: true, a: turbo, ..pad }
            } else {
                Gamepad { turbo_a: false, a: false, ..pad }
            }
        },
        Axis::TriggerRight => {
            if value > GAMEPAD_AXIS_DEADZONE {
                Gamepad { turbo_b: true, b: turbo, ..pad }
            } else {
                Gamepad { turbo_b: false, b: false, ..pad }
            }
        },
        Axis::Other => pad,
    }
}

/// Whether `which` names one of the two gamepads.
pub open spec fn spec_known_gamepad(which: i32) -> bool {
    which == 0 || which == 1
}

/// The buttons that act on the front end itself when they go down.
pub open spec fn spec_is_control_button(button: Button) -> bool {
    button == Button::LeftStick || button == Button::RightStick || button == Button::LeftShoulder
        || button == Button::RightShoulder
}

/// Whether the front end can handle `event`: one that reaches a
/// controller must come from the first or the second gamepad.
pub open spec fn spec_event_ok(event: Event) -> bool {
    match event {
        Event::ControllerButtonDown { which, button } => spec_is_control_button(button)
            || spec_known_gamepad(which),
        Event::ControllerButtonUp { which, .. } => spec_known_gamepad(which),
        Event::ControllerAxisMotion { which, .. } => spec_known_gamepad(which),
        _ => true,
    }
}

impl Input {
    /// The controller fed by gamepad `which`.
    pub open spec fn spec_pad(self, which: i32) -> Gamepad {
        if which == 0 {
            self.gamepad1
        } else {
            self.gamepad2
        }
    }

    /// These controllers with the one fed by gamepad `which` replaced.
    pub open spec fn spec_with_pad(self, which: i32, pad: Gamepad) -> Input {
        if which == 0 {
            Input { gamepad1: pad, ..self }
        } else {
            Input { gamepad2: pad, ..self }
        }
    }
}

impl Ui {
    /// The turbo clock is inside its cycle, and the speed is a multiple of
    /// the step between the slowest and the fastest.
    pub open spec fn wf(self) -> bool {
        &&& self.turbo_clock < TURBO_PERIOD
        &&& MIN_SPEED <= self.speed <= MAX_SPEED
        &&& self.speed % SPEED_STEP == 0
    }

    /// Whether turbo buttons are in their on phase.
    pub open spec fn spec_turbo(self) -> bool {
        self.turbo_clock < 3
    }

    pub open spec fn spec_clock_turbo(self, turbo: bool) -> Ui {
        Ui {
            input: Input {
                gamepad1: self.input.gamepad1.spec_clock_turbo(turbo),
                gamepad2: self.input.gamepad2.spec_clock_turbo(turbo),
            },
            ..self
        }
    }

    pub open spec fn spec_toggle_menu(self) -> Ui {
        Ui { paused: !self.paused, ..self }
    }

    /// Fast-forward runs at the fastest speed; leaving it returns to normal
    /// speed, whatever the speed was before.
    pub open spec fn spec_toggle_fastforward(self) -> Ui {
        Ui {
            fastforward: !self.fastforward,
            speed: if self.fastforward {
                DEFAULT_SPEED
            } else {
                MAX_SPEED
            },
            ..self
        }
    }

    pub open spec fn spec_keyboard_event(self, key: Key, down: bool, turbo: bool) -> Ui {
        Ui {
            input: Input {
                gamepad1: spec_pad_key(self.input.gamepad1, key, down, turbo),
                ..self.input
            },
            ..self
        }
    }

    pub open spec fn spec_gamepad_button(self, which: i32, button: Button, down: bool, turbo: bool) -> Ui {
        Ui {
            input: self.input.spec_with_pad(
                which,
                spec_pad_button(self.input.spec_pad(which), button, down, turbo),
            ),
            ..self
        }
    }

    pub open spec fn spec_gamepad_axis(self, which: i32, axis: Axis, value: i16, turbo: bool) -> Ui {
        Ui {
            input: self.input.spec_with_pad(
                which,
                spec_pad_axis(self.input.spec_pad(which), axis, value, turbo),
            ),
            ..self
        }
    }

    /// The state after `key` goes down, and what the host is to do.
    ///
    /// With the left control key held, the letter, digit and sign keys are
    /// commands to the front end: digit `n` selects save slot `n`. Without
    /// it they go to the first controller, as every other key does.
    pub open spec fn spec_keydown(self, key: Key, turbo: bool) -> (Ui, Command) {
        match key {
            Key::Escape => (self.spec_toggle_menu(), Command::Nothing),
            Key::LCtrl => (Ui { lctrl: true, ..self }, Command::Nothing),
            Key::Space => (
                self.spec_toggle_fastforward(),
                Command::SetSpeed { percent: self.spec_toggle_fastforward().speed },
            ),
            Key::F10 => (self, Command::Screenshot),
            Key::F9 => (self, Command::NotImplemented { what: Pending::Logging }),
            _ => if self.lctrl {
                match key {
                    Key::O => (self, Command::NotImplemented { what: Pending::Open }),
                    Key::Q => (Ui { should_close: true, ..self }, Command::Nothing),
                    Key::R => (self, Command::Reset),
                    Key::P => (self, Command::PowerCycle),
                    Key::Equals => if self.speed < MAX_SPEED {
                        (
                            Ui { speed: (self.speed + SPEED_STEP) as u32, ..self },
                            Command::SetSpeed { percent: (self.speed + SPEED_STEP) as u32 },
                        )
                    } else {
                        (self, Command::Nothing)
                    },
                    Key::Minus => if self.speed > MIN_SPEED {
                        (
                            Ui { speed: (self.speed - SPEED_STEP) as u32, ..self },
                            Command::SetSpeed { percent: (self.speed - SPEED_STEP) as u32 },
                        )
                    } else {
                        (self, Command::Nothing)
                    },
                    Key::Num1 => (Ui { save_slot: 1, ..self }, Command::Nothing),
                    Key::Num2 => (Ui { save_slot: 2, ..self }, Command::Nothing),
                    Key::Num3 => (Ui { save_slot: 3, ..self }, Command::Nothing),
                    Key::Num4 => (Ui { save_slot: 4, ..self }, Command::Nothing),
                    Key::S => (self, Command::SaveState { slot: self.save_slot }),
                    Key::L => (self, Command::LoadState { slot: self.save_slot }),
                    Key::M => (Ui { sound_enabled: !self.sound_enabled, ..self }, Command::Nothing),
                    Key::V => (self, Command::NotImplemented { what: Pending::Recording }),
                    Key::D => (self, Command::EnableDebug),
                    Key::Return => (self, Command::ToggleFullscreen),
                    _ => (self.spec_keyboard_event(key, true, turbo), Command::Nothing),
                }
            } else {
                (self.spec_keyboard_event(key, true, turbo), Command::Nothing)
            },
        }
    }

    /// The state after `event`, and what the host is to do.
    pub open spec fn spec_handle_event(self, event: Event, turbo: bool) -> (Ui, Command) {
        match event {
            Event::ControllerDeviceAdded { id } => if id == 0 || id == 1 {
                (self, Command::OpenGamepad { id })
            } else {
                (self, Command::Nothing)
            },
            Event::Quit => (Ui { should_close: true, ..self }, Command::Nothing),
            Event::KeyDown { key } => self.spec_keydown(key, turbo),
            Event::KeyUp { key } => if key == Key::LCtrl {
                (Ui { lctrl: false, ..self }, Command::Nothing)
            } else {
                (self.spec_keyboard_event(key, false, turbo), Command::Nothing)
            },
            Event::ControllerButtonDown { which, button } => match button {
                Button::LeftStick => (self.spec_toggle_menu(), Command::Nothing),
                Button::RightStick => (
                    self.spec_toggle_fastforward(),
                    Command::SetSpeed { percent: self.spec_toggle_fastforward().speed },
                ),
                Button::LeftShoulder => (self, Command::SaveState { slot: self.save_slot }),
                Button::RightShoulder => (self, Command::LoadState { slot: self.save_slot }),
                _ => (self.spec_gamepad_button(which, button, true, turbo), Command::Nothing),
            },
            Event::ControllerButtonUp { which, button } => (
                self.spec_gamepad_button(which, button, false, turbo),
                Command::Nothing,
            ),
            Event::ControllerAxisMotion { which, axis, value } => (
                self.spec_gamepad_axis(which, axis, value, turbo),
                Command::Nothing,
            ),
            Event::Other => (self, Command::Nothing),
        }
    }

    /// The state after `events` in order, and the command of each.
    pub open spec fn spec_handle_events(self, events: Seq<Event>, turbo: bool) -> (Ui, Seq<Command>)
        decreases events.len(),
    {
        if events.len() == 0 {
            (self, Seq::<Command>::empty())
        } else {
            let (before, commands) = self.spec_handle_events(events.drop_last(), turbo);
            let (after, command) = before.spec_handle_event(events.last(), turbo);
            (after, commands.push(command))
        }
    }

    /// One poll: the turbo phase is read off the clock and applied to the
    /// controllers, then the events are handled in that phase.
    pub open spec fn spec_poll_events(self, events: Seq<Event>) -> (Ui, Seq<Command>) {
        self.spec_clock_turbo(self.spec_turbo()).spec_handle_events(events, self.spec_turbo())
    }

    /// How many frames to emulate per frame shown: the whole multiples of
    /// normal speed in the current speed, and at least one.
    pub open spec fn spec_frames_to_run(self) -> int {
        if self.speed / DEFAULT_SPEED == 0 {
            1
        } else {
            (self.speed / DEFAULT_SPEED) as int
        }
    }

    /// Whether the turbo clock and the speed are in range.
    pub fn is_wf(&self) -> (ok: bool)
        ensures
            ok == self.wf(),
    {
        self.turbo_clock < TURBO_PERIOD && MIN_SPEED <= self.speed && self.speed <= MAX_SPEED
            && self.speed % SPEED_STEP == 0
    }

    /// Whether turbo buttons are in their on phase.
    pub fn turbo(&self) -> (on: bool)
        ensures
            on == self.spec_turbo(),
    {
        self.turbo_clock < 3
    }

    /// Applies the turbo phase to both controllers.
    pub fn clock_turbo(&mut self, turbo: bool)
        ensures
            *final(self) == old(self).spec_clock_turbo(turbo),
    {
        self.input.gamepad1.clock_turbo(turbo);
        self.input.gamepad2.clock_turbo(turbo);
    }

    pub fn toggle_menu(&mut self)
        ensures
            *final(self) == old(self).spec_toggle_menu(),
    {
        self.paused = !self.paused;
    }

    /// Switches fast-forward and returns the new speed in percent, which
    /// the host is to set on the console.
    pub fn toggle_fastforward(&mut self) -> (speed: u32)
        ensures
            *final(self) == old(self).spec_toggle_fastforward(),
            speed == final(self).speed,
    {
        self.fastforward = !self.fastforward;
        if self.fastforward {
            self.speed = MAX_SPEED;
        } else {
            self.speed = DEFAULT_SPEED;
        }
        self.speed
    }

    /// A key that goes to the first controller went down or up.
    pub fn handle_keyboard_event(&mut self, key: Key, down: bool, turbo: bool)
        ensures
            *final(self) == old(self).spec_keyboard_event(key, down, turbo),
    {
        self.input.gamepad1 = pad_key(self.input.gamepad1, key, down, turbo);
    }

    /// A button of gamepad `gamepad_id` went down or up.
    pub fn handle_gamepad_button(&mut self, gamepad_id: i32, button: Button, down: bool, turbo: bool)
        requires
            spec_known_gamepad(gamepad_id),
        ensures
            *final(self) == old(self).spec_gamepad_button(gamepad_id, button, down, turbo),
    {
        if gamepad_id == 0 {
            self.input.gamepad1 = pad_button(self.input.gamepad1, button, down, turbo);
        } else {
            self.input.gamepad2 = pad_button(self.input.gamepad2, button, down, turbo);
        }
    }

    /// An axis of gamepad `gamepad_id` moved to `value`.
    pub fn handle_gamepad_axis(&mut self, gamepad_id: i32, axis: Axis, value: i16, turbo: bool)
        requires
            spec_known_gamepad(gamepad_id),
        ensures
            *final(self) == old(self).spec_gamepad_axis(gamepad_id, axis, value, turbo),
    {
        if gamepad_id == 0 {
            self.input.gamepad1 = pad_axis(self.input.gamepad1, axis, value, turbo);
        } else {
            self.input.gamepad2 = pad_axis(self.input.gamepad2, axis, value, turbo);
        }
    }

    /// A key went down.
    pub fn handle_keydown(&mut self, key: Key, turbo: bool) -> (command: Command)
        ensures
            (*final(self), command) == old(self).spec_keydown(key, turbo),
            old(self).wf() ==> final(self).wf(),
    {
        let lctrl = self.lctrl;
        match key {
            Key::Escape => {
                self.toggle_menu();
                Command::Nothing
            },
            Key::LCtrl => {
                self.lctrl = true;
                Command::Nothing
            },
            Key::O if lctrl => Command::NotImplemented { what: Pending::Open },
            Key::Q if lctrl => {
                self.should_close = true;
                Command::Nothing
            },
            Key::R if lctrl => Command::Reset,
            Key::P if lctrl => Command::PowerCycle,
            Key::Equals if lctrl => {
                if self.speed < MAX_SPEED {
                    self.speed += SPEED_STEP;
                    Command::SetSpeed { percent: self.speed }
                } else {
                    Command::Nothing
                }
            },
            Key::Minus if lctrl => {
                if self.speed > MIN_SPEED {
                    self.speed -= SPEED_STEP;
                    Command::SetSpeed { percent: self.speed }
                } else {
                    Command::Nothing
                }
            },
            Key::Space => {
                let percent = self.toggle_fastforward();
                Command::SetSpeed { percent }
            },
            Key::Num1 if lctrl => {
                self.save_slot = 1;
                Command::Nothing
            },
            Key::Num2 if lctrl => {
                self.save_slot = 2;
                Command::Nothing
            },
            Key::Num3 if lctrl => {
                self.save_slot = 3;
                Command::Nothing
            },
            Key::Num4 if lctrl => {
                self.save_slot = 4;
                Command::Nothing
            },
            Key::S if lctrl => Command::SaveState { slot: self.save_slot },
            Key::L if lctrl => Command::LoadState { slot: self.save_slot },
            Key::M if lctrl => {
                self.sound_enabled = !self.sound_enabled;
                Command::Nothing
            },
            Key::V if lctrl => Command::NotImplemented { what: Pending::Recording },
            Key::D if lctrl => Command::EnableDebug,
            Key::Return if lctrl => Command::ToggleFullscreen,
            Key::F10 => Command::Screenshot,
            Key::F9 => Command::NotImplemented { what: Pending::Logging },
            _ => {
                self.handle_keyboard_event(key, true, turbo);
                Command::Nothing
            },
        }
    }

    /// Handles one event in the given turbo phase.
    pub fn handle_event(&mut self, event: Event, turbo: bool) -> (command: Command)
        requires
            spec_event_ok(event),
        ensures
            (*final(self), command) == old(self).spec_handle_event(event, turbo),
            old(self).wf() ==> final(self).wf(),
    {
        match event {
            Event::ControllerDeviceAdded { id } => {
                if id == 0 || id == 1 {
                    Command::OpenGamepad { id }
                } else {
                    Command::Nothing
                }
            },
            Event::Quit => {
                self.should_close = true;
                Command::Nothing
            },
            Event::KeyDown { key } => self.handle_keydown(key, turbo),
            Event::KeyUp { key } => {
                match key {
                    Key::LCtrl => self.lctrl = false,
                    _ => self.handle_keyboard_event(key, false, turbo),
                }
                Command::Nothing
            },
            Event::ControllerButtonDown { which, button } => match button {
                Button::LeftStick => {
                    self.toggle_menu();
                    Command::Nothing
                },
                Button::RightStick => {
                    let percent = self.toggle_fastforward();
                    Command::SetSpeed { percent }
                },
                Button::LeftShoulder => Command::SaveState { slot: self.save_slot },
                Button::RightShoulder => Command::LoadState { slot: self.save_slot },
                _ => {
                    self.handle_gamepad_button(which, button, true, turbo);
                    Command::Nothing
                },
            },
            Event::ControllerButtonUp { which, button } => {
                self.handle_gamepad_button(which, button, false, turbo);
                Command::Nothing
            },
            Event::ControllerAxisMotion { which, axis, value } => {
                self.handle_gamepad_axis(which, axis, value, turbo);
                Command::Nothing
            },
            Event::Other => Command::Nothing,
        }
    }

    /// One poll of the host's events: applies the turbo phase, handles the
    /// events in order, and returns one command for each, in that order.
    pub fn poll_events(&mut self, events: &Vec<Event>) -> (commands: Vec<Command>)
        requires
            forall|i: int| 0 <= i < events@.len() ==> spec_event_ok(#[trigger] events@[i]),
        ensures
            (*final(self), commands@) == old(self).spec_poll_events(events@),
            commands@.len() == events@.len(),
            old(self).wf() ==> final(self).wf(),
    {
        let turbo = self.turbo();
        self.clock_turbo(turbo);
        let ghost start = *self;
        let mut commands: Vec<Command> = Vec::new();
        let mut i: usize = 0;
        while i < events.len()
            invariant
                i <= events@.len(),
                forall|j: int| 0 <= j < events@.len() ==> spec_event_ok(#[trigger] events@[j]),
                (*self, commands@) == start.spec_handle_events(events@.take(i as int), turbo),
                commands@.len() == i,
                start.wf() ==> self.wf(),
            decreases events@.len() - i,
        {
            let command = self.handle_event(events[i], turbo);
            commands.push(command);
            proof {
                assert(events@.take(i + 1).drop_last() =~= events@.take(i as int));
                assert(events@.take(i + 1).last() == events@[i as int]);
            }
            i += 1;
        }
        proof {
            assert(events@.take(i as int) =~= events@);
        }
        commands
    }

    /// Starts the frames of one pass of the main loop: returns how many
    /// frames the host is to emulate, and advances the turbo clock by as
    /// many.
    pub fn run_frames(&mut self) -> (frames: usize)
        requires
            old(self).wf(),
        ensures
            final(self).wf(),
            frames == old(self).spec_frames_to_run(),
            final(self).turbo_clock == (old(self).turbo_clock + frames) % (TURBO_PERIOD as int),
            *final(self) == (Ui { turbo_clock: final(self).turbo_clock, ..*old(self) }),
    {
        let mut frames: usize = (self.speed / DEFAULT_SPEED) as usize;
        if frames == 0 {
            frames = 1;
        }
        let mut done: usize = 0;
        while done < frames
            invariant
                done <= frames <= 2,
                self.turbo_clock < TURBO_PERIOD,
                self.turbo_clock == (old(self).turbo_clock + done) % (TURBO_PERIOD as int),
                *self == (Ui { turbo_clock: self.turbo_clock, ..*old(self) }),
            decreases frames - done,
        {
            self.turbo_clock = (1 + self.turbo_clock) % TURBO_PERIOD;
            done += 1;
        }
        frames
    }
}

impl Default for UiBuilder {
    /// Settings with everything off and zero.
    fn default() -> (b: Self)
        ensures
            b.path@ == Seq::<char>::empty(),
            !b.debug,
            !b.fullscreen,
            !b.sound,
            b.save_slot == 0,
            b.scale == 0,
    {
        Self {
            path: String::new(),
            debug: false,
            fullscreen: false,
            sound: false,
            save_slot: 0u8,
            scale: 0usize,
        }
    }
}

impl UiBuilder {
    /// Settings for a windowed front end at scale 1 with sound on and save
    /// slot 1, and no path yet.
    pub fn new() -> (b: Self)
        ensures
            b.path@ == Seq::<char>::empty(),
            !b.debug,
            !b.fullscreen,
            b.sound,
            b.save_slot == 1,
            b.scale == 1,
    {
        Self {
            path: String::new(),
            debug: false,
            fullscreen: false,
            sound: true,
            save_slot: 1u8,
            scale: 1usize,
        }
    }

    /// Sets where to look for cartridge images: `path`, or without one the
    /// directory `current_dir` that the host runs in.
    pub fn path(&mut self, path: Option<String>, current_dir: String) -> (ret: &mut Self)
        ensures
            *ret == (UiBuilder {
                path: match path {
                    Some(p) => p,
                    None => current_dir,
                },
                ..*old(self)
            }),
            *final(self) == *final(ret),
    {
        self.path = match path {
            Some(p) => p,
            None => current_dir,
        };
        self
    }

    pub fn debug(&mut self, debug: bool) -> (ret: &mut Self)
        ensures
            *ret == (UiBuilder { debug, ..*old(self) }),
            *final(self) == *final(ret),
    {
        self.debug = debug;
        self
    }

    pub fn fullscreen(&mut self, fullscreen: bool) -> (ret: &mut Self)
        ensures
            *ret == (UiBuilder { fullscreen, ..*old(self) }),
            *final(self) == *final(ret),
    {
        self.fullscreen = fullscreen;
        self
    }

    pub fn sound(&mut self, sound: bool) -> (ret: &mut Self)
        ensures
            *ret == (UiBuilder { sound, ..*old(self) }),
            *final(self) == *final(ret),
    {
        self.sound = sound;
        self
    }

    pub fn save_slot(&mut self, save_slot: u8) -> (ret: &mut Self)
        ensures
            *ret == (UiBuilder { save_slot, ..*old(self) }),
            *final(self) == *final(ret),
    {
        self.save_slot = save_slot;
        self
    }

    pub fn scale(&mut self, scale: usize) -> (ret: &mut Self)
        ensures
            *ret == (UiBuilder { scale, ..*old(self) }),
            *final(self) == *final(ret),
    {
        self.scale = scale;
        self
    }

    /// The state in which every front end starts: running at normal speed
    /// with sound on, save slot 1 and all buttons released.
    pub open spec fn spec_build() -> Ui {
        Ui {
            paused: false,
            should_close: false,
            fastforward: false,
            sound_enabled: true,
            lctrl: false,
            save_slot: 1,
            turbo_clock: 0,
            speed: DEFAULT_SPEED,
            input: Input {
                gamepad1: Gamepad::spec_released(),
                gamepad2: Gamepad::spec_released(),
            },
        }
    }

    /// The front end as it starts: its first state, the path of these
    /// settings, and no cartridge image found yet. The window and the
    /// console are the host's to make, from `debug`, `fullscreen` and
    /// `scale`.
    pub fn build(&self) -> (front: Frontend)
        ensures
            front.ui == Self::spec_build(),
            front.ui.wf(),
            front.path@ == self.path@,
            front.roms@ == Seq::<String>::empty(),
    {
        Frontend {
            ui: Ui {
                paused: false,
                should_close: false,
                fastforward: false,
                sound_enabled: true,
                lctrl: false,
                save_slot: 1u8,
                turbo_clock: 0u8,
                speed: DEFAULT_SPEED,
                input: Input { gamepad1: Gamepad::new(), gamepad2: Gamepad::new() },
            },
            path: self.path.clone(),
            roms: Vec::new(),
        }
    }
}

impl Frontend {
    /// Adds the cartridge images that the host found under the path.
    pub fn add_roms(&mut self, found: Vec<String>)
        ensures
            final(self).roms@ == old(self).roms@ + found@,
            final(self).ui == old(self).ui,
            final(self).path == old(self).path,
    {
        let mut found = found;
        self.roms.append(&mut found);
    }

    /// The image to load at once, by its index: the only one found, if
    /// exactly one was found.
    pub fn rom_to_load(&self) -> (index: Option<usize>)
        ensures
            index == if self.roms@.len() == 1 {
                Some(0usize)
            } else {
                None
            },
    {
        if self.roms.len() == 1 {
            Some(0)
        } else {
            None
        }
    }
}

} // verus!
