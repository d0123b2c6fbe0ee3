//! Bound inputs, the actions they stand for, and what each action does to
//! the session.
//!
//! The handlers change the session's own state and return the [`Effect`]s
//! that the host is to carry out, in order, before it hands over the next
//! input.

use crate::input::{Gamepad, JoypadBtn, Slot};
use vstd::prelude::*;

verus! {

/// Scanlines that the picture viewer moves by with the shift key held.
pub const SCANLINE_STRIDE: u8 = 10;

/// Fast-forward speed, in percent of real time.
pub const FAST_SPEED: u32 = 200;

/// Normal speed, in percent of real time.
pub const NORMAL_SPEED: u32 = 100;

/// What one speed action adds or takes, in percent.
pub const SPEED_STEP: i32 = 25;

/// Indicates an axis direction.
#[derive(Debug, Copy, Clone, PartialEq, Eq, Hash, Structural)]
pub enum AxisDirection {
    /// No direction, axis is in a dead zone or not pressed.
    Neutral,
    /// Positive (right or down).
    Positive,
    /// Negative (left or up).
    Negative,
}

/// A host input that can be bound to an action. Keys, key modifiers,
/// buttons and axes are held by the host's codes for them.
#[derive(Debug, Copy, Clone, PartialEq, Eq, Hash, Structural)]
pub enum Input {
    Key { slot: Slot, key: u32, keymod: u16 },
    Button { slot: Slot, button: u8 },
    Axis { slot: Slot, axis: u8, direction: AxisDirection },
    Mouse { slot: Slot, button: u8 },
}

/// What the session is doing.
#[derive(Debug, Copy, Clone, PartialEq, Eq, Hash, Structural)]
pub enum Mode {
    Playing,
    Paused,
    InMenu,
    Rewinding,
}

/// Whether the session records or plays back actions.
#[derive(Debug, Copy, Clone, PartialEq, Eq, Hash, Structural)]
pub enum ReplayMode {
    Off,
    Recording,
    Playback,
}

/// The two ways of resetting the console.
#[derive(Debug, Copy, Clone, PartialEq, Eq, Hash, Structural)]
pub enum Kind {
    Soft,
    Hard,
}

#[derive(Debug, Copy, Clone, PartialEq, Eq, Hash, Structural)]
pub enum VideoFilter {
    Pixellate,
    Ntsc,
}

#[derive(Debug, Copy, Clone, PartialEq, Eq, Hash, Structural)]
pub enum NesRegion {
    Ntsc,
    Pal,
    Dendy,
}

/// A sound channel.
#[derive(Debug, Copy, Clone, PartialEq, Eq, Hash, Structural)]
pub enum Channel {
    Pulse1,
    Pulse2,
    Triangle,
    Noise,
    Dmc,
}

#[derive(Debug, Copy, Clone, PartialEq, Eq, Hash, Structural)]
pub enum Menu {
    Config,
    Keybind,
    LoadRom,
    About,
}

#[derive(Debug, Copy, Clone, PartialEq, Eq, Hash, Structural)]
pub enum NesState {
    Quit,
    TogglePause,
    SoftReset,
    HardReset,
    /// Reserved: selects a revision of the mapper, by its number.
    MapperRevision { revision: u8 },
}

#[derive(Debug, Copy, Clone, PartialEq, Eq, Hash, Structural)]
pub enum Feature {
    ToggleGameplayRecording,
    ToggleSoundRecording,
    Rewind,
    TakeScreenshot,
    SaveState,
    LoadState,
}

#[derive(Debug, Copy, Clone, PartialEq, Eq, Hash, Structural)]
pub enum Setting {
    SetSaveSlot { slot: u8 },
    ToggleFullscreen,
    ToggleVsync,
    ToggleNtscFilter,
    SetVideoFilter { filter: VideoFilter },
    SetNesFormat { region: NesRegion },
    ToggleSound,
    TogglePulse1,
    TogglePulse2,
    ToggleTriangle,
    ToggleNoise,
    ToggleDmc,
    FastForward,
    IncSpeed,
    DecSpeed,
}

#[derive(Debug, Copy, Clone, PartialEq, Eq, Hash, Structural)]
pub enum DebugAction {
    ToggleCpuDebugger,
    TogglePpuDebugger,
    ToggleApuDebugger,
    StepInto,
    StepOver,
    StepOut,
    StepFrame,
    StepScanline,
    IncScanline,
    DecScanline,
}

/// What a bound input asks for.
#[derive(Debug, Copy, Clone, PartialEq, Eq, Hash, Structural)]
pub enum Action {
    Nes { state: NesState },
    Menu { menu: Menu },
    Feature { feature: Feature },
    Setting { setting: Setting },
    Joypad { button: JoypadBtn },
    ZapperTrigger,
    /// Both directions of an axis that came to rest.
    ZeroAxis { first: JoypadBtn, second: JoypadBtn },
    Debug { action: DebugAction },
}

/// An action as it is recorded for replay.
#[derive(Debug, Copy, Clone, PartialEq, Eq, Hash, Structural)]
pub struct ActionEvent {
    pub frame: u32,
    pub slot: Slot,
    pub action: Action,
    pub pressed: bool,
    pub repeat: bool,
}

/// A short notice for the user.
#[derive(Debug, Copy, Clone, PartialEq, Eq, Hash, Structural)]
pub enum Notice {
    Reset,
    PowerCycled,
    RewindDisabled,
    SaveSlot { slot: u8 },
    VsyncEnabled,
    VsyncDisabled,
    SoundEnabled,
    SoundDisabled,
}

/// What the host is to do for the session.
#[derive(Debug, Copy, Clone, PartialEq, Eq, Hash, Structural)]
pub enum Effect {
    PausePlay,
    ResumePlay,
    TogglePause,
    Quit,
    Reset { kind: Kind },
    Message { notice: Notice },
    ToggleMenu { menu: Menu },
    StartReplay,
    StopReplay,
    ToggleSoundRecording,
    SaveScreenshot,
    SaveState { slot: u8 },
    LoadState { slot: u8 },
    InstantRewind,
    /// Run at this speed, in percent of real time.
    SetSpeed { percent: u32 },
    /// Change the speed by this many percent of real time.
    ChangeSpeed { delta: i32 },
    SetFullscreen { on: bool },
    SetVsync { on: bool },
    SetFilter { filter: VideoFilter },
    ToggleChannel { channel: Channel },
    TriggerZapper,
    AimZapper { x: i32, y: i32 },
    ToggleDebugger,
    TogglePpuViewer,
    ToggleApuViewer,
    StepInto,
    StepOver,
    StepOut,
    StepFrame,
    StepScanline,
    IncScanline { by: u8 },
    DecScanline { by: u8 },
}

/// The settings that actions read and change.
#[derive(Debug, Copy, Clone, PartialEq, Eq, Structural)]
pub struct Config {
    pub save_slot: u8,
    pub fullscreen: bool,
    pub vsync: bool,
    pub filter: VideoFilter,
    pub sound: bool,
    pub rewind: bool,
    /// Whether opposite directions may be held together.
    pub concurrent_dpad: bool,
}

/// The four controllers.
#[derive(Debug, Copy, Clone, PartialEq, Eq, Structural)]
pub struct Joypads {
    pub one: Gamepad,
    pub two: Gamepad,
    pub three: Gamepad,
    pub four: Gamepad,
}

/// The part of the session that actions read and change.
#[derive(Debug, Copy, Clone, PartialEq, Eq, Structural)]
pub struct State {
    pub mode: Mode,
    pub config: Config,
    pub replay_mode: ReplayMode,
    pub joypads: Joypads,
    /// Whether the debugger is open.
    pub debugging: bool,
    /// Whether the picture viewer is open.
    pub ppu_viewer: bool,
    /// Whether an emulation error is on display.
    pub has_error: bool,
}

/// An input and the action bound to it.
#[derive(Debug, Copy, Clone, PartialEq, Eq, Structural)]
pub struct Binding {
    pub input: Input,
    pub action: Action,
}

/// The bindings in force: a map from inputs to actions, held as a list in
/// which no input occurs twice.
#[derive(Debug, Clone)]
pub struct InputMapping {
    pub bindings: Vec<Binding>,
}

/// The session: its state and the actions recorded or still to replay,
/// the next one to replay last.
#[derive(Debug, Clone)]
pub struct Nes {
    pub state: State,
    pub players: Players,
    pub replay_buffer: Vec<ActionEvent>,
}

/// What actions read and change of a session: its state and its replay
/// buffer.
pub struct Session {
    pub state: State,
    pub buffer: Seq<ActionEvent>,
}

/// A session after an input, whether the input was consumed, and what the
/// host is to do.
pub struct Reaction {
    pub session: Session,
    pub handled: bool,
    pub effects: Seq<Effect>,
}

/// A state after an action, whether the action was consumed, and what the
/// host is to do.
pub struct Outcome {
    pub state: State,
    pub handled: bool,
    pub effects: Seq<Effect>,
}

/// The direction that an axis reading stands for.
pub open spec fn spec_axis_direction(value: i32) -> AxisDirection {
    if value > 0 {
        AxisDirection::Positive
    } else if value < 0 {
        AxisDirection::Negative
    } else {
        AxisDirection::Neutral
    }
}

/// The button opposite to a direction button.
pub open spec fn spec_opposite(button: JoypadBtn) -> Option<JoypadBtn> {
    match button {
        JoypadBtn::Left => Some(JoypadBtn::Right),
        JoypadBtn::Right => Some(JoypadBtn::Left),
        JoypadBtn::Up => Some(JoypadBtn::Down),
        JoypadBtn::Down => Some(JoypadBtn::Up),
        _ => None,
    }
}

/// The primary button that a turbo button drives.
pub open spec fn spec_primary(button: JoypadBtn) -> Option<JoypadBtn> {
    match button {
        JoypadBtn::TurboA => Some(JoypadBtn::A),
        JoypadBtn::TurboB => Some(JoypadBtn::B),
        _ => None,
    }
}

/// A controller after `button` is pressed or released.
///
/// Unless opposite directions may be held together, pressing a direction
/// releases the opposite one. A turbo button takes its primary button
/// along, so that it is not left held.
pub open spec fn spec_press(pad: Gamepad, button: JoypadBtn, pressed: bool, concurrent_dpad: bool) -> Gamepad {
    let cleared = if !concurrent_dpad && pressed && spec_opposite(button) is Some {
        pad.spec_set_button(spec_opposite(button)->Some_0, false)
    } else {
        pad
    };
    let set = cleared.spec_set_button(button, pressed);
    if spec_primary(button) is Some {
        set.spec_set_button(spec_primary(button)->Some_0, pressed)
    } else {
        set
    }
}

/// Row 8, the first that the console shows.
pub const FRAME_TOP: i32 = 8;

/// The zapper's row for a pointer in row `y` of a picture whose shown rows
/// end before `bottom`: rows above the shown ones count as the first shown
/// row, rows below as the last.
pub open spec fn spec_zapper_row(y: i32, top: i32, bottom: i32) -> int {
    if y < top {
        FRAME_TOP as int
    } else if y >= bottom {
        bottom - 1
    } else {
        y as int
    }
}

/// The first action bound to `input` among `bindings`.
pub open spec fn spec_lookup(bindings: Seq<Binding>, input: Input) -> Option<Action>
    decreases bindings.len(),
{
    if bindings.len() == 0 {
        None
    } else if bindings[0].input == input {
        Some(bindings[0].action)
    } else {
        spec_lookup(bindings.skip(1), input)
    }
}

/// What is left of a replay buffer at frame `frame`: the events at its end
/// that lie before `frame` are dropped.
pub open spec fn spec_drop_stale(buffer: Seq<ActionEvent>, frame: u32) -> Seq<ActionEvent>
    decreases buffer.len(),
{
    if buffer.len() > 0 && buffer.last().frame < frame {
        spec_drop_stale(buffer.drop_last(), frame)
    } else {
        buffer
    }
}

impl Joypads {
    pub open spec fn spec_get(self, slot: Slot) -> Gamepad {
        match slot {
            Slot::One => self.one,
            Slot::Two => self.two,
            Slot::Three => self.three,
            Slot::Four => self.four,
        }
    }

    pub open spec fn spec_with(self, slot: Slot, pad: Gamepad) -> Joypads {
        match slot {
            Slot::One => Joypads { one: pad, ..self },
            Slot::Two => Joypads { two: pad, ..self },
            Slot::Three => Joypads { three: pad, ..self },
            Slot::Four => Joypads { four: pad, ..self },
        }
    }

    pub fn get(self, slot: Slot) -> (pad: Gamepad)
        ensures
            pad == self.spec_get(slot),
    {
        match slot {
            Slot::One => self.one,
            Slot::Two => self.two,
            Slot::Three => self.three,
            Slot::Four => self.four,
        }
    }

    pub fn with(self, slot: Slot, pad: Gamepad) -> (out: Joypads)
        ensures
            out == self.spec_with(slot, pad),
    {
        match slot {
            Slot::One => Joypads { one: pad, ..self },
            Slot::Two => Joypads { two: pad, ..self },
            Slot::Three => Joypads { three: pad, ..self },
            Slot::Four => Joypads { four: pad, ..self },
        }
    }
}


/// The controllers that the host's gamepads are plugged into, by the
/// gamepad's id.
#[derive(Debug, Copy, Clone, PartialEq, Eq, Structural)]
pub struct Players {
    pub one: Option<u32>,
    pub two: Option<u32>,
    pub three: Option<u32>,
    pub four: Option<u32>,
}

impl Players {
    /// The first slot that gamepad `controller_id` is plugged into.
    pub open spec fn spec_slot_of(self, controller_id: u32) -> Option<Slot> {
        if self.one == Some(controller_id) {
            Some(Slot::One)
        } else if self.two == Some(controller_id) {
            Some(Slot::Two)
        } else if self.three == Some(controller_id) {
            Some(Slot::Three)
        } else if self.four == Some(controller_id) {
            Some(Slot::Four)
        } else {
            None
        }
    }

    pub fn slot_of(self, controller_id: u32) -> (slot: Option<Slot>)
        ensures
            slot == self.spec_slot_of(controller_id),
    {
        if self.one == Some(controller_id) {
            Some(Slot::One)
        } else if self.two == Some(controller_id) {
            Some(Slot::Two)
        } else if self.three == Some(controller_id) {
            Some(Slot::Three)
        } else if self.four == Some(controller_id) {
            Some(Slot::Four)
        } else {
            None
        }
    }
}

fn no_effects() -> (out: Vec<Effect>)
    ensures
        out@ == Seq::<Effect>::empty(),
{
    Vec::new()
}

fn one_effect(a: Effect) -> (out: Vec<Effect>)
    ensures
        out@ == seq![a],
{
    let mut out: Vec<Effect> = Vec::new();
    out.push(a);
    assert(out@ =~= seq![a]);
    out
}

fn two_effects(a: Effect, b: Effect) -> (out: Vec<Effect>)
    ensures
        out@ == seq![a, b],
{
    let mut out: Vec<Effect> = Vec::new();
    out.push(a);
    out.push(b);
    assert(out@ =~= seq![a, b]);
    out
}

/// The direction that an axis reading stands for.
pub fn axis_direction(value: i32) -> (direction: AxisDirection)
    ensures
        direction == spec_axis_direction(value),
{
    if value > 0 {
        AxisDirection::Positive
    } else if value < 0 {
        AxisDirection::Negative
    } else {
        AxisDirection::Neutral
    }
}

/// A controller after `button` is pressed or released.
pub fn press(pad: Gamepad, button: JoypadBtn, pressed: bool, concurrent_dpad: bool) -> (out: Gamepad)
    ensures
        out == spec_press(pad, button, pressed, concurrent_dpad),
{
    let mut pad = pad;
    if !concurrent_dpad && pressed {
        match button {
            JoypadBtn::Left => pad.set_button(JoypadBtn::Right, false),
            JoypadBtn::Right => pad.set_button(JoypadBtn::Left, false),
            JoypadBtn::Up => pad.set_button(JoypadBtn::Down, false),
            JoypadBtn::Down => pad.set_button(JoypadBtn::Up, false),
            _ => (),
        }
    }
    pad.set_button(button, pressed);
    match button {
        JoypadBtn::TurboA => pad.set_button(JoypadBtn::A, pressed),
        JoypadBtn::TurboB => pad.set_button(JoypadBtn::B, pressed),
        _ => (),
    }
    pad
}

/// The zapper's row for a pointer in row `y`.
pub fn zapper_row(y: i32, top: i32, bottom: i32) -> (row: i32)
    requires
        bottom > i32::MIN,
    ensures
        row == spec_zapper_row(y, top, bottom),
{
    if y < top {
        FRAME_TOP
    } else if y >= bottom {
        bottom - 1
    } else {
        y
    }
}

impl State {
    /// This state, with the action not consumed and nothing to do.
    pub open spec fn spec_unhandled(self) -> Outcome {
        Outcome { state: self, handled: false, effects: Seq::<Effect>::empty() }
    }

    /// A controller button is pressed or released. Outside of play the
    /// controllers are not touched and the action is not consumed.
    pub open spec fn spec_joypad_pressed(self, slot: Slot, button: JoypadBtn, pressed: bool) -> Outcome {
        if self.mode != Mode::Playing {
            self.spec_unhandled()
        } else {
            Outcome {
                state: State {
                    joypads: self.joypads.spec_with(
                        slot,
                        spec_press(
                            self.joypads.spec_get(slot),
                            button,
                            pressed,
                            self.config.concurrent_dpad,
                        ),
                    ),
                    ..self
                },
                handled: true,
                effects: Seq::<Effect>::empty(),
            }
        }
    }

    /// Whether `state` can be handled: selecting a mapper revision is
    /// reserved and does nothing only while recording.
    pub open spec fn spec_nes_state_ok(self, state: NesState) -> bool {
        state is MapperRevision ==> self.replay_mode == ReplayMode::Recording
    }

    /// Quit, pause or reset. While recording, none of them is consumed. A
    /// reset clears the error on display; with the debugger open it leaves
    /// the session paused.
    pub open spec fn spec_nes_state(self, state: NesState) -> Outcome {
        if self.replay_mode == ReplayMode::Recording {
            self.spec_unhandled()
        } else {
            match state {
                NesState::Quit => Outcome {
                    state: self,
                    handled: true,
                    effects: seq![Effect::PausePlay, Effect::Quit],
                },
                NesState::TogglePause => Outcome {
                    state: self,
                    handled: true,
                    effects: seq![Effect::TogglePause],
                },
                NesState::SoftReset => Outcome {
                    state: State {
                        has_error: false,
                        mode: if self.debugging {
                            Mode::Paused
                        } else {
                            self.mode
                        },
                        ..self
                    },
                    handled: true,
                    effects: seq![
                        Effect::Reset { kind: Kind::Soft },
                        Effect::Message { notice: Notice::Reset },
                    ],
                },
                NesState::HardReset => Outcome {
                    state: State {
                        has_error: false,
                        mode: if self.debugging {
                            Mode::Paused
                        } else {
                            self.mode
                        },
                        ..self
                    },
                    handled: true,
                    effects: seq![
                        Effect::Reset { kind: Kind::Hard },
                        Effect::Message { notice: Notice::PowerCycled },
                    ],
                },
                NesState::MapperRevision { .. } => self.spec_unhandled(),
            }
        }
    }

    /// A feature key. Rewinding starts when the key repeats and rewinding
    /// is enabled; releasing the key ends it, or rewinds at once where it
    /// had not started. The other features act when their key goes down.
    /// Recording is switched here: on from off, off from anything else.
    pub open spec fn spec_feature(self, feature: Feature, pressed: bool, repeat: bool) -> Outcome {
        if feature == Feature::Rewind {
            if repeat {
                if self.config.rewind {
                    Outcome {
                        state: State { mode: Mode::Rewinding, ..self },
                        handled: true,
                        effects: Seq::<Effect>::empty(),
                    }
                } else {
                    Outcome {
                        state: self,
                        handled: true,
                        effects: seq![Effect::Message { notice: Notice::RewindDisabled }],
                    }
                }
            } else if !pressed {
                Outcome {
                    state: self,
                    handled: true,
                    effects: seq![
                        if self.mode == Mode::Rewinding {
                            Effect::ResumePlay
                        } else {
                            Effect::InstantRewind
                        },
                    ],
                }
            } else {
                Outcome { state: self, handled: true, effects: Seq::<Effect>::empty() }
            }
        } else if pressed {
            match feature {
                Feature::ToggleGameplayRecording => if self.replay_mode == ReplayMode::Off {
                    Outcome {
                        state: State { replay_mode: ReplayMode::Recording, ..self },
                        handled: true,
                        effects: seq![Effect::StartReplay],
                    }
                } else {
                    Outcome {
                        state: State { replay_mode: ReplayMode::Off, ..self },
                        handled: true,
                        effects: seq![Effect::StopReplay],
                    }
                },
                Feature::ToggleSoundRecording => Outcome {
                    state: self,
                    handled: true,
                    effects: seq![Effect::ToggleSoundRecording],
                },
                Feature::TakeScreenshot => Outcome {
                    state: self,
                    handled: true,
                    effects: seq![Effect::SaveScreenshot],
                },
                Feature::SaveState => Outcome {
                    state: self,
                    handled: true,
                    effects: seq![Effect::SaveState { slot: self.config.save_slot }],
                },
                Feature::LoadState => Outcome {
                    state: self,
                    handled: true,
                    effects: seq![Effect::LoadState { slot: self.config.save_slot }],
                },
                Feature::Rewind => Outcome {
                    state: self,
                    handled: true,
                    effects: Seq::<Effect>::empty(),
                },
            }
        } else {
            Outcome { state: self, handled: true, effects: Seq::<Effect>::empty() }
        }
    }

    /// The channel that a setting switches, if it switches one.
    pub open spec fn spec_channel_of(setting: Setting) -> Option<Channel> {
        match setting {
            Setting::TogglePulse1 => Some(Channel::Pulse1),
            Setting::TogglePulse2 => Some(Channel::Pulse2),
            Setting::ToggleTriangle => Some(Channel::Triangle),
            Setting::ToggleNoise => Some(Channel::Noise),
            Setting::ToggleDmc => Some(Channel::Dmc),
            _ => None,
        }
    }

    /// A settings key. Fast-forward runs while its key repeats and ends
    /// when it is released, and is always consumed. The other settings act
    /// when their key goes down; setting the filter or the region directly
    /// is not done here and is not consumed.
    pub open spec fn spec_setting(self, setting: Setting, pressed: bool, repeat: bool) -> Outcome {
        if setting == Setting::FastForward {
            Outcome {
                state: self,
                handled: true,
                effects: if repeat {
                    seq![Effect::SetSpeed { percent: FAST_SPEED }]
                } else if !pressed {
                    seq![Effect::SetSpeed { percent: NORMAL_SPEED }]
                } else {
                    Seq::<Effect>::empty()
                },
            }
        } else if pressed {
            match setting {
                Setting::SetSaveSlot { slot } => Outcome {
                    state: State { config: Config { save_slot: slot, ..self.config }, ..self },
                    handled: true,
                    effects: seq![Effect::Message { notice: Notice::SaveSlot { slot } }],
                },
                Setting::ToggleFullscreen => Outcome {
                    state: State {
                        config: Config { fullscreen: !self.config.fullscreen, ..self.config },
                        ..self
                    },
                    handled: true,
                    effects: seq![Effect::SetFullscreen { on: !self.config.fullscreen }],
                },
                Setting::ToggleVsync => Outcome {
                    state: State {
                        config: Config { vsync: !self.config.vsync, ..self.config },
                        ..self
                    },
                    handled: true,
                    effects: seq![
                        Effect::SetVsync { on: !self.config.vsync },
                        Effect::Message {
                            notice: if !self.config.vsync {
                                Notice::VsyncEnabled
                            } else {
                                Notice::VsyncDisabled
                            },
                        },
                    ],
                },
                Setting::ToggleNtscFilter => Outcome {
                    state: State {
                        config: Config {
                            filter: if self.config.filter == VideoFilter::Pixellate {
                                VideoFilter::Ntsc
                            } else {
                                VideoFilter::Pixellate
                            },
                            ..self.config
                        },
                        ..self
                    },
                    handled: true,
                    effects: seq![
                        Effect::SetFilter {
                            filter: if self.config.filter == VideoFilter::Pixellate {
                                VideoFilter::Ntsc
                            } else {
                                VideoFilter::Pixellate
                            },
                        },
                    ],
                },
                Setting::ToggleSound => Outcome {
                    state: State {
                        config: Config { sound: !self.config.sound, ..self.config },
                        ..self
                    },
                    handled: true,
                    effects: seq![
                        Effect::Message {
                            notice: if !self.config.sound {
                                Notice::SoundEnabled
                            } else {
                                Notice::SoundDisabled
                            },
                        },
                    ],
                },
                Setting::IncSpeed => Outcome {
                    state: self,
                    handled: true,
                    effects: seq![Effect::ChangeSpeed { delta: SPEED_STEP }],
                },
                Setting::DecSpeed => Outcome {
                    state: self,
                    handled: true,
                    effects: seq![Effect::ChangeSpeed { delta: (-SPEED_STEP) as i32 }],
                },
                _ => if Self::spec_channel_of(setting) is Some {
                    Outcome {
                        state: self,
                        handled: true,
                        effects: seq![
                            Effect::ToggleChannel { channel: Self::spec_channel_of(setting)->Some_0 },
                        ],
                    }
                } else {
                    self.spec_unhandled()
                },
            }
        } else {
            self.spec_unhandled()
        }
    }

    /// A debugger key went down, with the shift key held or not. The
    /// viewers open and close on the first press only; stepping needs the
    /// debugger open, and every step but the one out of a subroutine
    /// pauses play first; the scanline keys are consumed even with the
    /// picture viewer closed.
    pub open spec fn spec_debug(self, action: DebugAction, repeat: bool, shift: bool) -> Outcome {
        let by = if shift {
            SCANLINE_STRIDE
        } else {
            1u8
        };
        let effects: Option<Seq<Effect>> = match action {
            DebugAction::ToggleCpuDebugger => if !repeat {
                Some(seq![Effect::ToggleDebugger])
            } else {
                None
            },
            DebugAction::TogglePpuDebugger => if !repeat {
                Some(seq![Effect::TogglePpuViewer])
            } else {
                None
            },
            DebugAction::ToggleApuDebugger => if !repeat {
                Some(seq![Effect::ToggleApuViewer])
            } else {
                None
            },
            DebugAction::StepInto => if self.debugging {
                Some(seq![Effect::PausePlay, Effect::StepInto])
            } else {
                None
            },
            DebugAction::StepOver => if self.debugging {
                Some(seq![Effect::PausePlay, Effect::StepOver])
            } else {
                None
            },
            DebugAction::StepOut => if self.debugging {
                Some(seq![Effect::StepOut])
            } else {
                None
            },
            DebugAction::StepFrame => if self.debugging {
                Some(seq![Effect::PausePlay, Effect::StepFrame])
            } else {
                None
            },
            DebugAction::StepScanline => if self.debugging {
                Some(seq![Effect::PausePlay, Effect::StepScanline])
            } else {
                None
            },
            DebugAction::IncScanline => if self.ppu_viewer {
                Some(seq![Effect::IncScanline { by }])
            } else {
                Some(Seq::<Effect>::empty())
            },
            DebugAction::DecScanline => if self.ppu_viewer {
                Some(seq![Effect::DecScanline { by }])
            } else {
                Some(Seq::<Effect>::empty())
            },
        };
        match effects {
            Some(effects) => Outcome { state: self, handled: true, effects },
            None => self.spec_unhandled(),
        }
    }

    /// Whether `action` can be handled: see [`State::spec_nes_state_ok`].
    pub open spec fn spec_action_ok(self, action: Action, pressed: bool) -> bool {
        match action {
            Action::Nes { state } => pressed ==> self.spec_nes_state_ok(state),
            _ => true,
        }
    }

    /// What `action` does. Debugger, console, menu and zapper actions act
    /// only when their input goes down. A resting axis releases its
    /// first direction, and its second where the first was not consumed.
    #[verifier::opaque]
    pub open spec fn spec_action(
        self,
        slot: Slot,
        action: Action,
        pressed: bool,
        repeat: bool,
        shift: bool,
    ) -> Outcome {
        match action {
            Action::Debug { action } => if pressed {
                self.spec_debug(action, repeat, shift)
            } else {
                self.spec_unhandled()
            },
            Action::Feature { feature } => self.spec_feature(feature, pressed, repeat),
            Action::Nes { state } => if pressed {
                self.spec_nes_state(state)
            } else {
                self.spec_unhandled()
            },
            Action::Menu { menu } => if pressed {
                Outcome { state: self, handled: true, effects: seq![Effect::ToggleMenu { menu }] }
            } else {
                self.spec_unhandled()
            },
            Action::Setting { setting } => self.spec_setting(setting, pressed, repeat),
            Action::Joypad { button } => self.spec_joypad_pressed(slot, button, pressed),
            Action::ZapperTrigger => if pressed {
                Outcome { state: self, handled: true, effects: seq![Effect::TriggerZapper] }
            } else {
                self.spec_unhandled()
            },
            Action::ZeroAxis { first, second } => if self.spec_joypad_pressed(
                slot,
                first,
                pressed,
            ).handled {
                self.spec_joypad_pressed(slot, first, pressed)
            } else {
                self.spec_joypad_pressed(slot, second, pressed)
            },
        }
    }

    /// Whether `action` can be handled.
    pub fn action_ok(&self, action: Action, pressed: bool) -> (ok: bool)
        ensures
            ok == self.spec_action_ok(action, pressed),
    {
        match action {
            Action::Nes { state: NesState::MapperRevision { .. } } => !pressed || self.replay_mode
                == ReplayMode::Recording,
            _ => true,
        }
    }

    pub fn handle_joypad_pressed(self, slot: Slot, button: JoypadBtn, pressed: bool) -> (r: (
        State,
        bool,
        Vec<Effect>,
    ))
        ensures
            self.spec_joypad_pressed(slot, button, pressed) == (Outcome {
                state: r.0,
                handled: r.1,
                effects: r.2@,
            }),
    {
        if self.mode != Mode::Playing {
            return (self, false, no_effects());
        }
        let pad = press(self.joypads.get(slot), button, pressed, self.config.concurrent_dpad);
        (State { joypads: self.joypads.with(slot, pad), ..self }, true, no_effects())
    }

    pub fn handle_nes_state(self, state: NesState) -> (r: (State, bool, Vec<Effect>))
        requires
            self.spec_nes_state_ok(state),
        ensures
            self.spec_nes_state(state) == (Outcome { state: r.0, handled: r.1, effects: r.2@ }),
    {
        if self.replay_mode == ReplayMode::Recording {
            return (self, false, no_effects());
        }
        match state {
            NesState::Quit => (self, true, two_effects(Effect::PausePlay, Effect::Quit)),
            NesState::TogglePause => (self, true, one_effect(Effect::TogglePause)),
            NesState::SoftReset => {
                let mut next = self;
                next.has_error = false;
                if next.debugging && next.mode != Mode::Paused {
                    next.mode = Mode::Paused;
                }
                (
                    next,
                    true,
                    two_effects(
                        Effect::Reset { kind: Kind::Soft },
                        Effect::Message { notice: Notice::Reset },
                    ),
                )
            },
            NesState::HardReset => {
                let mut next = self;
                next.has_error = false;
                if next.debugging {
                    next.mode = Mode::Paused;
                }
                (
                    next,
                    true,
                    two_effects(
                        Effect::Reset { kind: Kind::Hard },
                        Effect::Message { notice: Notice::PowerCycled },
                    ),
                )
            },
            NesState::MapperRevision { .. } => (self, false, no_effects()),
        }
    }

    pub fn handle_feature(self, feature: Feature, pressed: bool, repeat: bool) -> (r: (
        State,
        bool,
        Vec<Effect>,
    ))
        ensures
            self.spec_feature(feature, pressed, repeat) == (Outcome {
                state: r.0,
                handled: r.1,
                effects: r.2@,
            }),
            r.1,
    {
        let mut next = self;
        let mut effects = no_effects();
        if feature == Feature::Rewind {
            if repeat {
                if self.config.rewind {
                    next.mode = Mode::Rewinding;
                } else {
                    effects = one_effect(Effect::Message { notice: Notice::RewindDisabled });
                }
            } else if !pressed {
                if self.mode == Mode::Rewinding {
                    effects = one_effect(Effect::ResumePlay);
                } else {
                    effects = one_effect(Effect::InstantRewind);
                }
            }
        } else if pressed {
            match feature {
                Feature::ToggleGameplayRecording => match self.replay_mode {
                    ReplayMode::Off => {
                        next.replay_mode = ReplayMode::Recording;
                        effects = one_effect(Effect::StartReplay);
                    },
                    ReplayMode::Recording | ReplayMode::Playback => {
                        next.replay_mode = ReplayMode::Off;
                        effects = one_effect(Effect::StopReplay);
                    },
                },
                Feature::ToggleSoundRecording => {
                    effects = one_effect(Effect::ToggleSoundRecording);
                },
                Feature::TakeScreenshot => {
                    effects = one_effect(Effect::SaveScreenshot);
                },
                Feature::SaveState => {
                    effects = one_effect(Effect::SaveState { slot: self.config.save_slot });
                },
                Feature::LoadState => {
                    effects = one_effect(Effect::LoadState { slot: self.config.save_slot });
                },
                Feature::Rewind => {},
            }
        }
        (next, true, effects)
    }

    pub fn handle_setting(self, setting: Setting, pressed: bool, repeat: bool) -> (r: (
        State,
        bool,
        Vec<Effect>,
    ))
        ensures
            self.spec_setting(setting, pressed, repeat) == (Outcome {
                state: r.0,
                handled: r.1,
                effects: r.2@,
            }),
    {
        if setting == Setting::FastForward {
            let effects = if repeat {
                one_effect(Effect::SetSpeed { percent: FAST_SPEED })
            } else if !pressed {
                one_effect(Effect::SetSpeed { percent: NORMAL_SPEED })
            } else {
                no_effects()
            };
            (self, true, effects)
        } else if pressed {
            let config = self.config;
            match setting {
                Setting::SetSaveSlot { slot } => (
                    State { config: Config { save_slot: slot, ..config }, ..self },
                    true,
                    one_effect(Effect::Message { notice: Notice::SaveSlot { slot } }),
                ),
                Setting::ToggleFullscreen => {
                    let on = !config.fullscreen;
                    (
                        State { config: Config { fullscreen: on, ..config }, ..self },
                        true,
                        one_effect(Effect::SetFullscreen { on }),
                    )
                },
                Setting::ToggleVsync => {
                    let on = !config.vsync;
                    let notice = if on {
                        Notice::VsyncEnabled
                    } else {
                        Notice::VsyncDisabled
                    };
                    (
                        State { config: Config { vsync: on, ..config }, ..self },
                        true,
                        two_effects(Effect::SetVsync { on }, Effect::Message { notice }),
                    )
                },
                Setting::ToggleNtscFilter => {
                    let filter = match config.filter {
                        VideoFilter::Pixellate => VideoFilter::Ntsc,
                        VideoFilter::Ntsc => VideoFilter::Pixellate,
                    };
                    (
                        State { config: Config { filter, ..config }, ..self },
                        true,
                        one_effect(Effect::SetFilter { filter }),
                    )
                },
                Setting::ToggleSound => {
                    let on = !config.sound;
                    let notice = if on {
                        Notice::SoundEnabled
                    } else {
                        Notice::SoundDisabled
                    };
                    (
                        State { config: Config { sound: on, ..config }, ..self },
                        true,
                        one_effect(Effect::Message { notice }),
                    )
                },
                Setting::TogglePulse1 => (
                    self,
                    true,
                    one_effect(Effect::ToggleChannel { channel: Channel::Pulse1 }),
                ),
                Setting::TogglePulse2 => (
                    self,
                    true,
                    one_effect(Effect::ToggleChannel { channel: Channel::Pulse2 }),
                ),
                Setting::ToggleTriangle => (
                    self,
                    true,
                    one_effect(Effect::ToggleChannel { channel: Channel::Triangle }),
                ),
                Setting::ToggleNoise => (
                    self,
                    true,
                    one_effect(Effect::ToggleChannel { channel: Channel::Noise }),
                ),
                Setting::ToggleDmc => (
                    self,
                    true,
                    one_effect(Effect::ToggleChannel { channel: Channel::Dmc }),
                ),
                Setting::IncSpeed => (
                    self,
                    true,
                    one_effect(Effect::ChangeSpeed { delta: SPEED_STEP }),
                ),
                Setting::DecSpeed => (
                    self,
                    true,
                    one_effect(Effect::ChangeSpeed { delta: -SPEED_STEP }),
                ),
                _ => (self, false, no_effects()),
            }
        } else {
            (self, false, no_effects())
        }
    }

    pub fn handle_debug(self, action: DebugAction, repeat: bool, shift: bool) -> (r: (
        State,
        bool,
        Vec<Effect>,
    ))
        ensures
            self.spec_debug(action, repeat, shift) == (Outcome {
                state: r.0,
                handled: r.1,
                effects: r.2@,
            }),
    {
        let debugging = self.debugging;
        let by: u8 = if shift {
            SCANLINE_STRIDE
        } else {
            1
        };
        let effects = match action {
            DebugAction::ToggleCpuDebugger if !repeat => one_effect(Effect::ToggleDebugger),
            DebugAction::TogglePpuDebugger if !repeat => one_effect(Effect::TogglePpuViewer),
            DebugAction::ToggleApuDebugger if !repeat => one_effect(Effect::ToggleApuViewer),
            DebugAction::StepInto if debugging => two_effects(Effect::PausePlay, Effect::StepInto),
            DebugAction::StepOver if debugging => two_effects(Effect::PausePlay, Effect::StepOver),
            DebugAction::StepOut if debugging => one_effect(Effect::StepOut),
            DebugAction::StepFrame if debugging => two_effects(Effect::PausePlay, Effect::StepFrame),
            DebugAction::StepScanline if debugging => two_effects(Effect::PausePlay, Effect::StepScanline),
            DebugAction::IncScanline => {
                if self.ppu_viewer {
                    one_effect(Effect::IncScanline { by })
                } else {
                    no_effects()
                }
            },
            DebugAction::DecScanline => {
                if self.ppu_viewer {
                    one_effect(Effect::DecScanline { by })
                } else {
                    no_effects()
                }
            },
            _ => {
                return (self, false, no_effects());
            },
        };
        (self, true, effects)
    }

    /// Carries out `action` on this state.
    pub fn handle_action(
        self,
        slot: Slot,
        action: Action,
        pressed: bool,
        repeat: bool,
        shift: bool,
    ) -> (r: (State, bool, Vec<Effect>))
        requires
            self.spec_action_ok(action, pressed),
        ensures
            self.spec_action(slot, action, pressed, repeat, shift) == (Outcome {
                state: r.0,
                handled: r.1,
                effects: r.2@,
            }),
    {
        proof {
            reveal(State::spec_action);
        }
        match action {
            Action::Debug { action } if pressed => self.handle_debug(action, repeat, shift),
            Action::Feature { feature } => self.handle_feature(feature, pressed, repeat),
            Action::Nes { state } if pressed => self.handle_nes_state(state),
            Action::Menu { menu } if pressed => (
                self,
                true,
                one_effect(Effect::ToggleMenu { menu }),
            ),
            Action::Setting { setting } => self.handle_setting(setting, pressed, repeat),
            Action::Joypad { button } => self.handle_joypad_pressed(slot, button, pressed),
            Action::ZapperTrigger if pressed => (self, true, one_effect(Effect::TriggerZapper)),
            Action::ZeroAxis { first, second } => {
                let r = self.handle_joypad_pressed(slot, first, pressed);
                if r.1 {
                    r
                } else {
                    self.handle_joypad_pressed(slot, second, pressed)
                }
            },
            _ => (self, false, no_effects()),
        }
    }
}

/// An action that is not consumed changes nothing and asks for nothing.
pub proof fn lemma_unhandled_changes_nothing(
    state: State,
    slot: Slot,
    action: Action,
    pressed: bool,
    repeat: bool,
    shift: bool,
)
    requires
        !state.spec_action(slot, action, pressed, repeat, shift).handled,
    ensures
        state.spec_action(slot, action, pressed, repeat, shift) == state.spec_unhandled(),
{
    reveal(State::spec_action);
}

/// With opposite directions not allowed together, a controller on which
/// no two opposite directions are held stays so after any press.
pub proof fn lemma_press_keeps_directions_apart(pad: Gamepad, button: JoypadBtn, pressed: bool)
    requires
        !(pad.left && pad.right),
        !(pad.up && pad.down),
    ensures
        !(spec_press(pad, button, pressed, false).left && spec_press(
            pad,
            button,
            pressed,
            false,
        ).right),
        !(spec_press(pad, button, pressed, false).up && spec_press(pad, button, pressed, false).down),
{
}

/// Holding a turbo button holds its primary button, and releasing it
/// releases the primary button too.
pub proof fn lemma_turbo_takes_primary(pad: Gamepad, pressed: bool, concurrent_dpad: bool)
    ensures
        spec_press(pad, JoypadBtn::TurboA, pressed, concurrent_dpad).a == pressed,
        spec_press(pad, JoypadBtn::TurboB, pressed, concurrent_dpad).b == pressed,
{
}


/// The `i`-th controller port, counted from 0.
pub open spec fn spec_slot_at(i: int) -> Slot {
    if i == 0 {
        Slot::One
    } else if i == 1 {
        Slot::Two
    } else if i == 2 {
        Slot::Three
    } else {
        Slot::Four
    }
}

/// `input` as it comes from port `slot`.
pub open spec fn spec_for_slot(input: Input, slot: Slot) -> Input {
    match input {
        Input::Key { key, keymod, .. } => Input::Key { slot, key, keymod },
        Input::Button { button, .. } => Input::Button { slot, button },
        Input::Axis { axis, direction, .. } => Input::Axis { slot, axis, direction },
        Input::Mouse { button, .. } => Input::Mouse { slot, button },
    }
}

pub fn slot_at(i: usize) -> (slot: Slot)
    ensures
        slot == spec_slot_at(i as int),
{
    if i == 0 {
        Slot::One
    } else if i == 1 {
        Slot::Two
    } else if i == 2 {
        Slot::Three
    } else {
        Slot::Four
    }
}

pub fn for_slot(input: Input, slot: Slot) -> (out: Input)
    ensures
        out == spec_for_slot(input, slot),
{
    match input {
        Input::Key { key, keymod, .. } => Input::Key { slot, key, keymod },
        Input::Button { button, .. } => Input::Button { slot, button },
        Input::Axis { axis, direction, .. } => Input::Axis { slot, axis, direction },
        Input::Mouse { button, .. } => Input::Mouse { slot, button },
    }
}

/// No input is bound twice in `bindings`.
pub open spec fn spec_unique(bindings: Seq<Binding>) -> bool {
    forall|i: int, j: int|
        0 <= i < j < bindings.len() ==> (#[trigger] bindings[i]).input != (
        #[trigger] bindings[j]).input
}

/// The first binding of an input is the one that a lookup finds.
proof fn lemma_lookup_finds_first(bindings: Seq<Binding>, input: Input, n: int)
    requires
        0 <= n < bindings.len(),
        bindings[n].input == input,
        forall|k: int| 0 <= k < n ==> (#[trigger] bindings[k]).input != input,
    ensures
        spec_lookup(bindings, input) == Some(bindings[n].action),
    decreases n,
{
    if n > 0 {
        let rest = bindings.skip(1);
        assert forall|k: int| 0 <= k < n - 1 implies (#[trigger] rest[k]).input != input by {
            assert(rest[k] == bindings[k + 1]);
        }
        lemma_lookup_finds_first(rest, input, n - 1);
    }
}

/// Two lists that agree on where `input` is bound, and to what, give the
/// same lookup of `input`.
proof fn lemma_lookup_agrees(a: Seq<Binding>, b: Seq<Binding>, input: Input)
    requires
        a.len() == b.len(),
        forall|k: int|
            0 <= k < a.len() ==> ((#[trigger] a[k]).input == input) == (b[k].input == input),
        forall|k: int|
            0 <= k < a.len() && (#[trigger] a[k]).input == input ==> a[k].action == b[k].action,
    ensures
        spec_lookup(a, input) == spec_lookup(b, input),
    decreases a.len(),
{
    if a.len() > 0 {
        let ra = a.skip(1);
        let rb = b.skip(1);
        assert(a[0].input == input ==> a[0].action == b[0].action);
        assert((a[0].input == input) == (b[0].input == input));
        assert forall|k: int| 0 <= k < ra.len() implies ((#[trigger] ra[k]).input == input) == (
        rb[k].input == input) by {
            assert(ra[k] == a[k + 1]);
            assert(rb[k] == b[k + 1]);
        }
        assert forall|k: int| 0 <= k < ra.len() && (#[trigger] ra[k]).input
            == input implies ra[k].action == rb[k].action by {
            assert(ra[k] == a[k + 1]);
            assert(rb[k] == b[k + 1]);
        }
        lemma_lookup_agrees(ra, rb, input);
    }
}

/// A binding added at the end does not change the lookup of another
/// input.
proof fn lemma_lookup_after_push(bindings: Seq<Binding>, added: Binding, input: Input)
    requires
        added.input != input,
    ensures
        spec_lookup(bindings.push(added), input) == spec_lookup(bindings, input),
    decreases bindings.len(),
{
    if bindings.len() > 0 {
        assert(bindings.push(added).skip(1) =~= bindings.skip(1).push(added));
        assert(bindings.push(added)[0] == bindings[0]);
        lemma_lookup_after_push(bindings.skip(1), added, input);
    } else {
        assert(bindings.push(added).skip(1) =~= bindings);
    }
}

impl InputMapping {
    /// No input is bound twice.
    pub open spec fn wf(&self) -> bool {
        spec_unique(self.bindings@)
    }

    pub fn new() -> (m: Self)
        ensures
            m.bindings@ == Seq::<Binding>::empty(),
            m.wf(),
    {
        InputMapping { bindings: Vec::new() }
    }

    /// Binds `input` to `action`, in place of what it was bound to. Every
    /// other input stays bound as it was.
    pub fn insert(&mut self, input: Input, action: Action)
        ensures
            spec_lookup(final(self).bindings@, input) == Some(action),
            forall|other: Input|
                other != input ==> #[trigger] spec_lookup(final(self).bindings@, other)
                    == spec_lookup(old(self).bindings@, other),
            old(self).wf() ==> final(self).wf(),
    {
        let mut i: usize = 0;
        while i < self.bindings.len()
            invariant
                i <= self.bindings@.len(),
                self.bindings@ == old(self).bindings@,
                forall|k: int| 0 <= k < i ==> (#[trigger] self.bindings@[k]).input != input,
            decreases self.bindings@.len() - i,
        {
            if self.bindings[i].input == input {
                self.bindings.set(i, Binding { input, action });
                proof {
                    let before = old(self).bindings@;
                    let after = self.bindings@;
                    lemma_lookup_finds_first(after, input, i as int);
                    assert forall|other: Input| other != input implies #[trigger] spec_lookup(
                        after,
                        other,
                    ) == spec_lookup(before, other) by {
                        lemma_lookup_agrees(after, before, other);
                    }
                }
                return ;
            }
            i += 1;
        }
        self.bindings.push(Binding { input, action });
        proof {
            let before = old(self).bindings@;
            let after = self.bindings@;
            lemma_lookup_finds_first(after, input, before.len() as int);
            assert forall|other: Input| other != input implies #[trigger] spec_lookup(
                after,
                other,
            ) == spec_lookup(before, other) by {
                lemma_lookup_after_push(before, Binding { input, action }, other);
            }
        }
    }

    /// The action bound to `input`, if one is.
    pub fn get(&self, input: Input) -> (action: Option<Action>)
        ensures
            action == spec_lookup(self.bindings@, input),
    {
        let mut i: usize = 0;
        proof {
            assert(self.bindings@.skip(0) =~= self.bindings@);
        }
        while i < self.bindings.len()
            invariant
                i <= self.bindings@.len(),
                spec_lookup(self.bindings@, input) == spec_lookup(
                    self.bindings@.skip(i as int),
                    input,
                ),
            decreases self.bindings@.len() - i,
        {
            let binding = self.bindings[i];
            if binding.input == input {
                return Some(binding.action);
            }
            proof {
                assert(self.bindings@.skip(i as int).skip(1) =~= self.bindings@.skip(i + 1));
            }
            i += 1;
        }
        None
    }
}

/// A session after one step of a replay, the action to carry out next, if
/// one is due, and what the host is to do.
pub struct ReplayStep {
    pub session: Session,
    pub next: Option<ActionEvent>,
    pub effects: Seq<Effect>,
}

impl Session {
    /// One step of a replay at frame `frame`: stale actions are dropped;
    /// an action due now is taken off the buffer; with no action left the
    /// replay is stopped.
    pub open spec fn spec_replay(self, frame: u32) -> ReplayStep {
        let kept = spec_drop_stale(self.buffer, frame);
        if kept.len() > 0 && kept.last().frame == frame {
            ReplayStep {
                session: Session { state: self.state, buffer: kept.drop_last() },
                next: Some(kept.last()),
                effects: Seq::<Effect>::empty(),
            }
        } else if kept.len() == 0 {
            ReplayStep {
                session: Session {
                    state: State { replay_mode: ReplayMode::Off, ..self.state },
                    buffer: kept,
                },
                next: None,
                effects: seq![Effect::StopReplay],
            }
        } else {
            ReplayStep {
                session: Session { state: self.state, buffer: kept },
                next: None,
                effects: Seq::<Effect>::empty(),
            }
        }
    }

    pub open spec fn spec_unhandled(self) -> Reaction {
        Reaction { session: self, handled: false, effects: Seq::<Effect>::empty() }
    }

    /// The action is carried out on the state; then, if the session is
    /// recording, the action is appended to the replay buffer with the
    /// current frame.
    pub open spec fn spec_action(
        self,
        frame: u32,
        slot: Slot,
        action: Action,
        pressed: bool,
        repeat: bool,
        shift: bool,
    ) -> Reaction {
        let outcome = self.state.spec_action(slot, action, pressed, repeat, shift);
        Reaction {
            session: Session {
                state: outcome.state,
                buffer: if outcome.state.replay_mode == ReplayMode::Recording {
                    self.buffer.push(ActionEvent { frame, slot, action, pressed, repeat })
                } else {
                    self.buffer
                },
            },
            handled: outcome.handled,
            effects: outcome.effects,
        }
    }

    /// Whether `input` can be handled: it is unbound, or bound to an
    /// action that can be.
    pub open spec fn spec_input_ok(self, bindings: Seq<Binding>, input: Input, pressed: bool) -> bool {
        spec_lookup(bindings, input) is Some ==> self.state.spec_action_ok(
            spec_lookup(bindings, input)->Some_0,
            pressed,
        )
    }

    /// An unbound input is not consumed; a bound one does what its action
    /// does.
    pub open spec fn spec_input(
        self,
        bindings: Seq<Binding>,
        frame: u32,
        slot: Slot,
        input: Input,
        pressed: bool,
        repeat: bool,
        shift: bool,
    ) -> Reaction {
        match spec_lookup(bindings, input) {
            Some(action) => self.spec_action(frame, slot, action, pressed, repeat, shift),
            None => self.spec_unhandled(),
        }
    }

    /// `input` is offered to the ports `from..to` in turn, until one
    /// consumes it.
    pub open spec fn spec_try_slots(
        self,
        bindings: Seq<Binding>,
        frame: u32,
        input: Input,
        from: int,
        to: int,
        pressed: bool,
        repeat: bool,
        shift: bool,
    ) -> Reaction
        decreases to - from,
    {
        if from >= to {
            self.spec_unhandled()
        } else {
            let first = self.spec_input(
                bindings,
                frame,
                spec_slot_at(from),
                spec_for_slot(input, spec_slot_at(from)),
                pressed,
                repeat,
                shift,
            );
            if first.handled {
                first
            } else {
                first.session.spec_try_slots(
                    bindings,
                    frame,
                    input,
                    from + 1,
                    to,
                    pressed,
                    repeat,
                    shift,
                )
            }
        }
    }

}

impl State {
    /// Whether `input` can be offered to the ports `from..to`: on every
    /// port that the offer reaches, up to the first that consumes it, the
    /// input is unbound or bound to an action that can be handled.
    pub open spec fn spec_offer_ok(
        self,
        bindings: Seq<Binding>,
        input: Input,
        from: int,
        to: int,
        pressed: bool,
        repeat: bool,
        shift: bool,
    ) -> bool
        decreases to - from,
    {
        if from >= to {
            true
        } else {
            match spec_lookup(bindings, spec_for_slot(input, spec_slot_at(from))) {
                None => self.spec_offer_ok(bindings, input, from + 1, to, pressed, repeat, shift),
                Some(action) => self.spec_action_ok(action, pressed) && (self.spec_action(
                    spec_slot_at(from),
                    action,
                    pressed,
                    repeat,
                    shift,
                ).handled || self.spec_offer_ok(
                    bindings,
                    input,
                    from + 1,
                    to,
                    pressed,
                    repeat,
                    shift,
                )),
            }
        }
    }
}

impl View for Nes {
    type V = Session;

    open spec fn view(&self) -> Session {
        Session { state: self.state, buffer: self.replay_buffer@ }
    }
}

impl Nes {
    /// A session in `state` with no gamepads plugged in and nothing
    /// recorded.
    pub fn new(state: State) -> (nes: Self)
        ensures
            nes.state == state,
            nes.replay_buffer@ == Seq::<ActionEvent>::empty(),
            nes.players == (Players { one: None, two: None, three: None, four: None }),
    {
        Nes {
            state,
            players: Players { one: None, two: None, three: None, four: None },
            replay_buffer: Vec::new(),
        }
    }

    /// The record of an action at frame `frame`.
    pub fn action_event(frame: u32, slot: Slot, action: Action, pressed: bool, repeat: bool) -> (ev:
        ActionEvent)
        ensures
            ev == (ActionEvent { frame, slot, action, pressed, repeat }),
    {
        ActionEvent { frame, slot, action, pressed, repeat }
    }

    /// The first port that gamepad `controller_id` is plugged into.
    pub fn get_controller_slot(&self, controller_id: u32) -> (slot: Option<Slot>)
        ensures
            slot == self.players.spec_slot_of(controller_id),
    {
        self.players.slot_of(controller_id)
    }

    /// Carries out `action` at frame `frame`, and records it if the
    /// session is recording afterwards.
    pub fn handle_action(
        &mut self,
        frame: u32,
        slot: Slot,
        action: Action,
        pressed: bool,
        repeat: bool,
        shift: bool,
    ) -> (r: (bool, Vec<Effect>))
        requires
            old(self).state.spec_action_ok(action, pressed),
        ensures
            old(self)@.spec_action(frame, slot, action, pressed, repeat, shift) == (Reaction {
                session: final(self)@,
                handled: r.0,
                effects: r.1@,
            }),
            final(self).players == old(self).players,
    {
        let (state, handled, effects) = self.state.handle_action(
            slot,
            action,
            pressed,
            repeat,
            shift,
        );
        self.state = state;
        if state.replay_mode == ReplayMode::Recording {
            self.replay_buffer.push(Self::action_event(frame, slot, action, pressed, repeat));
        }
        (handled, effects)
    }

    /// Handles `input` from port `slot` by the action bound to it.
    pub fn handle_input(
        &mut self,
        mapping: &InputMapping,
        frame: u32,
        slot: Slot,
        input: Input,
        pressed: bool,
        repeat: bool,
        shift: bool,
    ) -> (r: (bool, Vec<Effect>))
        requires
            old(self)@.spec_input_ok(mapping.bindings@, input, pressed),
        ensures
            old(self)@.spec_input(mapping.bindings@, frame, slot, input, pressed, repeat, shift)
                == (Reaction { session: final(self)@, handled: r.0, effects: r.1@ }),
            final(self).players == old(self).players,
    {
        match mapping.get(input) {
            Some(action) => self.handle_action(frame, slot, action, pressed, repeat, shift),
            None => (false, no_effects()),
        }
    }

    /// Whether `input` can be offered to the ports `from..to`.
    pub fn can_offer(
        &self,
        mapping: &InputMapping,
        input: Input,
        from: usize,
        to: usize,
        pressed: bool,
        repeat: bool,
        shift: bool,
    ) -> (ok: bool)
        ensures
            ok == self.state.spec_offer_ok(
                mapping.bindings@,
                input,
                from as int,
                to as int,
                pressed,
                repeat,
                shift,
            ),
    {
        let mut i: usize = from;
        while i < to
            invariant
                from <= i,
                self.state.spec_offer_ok(
                    mapping.bindings@,
                    input,
                    from as int,
                    to as int,
                    pressed,
                    repeat,
                    shift,
                ) == self.state.spec_offer_ok(
                    mapping.bindings@,
                    input,
                    i as int,
                    to as int,
                    pressed,
                    repeat,
                    shift,
                ),
            decreases to - i,
        {
            let slot = slot_at(i);
            match mapping.get(for_slot(input, slot)) {
                Some(action) => {
                    if !self.state.action_ok(action, pressed) {
                        return false;
                    }
                    let outcome = self.state.handle_action(slot, action, pressed, repeat, shift);
                    if outcome.1 {
                        return true;
                    }
                },
                None => {},
            }
            i += 1;
        }
        true
    }

    /// Offers `input` to the ports `from..to` in turn, until one consumes
    /// it.
    pub fn try_slots(
        &mut self,
        mapping: &InputMapping,
        frame: u32,
        input: Input,
        from: usize,
        to: usize,
        pressed: bool,
        repeat: bool,
        shift: bool,
    ) -> (r: (bool, Vec<Effect>))
        requires
            old(self).state.spec_offer_ok(
                mapping.bindings@,
                input,
                from as int,
                to as int,
                pressed,
                repeat,
                shift,
            ),
        ensures
            old(self)@.spec_try_slots(
                mapping.bindings@,
                frame,
                input,
                from as int,
                to as int,
                pressed,
                repeat,
                shift,
            ) == (Reaction { session: final(self)@, handled: r.0, effects: r.1@ }),
            final(self).players == old(self).players,
    {
        let mut i: usize = from;
        while i < to
            invariant
                from <= i,
                self.state == old(self).state,
                self.players == old(self).players,
                self.state.spec_offer_ok(
                    mapping.bindings@,
                    input,
                    i as int,
                    to as int,
                    pressed,
                    repeat,
                    shift,
                ),
                old(self)@.spec_try_slots(
                    mapping.bindings@,
                    frame,
                    input,
                    from as int,
                    to as int,
                    pressed,
                    repeat,
                    shift,
                ) == self@.spec_try_slots(
                    mapping.bindings@,
                    frame,
                    input,
                    i as int,
                    to as int,
                    pressed,
                    repeat,
                    shift,
                ),
            decreases to - i,
        {
            let slot = slot_at(i);
            let offered = for_slot(input, slot);
            proof {
                lemma_try_slots_step(
                    self@,
                    mapping.bindings@,
                    frame,
                    input,
                    i as int,
                    to as int,
                    pressed,
                    repeat,
                    shift,
                );
            }
            let r = self.handle_input(mapping, frame, slot, offered, pressed, repeat, shift);
            if r.0 {
                return r;
            }
            i += 1;
        }
        (false, no_effects())
    }

    /// A key went down or up. The key is offered to all four ports.
    pub fn handle_key_event(
        &mut self,
        mapping: &InputMapping,
        frame: u32,
        key: u32,
        keymod: u16,
        repeat: bool,
        pressed: bool,
        shift: bool,
    ) -> (r: (bool, Vec<Effect>))
        requires
            old(self).state.spec_offer_ok(
                mapping.bindings@,
                Input::Key { slot: Slot::One, key, keymod },
                0,
                4,
                pressed,
                repeat,
                shift,
            ),
        ensures
            old(self)@.spec_try_slots(
                mapping.bindings@,
                frame,
                Input::Key { slot: Slot::One, key, keymod },
                0,
                4,
                pressed,
                repeat,
                shift,
            ) == (Reaction { session: final(self)@, handled: r.0, effects: r.1@ }),
            final(self).players == old(self).players,
    {
        let input = Input::Key { slot: Slot::One, key, keymod };
        self.try_slots(mapping, frame, input, 0, 4, pressed, repeat, shift)
    }

    /// A mouse button went down. During play it is offered to the first
    /// two ports; otherwise it is left to the menus.
    pub fn handle_mouse_click(&mut self, mapping: &InputMapping, frame: u32, btn: u8, shift: bool) -> (r:
        (bool, Vec<Effect>))
        requires
            old(self).state.mode == Mode::Playing ==> old(self).state.spec_offer_ok(
                mapping.bindings@,
                Input::Mouse { slot: Slot::One, button: btn },
                0,
                2,
                true,
                false,
                shift,
            ),
        ensures
            (Reaction { session: final(self)@, handled: r.0, effects: r.1@ }) == if old(
                self,
            ).state.mode == Mode::Playing {
                old(self)@.spec_try_slots(
                    mapping.bindings@,
                    frame,
                    Input::Mouse { slot: Slot::One, button: btn },
                    0,
                    2,
                    true,
                    false,
                    shift,
                )
            } else {
                old(self)@.spec_unhandled()
            },
            final(self).players == old(self).players,
    {
        if self.state.mode == Mode::Playing {
            let input = Input::Mouse { slot: Slot::One, button: btn };
            self.try_slots(mapping, frame, input, 0, 2, true, false, shift)
        } else {
            (false, no_effects())
        }
    }

    /// Where to aim the zapper for a pointer at column `x` and row `y` of
    /// the picture, whose shown rows are `top..bottom`.
    pub fn set_zapper_pos(&self, x: i32, y: i32, top: i32, bottom: i32) -> (effect: Effect)
        requires
            bottom > i32::MIN,
        ensures
            effect == (Effect::AimZapper { x, y: spec_zapper_row(y, top, bottom) as i32 }),
    {
        Effect::AimZapper { x, y: zapper_row(y, top, bottom) }
    }

    /// The pointer moved. During play the zapper follows it; otherwise
    /// the motion is left to the menus.
    pub fn handle_mouse_motion(&self, x: i32, y: i32, top: i32, bottom: i32) -> (effect: Option<Effect>)
        requires
            bottom > i32::MIN,
        ensures
            effect == if self.state.mode == Mode::Playing {
                Some(Effect::AimZapper { x, y: spec_zapper_row(y, top, bottom) as i32 })
            } else {
                None
            },
    {
        if self.state.mode == Mode::Playing {
            Some(self.set_zapper_pos(x, y, top, bottom))
        } else {
            None
        }
    }

    /// A button of gamepad `controller_id` went down or up. A gamepad that
    /// is not plugged into a port is ignored.
    pub fn handle_controller_event(
        &mut self,
        mapping: &InputMapping,
        frame: u32,
        controller_id: u32,
        button: u8,
        pressed: bool,
        shift: bool,
    ) -> (r: (bool, Vec<Effect>))
        requires
            old(self).players.spec_slot_of(controller_id) is Some ==> old(self)@.spec_input_ok(
                mapping.bindings@,
                Input::Button { slot: old(self).players.spec_slot_of(controller_id)->Some_0, button },
                pressed,
            ),
        ensures
            (Reaction { session: final(self)@, handled: r.0, effects: r.1@ }) == match old(
                self,
            ).players.spec_slot_of(controller_id) {
                Some(slot) => old(self)@.spec_input(
                    mapping.bindings@,
                    frame,
                    slot,
                    Input::Button { slot, button },
                    pressed,
                    false,
                    shift,
                ),
                None => old(self)@.spec_unhandled(),
            },
            final(self).players == old(self).players,
    {
        match self.get_controller_slot(controller_id) {
            Some(slot) => {
                let input = Input::Button { slot, button };
                self.handle_input(mapping, frame, slot, input, pressed, false, shift)
            },
            None => (false, no_effects()),
        }
    }

    /// An axis of gamepad `controller_id` moved to `value`. The sign of the
    /// reading gives the direction, and the input counts as pressed.
    pub fn handle_controller_axis(
        &mut self,
        mapping: &InputMapping,
        frame: u32,
        controller_id: u32,
        axis: u8,
        value: i32,
        shift: bool,
    ) -> (r: (bool, Vec<Effect>))
        requires
            old(self).players.spec_slot_of(controller_id) is Some ==> old(self)@.spec_input_ok(
                mapping.bindings@,
                Input::Axis {
                    slot: old(self).players.spec_slot_of(controller_id)->Some_0,
                    axis,
                    direction: spec_axis_direction(value),
                },
                true,
            ),
        ensures
            (Reaction { session: final(self)@, handled: r.0, effects: r.1@ }) == match old(
                self,
            ).players.spec_slot_of(controller_id) {
                Some(slot) => old(self)@.spec_input(
                    mapping.bindings@,
                    frame,
                    slot,
                    Input::Axis { slot, axis, direction: spec_axis_direction(value) },
                    true,
                    false,
                    shift,
                ),
                None => old(self)@.spec_unhandled(),
            },
            final(self).players == old(self).players,
    {
        match self.get_controller_slot(controller_id) {
            Some(slot) => {
                let direction = axis_direction(value);
                let input = Input::Axis { slot, axis, direction };
                self.handle_input(mapping, frame, slot, input, true, false, shift)
            },
            None => (false, no_effects()),
        }
    }

    /// One step of a replay at frame `current_frame`. Actions that were due
    /// before this frame are dropped. If the next action is due now, it is
    /// taken off the buffer and returned, for the host to carry out before
    /// it asks again. Otherwise nothing is returned; and if no action is
    /// left then, the replay is over: the session leaves playback and the
    /// host is told to stop the replay.
    pub fn replay_action(&mut self, current_frame: u32) -> (r: (Option<ActionEvent>, Vec<Effect>))
        ensures
            old(self)@.spec_replay(current_frame) == (ReplayStep {
                session: final(self)@,
                next: r.0,
                effects: r.1@,
            }),
            final(self).players == old(self).players,
            r.0 is None ==> {
                ||| {
                    &&& final(self).replay_buffer@.len() == 0
                    &&& final(self).state.replay_mode == ReplayMode::Off
                    &&& r.1@ == seq![Effect::StopReplay]
                }
                ||| {
                    &&& final(self).replay_buffer@.len() > 0
                    &&& final(self).replay_buffer@.last().frame > current_frame
                    &&& r.1@ == Seq::<Effect>::empty()
                }
            },
    {
        proof {
            lemma_drop_stale_leaves_due(self.replay_buffer@, current_frame);
        }
        while self.replay_buffer.len() > 0
            invariant
                self.state == old(self).state,
                self.players == old(self).players,
                spec_drop_stale(self.replay_buffer@, current_frame) == spec_drop_stale(
                    old(self).replay_buffer@,
                    current_frame,
                ),
            decreases self.replay_buffer@.len(),
        {
            let last = self.replay_buffer[self.replay_buffer.len() - 1];
            if last.frame == current_frame {
                self.replay_buffer.pop();
                return (Some(last), no_effects());
            } else if last.frame < current_frame {
                self.replay_buffer.pop();
            } else {
                return (None, no_effects());
            }
        }
        self.state = State { replay_mode: ReplayMode::Off, ..self.state };
        (None, one_effect(Effect::StopReplay))
    }
}

/// One step of offering an input to the ports in turn: a port that
/// consumes the input ends the search, and one that does not leaves the
/// state as it was and asks nothing of the host.
proof fn lemma_try_slots_step(
    session: Session,
    bindings: Seq<Binding>,
    frame: u32,
    input: Input,
    from: int,
    to: int,
    pressed: bool,
    repeat: bool,
    shift: bool,
)
    requires
        from < to,
    ensures
        ({
            let first = session.spec_input(
                bindings,
                frame,
                spec_slot_at(from),
                spec_for_slot(input, spec_slot_at(from)),
                pressed,
                repeat,
                shift,
            );
            let all = session.spec_try_slots(bindings, frame, input, from, to, pressed, repeat, shift);
            &&& first.handled ==> all == first
            &&& !first.handled ==> {
                &&& first.effects == Seq::<Effect>::empty()
                &&& first.session.state == session.state
                &&& all == first.session.spec_try_slots(
                    bindings,
                    frame,
                    input,
                    from + 1,
                    to,
                    pressed,
                    repeat,
                    shift,
                )
            }
        }),
{
    let offered = spec_for_slot(input, spec_slot_at(from));
    let action = spec_lookup(bindings, offered);
    if action is Some && !session.state.spec_action(
        spec_slot_at(from),
        action->Some_0,
        pressed,
        repeat,
        shift,
    ).handled {
        lemma_unhandled_changes_nothing(
            session.state,
            spec_slot_at(from),
            action->Some_0,
            pressed,
            repeat,
            shift,
        );
    }
}

/// After stale actions are dropped, the action at the end of the replay
/// buffer, if there is one, is due now or later.
pub proof fn lemma_drop_stale_leaves_due(buffer: Seq<ActionEvent>, frame: u32)
    ensures
        spec_drop_stale(buffer, frame).len() <= buffer.len(),
        spec_drop_stale(buffer, frame) == buffer.take(spec_drop_stale(buffer, frame).len() as int),
        spec_drop_stale(buffer, frame).len() > 0 ==> spec_drop_stale(buffer, frame).last().frame
            >= frame,
    decreases buffer.len(),
{
    if buffer.len() > 0 && buffer.last().frame < frame {
        lemma_drop_stale_leaves_due(buffer.drop_last(), frame);
        let kept = spec_drop_stale(buffer.drop_last(), frame);
        assert(buffer.drop_last().take(kept.len() as int) =~= buffer.take(kept.len() as int));
    } else {
        assert(buffer.take(buffer.len() as int) =~= buffer);
    }
}


/// What the debugger needs to know of an instruction to step over or out
/// of a subroutine.
#[derive(Debug, Copy, Clone, PartialEq, Eq, Hash, Structural)]
pub enum StepOp {
    /// A jump to a subroutine.
    Jsr,
    /// A return from a subroutine.
    Rts,
    /// A return from an interrupt.
    Rti,
    /// Any other instruction.
    Other,
}

/// Where stepping over an instruction ends, once the instruction has run
/// and `stack_top` is the address on top of the stack: behind a jump to a
/// subroutine, at the instruction that the subroutine returns to, which is
/// one past the address that the jump pushed. After any other instruction
/// the step is over at once.
pub open spec fn spec_step_over_target(op: StepOp, stack_top: u16) -> Option<u16> {
    if op == StepOp::Jsr {
        Some(((stack_top + 1) % 0x10000) as u16)
    } else {
        None
    }
}

pub fn step_over_target(op: StepOp, stack_top: u16) -> (target: Option<u16>)
    ensures
        target == spec_step_over_target(op, stack_top),
{
    match op {
        StepOp::Jsr => Some(stack_top.wrapping_add(1)),
        _ => None,
    }
}

/// Whether stepping out has reached the instruction that leaves the
/// subroutine: a return, which the debugger then runs as its last step.
pub fn step_out_reached(op: StepOp) -> (reached: bool)
    ensures
        reached == (op == StepOp::Rts || op == StepOp::Rti),
{
    match op {
        StepOp::Rts | StepOp::Rti => true,
        _ => false,
    }
}

} // verus!
