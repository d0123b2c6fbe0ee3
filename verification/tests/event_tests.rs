use nes_host::input::{Gamepad, JoypadBtn, Slot};
use nes_host::nes::event::{
    axis_direction, press, step_out_reached, step_over_target, zapper_row, Action, StepOp, ActionEvent, AxisDirection, Binding, Channel,
    Config, DebugAction, Effect, Feature, Input, InputMapping, Joypads, Kind, Menu, Mode, Nes,
    NesState, Notice, Players, ReplayMode, Setting, State, VideoFilter,
};

fn state() -> State {
    State {
        mode: Mode::Playing,
        config: Config {
            save_slot: 1,
            fullscreen: false,
            vsync: false,
            filter: VideoFilter::Pixellate,
            sound: true,
            rewind: false,
            concurrent_dpad: false,
        },
        replay_mode: ReplayMode::Off,
        joypads: Joypads {
            one: Gamepad::new(),
            two: Gamepad::new(),
            three: Gamepad::new(),
            four: Gamepad::new(),
        },
        debugging: false,
        ppu_viewer: false,
        has_error: false,
    }
}

fn key(slot: Slot, key: u32) -> Input {
    Input::Key { slot, key, keymod: 0 }
}

#[test]
fn axis_direction_is_the_sign() {
    assert_eq!(axis_direction(1), AxisDirection::Positive);
    assert_eq!(axis_direction(i32::MAX), AxisDirection::Positive);
    assert_eq!(axis_direction(-1), AxisDirection::Negative);
    assert_eq!(axis_direction(i32::MIN), AxisDirection::Negative);
    assert_eq!(axis_direction(0), AxisDirection::Neutral);
}

#[test]
fn pressing_a_direction_releases_the_opposite() {
    let mut pad = Gamepad::new();
    pad.right = true;
    pad.down = true;
    let pad = press(pad, JoypadBtn::Left, true, false);
    assert!(pad.left && !pad.right && pad.down);
    let pad = press(pad, JoypadBtn::Up, true, false);
    assert!(pad.up && !pad.down && pad.left);
    let pad = press(pad, JoypadBtn::Right, true, false);
    assert!(pad.right && !pad.left);
    let pad = press(pad, JoypadBtn::Down, true, false);
    assert!(pad.down && !pad.up);
    let pad = press(pad, JoypadBtn::Left, false, false);
    assert!(pad.right && !pad.left);
}

#[test]
fn concurrent_dpad_keeps_the_opposite() {
    let mut pad = Gamepad::new();
    pad.right = true;
    let pad = press(pad, JoypadBtn::Left, true, true);
    assert!(pad.left && pad.right);
}

#[test]
fn turbo_button_takes_its_primary_along() {
    let pad = press(Gamepad::new(), JoypadBtn::TurboA, true, false);
    assert!(pad.turbo_a && pad.a && !pad.b);
    let pad = press(pad, JoypadBtn::TurboA, false, false);
    assert_eq!(pad, Gamepad::new());
    let pad = press(Gamepad::new(), JoypadBtn::TurboB, true, false);
    assert!(pad.turbo_b && pad.b && !pad.a);
}

#[test]
fn zapper_row_is_kept_inside_the_picture() {
    assert_eq!(zapper_row(7, 8, 232), 8);
    assert_eq!(zapper_row(-5, 8, 232), 8);
    assert_eq!(zapper_row(8, 8, 232), 8);
    assert_eq!(zapper_row(100, 8, 232), 100);
    assert_eq!(zapper_row(231, 8, 232), 231);
    assert_eq!(zapper_row(232, 8, 232), 231);
    assert_eq!(zapper_row(5000, 8, 232), 231);
}

#[test]
fn joypad_is_fed_only_during_play() {
    let s = state();
    let (next, handled, effects) = s.handle_joypad_pressed(Slot::Two, JoypadBtn::A, true);
    assert!(handled);
    assert!(effects.is_empty());
    assert!(next.joypads.two.a);
    assert_eq!(next.joypads.one, Gamepad::new());
    let mut paused = state();
    paused.mode = Mode::Paused;
    let (next, handled, effects) = paused.handle_joypad_pressed(Slot::Two, JoypadBtn::A, true);
    assert!(!handled);
    assert!(effects.is_empty());
    assert_eq!(next, paused);
}

#[test]
fn each_slot_has_its_own_joypad() {
    for (slot, n) in [(Slot::One, 0), (Slot::Two, 1), (Slot::Three, 2), (Slot::Four, 3)] {
        let (next, _, _) = state().handle_joypad_pressed(slot, JoypadBtn::Start, true);
        let pads = [next.joypads.one, next.joypads.two, next.joypads.three, next.joypads.four];
        for (i, pad) in pads.iter().enumerate() {
            assert_eq!(pad.start, i == n);
        }
        assert_eq!(next.joypads.get(slot), pads[n]);
    }
}

#[test]
fn quit_pauses_then_quits() {
    let (next, handled, effects) = state().handle_nes_state(NesState::Quit);
    assert!(handled);
    assert_eq!(next, state());
    assert_eq!(effects, vec![Effect::PausePlay, Effect::Quit]);
    let (_, handled, effects) = state().handle_nes_state(NesState::TogglePause);
    assert!(handled);
    assert_eq!(effects, vec![Effect::TogglePause]);
}

#[test]
fn resets_clear_the_error() {
    let mut s = state();
    s.has_error = true;
    let (next, handled, effects) = s.handle_nes_state(NesState::SoftReset);
    assert!(handled);
    assert!(!next.has_error);
    assert_eq!(next.mode, Mode::Playing);
    assert_eq!(
        effects,
        vec![Effect::Reset { kind: Kind::Soft }, Effect::Message { notice: Notice::Reset }]
    );
    let (next, handled, effects) = s.handle_nes_state(NesState::HardReset);
    assert!(handled);
    assert!(!next.has_error);
    assert_eq!(
        effects,
        vec![Effect::Reset { kind: Kind::Hard }, Effect::Message { notice: Notice::PowerCycled }]
    );
}

#[test]
fn resets_pause_under_the_debugger() {
    let mut s = state();
    s.debugging = true;
    assert_eq!(s.handle_nes_state(NesState::SoftReset).0.mode, Mode::Paused);
    assert_eq!(s.handle_nes_state(NesState::HardReset).0.mode, Mode::Paused);
    s.mode = Mode::Rewinding;
    assert_eq!(s.handle_nes_state(NesState::SoftReset).0.mode, Mode::Paused);
    s.debugging = false;
    assert_eq!(s.handle_nes_state(NesState::HardReset).0.mode, Mode::Rewinding);
}

#[test]
fn console_actions_are_ignored_while_recording() {
    let mut s = state();
    s.replay_mode = ReplayMode::Recording;
    for st in [
        NesState::Quit,
        NesState::TogglePause,
        NesState::SoftReset,
        NesState::HardReset,
        NesState::MapperRevision { revision: 1 },
    ] {
        let (next, handled, effects) = s.handle_nes_state(st);
        assert!(!handled);
        assert!(effects.is_empty());
        assert_eq!(next, s);
    }
}

#[test]
fn rewind_feature() {
    let mut s = state();
    let (next, handled, effects) = s.handle_feature(Feature::Rewind, true, true);
    assert!(handled);
    assert_eq!(next, s);
    assert_eq!(effects, vec![Effect::Message { notice: Notice::RewindDisabled }]);
    s.config.rewind = true;
    let (next, _, effects) = s.handle_feature(Feature::Rewind, true, true);
    assert_eq!(next.mode, Mode::Rewinding);
    assert!(effects.is_empty());
    let (after, _, effects) = next.handle_feature(Feature::Rewind, false, false);
    assert_eq!(after, next);
    assert_eq!(effects, vec![Effect::ResumePlay]);
    let (after, _, effects) = s.handle_feature(Feature::Rewind, false, false);
    assert_eq!(after, s);
    assert_eq!(effects, vec![Effect::InstantRewind]);
    let (after, handled, effects) = s.handle_feature(Feature::Rewind, true, false);
    assert!(handled);
    assert_eq!(after, s);
    assert!(effects.is_empty());
}

#[test]
fn other_features_act_on_press() {
    let mut s = state();
    s.config.save_slot = 3;
    let cases = [
        (Feature::ToggleSoundRecording, Effect::ToggleSoundRecording),
        (Feature::TakeScreenshot, Effect::SaveScreenshot),
        (Feature::SaveState, Effect::SaveState { slot: 3 }),
        (Feature::LoadState, Effect::LoadState { slot: 3 }),
    ];
    for (feature, effect) in cases {
        let (next, handled, effects) = s.handle_feature(feature, true, false);
        assert!(handled);
        assert_eq!(next, s);
        assert_eq!(effects, vec![effect]);
        let (next, handled, effects) = s.handle_feature(feature, false, false);
        assert!(handled);
        assert_eq!(next, s);
        assert!(effects.is_empty());
    }
}

#[test]
fn recording_toggle_switches_replay_mode() {
    let s = state();
    let (next, _, effects) = s.handle_feature(Feature::ToggleGameplayRecording, true, false);
    assert_eq!(next.replay_mode, ReplayMode::Recording);
    assert_eq!(effects, vec![Effect::StartReplay]);
    let (next, _, effects) = next.handle_feature(Feature::ToggleGameplayRecording, true, false);
    assert_eq!(next.replay_mode, ReplayMode::Off);
    assert_eq!(effects, vec![Effect::StopReplay]);
    let mut p = state();
    p.replay_mode = ReplayMode::Playback;
    let (next, _, effects) = p.handle_feature(Feature::ToggleGameplayRecording, true, false);
    assert_eq!(next.replay_mode, ReplayMode::Off);
    assert_eq!(effects, vec![Effect::StopReplay]);
}

#[test]
fn fast_forward_runs_while_held() {
    let s = state();
    let (next, handled, effects) = s.handle_setting(Setting::FastForward, true, true);
    assert!(handled);
    assert_eq!(next, s);
    assert_eq!(effects, vec![Effect::SetSpeed { percent: 200 }]);
    let (_, handled, effects) = s.handle_setting(Setting::FastForward, false, false);
    assert!(handled);
    assert_eq!(effects, vec![Effect::SetSpeed { percent: 100 }]);
    let (_, handled, effects) = s.handle_setting(Setting::FastForward, true, false);
    assert!(handled);
    assert!(effects.is_empty());
}

#[test]
fn settings_act_on_press() {
    let s = state();
    let (next, handled, effects) = s.handle_setting(Setting::SetSaveSlot { slot: 3 }, true, false);
    assert!(handled);
    assert_eq!(next.config.save_slot, 3);
    assert_eq!(effects, vec![Effect::Message { notice: Notice::SaveSlot { slot: 3 } }]);

    let (next, _, effects) = s.handle_setting(Setting::ToggleFullscreen, true, false);
    assert!(next.config.fullscreen);
    assert_eq!(effects, vec![Effect::SetFullscreen { on: true }]);
    let (next, _, effects) = next.handle_setting(Setting::ToggleFullscreen, true, false);
    assert!(!next.config.fullscreen);
    assert_eq!(effects, vec![Effect::SetFullscreen { on: false }]);

    let (next, _, effects) = s.handle_setting(Setting::ToggleVsync, true, false);
    assert!(next.config.vsync);
    assert_eq!(
        effects,
        vec![Effect::SetVsync { on: true }, Effect::Message { notice: Notice::VsyncEnabled }]
    );
    let (next, _, effects) = next.handle_setting(Setting::ToggleVsync, true, false);
    assert!(!next.config.vsync);
    assert_eq!(
        effects,
        vec![Effect::SetVsync { on: false }, Effect::Message { notice: Notice::VsyncDisabled }]
    );

    let (next, _, effects) = s.handle_setting(Setting::ToggleNtscFilter, true, false);
    assert_eq!(next.config.filter, VideoFilter::Ntsc);
    assert_eq!(effects, vec![Effect::SetFilter { filter: VideoFilter::Ntsc }]);
    let (next, _, effects) = next.handle_setting(Setting::ToggleNtscFilter, true, false);
    assert_eq!(next.config.filter, VideoFilter::Pixellate);
    assert_eq!(effects, vec![Effect::SetFilter { filter: VideoFilter::Pixellate }]);

    let (next, _, effects) = s.handle_setting(Setting::ToggleSound, true, false);
    assert!(!next.config.sound);
    assert_eq!(effects, vec![Effect::Message { notice: Notice::SoundDisabled }]);
    let (next, _, effects) = next.handle_setting(Setting::ToggleSound, true, false);
    assert!(next.config.sound);
    assert_eq!(effects, vec![Effect::Message { notice: Notice::SoundEnabled }]);

    let (_, _, effects) = s.handle_setting(Setting::IncSpeed, true, false);
    assert_eq!(effects, vec![Effect::ChangeSpeed { delta: 25 }]);
    let (_, _, effects) = s.handle_setting(Setting::DecSpeed, true, false);
    assert_eq!(effects, vec![Effect::ChangeSpeed { delta: -25 }]);
}

#[test]
fn channel_settings_toggle_their_channel() {
    let cases = [
        (Setting::TogglePulse1, Channel::Pulse1),
        (Setting::TogglePulse2, Channel::Pulse2),
        (Setting::ToggleTriangle, Channel::Triangle),
        (Setting::ToggleNoise, Channel::Noise),
        (Setting::ToggleDmc, Channel::Dmc),
    ];
    for (setting, channel) in cases {
        let (next, handled, effects) = state().handle_setting(setting, true, false);
        assert!(handled);
        assert_eq!(next, state());
        assert_eq!(effects, vec![Effect::ToggleChannel { channel }]);
    }
}

#[test]
fn settings_not_pressed_or_not_done_here_are_not_consumed() {
    let s = state();
    for setting in [
        Setting::SetSaveSlot { slot: 2 },
        Setting::ToggleFullscreen,
        Setting::ToggleSound,
        Setting::IncSpeed,
    ] {
        let (next, handled, effects) = s.handle_setting(setting, false, false);
        assert!(!handled);
        assert!(effects.is_empty());
        assert_eq!(next, s);
    }
    let (next, handled, effects) =
        s.handle_setting(Setting::SetVideoFilter { filter: VideoFilter::Ntsc }, true, false);
    assert!(!handled);
    assert!(effects.is_empty());
    assert_eq!(next, s);
}

#[test]
fn debug_actions() {
    let mut s = state();
    let (_, handled, effects) = s.handle_debug(DebugAction::ToggleCpuDebugger, false, false);
    assert!(handled);
    assert_eq!(effects, vec![Effect::ToggleDebugger]);
    let (_, handled, effects) = s.handle_debug(DebugAction::ToggleCpuDebugger, true, false);
    assert!(!handled);
    assert!(effects.is_empty());
    assert_eq!(s.handle_debug(DebugAction::TogglePpuDebugger, false, false).2, vec![Effect::TogglePpuViewer]);
    assert_eq!(s.handle_debug(DebugAction::ToggleApuDebugger, false, false).2, vec![Effect::ToggleApuViewer]);
    for a in [
        DebugAction::StepInto,
        DebugAction::StepOver,
        DebugAction::StepOut,
        DebugAction::StepFrame,
        DebugAction::StepScanline,
    ] {
        assert!(!s.handle_debug(a, false, false).1);
    }
    let (_, handled, effects) = s.handle_debug(DebugAction::IncScanline, false, true);
    assert!(handled);
    assert!(effects.is_empty());
    s.debugging = true;
    s.ppu_viewer = true;
    assert_eq!(s.handle_debug(DebugAction::StepInto, true, false).2, vec![Effect::PausePlay, Effect::StepInto]);
    assert_eq!(s.handle_debug(DebugAction::StepOver, false, false).2, vec![Effect::PausePlay, Effect::StepOver]);
    assert_eq!(s.handle_debug(DebugAction::StepOut, false, false).2, vec![Effect::StepOut]);
    assert_eq!(s.handle_debug(DebugAction::StepFrame, false, false).2, vec![Effect::PausePlay, Effect::StepFrame]);
    assert_eq!(s.handle_debug(DebugAction::StepScanline, false, false).2, vec![Effect::PausePlay, Effect::StepScanline]);
    assert_eq!(s.handle_debug(DebugAction::IncScanline, false, false).2, vec![Effect::IncScanline { by: 1 }]);
    assert_eq!(s.handle_debug(DebugAction::IncScanline, false, true).2, vec![Effect::IncScanline { by: 10 }]);
    assert_eq!(s.handle_debug(DebugAction::DecScanline, false, false).2, vec![Effect::DecScanline { by: 1 }]);
    assert_eq!(s.handle_debug(DebugAction::DecScanline, true, true).2, vec![Effect::DecScanline { by: 10 }]);
}

#[test]
fn actions_that_need_a_press() {
    let s = state();
    let menu = Action::Menu { menu: Menu::Config };
    assert_eq!(
        s.handle_action(Slot::One, menu, true, false, false),
        (s, true, vec![Effect::ToggleMenu { menu: Menu::Config }])
    );
    assert_eq!(s.handle_action(Slot::One, menu, false, false, false), (s, false, vec![]));
    assert_eq!(
        s.handle_action(Slot::One, Action::ZapperTrigger, true, false, false),
        (s, true, vec![Effect::TriggerZapper])
    );
    assert_eq!(
        s.handle_action(Slot::One, Action::ZapperTrigger, false, false, false),
        (s, false, vec![])
    );
    let quit = Action::Nes { state: NesState::Quit };
    assert_eq!(s.handle_action(Slot::One, quit, false, false, false), (s, false, vec![]));
    assert_eq!(
        s.handle_action(Slot::One, quit, true, false, false),
        (s, true, vec![Effect::PausePlay, Effect::Quit])
    );
    let dbg = Action::Debug { action: DebugAction::ToggleCpuDebugger };
    assert_eq!(s.handle_action(Slot::One, dbg, false, false, false), (s, false, vec![]));
    assert_eq!(
        s.handle_action(Slot::One, dbg, true, false, false),
        (s, true, vec![Effect::ToggleDebugger])
    );
    let revision = Action::Nes { state: NesState::MapperRevision { revision: 0 } };
    assert_eq!(s.handle_action(Slot::One, revision, false, false, false), (s, false, vec![]));
}

#[test]
fn zero_axis_releases_its_first_direction() {
    let mut s = state();
    s.joypads.one.left = true;
    s.joypads.one.right = true;
    let rest = Action::ZeroAxis { first: JoypadBtn::Left, second: JoypadBtn::Right };
    let (next, handled, effects) = s.handle_action(Slot::One, rest, false, false, false);
    assert!(handled);
    assert!(effects.is_empty());
    assert!(!next.joypads.one.left);
    assert!(next.joypads.one.right);
    s.mode = Mode::InMenu;
    assert_eq!(s.handle_action(Slot::One, rest, false, false, false), (s, false, vec![]));
}

#[test]
fn actions_are_recorded_while_recording() {
    let mut nes = Nes::new(state());
    let toggle = Action::Feature { feature: Feature::ToggleGameplayRecording };
    let jump = Action::Joypad { button: JoypadBtn::A };
    let (handled, effects) = nes.handle_action(5, Slot::One, jump, true, false, false);
    assert!(handled && effects.is_empty());
    assert!(nes.replay_buffer.is_empty());
    let (handled, effects) = nes.handle_action(7, Slot::One, toggle, true, false, false);
    assert!(handled);
    assert_eq!(effects, vec![Effect::StartReplay]);
    assert_eq!(nes.state.replay_mode, ReplayMode::Recording);
    nes.handle_action(9, Slot::Two, jump, true, true, false);
    let quit = Action::Nes { state: NesState::Quit };
    let (handled, effects) = nes.handle_action(10, Slot::One, quit, true, false, false);
    assert!(!handled && effects.is_empty());
    let (_, effects) = nes.handle_action(11, Slot::One, toggle, true, false, false);
    assert_eq!(effects, vec![Effect::StopReplay]);
    assert_eq!(nes.state.replay_mode, ReplayMode::Off);
    assert_eq!(
        nes.replay_buffer,
        vec![
            ActionEvent { frame: 7, slot: Slot::One, action: toggle, pressed: true, repeat: false },
            ActionEvent { frame: 9, slot: Slot::Two, action: jump, pressed: true, repeat: true },
            ActionEvent { frame: 10, slot: Slot::One, action: quit, pressed: true, repeat: false },
        ]
    );
    assert!(nes.state.joypads.two.a);
}

#[test]
fn first_binding_of_an_input_counts() {
    let mut map = InputMapping::new();
    assert_eq!(map.get(key(Slot::One, 4)), None);
    map.bindings.push(Binding { input: key(Slot::One, 4), action: Action::ZapperTrigger });
    map.bindings.push(Binding {
        input: key(Slot::Two, 4),
        action: Action::Joypad { button: JoypadBtn::B },
    });
    map.bindings.push(Binding {
        input: key(Slot::One, 4),
        action: Action::Joypad { button: JoypadBtn::A },
    });
    assert_eq!(map.get(key(Slot::One, 4)), Some(Action::ZapperTrigger));
    assert_eq!(map.get(key(Slot::Two, 4)), Some(Action::Joypad { button: JoypadBtn::B }));
    assert_eq!(map.get(key(Slot::Three, 4)), None);
    assert_eq!(map.get(Input::Key { slot: Slot::One, key: 4, keymod: 1 }), None);
    assert_eq!(map.get(Input::Mouse { slot: Slot::One, button: 4 }), None);
}

#[test]
fn key_goes_to_the_first_port_that_consumes_it() {
    let mut map = InputMapping::new();
    map.bindings.push(Binding {
        input: key(Slot::One, 9),
        action: Action::Menu { menu: Menu::About },
    });
    map.bindings.push(Binding {
        input: key(Slot::Three, 9),
        action: Action::Joypad { button: JoypadBtn::Start },
    });
    map.bindings.push(Binding {
        input: key(Slot::Four, 9),
        action: Action::Joypad { button: JoypadBtn::Select },
    });
    let mut nes = Nes::new(state());
    let (handled, effects) = nes.handle_key_event(&map, 1, 9, 0, false, false, false);
    assert!(handled);
    assert!(effects.is_empty());
    assert!(!nes.state.joypads.three.start);
    assert_eq!(nes.state.joypads.four, Gamepad::new());
    let (handled, effects) = nes.handle_key_event(&map, 1, 9, 0, false, true, false);
    assert!(handled);
    assert_eq!(effects, vec![Effect::ToggleMenu { menu: Menu::About }]);
    assert_eq!(nes.state, state());
    let (handled, effects) = nes.handle_key_event(&map, 1, 8, 0, false, true, false);
    assert!(!handled);
    assert!(effects.is_empty());
    nes.state.mode = Mode::Paused;
    let (handled, _) = nes.handle_key_event(&map, 1, 9, 0, false, false, false);
    assert!(!handled);
}

#[test]
fn mouse_clicks_are_for_play_only() {
    let mut map = InputMapping::new();
    map.bindings.push(Binding {
        input: Input::Mouse { slot: Slot::Two, button: 1 },
        action: Action::ZapperTrigger,
    });
    map.bindings.push(Binding {
        input: Input::Mouse { slot: Slot::Three, button: 2 },
        action: Action::ZapperTrigger,
    });
    let mut nes = Nes::new(state());
    assert_eq!(nes.handle_mouse_click(&map, 0, 1, false), (true, vec![Effect::TriggerZapper]));
    assert_eq!(nes.handle_mouse_click(&map, 0, 2, false), (false, vec![]));
    nes.state.mode = Mode::InMenu;
    assert_eq!(nes.handle_mouse_click(&map, 0, 1, false), (false, vec![]));
}

#[test]
fn zapper_follows_the_pointer_during_play() {
    let mut nes = Nes::new(state());
    assert_eq!(nes.set_zapper_pos(10, 3, 8, 232), Effect::AimZapper { x: 10, y: 8 });
    assert_eq!(nes.set_zapper_pos(-4, 300, 8, 232), Effect::AimZapper { x: -4, y: 231 });
    assert_eq!(nes.handle_mouse_motion(10, 20, 8, 232), Some(Effect::AimZapper { x: 10, y: 20 }));
    nes.state.mode = Mode::Paused;
    assert_eq!(nes.handle_mouse_motion(10, 20, 8, 232), None);
}

#[test]
fn gamepads_act_through_their_port() {
    let mut map = InputMapping::new();
    map.bindings.push(Binding {
        input: Input::Button { slot: Slot::Two, button: 3 },
        action: Action::Joypad { button: JoypadBtn::B },
    });
    map.bindings.push(Binding {
        input: Input::Axis { slot: Slot::Two, axis: 0, direction: AxisDirection::Negative },
        action: Action::Joypad { button: JoypadBtn::Left },
    });
    map.bindings.push(Binding {
        input: Input::Axis { slot: Slot::Two, axis: 0, direction: AxisDirection::Neutral },
        action: Action::ZeroAxis { first: JoypadBtn::Left, second: JoypadBtn::Right },
    });
    let mut nes = Nes::new(state());
    assert_eq!(nes.get_controller_slot(42), None);
    assert_eq!(nes.handle_controller_event(&map, 0, 42, 3, true, false), (false, vec![]));
    nes.players = Players { one: Some(7), two: Some(42), three: Some(42), four: None };
    assert_eq!(nes.get_controller_slot(42), Some(Slot::Two));
    assert_eq!(nes.get_controller_slot(7), Some(Slot::One));
    assert_eq!(nes.handle_controller_event(&map, 0, 42, 3, true, false), (true, vec![]));
    assert!(nes.state.joypads.two.b);
    assert_eq!(nes.handle_controller_event(&map, 0, 7, 3, true, false), (false, vec![]));
    assert_eq!(nes.handle_controller_axis(&map, 0, 42, 0, -20000, false), (true, vec![]));
    assert!(nes.state.joypads.two.left);
    nes.state.joypads.two.right = true;
    assert_eq!(nes.handle_controller_axis(&map, 0, 42, 0, 0, false), (true, vec![]));
    assert!(nes.state.joypads.two.left);
    assert!(!nes.state.joypads.two.right);
    assert_eq!(nes.handle_controller_axis(&map, 0, 42, 0, 500, false), (false, vec![]));
}

#[test]
fn replay_hands_out_what_is_due() {
    let a = Action::Joypad { button: JoypadBtn::A };
    let ev = |frame: u32| ActionEvent { frame, slot: Slot::One, action: a, pressed: true, repeat: false };
    let mut nes = Nes::new(state());
    nes.state.replay_mode = ReplayMode::Playback;
    nes.replay_buffer = vec![ev(9), ev(5), ev(5), ev(3), ev(4), ev(2)];
    assert_eq!(nes.replay_action(1), (None, vec![]));
    assert_eq!(nes.replay_buffer.len(), 6);
    assert_eq!(nes.replay_action(2), (Some(ev(2)), vec![]));
    assert_eq!(nes.replay_action(2), (None, vec![]));
    assert_eq!(nes.replay_buffer.len(), 5);
    assert_eq!(nes.replay_action(5), (Some(ev(5)), vec![]));
    assert_eq!(nes.replay_action(5), (Some(ev(5)), vec![]));
    assert_eq!(nes.replay_action(5), (None, vec![]));
    assert_eq!(nes.replay_buffer, vec![ev(9)]);
    assert_eq!(nes.state.replay_mode, ReplayMode::Playback);
}

#[test]
fn replay_stops_when_nothing_is_left() {
    let a = Action::Joypad { button: JoypadBtn::A };
    let ev = |frame: u32| ActionEvent { frame, slot: Slot::One, action: a, pressed: true, repeat: false };
    let mut nes = Nes::new(state());
    nes.state.replay_mode = ReplayMode::Playback;
    nes.replay_buffer = vec![ev(5), ev(5)];
    assert_eq!(nes.replay_action(5), (Some(ev(5)), vec![]));
    assert_eq!(nes.state.replay_mode, ReplayMode::Playback);
    assert_eq!(nes.replay_action(5), (Some(ev(5)), vec![]));
    assert_eq!(nes.state.replay_mode, ReplayMode::Playback);
    assert_eq!(nes.replay_action(5), (None, vec![Effect::StopReplay]));
    assert_eq!(nes.state.replay_mode, ReplayMode::Off);
    assert!(nes.replay_buffer.is_empty());
    let mut expected = state();
    expected.replay_mode = ReplayMode::Off;
    assert_eq!(nes.state, expected);

    let mut stale = Nes::new(state());
    stale.state.replay_mode = ReplayMode::Playback;
    stale.replay_buffer = vec![ev(9)];
    assert_eq!(stale.replay_action(10), (None, vec![Effect::StopReplay]));
    assert_eq!(stale.state.replay_mode, ReplayMode::Off);
    assert!(stale.replay_buffer.is_empty());
}

#[test]
fn stepping_over_stops_behind_the_call() {
    assert_eq!(step_over_target(StepOp::Jsr, 0x8002), Some(0x8003));
    assert_eq!(step_over_target(StepOp::Jsr, 0xFFFF), Some(0x0000));
    assert_eq!(step_over_target(StepOp::Rts, 0x8002), None);
    assert_eq!(step_over_target(StepOp::Rti, 0x8002), None);
    assert_eq!(step_over_target(StepOp::Other, 0x8002), None);
}

#[test]
fn stepping_out_stops_at_a_return() {
    assert!(step_out_reached(StepOp::Rts));
    assert!(step_out_reached(StepOp::Rti));
    assert!(!step_out_reached(StepOp::Jsr));
    assert!(!step_out_reached(StepOp::Other));
}

#[test]
fn mapper_revision_can_be_handled_only_while_recording() {
    let mut s = state();
    let revision = Action::Nes { state: NesState::MapperRevision { revision: 2 } };
    assert!(!s.action_ok(revision, true));
    assert!(s.action_ok(revision, false));
    s.replay_mode = ReplayMode::Recording;
    assert!(s.action_ok(revision, true));
    assert!(state().action_ok(Action::ZapperTrigger, true));
    assert!(state().action_ok(Action::Nes { state: NesState::Quit }, true));
}

#[test]
fn insert_binds_an_input_once() {
    let mut map = InputMapping::new();
    map.insert(key(Slot::One, 4), Action::ZapperTrigger);
    map.insert(key(Slot::Two, 4), Action::Joypad { button: JoypadBtn::B });
    assert_eq!(map.get(key(Slot::One, 4)), Some(Action::ZapperTrigger));
    map.insert(key(Slot::One, 4), Action::Joypad { button: JoypadBtn::A });
    assert_eq!(map.get(key(Slot::One, 4)), Some(Action::Joypad { button: JoypadBtn::A }));
    assert_eq!(map.get(key(Slot::Two, 4)), Some(Action::Joypad { button: JoypadBtn::B }));
    assert_eq!(map.get(key(Slot::Three, 4)), None);
    assert_eq!(map.bindings.len(), 2);
}

#[test]
fn reserved_action_matters_only_where_the_offer_reaches_it() {
    let reserved = Action::Nes { state: NesState::MapperRevision { revision: 1 } };
    let mut map = InputMapping::new();
    map.insert(key(Slot::Two, 9), Action::Menu { menu: Menu::About });
    map.insert(key(Slot::Three, 9), reserved);
    let mut nes = Nes::new(state());
    let input = key(Slot::One, 9);
    assert!(nes.can_offer(&map, input, 0, 4, true, false, false));
    assert!(nes.can_offer(&map, input, 0, 4, false, false, true));
    assert!(nes.can_offer(&map, input, 0, 2, false, false, false));
    assert!(!nes.can_offer(&map, input, 2, 4, true, false, false));
    assert!(nes.can_offer(&map, input, 2, 4, false, false, false));
    assert!(nes.can_offer(&map, input, 3, 3, true, false, false));
    let (handled, effects) = nes.handle_key_event(&map, 1, 9, 0, false, true, false);
    assert!(handled);
    assert_eq!(effects, vec![Effect::ToggleMenu { menu: Menu::About }]);
    nes.state.replay_mode = ReplayMode::Recording;
    assert!(nes.can_offer(&map, input, 2, 4, true, false, false));

    let mut pads = InputMapping::new();
    pads.insert(key(Slot::One, 9), Action::Joypad { button: JoypadBtn::A });
    pads.insert(key(Slot::Three, 9), reserved);
    let mut playing = Nes::new(state());
    assert!(playing.can_offer(&pads, input, 0, 4, true, false, false));
    assert_eq!(playing.handle_key_event(&pads, 1, 9, 0, false, true, false), (true, vec![]));
    assert!(playing.state.joypads.one.a);
    playing.state.mode = Mode::Paused;
    assert!(!playing.can_offer(&pads, input, 0, 4, true, false, false));
    assert!(playing.can_offer(&pads, input, 0, 4, false, false, false));
}
