use g610::cli::{KeyArgs, KeyTestArgs, ModeArgs, Pause, Step, KEY_TEST_PAUSE_MILLIS};
use g610::command::{Command, OnboardMode, WaveDirection, Zone};
use g610::keys::{KeyCode, KeyGroup};

fn mode_args(speed_millis: i64, brightness: i64) -> ModeArgs {
    ModeArgs {
        mode: OnboardMode::Wave,
        dir: WaveDirection::Horizontal,
        zone: Zone::Keyboard,
        speed_millis,
        brightness,
    }
}

fn sizes(commands: &[Command]) -> Vec<usize> {
    commands
        .iter()
        .map(|command| match command {
            Command::KeyColor { indexes, .. } => indexes.len(),
            other => panic!("not a per-key command: {other:?}"),
        })
        .collect()
}

#[test]
fn setting_a_mode_is_the_mode_and_then_the_commit() {
    let plan = mode_args(1_000, 100).steps();
    assert_eq!(
        plan,
        vec![
            Step {
                command: Command::OnboardMode {
                    mode: OnboardMode::Wave,
                    zone: Zone::Keyboard,
                    dir: WaveDirection::Horizontal,
                    speed: 1_000,
                    brightness: 255,
                },
                required: true,
            },
            Step { command: Command::Commit, required: true },
        ]
    );
}

#[test]
fn mode_brightness_is_clamped_before_encoding() {
    let over = mode_args(1_000, 150);
    let full = mode_args(1_000, 100);
    assert_eq!(over.command(), full.command());
    assert_eq!(over.command().bytes(), full.command().bytes());
    let under = mode_args(1_000, -10);
    let dark = mode_args(1_000, 0);
    assert_eq!(under.command(), dark.command());
    assert_eq!(under.command().bytes(), dark.command().bytes());
    assert_eq!(over.steps(), full.steps());
}

#[test]
fn mode_speed_is_clamped_before_encoding() {
    let fast = mode_args((15.0f32 * 1_000.0) as i64, 40);
    let ten = mode_args((10.0f32 * 1_000.0) as i64, 40);
    assert_eq!(fast.command(), ten.command());
    assert_eq!(fast.command().bytes(), ten.command().bytes());
    assert_eq!(&ten.command().bytes()[9..13], &[0x27, 0x10, 0x27, 0x10]);
    match mode_args(2_500, 40).command() {
        Command::OnboardMode { speed, brightness, .. } => {
            assert_eq!(speed, 2_500);
            assert_eq!(brightness, 102);
        }
        other => panic!("not a mode command: {other:?}"),
    }
}

#[test]
fn twenty_five_keys_are_three_reports() {
    let keys: Vec<KeyCode> = KeyCode::all().into_iter().take(25).collect();
    let args = KeyArgs { keys: keys.clone(), brightness: 100 };
    assert_eq!(args.command_count(), 3);
    let commands = args.commands();
    assert_eq!(sizes(&commands), vec![12, 12, 1]);
    let mut sent: Vec<u8> = Vec::new();
    for command in &commands {
        assert!(command.is_valid());
        match command {
            Command::KeyColor { indexes, brightness } => {
                assert_eq!(*brightness, 255);
                sent.extend(indexes);
            }
            other => panic!("not a per-key command: {other:?}"),
        }
    }
    let codes: Vec<u8> = keys.iter().map(|key| key.code()).collect();
    assert_eq!(sent, codes);
}

#[test]
fn batch_sizes_at_the_edges() {
    let all = KeyCode::all();
    for (count, expected) in [
        (0usize, vec![]),
        (1, vec![1]),
        (11, vec![11]),
        (12, vec![12]),
        (13, vec![12, 1]),
        (24, vec![12, 12]),
        (104, vec![12, 12, 12, 12, 12, 12, 12, 12, 8]),
    ] {
        let args = KeyArgs { keys: all[..count].to_vec(), brightness: 50 };
        assert_eq!(sizes(&args.commands()), expected);
        assert_eq!(args.command_count(), expected.len());
    }
}

#[test]
fn lighting_keys_sends_batches_best_effort_then_commits() {
    let args = KeyArgs { keys: KeyGroup::AlphaNum.to_keys(), brightness: 50 };
    let plan = args.steps();
    let commands = args.commands();
    assert_eq!(plan.len(), 4);
    for (step, command) in plan.iter().zip(&commands) {
        assert_eq!(&step.command, command);
        assert!(!step.required);
    }
    assert_eq!(plan[3], Step { command: Command::Commit, required: true });
    assert_eq!(
        plan[0].command,
        Command::KeyColor { indexes: (4..16).collect(), brightness: 127 }
    );
    assert_eq!(
        plan[2].command,
        Command::KeyColor { indexes: (28..40).collect(), brightness: 127 }
    );
}

#[test]
fn lighting_no_keys_only_commits() {
    let plan = KeyArgs { keys: vec![], brightness: 100 }.steps();
    assert_eq!(plan, vec![Step { command: Command::Commit, required: true }]);
}

#[test]
fn key_brightness_is_clamped() {
    let keys = vec![KeyCode::Q, KeyCode::W];
    let over = KeyArgs { keys: keys.clone(), brightness: 150 };
    let full = KeyArgs { keys: keys.clone(), brightness: 100 };
    assert_eq!(over.steps(), full.steps());
    let under = KeyArgs { keys: keys.clone(), brightness: -10 };
    let dark = KeyArgs { keys, brightness: 0 };
    assert_eq!(under.steps(), dark.steps());
    assert_eq!(
        dark.commands(),
        vec![Command::KeyColor { indexes: vec![20, 26], brightness: 0 }]
    );
}

#[test]
fn a_failed_required_step_ends_the_operation() {
    let required = Step { command: Command::Commit, required: true };
    let best_effort = Step { command: Command::Commit, required: false };
    assert!(required.proceeds(true));
    assert!(!required.proceeds(false));
    assert!(best_effort.proceeds(true));
    assert!(best_effort.proceeds(false));
}

#[test]
fn key_test_round_is_off_then_the_code_then_commit() {
    let plan = KeyTestArgs::round(0x2c);
    assert_eq!(
        plan,
        vec![
            Step {
                command: Command::OnboardMode {
                    mode: OnboardMode::Off,
                    zone: Zone::Keyboard,
                    dir: WaveDirection::NoDirection,
                    speed: 0,
                    brightness: 0,
                },
                required: true,
            },
            Step {
                command: Command::KeyColor { indexes: vec![0x2c], brightness: 255 },
                required: true,
            },
            Step { command: Command::Commit, required: true },
        ]
    );
    assert_eq!(plan[1].command.bytes()[8], 0x2c);
}

#[test]
fn key_test_pause_depends_on_no_wait() {
    let asking = KeyTestArgs { start_value: 4, no_wait: false };
    let running = KeyTestArgs { start_value: 4, no_wait: true };
    assert_eq!(asking.pause(), Pause::Line);
    assert_eq!(running.pause(), Pause::Millis(500));
    assert_eq!(KEY_TEST_PAUSE_MILLIS, 500);
}

#[test]
fn key_test_goes_through_the_codes_and_ends() {
    assert_eq!(KeyTestArgs::following(4), Some(5));
    assert_eq!(KeyTestArgs::following(0), Some(1));
    assert_eq!(KeyTestArgs::following(254), Some(255));
    assert_eq!(KeyTestArgs::following(255), None);
}
