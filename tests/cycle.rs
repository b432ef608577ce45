use pomodoro::color::{get_end_command, get_start_command};
use pomodoro::cycle::{remaining_minutes, step, Action, CycleConfig, Phase, TICK_SECS};
use pomodoro::settings::Settings;

fn cycle_of(minutes: i64, break_duration: i64, api_key: Option<String>) -> CycleConfig {
    Settings::from_values(Some(minutes), Some(break_duration), api_key)
        .unwrap()
        .cycle_config(TICK_SECS)
}

#[test]
fn countdown_truncates_minutes() {
    assert_eq!(remaining_minutes(125, 65), 1);
    assert_eq!(remaining_minutes(125, 70), 0);
    assert_eq!(remaining_minutes(125, 125), 0);
    assert_eq!(remaining_minutes(1500, 0), 25);
    assert_eq!(remaining_minutes(1500, 59), 24);
}

#[test]
fn one_minute_cycle_prints_before_break() {
    let cfg = cycle_of(1, 1, None);
    assert_eq!(cfg.work_secs, 60);
    assert_eq!(cfg.break_secs, 60);
    let (phase, action) = step(&cfg, Phase::Starting, 0);
    assert_eq!(phase, Phase::Working);
    assert_eq!(action, Action::BeginWork { work_secs: 60, lights: None });

    let mut phase = phase;
    let mut elapsed: u64 = 0;
    let mut printed = 0;
    loop {
        let (next, action) = step(&cfg, phase, elapsed);
        match action {
            Action::Countdown { remaining_minutes, sleep_secs } => {
                assert_eq!(remaining_minutes, (60 - elapsed) / 60);
                assert_eq!(sleep_secs, 60);
                assert!(elapsed < 60);
                printed += 1;
                elapsed += sleep_secs;
            }
            Action::EndWork { lights } => {
                assert_eq!(lights, None);
                assert!(elapsed >= 60);
                assert_eq!(next, Phase::Resting);
                break;
            }
            _ => panic!("unexpected action during work"),
        }
        phase = next;
    }
    assert!(printed >= 1);
    let (next, action) = step(&cfg, Phase::Resting, elapsed);
    assert_eq!(next, Phase::Starting);
    assert_eq!(action, Action::Rest { sleep_secs: 60 });
}

#[test]
fn zero_minutes_goes_straight_to_break() {
    let cfg = cycle_of(0, 5, None);
    let (phase, action) = step(&cfg, Phase::Starting, 0);
    assert_eq!(action, Action::BeginWork { work_secs: 0, lights: None });
    let (phase, action) = step(&cfg, phase, 0);
    assert_eq!(phase, Phase::Resting);
    assert_eq!(action, Action::EndWork { lights: None });
    let (phase, action) = step(&cfg, phase, 0);
    assert_eq!(phase, Phase::Starting);
    assert_eq!(action, Action::Rest { sleep_secs: 300 });
}

#[test]
fn work_does_not_end_before_duration() {
    let cfg = cycle_of(25, 5, None);
    for elapsed in [0u64, 1, 60, 1499] {
        let (phase, action) = step(&cfg, Phase::Working, elapsed);
        assert_eq!(phase, Phase::Working);
        assert_eq!(
            action,
            Action::Countdown { remaining_minutes: (1500 - elapsed) / 60, sleep_secs: 60 }
        );
    }
    for elapsed in [1500u64, 1501, 1560] {
        let (phase, _) = step(&cfg, Phase::Working, elapsed);
        assert_eq!(phase, Phase::Resting);
    }
}

#[test]
fn lighting_sends_one_command_on_entry_and_exit() {
    let cfg = cycle_of(1, 1, Some("key".to_string()));
    assert!(cfg.lighting);
    let (_, begin) = step(&cfg, Phase::Starting, 0);
    assert_eq!(begin, Action::BeginWork { work_secs: 60, lights: Some(get_start_command()) });
    let (_, countdown) = step(&cfg, Phase::Working, 0);
    assert_eq!(countdown, Action::Countdown { remaining_minutes: 1, sleep_secs: 60 });
    let (_, end) = step(&cfg, Phase::Working, 60);
    assert_eq!(end, Action::EndWork { lights: Some(get_end_command()) });
}
