use rs_coffee::components::pump::{Actuation, Message, PressureSetting, PumpControl, State};
use rs_coffee::control::{
    announcement_text, on_level_read, on_switch_change, Action, BREW_PUMP_TIME,
};
use rs_coffee::gpio::switch::SwitchesState;
use rs_coffee::models::auto_tune::{convert_to_dilated_time, HeatupSamples, SettlingState};
use rs_coffee::models::data_manipulation::{
    longest_negative_slice, longest_powered_slice, smoothing_window,
};
use std::time::Duration;

#[test]
fn switch_change_actions() {
    assert!(on_switch_change(SwitchesState::Idle, SwitchesState::Idle).is_empty());
    assert_eq!(
        on_switch_change(SwitchesState::Brew, SwitchesState::Idle),
        vec![
            Action::StopBrewing,
            Action::AnnounceSwitch(SwitchesState::Idle),
            Action::BoilerOff,
            Action::PumpOff
        ]
    );
    assert_eq!(on_switch_change(SwitchesState::Idle, SwitchesState::Brew), vec![Action::ReadLevel]);
    assert_eq!(
        on_switch_change(SwitchesState::Idle, SwitchesState::Steam),
        vec![Action::AnnounceSwitch(SwitchesState::Steam), Action::PumpOff, Action::BoilerSteam]
    );
    assert_eq!(
        on_switch_change(SwitchesState::Steam, SwitchesState::AutoTune),
        vec![
            Action::AnnounceSwitch(SwitchesState::AutoTune),
            Action::PumpOff,
            Action::StartAutoTune
        ]
    );
    assert_eq!(
        on_switch_change(SwitchesState::Idle, SwitchesState::Backflush),
        vec![
            Action::AnnounceSwitch(SwitchesState::Backflush),
            Action::BoilerBackflushTemperature,
            Action::PumpBackflush
        ]
    );
    assert_eq!(
        on_switch_change(SwitchesState::Idle, SwitchesState::HotWater),
        vec![Action::BoilerBrewTemperature, Action::PumpHotWater]
    );
}

#[test]
fn switch_announcements() {
    assert_eq!(announcement_text(SwitchesState::Idle), "Switched to idle");
    assert_eq!(announcement_text(SwitchesState::Brew), "Switched to brew");
    assert_eq!(announcement_text(SwitchesState::Steam), "Switched to steam");
    assert_eq!(announcement_text(SwitchesState::Backflush), "Switched to backflush");
    assert_eq!(announcement_text(SwitchesState::AutoTune), "Switched to auto-tune");
    assert_eq!(announcement_text(SwitchesState::HotWater), "Switched to hot water");
}

#[test]
fn brew_needs_water() {
    assert_eq!(on_level_read(100, 100), vec![Action::WarnLowWater]);
    assert_eq!(
        on_level_read(40, 100),
        vec![
            Action::AnnounceSwitch(SwitchesState::Brew),
            Action::ScaleStartBrew,
            Action::PumpOnFor(BREW_PUMP_TIME),
            Action::BoilerBrewTemperature
        ]
    );
}

#[test]
fn pump_transitions() {
    let mut p: PumpControl<f32> = PumpControl::new(0);
    let a: Actuation<f32> = p.transition::<f32>(Message::OnForTime(500), 1_000, 0.0);
    assert_eq!(a.valve, Some(true));
    assert!(matches!(a.pressure, PressureSetting::Max));
    assert!(matches!(p.state, State::On(Some(1_500))));
    assert!(!p.timer_expired(1_500));
    assert!(p.timer_expired(1_501));
    let a = p.transition::<f32>(Message::OnForHotWater, 2_000, 0.0);
    assert_eq!(a.valve, Some(false));
    let a = p.transition::<f32>(Message::SetPressure(9.0), 2_000, 0.0);
    assert_eq!(a.valve, None);
    assert!(matches!(a.pressure, PressureSetting::Bar(x) if x == 9.0));
    let a = p.transition::<f32>(Message::OnForYield { pressure: 8.0, grams: 36.0 }, 3_000, 1.5);
    assert!(matches!(p.state, State::OnForYield { start, target } if start == 1.5 && target == 36.0));
    assert!(matches!(a.pressure, PressureSetting::Bar(x) if x == 8.0));
    let a = p.transition::<f32>(Message::Off, 4_000, 0.0);
    assert_eq!(a.valve, Some(false));
    assert!(matches!(a.pressure, PressureSetting::Released));
}

#[test]
fn pump_backflush_cycle() {
    let mut p: PumpControl<f32> = PumpControl::new(0);
    p.transition::<f32>(Message::Backflush, 1_000, 0.0);
    assert_eq!(p.backflush_cycle_start, 1_000);
    assert!(p.backflush_step::<f32>(1_050, 100, 100).is_none());
    let off = p.backflush_step::<f32>(1_101, 100, 100).unwrap();
    assert_eq!(off.valve, Some(false));
    assert!(p.backflush_in_off_cycle);
    assert!(p.backflush_step::<f32>(1_150, 100, 100).is_none());
    let on = p.backflush_step::<f32>(1_201, 100, 100).unwrap();
    assert_eq!(on.valve, Some(true));
    assert_eq!(p.backflush_cycle_start, 1_201);
}

#[test]
fn test_get_longest_negative_slice() {
    fn falling(data: &[(f32, f32, f32)]) -> Vec<bool> {
        data.windows(2)
            .map(|w| w[0].2 > w[1].2 && w[0].1 == 0.0 && w[1].1 == 0.0)
            .collect()
    }
    let data = vec![
        (0.0, 0.0, 100.0),
        (1.0, 0.0, 95.0),
        (2.0, 0.0, 90.0),
        (3.0, 0.0, 85.0),
        (4.0, 0.0, 80.0),
        (5.0, 0.0, 85.0),
        (6.0, 0.0, 80.0),
        (7.0, 0.0, 75.0),
        (8.0, 0.0, 70.0),
    ];
    let (start, len) = longest_negative_slice(&falling(&data));
    let slice = &data[start..start + len];
    assert_eq!(slice.len(), 5);
    assert_eq!(slice[0].2, 100.0);
    assert_eq!(slice[4].2, 80.0);

    let data = vec![
        (0.0, 0.0, 80.0),
        (1.0, 0.0, 100.0),
        (2.0, 0.0, 95.0),
        (3.0, 0.0, 90.0),
        (4.0, 0.0, 85.0),
        (5.0, 0.0, 80.0),
        (6.0, 0.0, 85.0),
        (7.0, 0.0, 80.0),
        (8.0, 0.0, 75.0),
        (9.0, 0.0, 70.0),
    ];
    let (start, len) = longest_negative_slice(&falling(&data));
    let slice = &data[start..start + len];
    assert_eq!(slice.len(), 5);
    assert_eq!(slice[0].2, 100.0);
    assert_eq!(slice[4].2, 80.0);
}

#[test]
fn longest_runs() {
    assert_eq!(longest_powered_slice(&vec![]), (0, 0));
    assert_eq!(longest_powered_slice(&vec![false, false]), (0, 0));
    assert_eq!(longest_powered_slice(&vec![true, false, true, true, false, true, true]), (2, 2));
    assert_eq!(longest_negative_slice(&vec![false, true, false]), (1, 2));
}

#[test]
fn smoothing_windows() {
    assert_eq!(smoothing_window(0, 10, 3), (0, 3));
    assert_eq!(smoothing_window(5, 10, 3), (2, 8));
    assert_eq!(smoothing_window(9, 10, 3), (6, 10));
}

#[test]
fn settling_steps() {
    let s = SettlingState::default();
    assert_eq!(s.next(true, false), SettlingState::Cooling);
    assert_eq!(s.next(false, false), SettlingState::Heating);
    assert_eq!(SettlingState::Heating.next(true, false), SettlingState::Heating);
    assert_eq!(SettlingState::Heating.next(true, true), SettlingState::Cooling);
    assert_eq!(SettlingState::Cooling.next(true, true), SettlingState::Cooling);
    assert_eq!(SettlingState::Cooling.next(false, false), SettlingState::Done);
    assert_eq!(SettlingState::Done.next(true, true), SettlingState::Done);
}

#[test]
fn heatup_samples() {
    let mut h = HeatupSamples::new(20.0f32, 0.0);
    assert_eq!(h.get_3_samples(), None);
    h.shift_in(21.0);
    assert_eq!(h.sample(0), 20.0);
    assert_eq!(h.sample(2), 21.0);
    for i in 0..16 {
        h.record(50.0 + i as f32);
    }
    assert_eq!(h.sample_count(), 16);
    h.record(100.0);
    assert_eq!(h.sample_count(), 9);
    assert_eq!(h.sample_distance(), 2);
    assert_eq!(h.sample(1), 52.0);
    assert_eq!(h.sample(8), 100.0);
    assert_eq!(h.get_3_samples(), Some((50.0, 58.0, 100.0)));
    assert_eq!(h.get_interval(), 8);
    let mut e = HeatupSamples::new(1u8, 0);
    assert!(!e.finish());
    e.record(5);
    e.record(6);
    assert!(e.finish());
    assert_eq!(e.sample_count(), 1);
}

#[test]
fn dilated_time_on_the_device() {
    assert_eq!(convert_to_dilated_time(Duration::from_millis(1500)), Duration::from_millis(1500));
}
