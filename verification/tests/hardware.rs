use rs_coffee::gpio::adc::AdcWindow;
use rs_coffee::gpio::button::ButtonState;
use rs_coffee::gpio::pwm::PwmTiming;
use rs_coffee::gpio::relay::State as RelayState;
use rs_coffee::gpio::switch::{SwitchState, Switches, SwitchesState};
use rs_coffee::sensors::a02yyuw::{decode, is_data_byte};
use rs_coffee::sensors::poll::PollSchedule;
use rs_coffee::sensors::scale::SampleWindow;

#[test]
fn button_reports_a_press_once() {
    let mut b = ButtonState::default();
    assert!(!b.was_pressed());
    b.press();
    assert!(b.was_pressed());
    assert!(!b.was_pressed());
}

#[test]
fn switch_updates() {
    assert_eq!(SwitchState::Released.update(true), Some(SwitchState::Active));
    assert_eq!(SwitchState::Active.update(false), Some(SwitchState::Released));
    assert_eq!(SwitchState::Active.update(true), None);
    assert_eq!(SwitchState::Released.update(false), None);
}

#[test]
fn switch_combinations() {
    let (a, r) = (SwitchState::Active, SwitchState::Released);
    let s = SwitchesState::Idle;
    assert_eq!(s.update(a, a, a), SwitchesState::AutoTune);
    assert_eq!(s.update(a, a, r), SwitchesState::Backflush);
    assert_eq!(s.update(a, r, a), SwitchesState::Brew);
    assert_eq!(s.update(r, a, a), SwitchesState::HotWater);
    assert_eq!(s.update(r, r, a), SwitchesState::Steam);
    assert_eq!(s.update(r, r, r), SwitchesState::Idle);
    assert_eq!(SwitchesState::HotWater.name(), "Hot Water");
}

#[test]
fn switches_follow_pins() {
    let mut sw = Switches::new();
    assert_eq!(sw.get_state(), SwitchesState::Idle);
    sw.sample(true, false, false);
    assert_eq!(sw.get_state(), SwitchesState::Brew);
    sw.sample(true, true, false);
    assert_eq!(sw.get_state(), SwitchesState::Backflush);
    sw.sample(false, false, true);
    assert_eq!(sw.get_state(), SwitchesState::Steam);
}

#[test]
fn switch_positions_for_the_report() {
    let mut sw = Switches::new();
    let p = sw.positions();
    assert!(!p.brew && !p.water && !p.steam);
    sw.sample(true, false, true);
    let p = sw.positions();
    assert!(p.brew && !p.water && p.steam);
}

#[test]
fn relay_timed_states() {
    let mut s = RelayState::on(Some(100), 1_000);
    assert_eq!(s, RelayState::OnUntil(1_100));
    assert_eq!(s.tick(1_050), Some((true, Some(50))));
    assert_eq!(s, RelayState::OnUntil(1_100));
    assert_eq!(s.tick(1_100), Some((false, None)));
    assert_eq!(s, RelayState::Off);
    assert_eq!(s.tick(2_000), None);
    let mut o = RelayState::off(Some(10), 0);
    assert_eq!(o.next(5), Some(RelayState::OffUntil(10)));
    assert_eq!(o.next(11), Some(RelayState::On));
    assert_eq!(o.remaining(11), None);
    assert_eq!(RelayState::OnUntil(5).remaining(9), Some(0));
    assert_eq!(RelayState::on(None, 3), RelayState::On);
    assert_eq!(RelayState::default(), RelayState::Off);
}

#[test]
fn pwm_ticks() {
    let mut p = PwmTiming::new(1_000, 0);
    assert_eq!(p.tick(10), (false, None));
    p.set_on_time(1_000);
    assert_eq!(p.tick(10), (true, None));
    p.set_on_time(250);
    assert_eq!(p.tick(100), (true, Some(250)));
    assert_eq!(p.tick(400), (false, Some(750)));
    assert_eq!(p.tick(1_500), (true, Some(250)));
    assert_eq!(p.start_of_interval, 1_500);
}

#[test]
fn adc_window_sums() {
    let mut w = AdcWindow::new(2);
    assert_eq!(w.read(10, 1), None);
    assert_eq!(w.read(20, 2), None);
    assert_eq!(w.read(30, 3), Some((60, 6, 3)));
    assert_eq!(w.read(65535, 65535), None);
}

#[test]
fn level_sensor_frames() {
    assert!(!is_data_byte(0xFF));
    assert!(is_data_byte(0x04));
    // 0x04D2 = 1234 mm; checksum (0xFF + 0x04 + 0xD2) & 0xFF = 0xD5
    assert_eq!(decode(0x04, 0xD2, 0xD5), Some(1234));
    assert_eq!(decode(0x04, 0xD2, 0xD4), None);
    assert_eq!(decode(0x00, 0x00, 0xFF), Some(0));
}

#[test]
fn poll_schedule() {
    let mut p = PollSchedule::new(100, 0, 1_000);
    assert_eq!(p.poll(1_000), (true, 100));
    assert_eq!(p.next_poll, 1_100);
    assert_eq!(p.poll(1_040), (false, 60));
    let mut a = PollSchedule::new(10_000, 1_000, 0);
    assert_eq!(a.poll(5), (true, 10_000));
    assert_eq!(a.next_poll, 9_005);
    a.set_poll_interval(50, 7);
    assert_eq!(a.poll(7), (true, 50));
}

#[test]
fn sample_window_keeps_latest() {
    let mut w: SampleWindow<i32> = SampleWindow::new(3);
    for x in 1..=5 {
        w.push(x);
    }
    assert_eq!(w.as_slice(), &[3, 4, 5]);
    w.set_window(1);
    w.push(6);
    assert_eq!(w.as_slice(), &[6]);
    w.clear();
    assert!(w.as_slice().is_empty());
}

#[test]
fn adc_window_of_the_largest_size_sums_without_overflow() {
    let mut w = AdcWindow::new(65536);
    for _ in 0..65536 {
        assert_eq!(w.read(65535, 65535), None);
    }
    assert_eq!(w.read(65535, 65535), Some((u32::MAX, u32::MAX, 65537)));
}
