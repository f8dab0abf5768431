use std::time::Duration;
use wasm_safe_sync::race::{timer_delay, timer_delay_at, Race};
use wasm_safe_sync::time::{moment, Moment};

#[test]
fn distance_from_a_reading_is_exact() {
    let reading = web_time::Instant::now();
    assert_eq!(moment(&reading, &reading), Moment { nanos: 0 });
    assert_eq!(
        moment(&reading, &(reading + Duration::from_millis(5))),
        Moment { nanos: 5_000_000 }
    );
    assert_eq!(
        moment(&reading, &(reading + Duration::from_secs(3))),
        Moment {
            nanos: 3_000_000_000
        }
    );
}

#[test]
fn what_lies_before_a_reading_counts_as_the_present() {
    let early = web_time::Instant::now();
    let reading = early + Duration::from_secs(10);
    assert_eq!(moment(&reading, &early), Moment { nanos: 0 });
}

#[test]
fn the_clock_runs() {
    let hour = Duration::from_secs(3600);
    let deadline = web_time::Instant::now() + hour;
    let first = timer_delay(deadline).unwrap();
    assert!(first > 0 && first <= 3_600_000_000_000);
    let mut later = first;
    for _ in 0..100_000_000u64 {
        if later < first {
            break;
        }
        later = timer_delay(deadline).unwrap();
    }
    assert!(later < first);
}

#[test]
fn deadlines_are_reached_and_run_down() {
    let deadline = Moment { nanos: 100 };
    assert!(!Moment { nanos: 99 }.reached(deadline));
    assert!(Moment { nanos: 100 }.reached(deadline));
    assert!(Moment { nanos: 101 }.reached(deadline));
    assert_eq!(Moment { nanos: 40 }.until(deadline), 60);
    assert_eq!(Moment { nanos: 100 }.until(deadline), 0);
    assert_eq!(Moment { nanos: 500 }.until(deadline), 0);
}

#[test]
fn a_timer_sleeps_until_its_deadline() {
    let deadline = Moment { nanos: 100 };
    assert_eq!(timer_delay_at(Moment { nanos: 30 }, deadline), Some(70));
    assert_eq!(timer_delay_at(Moment { nanos: 100 }, deadline), None);
    assert_eq!(timer_delay_at(Moment { nanos: 130 }, deadline), None);
    let past = web_time::Instant::now();
    assert_eq!(timer_delay(past), None);
    assert!(timer_delay(past + Duration::from_secs(3600)).is_some());
}

#[test]
fn a_notification_wins_a_tie() {
    let mut race = Race::new();
    assert_eq!(race.poll(|| true, || true), Some(false));
    assert_eq!(
        race,
        Race {
            notify: false,
            timeout: true
        }
    );
}

#[test]
fn the_timeout_wins_without_a_notification() {
    let mut race = Race::new();
    assert_eq!(race.poll(|| false, || false), None);
    assert_eq!(race, Race::new());
    assert_eq!(race.poll(|| false, || true), Some(true));
    assert_eq!(
        race,
        Race {
            notify: true,
            timeout: false
        }
    );
}

#[test]
fn the_timeout_is_not_asked_for_after_a_notification() {
    let mut race = Race::new();
    let r = race.poll(|| true, || panic!("asked for the timeout"));
    assert_eq!(r, Some(false));
}

#[test]
fn what_has_come_is_not_asked_for_again() {
    let mut race = Race {
        notify: false,
        timeout: true,
    };
    let r = race.poll(|| panic!("asked for the notification"), || false);
    assert_eq!(r, None);
    let mut race = Race {
        notify: false,
        timeout: false,
    };
    let r = race.poll(|| panic!("notification"), || panic!("timeout"));
    assert_eq!(r, None);
}
