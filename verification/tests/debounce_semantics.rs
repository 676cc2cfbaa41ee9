//! Leading-edge debouncing, on a clock that is moved by hand.

use std::time::Duration as Span;

use smited_watch::debounce::{Debouncer, Decision};
use smited_watch::time::{Clock, Duration, Moment};

fn on_paused_clock<F: std::future::Future<Output = ()>>(test: F) {
    tokio::runtime::Builder::new_current_thread()
        .enable_all()
        .start_paused(true)
        .build()
        .expect("runtime")
        .block_on(test);
}

async fn advance(ms: u64) {
    tokio::time::advance(Span::from_millis(ms)).await;
}

#[test]
fn first_call_always_fires() {
    on_paused_clock(async {
        let mut d = Debouncer::new(Duration::from_millis(100));
        assert_eq!(d.check_and_update(), Decision::Fire);
    });
}

#[test]
fn first_call_fires_then_subsequent_calls_within_window_drop() {
    on_paused_clock(async {
        let mut d = Debouncer::new(Duration::from_millis(500));
        assert!(matches!(d.check_and_update(), Decision::Fire));
        assert!(matches!(d.check_and_update(), Decision::Drop));

        advance(499).await;
        assert!(matches!(d.check_and_update(), Decision::Drop));
    });
}

#[test]
fn fires_again_after_window_elapses() {
    on_paused_clock(async {
        let mut d = Debouncer::new(Duration::from_millis(500));
        assert!(matches!(d.check_and_update(), Decision::Fire));

        advance(500).await;
        assert!(matches!(d.check_and_update(), Decision::Fire));

        advance(100).await;
        assert!(matches!(d.check_and_update(), Decision::Drop));
    });
}

#[test]
fn each_debouncer_is_independent() {
    on_paused_clock(async {
        let mut a = Debouncer::new(Duration::from_millis(500));
        let mut b = Debouncer::new(Duration::from_millis(500));
        assert!(matches!(a.check_and_update(), Decision::Fire));
        assert!(matches!(b.check_and_update(), Decision::Fire));
        assert!(matches!(a.check_and_update(), Decision::Drop));
        assert!(matches!(b.check_and_update(), Decision::Drop));
    });
}

#[test]
fn zero_window_always_fires() {
    on_paused_clock(async {
        let mut d = Debouncer::new(Duration::from_millis(0));
        assert!(matches!(d.check_and_update(), Decision::Fire));
        assert!(matches!(d.check_and_update(), Decision::Fire));
        assert!(matches!(d.check_and_update(), Decision::Fire));
    });
}

#[test]
fn window_resets_on_each_fire_not_on_each_call() {
    on_paused_clock(async {
        let mut d = Debouncer::new(Duration::from_millis(500));
        assert!(matches!(d.check_and_update(), Decision::Fire));

        advance(300).await;
        assert!(matches!(d.check_and_update(), Decision::Drop));

        advance(100).await;
        assert!(matches!(d.check_and_update(), Decision::Drop));

        advance(100).await;
        assert!(matches!(d.check_and_update(), Decision::Fire));
    });
}

#[test]
fn a_burst_within_the_window_fires_once() {
    let mut d = Debouncer::new(Duration::from_millis(500));
    let fired = (0..100u128)
        .filter(|i| {
            let now = Moment {
                nanos: i * 1_000_000,
            };
            d.check_and_update_at(now) == Decision::Fire
        })
        .count();
    assert_eq!(fired, 1);
}

#[test]
fn the_window_ends_to_the_nanosecond() {
    let mut d = Debouncer::new(Duration::from_millis(500));
    let at = |nanos: u128| Moment { nanos };
    assert_eq!(d.check_and_update_at(at(7)), Decision::Fire);
    assert_eq!(d.check_and_update_at(at(500_000_006)), Decision::Drop);
    assert_eq!(d.check_and_update_at(at(500_000_007)), Decision::Fire);
    // A reading from before the last fire counts as no time at all.
    assert_eq!(d.check_and_update_at(at(0)), Decision::Drop);
}

#[test]
fn a_clock_counts_from_its_start() {
    let start = tokio::time::Instant::now();
    let clock = Clock::started_at(start);
    assert_eq!(clock.reading_at(&start), Moment { nanos: 0 });
    let later = start + Span::from_nanos(1_500_000_007);
    assert_eq!(
        clock.reading_at(&later),
        Moment {
            nanos: 1_500_000_007
        }
    );
    // Before its start it shows zero.
    assert_eq!(
        Clock::started_at(later).reading_at(&start),
        Moment { nanos: 0 }
    );
}

#[test]
fn a_started_clock_counts_from_now() {
    on_paused_clock(async {
        let clock = Clock::start();
        advance(250).await;
        assert_eq!(
            clock.reading_at(&tokio::time::Instant::now()),
            Moment {
                nanos: Duration::from_millis(250).nanos
            }
        );
    });
}
