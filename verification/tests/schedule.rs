use indicators::dmi::{dominant, DmiCounter, DmiStep, Movement};
use indicators::ema::{EmaCounter, EmaStep};

struct Ema {
    counter: EmaCounter,
    smooth_factor: f64,
    prev: f64,
}

impl Ema {
    fn new(periods: usize, alpha: f64) -> Ema {
        Ema {
            counter: EmaCounter::new(periods),
            smooth_factor: alpha / (1.0 + periods as f64),
            prev: 0.0,
        }
    }

    fn update(&mut self, value: f64) -> f64 {
        match self.counter.tick() {
            EmaStep::Accumulate => self.prev += value,
            EmaStep::Seed => {
                self.prev += value;
                self.prev /= 1.0 * self.counter.width() as f64;
            }
            EmaStep::Smooth => {
                self.prev = (value * self.smooth_factor) + (self.prev * (1.0 - self.smooth_factor));
            }
        }
        if self.counter.is_ready() {
            self.prev
        } else {
            f64::NAN
        }
    }
}

#[test]
fn test_ema() {
    let periods: usize = 5;
    let mut ema = Ema::new(periods, 2.0);
    let ts: Vec<f64> = vec![10.0, 12.0, 14.0, 13.0, 15.0, 16.0, 18.0];
    let res: Vec<f64> = vec![12.8, 13.866666, 15.244444];
    for i in 0..ts.len() {
        let y = ema.update(ts[i]);
        if i < periods - 1 {
            assert!(y.is_nan());
        } else {
            assert!((y - res[i + 1 - periods]).abs() < 1e-6);
        }
    }
}

#[test]
fn ema_accumulates_seeds_once_then_smooths() {
    let mut c = EmaCounter::new(3);
    assert_eq!(c.width(), 3);
    assert_eq!(c.len(), 0);
    assert!(!c.is_ready());
    assert_eq!(c.tick(), EmaStep::Accumulate);
    assert_eq!(c.tick(), EmaStep::Accumulate);
    assert!(!c.is_ready());
    assert_eq!(c.tick(), EmaStep::Seed);
    assert!(c.is_ready());
    assert_eq!(c.tick(), EmaStep::Smooth);
    assert_eq!(c.tick(), EmaStep::Smooth);
    assert!(c.is_ready());
    assert_eq!(c.len(), 5);
}

#[test]
fn ema_of_period_one_seeds_on_the_first_sample() {
    let mut c = EmaCounter::new(1);
    assert_eq!(c.tick(), EmaStep::Seed);
    assert_eq!(c.tick(), EmaStep::Smooth);
}

#[test]
fn ema_of_period_zero_never_seeds() {
    let mut c = EmaCounter::new(0);
    assert!(c.is_ready());
    assert_eq!(c.tick(), EmaStep::Smooth);
    assert_eq!(c.tick(), EmaStep::Smooth);
}

#[test]
fn dmi_feeds_its_stages_in_turn() {
    let period = 3;
    let mut c = DmiCounter::new(period);
    assert_eq!(c.width(), period);
    let mut raw = 0;
    let mut index = 0;
    for bar in 0..12usize {
        assert_eq!(c.len(), bar);
        assert_eq!(c.is_ready(), bar >= 2 * period + 1);
        let step = c.tick();
        assert_eq!(step, DmiStep { feed_raw: bar > 0, feed_index: bar > period + 1 });
        if step.feed_raw {
            raw += 1;
        }
        if step.feed_index {
            index += 1;
            assert!(raw >= period);
        }
    }
    assert_eq!(raw, 11);
    assert_eq!(index, 7);
    assert!(c.is_ready());
}

#[test]
fn dmi_reports_from_twice_the_period_plus_one() {
    for period in 1..6usize {
        let mut c = DmiCounter::new(period);
        let mut index = 0;
        for _ in 0..2 * period {
            assert!(!c.is_ready());
            if c.tick().feed_index {
                index += 1;
            }
        }
        assert!(!c.is_ready());
        if c.tick().feed_index {
            index += 1;
        }
        assert!(c.is_ready());
        assert_eq!(index, period - 1);
        if c.tick().feed_index {
            index += 1;
        }
        assert_eq!(index, period);
    }
}

#[test]
fn dmi_ready_test_does_not_overflow() {
    let c = DmiCounter::new(usize::MAX);
    assert!(!c.is_ready());
    let mut c = DmiCounter::new(usize::MAX - 1);
    assert_eq!(c.tick(), DmiStep { feed_raw: false, feed_index: false });
    assert_eq!(c.tick(), DmiStep { feed_raw: true, feed_index: false });
    assert!(!c.is_ready());
}

#[test]
fn dominant_move_zeroes_the_smaller_and_both_on_a_tie() {
    assert_eq!(dominant(true, false), Movement::Up);
    assert_eq!(dominant(false, true), Movement::Down);
    assert_eq!(dominant(false, false), Movement::Neither);
    assert_eq!(dominant(true, true), Movement::Up);
}
