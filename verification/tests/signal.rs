use indicators::signal::{closed_trades, run, step, Action, Observation, State, Trade};

fn quiet() -> Observation {
    Observation {
        lower_gap_wider: false,
        rising: false,
        opened_above: false,
        falling: false,
        closed_below: false,
    }
}

fn gap() -> Observation {
    Observation { lower_gap_wider: true, ..quiet() }
}

fn breakout() -> Observation {
    Observation { rising: true, opened_above: true, ..quiet() }
}

fn breakdown() -> Observation {
    Observation { falling: true, closed_below: true, ..quiet() }
}

fn everything() -> Observation {
    Observation {
        lower_gap_wider: true,
        rising: true,
        opened_above: true,
        falling: true,
        closed_below: true,
    }
}

fn roi(log: &Vec<Action>, price: &[f64]) -> f64 {
    let mut r = 1.0;
    for t in closed_trades(log) {
        r *= 1.0 + (price[t.exit] - price[t.entry]) / price[t.entry];
    }
    r
}

#[test]
fn sell_waits_for_the_gap() {
    assert_eq!(step(State::Sell, quiet()), (State::Sell, None));
    assert_eq!(step(State::Sell, breakout()), (State::Sell, None));
    assert_eq!(step(State::Sell, breakdown()), (State::Sell, None));
    assert_eq!(step(State::Sell, gap()), (State::SuddenGap, None));
}

#[test]
fn sell_never_jumps_to_buy() {
    assert_eq!(step(State::Sell, everything()), (State::SuddenGap, None));
}

#[test]
fn gap_buys_on_a_rising_bar_above_center() {
    assert_eq!(step(State::SuddenGap, breakout()), (State::Buy, Some(State::Buy)));
    assert_eq!(step(State::SuddenGap, quiet()), (State::SuddenGap, None));
    assert_eq!(step(State::SuddenGap, gap()), (State::SuddenGap, None));
    assert_eq!(step(State::SuddenGap, breakdown()), (State::SuddenGap, None));
    let rising_only = Observation { rising: true, ..quiet() };
    assert_eq!(step(State::SuddenGap, rising_only), (State::SuddenGap, None));
    let above_only = Observation { opened_above: true, ..quiet() };
    assert_eq!(step(State::SuddenGap, above_only), (State::SuddenGap, None));
}

#[test]
fn buy_sells_on_a_falling_bar_below_center() {
    assert_eq!(step(State::Buy, breakdown()), (State::Sell, Some(State::Sell)));
    assert_eq!(step(State::Buy, quiet()), (State::Buy, None));
    assert_eq!(step(State::Buy, gap()), (State::Buy, None));
    assert_eq!(step(State::Buy, breakout()), (State::Buy, None));
    let falling_only = Observation { falling: true, ..quiet() };
    assert_eq!(step(State::Buy, falling_only), (State::Buy, None));
    let below_only = Observation { closed_below: true, ..quiet() };
    assert_eq!(step(State::Buy, below_only), (State::Buy, None));
}

#[test]
fn buy_never_returns_to_the_gap() {
    assert_eq!(step(State::Buy, everything()), (State::Sell, Some(State::Sell)));
    assert_eq!(step(State::Buy, gap()), (State::Buy, None));
}

#[test]
fn run_of_nothing_stays_in_sell() {
    let (state, log) = run(&Vec::new());
    assert_eq!(state, State::Sell);
    assert!(log.is_empty());
}

#[test]
fn run_logs_each_entry_at_its_bar() {
    let bars = vec![
        quiet(),
        breakout(),
        gap(),
        quiet(),
        breakout(),
        breakout(),
        breakdown(),
        breakdown(),
        gap(),
        breakout(),
    ];
    let (state, log) = run(&bars);
    assert_eq!(state, State::Buy);
    assert_eq!(
        log,
        vec![
            Action { bar: 4, tag: State::Buy },
            Action { bar: 6, tag: State::Sell },
            Action { bar: 9, tag: State::Buy },
        ]
    );
}

#[test]
fn run_log_alternates_from_a_buy() {
    let mut bars = Vec::new();
    for _ in 0..25 {
        bars.push(everything());
    }
    let (_, log) = run(&bars);
    assert!(!log.is_empty());
    for (i, a) in log.iter().enumerate() {
        let expected = if i % 2 == 0 { State::Buy } else { State::Sell };
        assert_eq!(a.tag, expected);
        if i > 0 {
            assert_ne!(a.tag, log[i - 1].tag);
            assert!(log[i - 1].bar < a.bar);
        }
    }
}

#[test]
fn trades_pair_each_sell_with_the_entry_before_it() {
    let log = vec![
        Action { bar: 4, tag: State::Buy },
        Action { bar: 6, tag: State::Sell },
        Action { bar: 9, tag: State::Buy },
        Action { bar: 12, tag: State::Sell },
        Action { bar: 20, tag: State::Buy },
    ];
    assert_eq!(
        closed_trades(&log),
        vec![Trade { entry: 4, exit: 6 }, Trade { entry: 9, exit: 12 }]
    );
}

#[test]
fn trades_ignore_a_leading_sell_and_lone_entries() {
    assert_eq!(closed_trades(&Vec::new()), Vec::new());
    assert_eq!(closed_trades(&vec![Action { bar: 0, tag: State::Sell }]), Vec::new());
    assert_eq!(closed_trades(&vec![Action { bar: 0, tag: State::Buy }]), Vec::new());
    let log = vec![
        Action { bar: 1, tag: State::Sell },
        Action { bar: 2, tag: State::Sell },
        Action { bar: 3, tag: State::SuddenGap },
    ];
    assert_eq!(closed_trades(&log), vec![Trade { entry: 1, exit: 2 }]);
}

#[test]
fn roi_of_a_winning_round_trip() {
    let log = vec![Action { bar: 0, tag: State::Buy }, Action { bar: 1, tag: State::Sell }];
    assert!((roi(&log, &[100.0, 110.0]) - 1.10).abs() < 1e-12);
}

#[test]
fn roi_of_a_losing_round_trip() {
    let log = vec![Action { bar: 0, tag: State::Buy }, Action { bar: 1, tag: State::Sell }];
    assert!((roi(&log, &[100.0, 90.0]) - 0.90).abs() < 1e-12);
}

#[test]
fn roi_compounds_over_trades_and_starts_at_one() {
    assert_eq!(roi(&Vec::new(), &[]), 1.0);
    let log = vec![
        Action { bar: 0, tag: State::Buy },
        Action { bar: 1, tag: State::Sell },
        Action { bar: 2, tag: State::Buy },
        Action { bar: 3, tag: State::Sell },
    ];
    assert!((roi(&log, &[100.0, 110.0, 50.0, 45.0]) - 0.99).abs() < 1e-12);
}
