//! The three-state band-crossing strategy and the trade log it writes.

use vstd::prelude::*;

verus! {

/// Phase of the strategy. A run starts in `Sell`.
#[derive(Clone, Copy, Debug, PartialEq, Eq, Structural)]
pub enum State {
    SuddenGap,
    Buy,
    Sell,
}

/// The comparisons the strategy reads off one bar and its band envelope.
#[derive(Clone, Copy, Debug, PartialEq, Eq, Structural)]
pub struct Observation {
    /// The center line sits farther from the lower band than from the upper one.
    pub lower_gap_wider: bool,
    /// The bar closed above its open.
    pub rising: bool,
    /// The bar opened above the center line.
    pub opened_above: bool,
    /// The bar closed below its open.
    pub falling: bool,
    /// The bar closed below the center line.
    pub closed_below: bool,
}

/// One entry of the trade log: the bar at which the machine entered `tag`.
#[derive(Clone, Copy, Debug, PartialEq, Eq, Structural)]
pub struct Action {
    pub bar: usize,
    pub tag: State,
}

/// A completed round trip: indices of the bars of the buy and of the sell.
#[derive(Clone, Copy, Debug, PartialEq, Eq, Structural)]
pub struct Trade {
    pub entry: usize,
    pub exit: usize,
}

/// The state that follows `s` once a bar with observation `o` has been seen.
pub open spec fn next_state(s: State, o: Observation) -> State {
    match s {
        State::Sell => if o.lower_gap_wider { State::SuddenGap } else { State::Sell },
        State::SuddenGap => if o.rising && o.opened_above { State::Buy } else { State::SuddenGap },
        State::Buy => if o.falling && o.closed_below { State::Sell } else { State::Buy },
    }
}

/// The trade event recorded on that bar, if any: entering `Buy` or `Sell`.
pub open spec fn emitted(s: State, o: Observation) -> Option<State> {
    let n = next_state(s, o);
    if n != s && n != State::SuddenGap { Some(n) } else { None }
}

/// One transition of the machine: the next state and the event to log.
pub fn step(state: State, obs: Observation) -> (r: (State, Option<State>))
    ensures
        r.0 == next_state(state, obs),
        r.1 == emitted(state, obs),
        state == State::Sell ==> r.0 != State::Buy,
        state == State::Buy ==> r.0 != State::SuddenGap,
        state == State::SuddenGap ==> r.0 != State::Sell,
{
    match state {
        State::Sell => {
            if obs.lower_gap_wider {
                (State::SuddenGap, None)
            } else {
                (State::Sell, None)
            }
        },
        State::SuddenGap => {
            if obs.rising && obs.opened_above {
                (State::Buy, Some(State::Buy))
            } else {
                (State::SuddenGap, None)
            }
        },
        State::Buy => {
            if obs.falling && obs.closed_below {
                (State::Sell, Some(State::Sell))
            } else {
                (State::Buy, None)
            }
        },
    }
}

/// The state of the machine once the first `n` bars have been processed.
pub open spec fn state_after(obs: Seq<Observation>, n: int) -> State
    decreases n,
{
    if n <= 0 {
        State::Sell
    } else {
        next_state(state_after(obs, n - 1), obs[n - 1])
    }
}

/// The trade log once the first `n` bars have been processed.
pub open spec fn log_after(obs: Seq<Observation>, n: int) -> Seq<Action>
    decreases n,
{
    if n <= 0 {
        Seq::empty()
    } else {
        let before = log_after(obs, n - 1);
        match emitted(state_after(obs, n - 1), obs[n - 1]) {
            Some(tag) => before.push(Action { bar: (n - 1) as usize, tag }),
            None => before,
        }
    }
}

/// Runs the machine from `Sell` over a whole series of bars, returning the
/// final state and the log of trade events in bar order.
pub fn run(obs: &Vec<Observation>) -> (r: (State, Vec<Action>))
    ensures
        r.0 == state_after(obs@, obs@.len() as int),
        r.1@ == log_after(obs@, obs@.len() as int),
{
    let mut state = State::Sell;
    let mut log: Vec<Action> = Vec::new();
    let mut i: usize = 0;
    while i < obs.len()
        invariant
            i <= obs.len(),
            state == state_after(obs@, i as int),
            log@ == log_after(obs@, i as int),
        decreases obs.len() - i,
    {
        let (next, event) = step(state, obs[i]);
        match event {
            Some(tag) => {
                log.push(Action { bar: i, tag });
            },
            None => {},
        }
        state = next;
        i += 1;
    }
    (state, log)
}

/// A log whose entries read Buy, Sell, Buy, Sell, ... from the first on.
pub open spec fn alternating(log: Seq<Action>) -> bool {
    forall|i: int|
        0 <= i < log.len() ==> (#[trigger] log[i]).tag == (if i % 2 == 0 {
            State::Buy
        } else {
            State::Sell
        })
}

/// A log in which no entry carries the tag of the entry right before it.
pub open spec fn neighbours_differ(log: Seq<Action>) -> bool {
    forall|i: int, j: int|
        0 <= i && j == i + 1 && j < log.len() ==> (#[trigger] log[i]).tag != (
        #[trigger] log[j]).tag
}

/// A log whose entries sit on strictly later and later bars.
pub open spec fn bars_increasing(log: Seq<Action>) -> bool {
    forall|i: int, j: int| 0 <= i < j < log.len() ==> log[i].bar < log[j].bar
}

/// Whatever the bars, the log of a run opens with a Buy and then strictly
/// alternates Buy and Sell, so no two neighbouring entries carry the same
/// tag; the machine is holding (in `Buy`) exactly when the log has odd length.
pub proof fn lemma_log_alternates(obs: Seq<Observation>, n: int)
    requires
        0 <= n <= obs.len(),
    ensures
        alternating(log_after(obs, n)),
        neighbours_differ(log_after(obs, n)),
        state_after(obs, n) == State::Buy <==> log_after(obs, n).len() % 2 == 1,
    decreases n,
{
    let cur = log_after(obs, n);
    if n > 0 {
        lemma_log_alternates(obs, n - 1);
        let before = log_after(obs, n - 1);
        let s = state_after(obs, n - 1);
        match emitted(s, obs[n - 1]) {
            Some(tag) => {
                assert(cur == before.push(Action { bar: (n - 1) as usize, tag }));
                assert forall|i: int| 0 <= i < cur.len() implies (#[trigger] cur[i]).tag == (if i
                    % 2 == 0 {
                    State::Buy
                } else {
                    State::Sell
                }) by {
                    if i < before.len() {
                        assert(cur[i] == before[i]);
                    }
                }
            },
            None => {
                assert(cur == before);
            },
        }
    }
}

/// Every entry of a run's log names a bar already processed, and later
/// entries name strictly later bars.
pub proof fn lemma_log_bars_increase(obs: Seq<Observation>, n: int)
    requires
        0 <= n <= obs.len(),
        n <= usize::MAX,
    ensures
        forall|i: int|
            0 <= i < log_after(obs, n).len() ==> (#[trigger] log_after(obs, n)[i]).bar < n,
        bars_increasing(log_after(obs, n)),
    decreases n,
{
    let cur = log_after(obs, n);
    if n > 0 {
        lemma_log_bars_increase(obs, n - 1);
        let before = log_after(obs, n - 1);
        match emitted(state_after(obs, n - 1), obs[n - 1]) {
            Some(tag) => {
                assert(cur == before.push(Action { bar: (n - 1) as usize, tag }));
                assert forall|i: int| 0 <= i < cur.len() implies (#[trigger] cur[i]).bar < n by {
                    if i < before.len() {
                        assert(cur[i] == before[i]);
                    }
                }
                assert forall|i: int, j: int| 0 <= i < j < cur.len() implies cur[i].bar
                    < cur[j].bar by {
                    assert(cur[i] == before[i]);
                    if j < before.len() {
                        assert(cur[j] == before[j]);
                    }
                }
            },
            None => {
                assert(cur == before);
            },
        }
    }
}

/// The round trips closed within the first `n` entries of a log: one for each
/// Sell entry that has an entry before it, pairing the two.
pub open spec fn trades_upto(log: Seq<Action>, n: int) -> Seq<Trade>
    decreases n,
{
    if n <= 1 {
        Seq::empty()
    } else {
        let before = trades_upto(log, n - 1);
        if log[n - 1].tag == State::Sell {
            before.push(Trade { entry: log[n - 2].bar, exit: log[n - 1].bar })
        } else {
            before
        }
    }
}

/// Walks a trade log and lists its round trips in order. The return of the
/// whole log is the product of the returns of these trades.
pub fn closed_trades(log: &Vec<Action>) -> (r: Vec<Trade>)
    ensures
        r@ == trades_upto(log@, log@.len() as int),
{
    let mut trades: Vec<Trade> = Vec::new();
    let mut i: usize = 1;
    while i < log.len()
        invariant
            1 <= i,
            i <= log.len() || log.len() == 0,
            trades@ == trades_upto(log@, if log.len() == 0 { 0 } else { i as int }),
        decreases log.len() - i,
    {
        if log[i].tag == State::Sell {
            trades.push(Trade { entry: log[i - 1].bar, exit: log[i].bar });
        }
        i += 1;
    }
    trades
}

/// In an alternating log every Sell closes the Buy right before it: the
/// trades are the consecutive pairs of entries, half as many as the entries
/// (rounded down, a trailing Buy being still open).
pub proof fn lemma_trades_pair_entries(log: Seq<Action>, n: int)
    requires
        alternating(log),
        0 <= n <= log.len(),
    ensures
        trades_upto(log, n).len() == n / 2,
        forall|k: int|
            0 <= k < n / 2 ==> #[trigger] trades_upto(log, n)[k] == (Trade {
                entry: log[2 * k].bar,
                exit: log[2 * k + 1].bar,
            }) && log[2 * k].tag == State::Buy && log[2 * k + 1].tag == State::Sell,
    decreases n,
{
    if n > 1 {
        lemma_trades_pair_entries(log, n - 1);
    }
}

/// The trades read off the log of a run are well-formed round trips: each
/// buys at a `Buy` entry and sells at the `Sell` entry that follows it, on a
/// later bar of the series, and a trade is closed before the next one opens.
pub proof fn lemma_trades_of_a_run(obs: Seq<Observation>)
    requires
        obs.len() <= usize::MAX,
    ensures
        ({
            let log = log_after(obs, obs.len() as int);
            let trades = trades_upto(log, log.len() as int);
            &&& trades.len() == log.len() / 2
            &&& forall|k: int|
                0 <= k < trades.len() ==> {
                    &&& (#[trigger] trades[k]).entry == log[2 * k].bar
                    &&& trades[k].exit == log[2 * k + 1].bar
                    &&& log[2 * k].tag == State::Buy
                    &&& log[2 * k + 1].tag == State::Sell
                    &&& trades[k].entry < trades[k].exit < obs.len()
                }
            &&& forall|j: int, k: int|
                0 <= j < k < trades.len() ==> (#[trigger] trades[j]).exit < (
                #[trigger] trades[k]).entry
        }),
{
    let n = obs.len() as int;
    let log = log_after(obs, n);
    let trades = trades_upto(log, log.len() as int);
    lemma_log_alternates(obs, n);
    lemma_log_bars_increase(obs, n);
    lemma_trades_pair_entries(log, log.len() as int);
    assert forall|k: int| 0 <= k < trades.len() implies {
        &&& (#[trigger] trades[k]).entry == log[2 * k].bar
        &&& trades[k].exit == log[2 * k + 1].bar
        &&& log[2 * k].tag == State::Buy
        &&& log[2 * k + 1].tag == State::Sell
        &&& trades[k].entry < trades[k].exit < obs.len()
    } by {
        assert(log[2 * k].bar < log[2 * k + 1].bar);
        assert(log[2 * k + 1].bar < n);
    }
    assert forall|j: int, k: int| 0 <= j < k < trades.len() implies (#[trigger] trades[j]).exit
        < (#[trigger] trades[k]).entry by {
        assert(trades[j].exit == log[2 * j + 1].bar);
        assert(trades[k].entry == log[2 * k].bar);
        assert(log[2 * j + 1].bar < log[2 * k].bar);
    }
}

} // verus!
