use vstd::prelude::*;

verus! {

/// The position identifier that marks a bar outside any open position.
pub const NO_POSITION: i64 = -1;

/// The priority used when both an entry and an exit are flagged on one bar
/// and the caller gives none.
pub const DEFAULT_ENTRY_FIRST: bool = true;

/// A flag that may be missing counts as raised only when present and true.
pub open spec fn flag(o: Option<bool>) -> bool {
    o == Some(true)
}

/// The (entry, exit) pair after a simultaneous entry and exit is settled
/// in favour of one side.
pub open spec fn resolve_spec(entry: bool, exit: bool, entry_first: bool) -> (bool, bool) {
    if entry && exit {
        if entry_first {
            (true, false)
        } else {
            (false, true)
        }
    } else {
        (entry, exit)
    }
}

/// Settles a bar on which both an entry and an exit are flagged: the side
/// named by `entry_first` survives and the other is cleared.
pub fn resolve_signal(entry: bool, exit: bool, entry_first: bool) -> (r: (bool, bool))
    ensures
        r == resolve_spec(entry, exit, entry_first),
        !(r.0 && r.1),
{
    if entry && exit {
        if entry_first {
            (true, false)
        } else {
            (false, true)
        }
    } else {
        (entry, exit)
    }
}

/// Where the sequencer stands between bars.
#[derive(Clone, Copy, Debug, PartialEq, Eq, Structural)]
pub enum Phase {
    /// No position has been opened yet.
    Initial,
    /// A position is open.
    Open,
    /// The last position has been closed.
    Closed,
}

/// The state carried from one bar to the next: the phase and the
/// identifier of the latest position opened (`NO_POSITION` before any).
#[derive(Clone, Copy, Debug, PartialEq, Eq, Structural)]
pub struct SequencerState {
    pub phase: Phase,
    pub position_id: i64,
}

/// What the sequencer emits for one bar.
#[derive(Clone, Copy, Debug, PartialEq, Eq, Structural)]
pub struct BarSignal {
    pub entry: bool,
    pub exit: bool,
    pub position: i64,
}

/// The state before the first bar: flat, no position opened yet.
pub open spec fn initial_state() -> SequencerState {
    SequencerState { phase: Phase::Initial, position_id: NO_POSITION }
}

/// One transition of the sequencer on the raw flags of one bar.
pub open spec fn step_spec(s: SequencerState, entry: bool, exit: bool, entry_first: bool) -> (
    SequencerState,
    BarSignal,
) {
    let (en, ex) = resolve_spec(entry, exit, entry_first);
    let open = s.phase == Phase::Open;
    if en {
        if open {
            (s, BarSignal { entry: false, exit: false, position: s.position_id })
        } else {
            let id = (s.position_id + 1) as i64;
            (
                SequencerState { phase: Phase::Open, position_id: id },
                BarSignal { entry: true, exit: false, position: id },
            )
        }
    } else if ex && open {
        (
            SequencerState { phase: Phase::Closed, position_id: s.position_id },
            BarSignal { entry: false, exit: true, position: s.position_id },
        )
    } else {
        (
            s,
            BarSignal {
                entry: false,
                exit: false,
                position: if open {
                    s.position_id
                } else {
                    NO_POSITION
                },
            },
        )
    }
}

/// The state after the first `n` bars.
pub open spec fn state_after(entries: Seq<Option<bool>>, exits: Seq<Option<bool>>, entry_first: bool, n: nat) -> SequencerState
    decreases n,
{
    if n == 0 {
        initial_state()
    } else {
        step_spec(
            state_after(entries, exits, entry_first, (n - 1) as nat),
            flag(entries[n - 1]),
            flag(exits[n - 1]),
            entry_first,
        ).0
    }
}

/// What the sequencer emits on bar `i`.
pub open spec fn signal_at(entries: Seq<Option<bool>>, exits: Seq<Option<bool>>, entry_first: bool, i: nat) -> BarSignal {
    step_spec(
        state_after(entries, exits, entry_first, i),
        flag(entries[i as int]),
        flag(exits[i as int]),
        entry_first,
    ).1
}

/// The three per-bar outputs of the sequencer.
pub struct PositionSignals {
    pub entries_out: Vec<bool>,
    pub exits_out: Vec<bool>,
    pub positions_out: Vec<i64>,
}

/// Advances the sequencer by one bar.
pub fn sequence_step(s: SequencerState, entry: bool, exit: bool, entry_first: bool) -> (r: (
    SequencerState,
    BarSignal,
))
    requires
        s.position_id < i64::MAX,
    ensures
        r == step_spec(s, entry, exit, entry_first),
{
    let (en, ex) = resolve_signal(entry, exit, entry_first);
    let open = s.phase == Phase::Open;
    if en {
        if open {
            (s, BarSignal { entry: false, exit: false, position: s.position_id })
        } else {
            let id = s.position_id + 1;
            (
                SequencerState { phase: Phase::Open, position_id: id },
                BarSignal { entry: true, exit: false, position: id },
            )
        }
    } else if ex && open {
        (
            SequencerState { phase: Phase::Closed, position_id: s.position_id },
            BarSignal { entry: false, exit: true, position: s.position_id },
        )
    } else {
        let position = if open {
            s.position_id
        } else {
            NO_POSITION
        };
        (s, BarSignal { entry: false, exit: false, position })
    }
}

/// The identifier never passes the number of bars seen, less one.
pub proof fn lemma_id_bounded(entries: Seq<Option<bool>>, exits: Seq<Option<bool>>, entry_first: bool, n: nat)
    requires
        n <= i64::MAX,
    ensures
        NO_POSITION <= state_after(entries, exits, entry_first, n).position_id < n,
    decreases n,
{
    if n > 0 {
        lemma_id_bounded(entries, exits, entry_first, (n - 1) as nat);
    }
}

/// Runs the sequencer over a series of possibly missing entry and exit
/// flags; a missing flag counts as not raised.
pub fn clean_enex(entries: &Vec<Option<bool>>, exits: &Vec<Option<bool>>, entry_first: bool) -> (r: PositionSignals)
    requires
        entries.len() == exits.len(),
        entries.len() <= i64::MAX,
    ensures
        r.entries_out.len() == entries.len(),
        r.exits_out.len() == entries.len(),
        r.positions_out.len() == entries.len(),
        forall|i: int| 0 <= i < entries.len() ==> #[trigger] r.entries_out@[i] == signal_at(entries@, exits@, entry_first, i as nat).entry,
        forall|i: int| 0 <= i < entries.len() ==> #[trigger] r.exits_out@[i] == signal_at(entries@, exits@, entry_first, i as nat).exit,
        forall|i: int| 0 <= i < entries.len() ==> #[trigger] r.positions_out@[i] == signal_at(entries@, exits@, entry_first, i as nat).position,
        forall|i: int| 0 <= i < entries.len() ==> !(#[trigger] r.entries_out@[i] && r.exits_out@[i]),
{
    let n = entries.len();
    let mut entries_out: Vec<bool> = Vec::with_capacity(n);
    let mut exits_out: Vec<bool> = Vec::with_capacity(n);
    let mut positions_out: Vec<i64> = Vec::with_capacity(n);
    let mut s = SequencerState { phase: Phase::Initial, position_id: NO_POSITION };
    let mut i: usize = 0;
    while i < n
        invariant
            n == entries.len(),
            n == exits.len(),
            n <= i64::MAX,
            i <= n,
            s == state_after(entries@, exits@, entry_first, i as nat),
            entries_out.len() == i,
            exits_out.len() == i,
            positions_out.len() == i,
            forall|k: int| 0 <= k < i ==> #[trigger] entries_out@[k] == signal_at(entries@, exits@, entry_first, k as nat).entry,
            forall|k: int| 0 <= k < i ==> #[trigger] exits_out@[k] == signal_at(entries@, exits@, entry_first, k as nat).exit,
            forall|k: int| 0 <= k < i ==> #[trigger] positions_out@[k] == signal_at(entries@, exits@, entry_first, k as nat).position,
            forall|k: int| 0 <= k < i ==> !(#[trigger] entries_out@[k] && exits_out@[k]),
        decreases n - i,
    {
        proof {
            lemma_id_bounded(entries@, exits@, entry_first, i as nat);
        }
        let entry = entries[i] == Some(true);
        let exit = exits[i] == Some(true);
        let (next, b) = sequence_step(s, entry, exit, entry_first);
        assert(b == signal_at(entries@, exits@, entry_first, i as nat));
        assert(next == state_after(entries@, exits@, entry_first, (i + 1) as nat));
        entries_out.push(b.entry);
        exits_out.push(b.exit);
        positions_out.push(b.position);
        s = next;
        i = i + 1;
    }
    PositionSignals { entries_out, exits_out, positions_out }
}

/// The position identifier of every bar, from the same run of the sequencer.
pub fn clean_enex_position(entries: &Vec<Option<bool>>, exits: &Vec<Option<bool>>, entry_first: bool) -> (r: Vec<i64>)
    requires
        entries.len() == exits.len(),
        entries.len() <= i64::MAX,
    ensures
        r.len() == entries.len(),
        forall|i: int| 0 <= i < entries.len() ==> #[trigger] r@[i] == signal_at(entries@, exits@, entry_first, i as nat).position,
{
    clean_enex(entries, exits, entry_first).positions_out
}

/// The entries that open a position, from the same run of the sequencer.
pub fn clean_entries(entries: &Vec<Option<bool>>, exits: &Vec<Option<bool>>, entry_first: bool) -> (r: Vec<bool>)
    requires
        entries.len() == exits.len(),
        entries.len() <= i64::MAX,
    ensures
        r.len() == entries.len(),
        forall|i: int| 0 <= i < entries.len() ==> #[trigger] r@[i] == signal_at(entries@, exits@, entry_first, i as nat).entry,
{
    clean_enex(entries, exits, entry_first).entries_out
}

/// The exits that close a position, from the same run of the sequencer.
pub fn clean_exits(entries: &Vec<Option<bool>>, exits: &Vec<Option<bool>>, entry_first: bool) -> (r: Vec<bool>)
    requires
        entries.len() == exits.len(),
        entries.len() <= i64::MAX,
    ensures
        r.len() == entries.len(),
        forall|i: int| 0 <= i < entries.len() ==> #[trigger] r@[i] == signal_at(entries@, exits@, entry_first, i as nat).exit,
{
    clean_enex(entries, exits, entry_first).exits_out
}

proof fn lemma_open_has_id(entries: Seq<Option<bool>>, exits: Seq<Option<bool>>, entry_first: bool, n: nat)
    requires
        n <= i64::MAX,
    ensures
        state_after(entries, exits, entry_first, n).phase == Phase::Open ==> state_after(
            entries,
            exits,
            entry_first,
            n,
        ).position_id >= 0,
        state_after(entries, exits, entry_first, n).position_id >= NO_POSITION,
    decreases n,
{
    if n > 0 {
        lemma_open_has_id(entries, exits, entry_first, (n - 1) as nat);
        lemma_id_bounded(entries, exits, entry_first, (n - 1) as nat);
    }
}

proof fn lemma_id_monotone(entries: Seq<Option<bool>>, exits: Seq<Option<bool>>, entry_first: bool, a: nat, b: nat)
    requires
        a <= b <= i64::MAX,
    ensures
        state_after(entries, exits, entry_first, a).position_id <= state_after(
            entries,
            exits,
            entry_first,
            b,
        ).position_id,
    decreases b,
{
    if a < b {
        lemma_id_monotone(entries, exits, entry_first, a, (b - 1) as nat);
        lemma_id_bounded(entries, exits, entry_first, (b - 1) as nat);
    }
}

/// How a bar's output relates to the states around it.
proof fn lemma_signal_shape(entries: Seq<Option<bool>>, exits: Seq<Option<bool>>, entry_first: bool, i: nat)
    requires
        i < i64::MAX,
    ensures
        ({
            let b = signal_at(entries, exits, entry_first, i);
            let before = state_after(entries, exits, entry_first, i);
            let after = state_after(entries, exits, entry_first, i + 1);
            &&& b.position == NO_POSITION ==> after.phase != Phase::Open && after == before
            &&& b.position != NO_POSITION ==> b.position == after.position_id
            &&& b.position != NO_POSITION ==> (before.phase == Phase::Open && after.position_id
                == before.position_id) || (b.entry && after.position_id == before.position_id + 1)
            &&& b.entry ==> after.position_id == before.position_id + 1
        }),
{
    lemma_open_has_id(entries, exits, entry_first, i);
    lemma_id_bounded(entries, exits, entry_first, i);
}

proof fn lemma_flat_stays_flat(entries: Seq<Option<bool>>, exits: Seq<Option<bool>>, entry_first: bool, a: nat, b: nat)
    requires
        a <= b <= i64::MAX,
        state_after(entries, exits, entry_first, a).phase != Phase::Open,
        state_after(entries, exits, entry_first, a).position_id == state_after(
            entries,
            exits,
            entry_first,
            b,
        ).position_id,
    ensures
        state_after(entries, exits, entry_first, b).phase != Phase::Open,
    decreases b,
{
    if a < b {
        lemma_id_monotone(entries, exits, entry_first, a, (b - 1) as nat);
        lemma_id_monotone(entries, exits, entry_first, (b - 1) as nat, b);
        lemma_flat_stays_flat(entries, exits, entry_first, a, (b - 1) as nat);
        lemma_id_bounded(entries, exits, entry_first, (b - 1) as nat);
    }
}

/// Position identifiers never decrease along the series: of two bars that
/// both belong to a position, the later one carries an identifier at least
/// as large as the earlier one.
pub proof fn lemma_positions_nondecreasing(
    entries: Seq<Option<bool>>,
    exits: Seq<Option<bool>>,
    entry_first: bool,
    i: nat,
    j: nat,
)
    requires
        i <= j < entries.len(),
        entries.len() == exits.len(),
        entries.len() <= i64::MAX,
        signal_at(entries, exits, entry_first, i).position != NO_POSITION,
        signal_at(entries, exits, entry_first, j).position != NO_POSITION,
    ensures
        signal_at(entries, exits, entry_first, i).position <= signal_at(
            entries,
            exits,
            entry_first,
            j,
        ).position,
{
    lemma_signal_shape(entries, exits, entry_first, i);
    lemma_signal_shape(entries, exits, entry_first, j);
    lemma_id_monotone(entries, exits, entry_first, i + 1, j + 1);
}

/// A bar that opens a position gives it an identifier larger than that of
/// every earlier bar, so no identifier is ever used for two positions.
pub proof fn lemma_new_position_fresh(
    entries: Seq<Option<bool>>,
    exits: Seq<Option<bool>>,
    entry_first: bool,
    i: nat,
    j: nat,
)
    requires
        i < j < entries.len(),
        entries.len() == exits.len(),
        entries.len() <= i64::MAX,
        signal_at(entries, exits, entry_first, j).entry,
    ensures
        signal_at(entries, exits, entry_first, i).position < signal_at(
            entries,
            exits,
            entry_first,
            j,
        ).position,
{
    lemma_signal_shape(entries, exits, entry_first, i);
    lemma_signal_shape(entries, exits, entry_first, j);
    lemma_open_has_id(entries, exits, entry_first, i);
    lemma_id_monotone(entries, exits, entry_first, i, i + 1);
    lemma_id_monotone(entries, exits, entry_first, i + 1, j);
}

/// The bars that carry one position identifier form one contiguous run:
/// a bar between two bars of a position belongs to that position too.
pub proof fn lemma_position_run_contiguous(
    entries: Seq<Option<bool>>,
    exits: Seq<Option<bool>>,
    entry_first: bool,
    i: nat,
    j: nat,
    k: nat,
)
    requires
        i < j < k < entries.len(),
        entries.len() == exits.len(),
        entries.len() <= i64::MAX,
        signal_at(entries, exits, entry_first, i).position != NO_POSITION,
        signal_at(entries, exits, entry_first, i).position == signal_at(
            entries,
            exits,
            entry_first,
            k,
        ).position,
    ensures
        signal_at(entries, exits, entry_first, j).position == signal_at(
            entries,
            exits,
            entry_first,
            i,
        ).position,
{
    lemma_signal_shape(entries, exits, entry_first, i);
    lemma_signal_shape(entries, exits, entry_first, j);
    lemma_signal_shape(entries, exits, entry_first, k);
    if signal_at(entries, exits, entry_first, j).position != NO_POSITION {
        lemma_positions_nondecreasing(entries, exits, entry_first, i, j);
        lemma_positions_nondecreasing(entries, exits, entry_first, j, k);
    } else {
        lemma_id_monotone(entries, exits, entry_first, i + 1, j + 1);
        lemma_id_monotone(entries, exits, entry_first, j + 1, k);
        lemma_id_monotone(entries, exits, entry_first, k, k + 1);
        lemma_flat_stays_flat(entries, exits, entry_first, j + 1, k);
    }
}

} // verus!
