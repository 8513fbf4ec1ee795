use crate::action::Action;
use crate::event::{Event, KeyPress};
use crate::keymap_table::{
    branch_spec, insert_spec, lemma_without_related_unrelated, single_leaf, without_related,
    ActionBinding, ChordModel, KeymapTable,
};
use vstd::prelude::*;

verus! {

/// How long a pending chord waits for its completion, in milliseconds.
pub const CHORD_TIMEOUT_MS: u64 = 1000;

/// The states of the chord resolver.
#[derive(Clone, Copy, Debug, PartialEq, Eq, Structural)]
pub enum ChordState {
    Idle,
    AwaitingChord,
    Completed,
    TimedOut,
}

/// Milliseconds from `start` to `now`; a clock that went back counts as none.
pub open spec fn elapsed_ms(start: u64, now: u64) -> int {
    if now >= start {
        now - start
    } else {
        0
    }
}

pub open spec fn deadline_passed(start: u64, now: u64) -> bool {
    elapsed_ms(start, now) >= CHORD_TIMEOUT_MS
}

/// The action an event completes in a pending branch, if any: only a key
/// bound to a single action there completes the chord.
pub open spec fn completion(branch: Seq<ChordModel>, event: Option<Event>) -> Option<Action> {
    match event {
        Some(e) => match e.key_press() {
            Some(k) => match single_leaf(branch, k) {
                Some(c) => Some(c.action),
                None => None,
            },
            None => None,
        },
        None => None,
    }
}

/// One step of a pending chord: the state it moves to and the action it
/// sends, for what arrived at `now`.
pub open spec fn feed_step(branch: Seq<ChordModel>, started: u64, event: Option<Event>, now: u64) -> (
    ChordState,
    Option<Action>,
) {
    if deadline_passed(started, now) {
        (ChordState::TimedOut, None)
    } else {
        match completion(branch, event) {
            Some(a) => (ChordState::Completed, Some(a)),
            None => (ChordState::AwaitingChord, None),
        }
    }
}

/// Resolves one level of an ambiguous key binding: it waits for a key that
/// completes the chord, or for the deadline.
pub struct ChordResolver {
    state: ChordState,
    branch: KeymapTable,
    started_ms: u64,
}

impl ChordResolver {
    pub closed spec fn state(&self) -> ChordState {
        self.state
    }

    /// The keys that may complete the pending chord.
    pub closed spec fn branch(&self) -> Seq<ChordModel> {
        self.branch@
    }

    /// When the resolver entered its current wait.
    pub closed spec fn started_ms(&self) -> u64 {
        self.started_ms
    }

    pub fn new() -> (r: ChordResolver)
        ensures
            r.state() == ChordState::Idle,
            r.branch() == Seq::<ChordModel>::empty(),
    {
        ChordResolver { state: ChordState::Idle, branch: KeymapTable::new(), started_ms: 0 }
    }

    pub fn current_state(&self) -> (r: ChordState)
        ensures
            r == self.state(),
    {
        self.state
    }

    /// Enters `AwaitingChord` on a branch at time `now_ms`.
    pub fn start(&mut self, branch: KeymapTable, now_ms: u64)
        ensures
            final(self).state() == ChordState::AwaitingChord,
            final(self).branch() == branch@,
            final(self).started_ms() == now_ms,
    {
        self.state = ChordState::AwaitingChord;
        self.branch = branch;
        self.started_ms = now_ms;
    }

    /// Consumes what the event source gave at time `now_ms` (`None` when it
    /// gave nothing). Once the deadline has passed the wait ends with no
    /// action; before it, a key bound to a single action in the branch
    /// completes the chord with that action, and anything else is discarded.
    pub fn feed(&mut self, event: &Option<Event>, now_ms: u64) -> (r: Option<Action>)
        requires
            old(self).state() == ChordState::AwaitingChord,
        ensures
            final(self).branch() == old(self).branch(),
            final(self).started_ms() == old(self).started_ms(),
            (final(self).state(), r) == feed_step(
                old(self).branch(),
                old(self).started_ms(),
                *event,
                now_ms,
            ),
    {
        let elapsed: u64 = if now_ms >= self.started_ms {
            now_ms - self.started_ms
        } else {
            0
        };
        if elapsed >= CHORD_TIMEOUT_MS {
            self.state = ChordState::TimedOut;
            return None;
        }
        let key = match event {
            Some(e) => e.as_key_press(),
            None => None,
        };
        match key {
            Some(k) => match self.branch.get(k) {
                Some(ActionBinding::Single { action, .. }) => {
                    self.state = ChordState::Completed;
                    Some(action)
                },
                _ => None,
            },
            None => None,
        }
    }
}

/// A configured two-key chord `a` then `b` is pending after `a` and is
/// completed by `b` with its action, whatever else the trie held.
pub proof fn lemma_two_key_chord(
    t: Seq<ChordModel>,
    a: KeyPress,
    b: KeyPress,
    x: Action,
    d: Option<String>,
)
    ensures
        ({
            let t2 = insert_spec(t, ChordModel { keys: seq![a, b], action: x, description: d });
            &&& single_leaf(t2, a) is None
            &&& branch_spec(t2, a).len() > 0
            &&& completion(branch_spec(t2, a), Some(Event::Key(b.code, b.modifiers))) == Some(x)
        }),
{
    let c = ChordModel { keys: seq![a, b], action: x, description: d };
    let w = without_related(t, c.keys);
    let t2 = insert_spec(t, c);
    lemma_without_related_unrelated(t, c.keys);
    assert forall|i: int| 0 <= i < w.len() implies w[i].keys != seq![a] by {
        if w[i].keys == seq![a] {
            assert(w[i].keys.is_prefix_of(c.keys));
        }
    }
    lemma_no_single_leaf(w, a);
    assert(t2.drop_last() =~= w);
    assert(c.keys != seq![a]) by {
        assert(c.keys.len() != seq![a].len());
    }
    let tail = ChordModel { keys: c.keys.drop_first(), action: x, description: d };
    assert(c.keys.drop_first() =~= seq![b]);
    let br = branch_spec(t2, a);
    assert(br == branch_spec(w, a).push(tail));
    assert(br.drop_last() =~= branch_spec(w, a));
}

/// A wait that nothing completes sends no action, and ends exactly at the
/// first event consumed once the deadline has passed.
pub proof fn lemma_timeout_bound(
    branch: Seq<ChordModel>,
    started: u64,
    events: Seq<Option<Event>>,
    times: Seq<u64>,
)
    requires
        events.len() == times.len(),
        forall|i: int| 0 <= i < events.len() ==> completion(branch, #[trigger] events[i]) is None,
    ensures
        forall|i: int|
            0 <= i < events.len() ==> #[trigger] feed_step(branch, started, events[i], times[i]) == if deadline_passed(started, times[i]) {
                (ChordState::TimedOut, None::<Action>)
            } else {
                (ChordState::AwaitingChord, None::<Action>)
            },
{
}

proof fn lemma_no_single_leaf(t: Seq<ChordModel>, key: KeyPress)
    requires
        forall|i: int| 0 <= i < t.len() ==> t[i].keys != seq![key],
    ensures
        single_leaf(t, key) is None,
    decreases t.len(),
{
    if t.len() > 0 {
        assert(t.last() == t[t.len() - 1]);
        lemma_no_single_leaf(t.drop_last(), key);
    }
}

} // verus!
