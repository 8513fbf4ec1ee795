use crate::action::Action;
use crate::chord::{
    deadline_passed, feed_step, lemma_two_key_chord, ChordResolver, ChordState,
};
use crate::component::Component;
use crate::core_window::{CoreWindow, CoreWindowView};
use crate::event::{Event, KeyPress};
use crate::keymap_table::{
    branch_spec, insert_spec, single_leaf, ActionBinding, ChordModel, KeymapTable,
};
use std::collections::VecDeque;
use vstd::prelude::*;

verus! {

/// The mathematical value of the dispatch runtime.
pub struct RuntimeView {
    /// The actions waiting in the action channel, oldest first.
    pub queue: Seq<Action>,
    /// The shutdown flag.
    pub quit: bool,
    /// The global keymap consulted for every key event.
    pub keymap: Seq<ChordModel>,
    /// The state of the chord resolver.
    pub chord: ChordState,
    /// The branch a pending chord waits in.
    pub branch: Seq<ChordModel>,
    /// When the pending chord started.
    pub chord_started: u64,
}

impl RuntimeView {
    pub open spec fn chord_pending(self) -> bool {
        self.chord == ChordState::AwaitingChord
    }

    /// The resolver is as it was in `m`.
    pub open spec fn same_chord(self, m: RuntimeView) -> bool {
        self.chord == m.chord && self.branch == m.branch && self.chord_started == m.chord_started
    }
}

/// The structural action that an event is forwarded as, unconditionally.
pub open spec fn forwarded(e: Event) -> Seq<Action> {
    match e {
        Event::Render => seq![Action::Render],
        Event::Resize(w, h) => seq![Action::Resize(w, h)],
        Event::Key(c, m) => seq![Action::Key(c, m)],
        Event::Paste(t) => seq![Action::Paste(t)],
        _ => Seq::empty(),
    }
}

pub open spec fn opt_seq(o: Option<Action>) -> Seq<Action> {
    match o {
        Some(a) => seq![a],
        None => Seq::empty(),
    }
}

/// One event step of the dispatch loop, from runtime `m` and tree `w` to
/// runtime `m2` and tree `w2`.
///
/// While a chord is pending the event goes to the resolver alone. Otherwise
/// the event is forwarded as its structural action; a key is then looked up
/// in the global keymap: a single binding adds its action, a chord prefix
/// starts the resolver and keeps the event from the tree. Else the tree
/// handles the event and its action, if any, is queued last.
pub open spec fn stepped(
    m: RuntimeView,
    w: CoreWindowView,
    event: Option<Event>,
    now: u64,
    m2: RuntimeView,
    w2: CoreWindowView,
) -> bool {
    &&& m2.quit == m.quit
    &&& m2.keymap == m.keymap
    &&& w2 == w
    &&& if m.chord_pending() {
        let (st, a) = feed_step(m.branch, m.chord_started, event, now);
        &&& m2.queue == m.queue + opt_seq(a)
        &&& m2.chord == st
        &&& m2.branch == m.branch
        &&& m2.chord_started == m.chord_started
    } else {
        match event {
            None => m2.queue == m.queue && m2.same_chord(m),
            Some(e) => {
                let fw = m.queue + forwarded(e);
                let from_tree = opt_seq(w.event_action(e));
                match e.key_press() {
                    Some(k) => match single_leaf(m.keymap, k) {
                        Some(c) => m2.queue == fw.push(c.action) + from_tree && m2.same_chord(m),
                        None => if branch_spec(m.keymap, k).len() > 0 {
                            &&& m2.queue == fw
                            &&& m2.chord == ChordState::AwaitingChord
                            &&& m2.branch == branch_spec(m.keymap, k)
                            &&& m2.chord_started == now
                        } else {
                            m2.queue == fw + from_tree && m2.same_chord(m)
                        },
                    },
                    None => m2.queue == fw + from_tree && m2.same_chord(m),
                }
            },
        }
    }
}

/// Taking the next action off the queue: nothing while a chord is pending
/// (the loop is still inside its event step) or when the queue is empty;
/// `Quit` raises the shutdown flag.
pub open spec fn pop_spec(m: RuntimeView) -> (RuntimeView, Option<Action>) {
    if m.chord_pending() || m.queue.len() == 0 {
        (m, None)
    } else {
        (RuntimeView { queue: m.queue.drop_first(), quit: m.quit || m.queue[0] is Quit, ..m }, Some(m.queue[0]))
    }
}

/// `k` successive pops from `m`: the runtime after them and the actions
/// they returned, in order.
pub open spec fn drain_spec(m: RuntimeView, k: nat) -> (RuntimeView, Seq<Action>)
    decreases k,
{
    if k == 0 {
        (m, Seq::empty())
    } else {
        let (m1, out) = drain_spec(m, (k - 1) as nat);
        let (m2, a) = pop_spec(m1);
        (m2, out + opt_seq(a))
    }
}

/// What the loop draws for an action before the tree sees it.
#[derive(Clone, Copy, Debug, PartialEq, Eq, Structural)]
pub enum RenderPass {
    /// No render pass.
    Skip,
    /// A render pass at the current size.
    Draw,
    /// Resize the terminal to the given width and height, then draw.
    ResizeAndDraw(u16, u16),
}

pub open spec fn render_pass_spec(a: Action) -> RenderPass {
    match a {
        Action::Render => RenderPass::Draw,
        Action::Resize(w, h) => RenderPass::ResizeAndDraw(w, h),
        _ => RenderPass::Skip,
    }
}

/// The render pass an action triggers.
pub fn render_pass(a: &Action) -> (r: RenderPass)
    ensures
        r == render_pass_spec(*a),
{
    match a {
        Action::Render => RenderPass::Draw,
        Action::Resize(w, h) => RenderPass::ResizeAndDraw(*w, *h),
        _ => RenderPass::Skip,
    }
}

/// The dispatch runtime: the action channel, the shutdown flag, the global
/// keymap and the chord resolver.
pub struct Runtime {
    queue: VecDeque<Action>,
    quit: bool,
    keymap: KeymapTable,
    resolver: ChordResolver,
}

impl View for Runtime {
    type V = RuntimeView;

    closed spec fn view(&self) -> RuntimeView {
        RuntimeView {
            queue: self.queue@,
            quit: self.quit,
            keymap: self.keymap@,
            chord: self.resolver.state(),
            branch: self.resolver.branch(),
            chord_started: self.resolver.started_ms(),
        }
    }
}

impl Runtime {
    /// A runtime with an empty channel, the flag down and no chord pending.
    pub fn new(keymap: KeymapTable) -> (r: Runtime)
        ensures
            r@.queue == Seq::<Action>::empty(),
            !r@.quit,
            r@.keymap == keymap@,
            r@.chord == ChordState::Idle,
    {
        Runtime { queue: VecDeque::new(), quit: false, keymap, resolver: ChordResolver::new() }
    }

    /// Whether the shutdown flag is set.
    pub fn should_quit(&self) -> (r: bool)
        ensures
            r == self@.quit,
    {
        self.quit
    }

    /// Whether a chord waits for its completion.
    pub fn chord_pending(&self) -> (r: bool)
        ensures
            r == self@.chord_pending(),
    {
        self.resolver.current_state() == ChordState::AwaitingChord
    }

    pub fn chord_state(&self) -> (r: ChordState)
        ensures
            r == self@.chord,
    {
        self.resolver.current_state()
    }

    /// The number of queued actions.
    pub fn queued(&self) -> (r: usize)
        ensures
            r == self@.queue.len(),
    {
        self.queue.len()
    }

    /// Enqueues an action at the back of the channel.
    pub fn send(&mut self, action: Action)
        ensures
            final(self)@ == (RuntimeView { queue: old(self)@.queue.push(action), ..old(self)@ }),
    {
        self.queue.push_back(action);
    }

    /// Processes what the event source gave at time `now_ms` (`None` when
    /// it gave nothing).
    pub fn handle_event(&mut self, event: Option<Event>, now_ms: u64, tree: &mut CoreWindow)
        requires
            old(tree)@.wf(),
        ensures
            stepped(old(self)@, old(tree)@, event, now_ms, final(self)@, final(tree)@),
    {
        if self.resolver.current_state() == ChordState::AwaitingChord {
            let a = self.resolver.feed(&event, now_ms);
            match a {
                Some(a) => self.send(a),
                None => {},
            }
            assert(self@.queue =~= old(self)@.queue + opt_seq(a));
            return;
        }
        let e = match event {
            Some(e) => e,
            None => {
                return;
            },
        };
        let ghost q0 = self@.queue;
        match &e {
            Event::Render => self.send(Action::Render),
            Event::Resize(w, h) => self.send(Action::Resize(*w, *h)),
            Event::Key(c, m) => self.send(Action::Key(*c, *m)),
            Event::Paste(t) => self.send(Action::Paste(t.clone())),
            _ => {},
        }
        assert(self@.queue =~= q0 + forwarded(e));
        match e.as_key_press() {
            Some(k) => match self.keymap.get(k) {
                Some(ActionBinding::Single { action, .. }) => {
                    self.send(action);
                },
                Some(ActionBinding::Multiple(branch)) => {
                    self.resolver.start(branch, now_ms);
                    return;
                },
                None => {},
            },
            None => {},
        }
        let ghost q1 = self@.queue;
        let a = tree.handle_events(&e);
        match a {
            Some(a) => self.send(a),
            None => {},
        }
        assert(self@.queue =~= q1 + opt_seq(a));
    }

    /// Takes the next action off the channel, oldest first, and raises the
    /// shutdown flag on `Quit`. Gives nothing while a chord is pending.
    pub fn next_action(&mut self) -> (r: Option<Action>)
        ensures
            (final(self)@, r) == pop_spec(old(self)@),
    {
        if self.resolver.current_state() == ChordState::AwaitingChord {
            return None;
        }
        let ghost q = self@.queue;
        match self.queue.pop_front() {
            Some(a) => {
                match a {
                    Action::Quit => {
                        self.quit = true;
                    },
                    _ => {},
                }
                assert(self@.queue =~= q.drop_first());
                Some(a)
            },
            None => None,
        }
    }
}

/// Draining is first in, first out: popping `k` queued actions returns the
/// first `k`, in order, leaves the rest queued, and the shutdown flag is up
/// after them exactly when it was up before or one of them was `Quit`.
pub proof fn lemma_drain_fifo(m: RuntimeView, k: nat)
    requires
        !m.chord_pending(),
        k <= m.queue.len(),
    ensures
        drain_spec(m, k).1 == m.queue.take(k as int),
        drain_spec(m, k).0.queue == m.queue.skip(k as int),
        drain_spec(m, k).0.quit == (m.quit || exists|j: int| 0 <= j < k && m.queue[j] is Quit),
        !drain_spec(m, k).0.chord_pending(),
    decreases k,
{
    if k > 0 {
        lemma_drain_fifo(m, (k - 1) as nat);
        let m1 = drain_spec(m, (k - 1) as nat).0;
        assert(m1.queue[0] == m.queue[k - 1]);
        assert(m1.queue.drop_first() =~= m.queue.skip(k as int));
        assert(m.queue.take(k - 1) + seq![m.queue[k - 1]] =~= m.queue.take(k as int));
        if m.queue[k - 1] is Quit {
            assert(exists|j: int| 0 <= j < k && m.queue[j] is Quit);
        }
        if exists|j: int| 0 <= j < k && m.queue[j] is Quit {
            let j = choose|j: int| 0 <= j < k && m.queue[j] is Quit;
            if j < k - 1 {
                assert(exists|j: int| 0 <= j < k - 1 && m.queue[j] is Quit);
            }
        }
    }
}

/// A key bound in no trie adds nothing beyond its own structural action and
/// what the focused component derives from it.
pub proof fn lemma_unbound_key(
    m: RuntimeView,
    w: CoreWindowView,
    e: Event,
    now: u64,
    m2: RuntimeView,
    w2: CoreWindowView,
)
    requires
        stepped(m, w, Some(e), now, m2, w2),
        !m.chord_pending(),
        e is Key,
        single_leaf(m.keymap, e.key_press()->Some_0) is None,
        branch_spec(m.keymap, e.key_press()->Some_0).len() == 0,
    ensures
        m2.queue == m.queue + forwarded(e) + opt_seq(w.event_action(e)),
        forwarded(e).len() == 1,
        !m2.chord_pending(),
{
}

/// A configured two-key chord `a` then `b`, driven through the runtime:
/// `a` is forwarded and leaves the chord pending; `b` then adds exactly the
/// chord's action when it comes before the deadline, and nothing after it.
pub proof fn lemma_chord_through_runtime(
    t: Seq<ChordModel>,
    a: KeyPress,
    b: KeyPress,
    x: Action,
    d: Option<String>,
    m0: RuntimeView,
    w0: CoreWindowView,
    t0: u64,
    m1: RuntimeView,
    w1: CoreWindowView,
    t1: u64,
    m2: RuntimeView,
    w2: CoreWindowView,
)
    requires
        !m0.chord_pending(),
        m0.keymap == insert_spec(t, ChordModel { keys: seq![a, b], action: x, description: d }),
        stepped(m0, w0, Some(Event::Key(a.code, a.modifiers)), t0, m1, w1),
        stepped(m1, w1, Some(Event::Key(b.code, b.modifiers)), t1, m2, w2),
    ensures
        m1.chord_pending(),
        m1.queue == m0.queue.push(Action::Key(a.code, a.modifiers)),
        !deadline_passed(t0, t1) ==> m2.queue == m1.queue.push(x) && m2.chord
            == ChordState::Completed,
        deadline_passed(t0, t1) ==> m2.queue == m1.queue && m2.chord == ChordState::TimedOut,
{
    lemma_two_key_chord(t, a, b, x, d);
    let ea = Event::Key(a.code, a.modifiers);
    assert(ea.key_press() == Some(a));
    assert(m0.queue + forwarded(ea) =~= m0.queue.push(Action::Key(a.code, a.modifiers)));
    assert(m1.queue + opt_seq(None) =~= m1.queue);
    assert(m1.queue + opt_seq(Some(x)) =~= m1.queue.push(x));
}

} // verus!
