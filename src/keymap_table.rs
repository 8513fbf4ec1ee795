use crate::action::Action;
use crate::event::KeyPress;
use vstd::prelude::*;

verus! {

/// A configured chord: a key sequence leading to one action.
pub struct Chord {
    pub keys: Vec<KeyPress>,
    pub action: Action,
    pub description: Option<String>,
}

/// The mathematical value of a chord.
pub struct ChordModel {
    pub keys: Seq<KeyPress>,
    pub action: Action,
    pub description: Option<String>,
}

impl Chord {
    pub open spec fn model(&self) -> ChordModel {
        ChordModel { keys: self.keys@, action: self.action, description: self.description }
    }
}

/// Two key sequences collide when one is a prefix of the other: a trie
/// cannot hold a leaf on the path to another leaf.
pub open spec fn related(a: Seq<KeyPress>, b: Seq<KeyPress>) -> bool {
    a.is_prefix_of(b) || b.is_prefix_of(a)
}

/// The chords of `t` that do not collide with `keys`, in their order.
pub open spec fn without_related(t: Seq<ChordModel>, keys: Seq<KeyPress>) -> Seq<ChordModel>
    decreases t.len(),
{
    if t.len() == 0 {
        t
    } else {
        let r = without_related(t.drop_last(), keys);
        if related(t.last().keys, keys) {
            r
        } else {
            r.push(t.last())
        }
    }
}

/// Inserting a chord replaces every chord that collides with it: the last
/// write wins.
pub open spec fn insert_spec(t: Seq<ChordModel>, c: ChordModel) -> Seq<ChordModel> {
    without_related(t, c.keys).push(c)
}

/// The trie shape: every chord has keys, and no chord lies on the path of
/// another, so every chord is a leaf.
pub open spec fn prefix_free(t: Seq<ChordModel>) -> bool {
    &&& forall|i: int| 0 <= i < t.len() ==> #[trigger] t[i].keys.len() > 0
    &&& forall|i: int, j: int|
        0 <= i < t.len() && 0 <= j < t.len() && i != j ==> !related(
            #[trigger] t[i].keys,
            #[trigger] t[j].keys,
        )
}

pub(crate) proof fn lemma_without_related_unrelated(t: Seq<ChordModel>, k: Seq<KeyPress>)
    ensures
        forall|i: int|
            0 <= i < without_related(t, k).len() ==> !related(
                #[trigger] without_related(t, k)[i].keys,
                k,
            ),
    decreases t.len(),
{
    if t.len() > 0 {
        lemma_without_related_unrelated(t.drop_last(), k);
    }
}

proof fn lemma_without_related_members(t: Seq<ChordModel>, k: Seq<KeyPress>)
    ensures
        forall|i: int|
            0 <= i < without_related(t, k).len() ==> exists|j: int|
                0 <= j < t.len() && #[trigger] without_related(t, k)[i] == t[j],
    decreases t.len(),
{
    if t.len() > 0 {
        let t0 = t.drop_last();
        lemma_without_related_members(t0, k);
        let w0 = without_related(t0, k);
        let w = without_related(t, k);
        assert forall|i: int| 0 <= i < w.len() implies exists|j: int|
            0 <= j < t.len() && #[trigger] w[i] == t[j] by {
            if i < w0.len() {
                let j = choose|j: int| 0 <= j < t0.len() && w0[i] == t0[j];
                assert(w[i] == t[j]);
            } else {
                assert(w[i] == t[t.len() - 1]);
            }
        }
    }
}

proof fn lemma_without_related_prefix_free(t: Seq<ChordModel>, k: Seq<KeyPress>)
    requires
        prefix_free(t),
    ensures
        prefix_free(without_related(t, k)),
    decreases t.len(),
{
    if t.len() > 0 {
        let t0 = t.drop_last();
        assert(prefix_free(t0)) by {
            assert forall|i: int, j: int|
                0 <= i < t0.len() && 0 <= j < t0.len() && i != j implies !related(
                #[trigger] t0[i].keys,
                #[trigger] t0[j].keys,
            ) by {
                assert(t0[i] == t[i] && t0[j] == t[j]);
            }
            assert forall|i: int| 0 <= i < t0.len() implies #[trigger] t0[i].keys.len() > 0 by {
                assert(t0[i] == t[i]);
            }
        }
        lemma_without_related_prefix_free(t0, k);
        lemma_without_related_members(t0, k);
        let w0 = without_related(t0, k);
        let last = t.last();
        if !related(last.keys, k) {
            let w = w0.push(last);
            assert forall|i: int| 0 <= i < w0.len() implies !related(
                #[trigger] w0[i].keys,
                last.keys,
            ) by {
                let j = choose|j: int| 0 <= j < t0.len() && w0[i] == t0[j];
                assert(t0[j] == t[j]);
                assert(!related(t[j].keys, t[t.len() - 1].keys));
            }
            assert forall|i: int, j: int|
                0 <= i < w.len() && 0 <= j < w.len() && i != j implies !related(
                #[trigger] w[i].keys,
                #[trigger] w[j].keys,
            ) by {
                if i == w0.len() {
                    assert(w[i] == last);
                    assert(w[j] == w0[j]);
                } else if j == w0.len() {
                    assert(w[j] == last);
                    assert(w[i] == w0[i]);
                } else {
                    assert(w[i] == w0[i] && w[j] == w0[j]);
                }
            }
            assert forall|i: int| 0 <= i < w.len() implies #[trigger] w[i].keys.len() > 0 by {
                if i < w0.len() {
                    assert(w[i] == w0[i]);
                } else {
                    assert(last == t[t.len() - 1]);
                }
            }
        }
    }
}

/// Inserting a chord with keys into a trie keeps it a trie.
pub proof fn lemma_insert_prefix_free(t: Seq<ChordModel>, c: ChordModel)
    requires
        prefix_free(t),
        c.keys.len() > 0,
    ensures
        prefix_free(insert_spec(t, c)),
{
    let w = without_related(t, c.keys);
    lemma_without_related_prefix_free(t, c.keys);
    lemma_without_related_unrelated(t, c.keys);
    let r = w.push(c);
    assert forall|i: int, j: int|
        0 <= i < r.len() && 0 <= j < r.len() && i != j implies !related(
        #[trigger] r[i].keys,
        #[trigger] r[j].keys,
    ) by {
        if i == w.len() {
            assert(r[j] == w[j]);
        } else if j == w.len() {
            assert(r[i] == w[i]);
        } else {
            assert(r[i] == w[i] && r[j] == w[j]);
        }
    }
    assert forall|i: int| 0 <= i < r.len() implies #[trigger] r[i].keys.len() > 0 by {
        if i < w.len() {
            assert(r[i] == w[i]);
        }
    }
}

/// The last chord of `t` that is exactly the one key `key`.
pub open spec fn single_leaf(t: Seq<ChordModel>, key: KeyPress) -> Option<ChordModel>
    decreases t.len(),
{
    if t.len() == 0 {
        None
    } else if t.last().keys == seq![key] {
        Some(t.last())
    } else {
        single_leaf(t.drop_last(), key)
    }
}

/// The sub-trie below `key`: every longer chord that starts with `key`,
/// with that first key taken off, in order.
pub open spec fn branch_spec(t: Seq<ChordModel>, key: KeyPress) -> Seq<ChordModel>
    decreases t.len(),
{
    if t.len() == 0 {
        Seq::empty()
    } else {
        let r = branch_spec(t.drop_last(), key);
        let c = t.last();
        if c.keys.len() > 1 && c.keys[0] == key {
            r.push(ChordModel { keys: c.keys.drop_first(), action: c.action, description: c.description })
        } else {
            r
        }
    }
}

/// A compiled keymap for one input mode: a trie stored as its leaves, each
/// with the full key path that leads to it.
pub struct KeymapTable {
    chords: Vec<Chord>,
}

/// What a key leads to in a keymap.
pub enum ActionBinding {
    /// A complete chord ending in exactly one action.
    Single { action: Action, description: Option<String> },
    /// A chord prefix: the keys that may follow, with what they lead to.
    Multiple(KeymapTable),
}

impl View for KeymapTable {
    type V = Seq<ChordModel>;

    closed spec fn view(&self) -> Seq<ChordModel> {
        self.chords@.map_values(|c: Chord| c.model())
    }
}

/// Whether `a` is a prefix of `b`.
fn is_prefix(a: &Vec<KeyPress>, b: &Vec<KeyPress>) -> (r: bool)
    ensures
        r == a@.is_prefix_of(b@),
{
    if a.len() > b.len() {
        return false;
    }
    let mut i: usize = 0;
    while i < a.len()
        invariant
            a@.len() <= b@.len(),
            i <= a@.len(),
            forall|j: int| 0 <= j < i ==> a@[j] == b@[j],
        decreases a@.len() - i,
    {
        if a[i] != b[i] {
            return false;
        }
        i = i + 1;
    }
    assert(a@ =~= b@.subrange(0, a@.len() as int));
    true
}

pub(crate) fn clone_description(d: &Option<String>) -> (r: Option<String>)
    ensures
        r == *d,
{
    match d {
        Some(s) => Some(s.clone()),
        None => None,
    }
}

/// The chord below the first key of `c`.
fn tail_chord(c: &Chord) -> (r: Chord)
    requires
        c.keys@.len() > 0,
    ensures
        r.model() == (ChordModel {
            keys: c.keys@.drop_first(),
            action: c.action,
            description: c.description,
        }),
{
    let mut keys: Vec<KeyPress> = Vec::new();
    let mut i: usize = 1;
    while i < c.keys.len()
        invariant
            1 <= i <= c.keys@.len(),
            keys@ == c.keys@.subrange(1, i as int),
        decreases c.keys@.len() - i,
    {
        keys.push(c.keys[i]);
        i = i + 1;
        assert(keys@ =~= c.keys@.subrange(1, i as int));
    }
    assert(keys@ =~= c.keys@.drop_first());
    Chord { keys, action: c.action.duplicate(), description: clone_description(&c.description) }
}

impl KeymapTable {
    /// A keymap with no chords.
    pub fn new() -> (r: KeymapTable)
        ensures
            r@ == Seq::<ChordModel>::empty(),
    {
        let r = KeymapTable { chords: Vec::new() };
        assert(r@ =~= Seq::<ChordModel>::empty());
        r
    }

    /// The number of chords.
    pub fn len(&self) -> (r: usize)
        ensures
            r == self@.len(),
    {
        self.chords.len()
    }

    /// What `key` leads to: the chord of that one key, else the sub-trie of
    /// the longer chords that start with it, else nothing.
    pub fn get(&self, key: KeyPress) -> (r: Option<ActionBinding>)
        ensures
            match r {
                Some(ActionBinding::Single { action, description }) => single_leaf(self@, key)
                    == Some(ChordModel { keys: seq![key], action, description }),
                Some(ActionBinding::Multiple(sub)) => single_leaf(self@, key) is None && sub@
                    == branch_spec(self@, key) && sub@.len() > 0,
                None => single_leaf(self@, key) is None && branch_spec(self@, key).len() == 0,
            },
    {
        let mut branch: Vec<Chord> = Vec::new();
        let mut found: Option<usize> = None;
        let mut i: usize = 0;
        while i < self.chords.len()
            invariant
                i <= self.chords@.len(),
                self@.len() == self.chords@.len(),
                branch@.map_values(|c: Chord| c.model()) == branch_spec(self@.take(i as int), key),
                match found {
                    Some(j) => j < i && self@[j as int].keys == seq![key] && single_leaf(
                        self@.take(i as int),
                        key,
                    ) == Some(self@[j as int]),
                    None => single_leaf(self@.take(i as int), key) is None,
                },
            decreases self.chords@.len() - i,
        {
            let c = &self.chords[i];
            assert(self@[i as int] == c.model());
            assert(self@.take(i + 1).drop_last() =~= self@.take(i as int));
            let ghost before = branch@.map_values(|c: Chord| c.model());
            if c.keys.len() == 1 && c.keys[0] == key {
                assert(c.keys@ =~= seq![key]);
                found = Some(i);
            } else {
                assert(c.keys@ != seq![key]);
            }
            if c.keys.len() > 1 && c.keys[0] == key {
                let t = tail_chord(c);
                branch.push(t);
                assert(branch@.map_values(|c: Chord| c.model()) =~= before.push(t.model()));
            }
            i = i + 1;
        }
        assert(self@.take(i as int) =~= self@);
        match found {
            Some(j) => {
                let c = &self.chords[j];
                assert(self@[j as int] == c.model());
                Some(
                    ActionBinding::Single {
                        action: c.action.duplicate(),
                        description: clone_description(&c.description),
                    },
                )
            },
            None => if branch.len() > 0 {
                Some(ActionBinding::Multiple(KeymapTable { chords: branch }))
            } else {
                None
            },
        }
    }

    /// Inserts a chord along the path of its keys; any chord on that path, or
    /// below it, is replaced.
    pub fn insert(&mut self, chord: Chord)
        ensures
            final(self)@ == insert_spec(old(self)@, chord.model()),
    {
        let mut rest: Vec<Chord> = Vec::new();
        std::mem::swap(&mut self.chords, &mut rest);
        let ghost orig = old(self)@;
        assert(self@ =~= without_related(orig.take(0), chord.keys@));
        assert(rest@.map_values(|c: Chord| c.model()) =~= orig.skip(0));
        while rest.len() > 0
            invariant
                rest@.len() <= orig.len(),
                self@ == without_related(orig.take(orig.len() - rest@.len()), chord.keys@),
                rest@.map_values(|c: Chord| c.model()) == orig.skip(orig.len() - rest@.len()),
            decreases rest@.len(),
        {
            let ghost k = orig.len() - rest@.len();
            let ghost before = self@;
            let ghost rb = rest@;
            let c = rest.remove(0);
            assert(forall|j: int| 0 <= j < rest@.len() ==> rest@[j] == rb[j + 1]);
            assert(forall|j: int|
                0 <= j < rest@.len() ==> #[trigger] rest@[j].model() == rb.map_values(
                    |c: Chord| c.model(),
                )[j + 1]);
            assert(c.model() == orig.skip(k)[0]);
            assert(orig.take(k + 1).drop_last() =~= orig.take(k));
            assert(orig.take(k + 1).last() == orig[k]);
            if !is_prefix(&c.keys, &chord.keys) && !is_prefix(&chord.keys, &c.keys) {
                self.chords.push(c);
                assert(self@ =~= before.push(c.model()));
            } else {
                assert(self@ =~= before);
            }
            assert(rest@.map_values(|c: Chord| c.model()) =~= orig.skip(k + 1));
        }
        assert(orig.take(orig.len() as int) =~= orig);
        let ghost before = self@;
        self.chords.push(chord);
        assert(self@ =~= before.push(chord.model()));
    }
}

} // verus!
