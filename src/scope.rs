//! Liveness of the values of a graph: how many uses of each value are still
//! to come, so that generated code moves a value on its last use and borrows
//! it before.
use vstd::prelude::*;

verus! {

/// How generated code takes an input value.
#[derive(Debug, Clone, Copy, PartialEq, Eq, Structural)]
pub enum AccessMode {
    /// The use is the value's last one: the value is moved.
    ByValue,
    /// Later uses remain: the value is cloned.
    ByReference,
}

/// One declared value: its name, the position of the node that produces it,
/// and the number of its uses that are still to come.
pub type SlotView = (Seq<char>, usize, usize);

/// The index of the latest declaration of `name` made at or before `pos`, or -1.
pub open spec fn last_slot(s: Seq<SlotView>, name: Seq<char>, pos: usize) -> int
    decreases s.len(),
{
    if s.len() == 0 {
        -1
    } else if s.last().0 == name && s.last().1 <= pos {
        s.len() - 1
    } else {
        last_slot(s.drop_last(), name, pos)
    }
}

/// The table after one use of `name` by the node at `pos`, and how that use
/// takes the value: moved when it leaves no use to come, cloned otherwise. A
/// value with no use to come on record is moved and the table is unchanged.
pub open spec fn consume_spec(s: Seq<SlotView>, name: Seq<char>, pos: usize) -> (Seq<SlotView>, AccessMode) {
    let k = last_slot(s, name, pos);
    if k >= 0 && s[k].2 > 0 {
        let left = (s[k].2 - 1) as usize;
        (
            s.update(k, (s[k].0, s[k].1, left)),
            if left == 0 { AccessMode::ByValue } else { AccessMode::ByReference },
        )
    } else {
        (s, AccessMode::ByValue)
    }
}

pub proof fn lemma_last_slot_bounds(s: Seq<SlotView>, name: Seq<char>, pos: usize)
    ensures
        -1 <= last_slot(s, name, pos) < s.len(),
        last_slot(s, name, pos) >= 0 ==> s[last_slot(s, name, pos)].0 == name
            && s[last_slot(s, name, pos)].1 <= pos,
    decreases s.len(),
{
    if s.len() > 0 {
        lemma_last_slot_bounds(s.drop_last(), name, pos);
    }
}

/// The table after `k` successive uses of `name` by the node at `pos`, and
/// how each of them takes the value.
pub open spec fn consume_times(s: Seq<SlotView>, name: Seq<char>, pos: usize, k: nat) -> (
    Seq<SlotView>,
    Seq<AccessMode>,
)
    decreases k,
{
    if k == 0 {
        (s, Seq::empty())
    } else {
        let (before, modes) = consume_times(s, name, pos, (k - 1) as nat);
        let (after, mode) = consume_spec(before, name, pos);
        (after, modes.push(mode))
    }
}

proof fn lemma_last_slot_update(s: Seq<SlotView>, name: Seq<char>, pos: usize, k: int, c: usize)
    requires
        0 <= k < s.len(),
    ensures
        last_slot(s.update(k, (s[k].0, s[k].1, c)), name, pos) == last_slot(s, name, pos),
    decreases s.len(),
{
    let t = s.update(k, (s[k].0, s[k].1, c));
    if k < s.len() - 1 {
        assert(t.drop_last() =~= s.drop_last().update(k, (s[k].0, s[k].1, c)));
        lemma_last_slot_update(s.drop_last(), name, pos, k, c);
    } else {
        assert(t.drop_last() =~= s.drop_last());
    }
}

/// A value with `n` uses to come, used `n` times by the node at `pos`, is
/// cloned on every use but the last, moved on the last, and has no use left.
pub proof fn lemma_moved_on_last_use(s: Seq<SlotView>, name: Seq<char>, pos: usize, n: nat)
    requires
        last_slot(s, name, pos) >= 0,
        s[last_slot(s, name, pos)].2 == n,
        n > 0,
    ensures
        ({
            let (after, modes) = consume_times(s, name, pos, n);
            &&& modes.len() == n
            &&& forall|i: int| 0 <= i < n - 1 ==> modes[i] == AccessMode::ByReference
            &&& modes[n - 1] == AccessMode::ByValue
            &&& last_slot(after, name, pos) == last_slot(s, name, pos)
            &&& after[last_slot(s, name, pos)].2 == 0
        }),
{
    lemma_counts_down(s, name, pos, n, n);
}

proof fn lemma_counts_down(s: Seq<SlotView>, name: Seq<char>, pos: usize, n: nat, k: nat)
    requires
        last_slot(s, name, pos) >= 0,
        s[last_slot(s, name, pos)].2 == n,
        k <= n,
    ensures
        ({
            let (after, modes) = consume_times(s, name, pos, k);
            &&& modes.len() == k
            &&& forall|i: int| 0 <= i < k && i < n - 1 ==> modes[i] == AccessMode::ByReference
            &&& (k == n && n > 0 ==> modes[n - 1] == AccessMode::ByValue)
            &&& last_slot(after, name, pos) == last_slot(s, name, pos)
            &&& after.len() == s.len()
            &&& after[last_slot(s, name, pos)].2 == n - k
        }),
    decreases k,
{
    lemma_last_slot_bounds(s, name, pos);
    if k > 0 {
        lemma_counts_down(s, name, pos, n, (k - 1) as nat);
        let (before, modes) = consume_times(s, name, pos, (k - 1) as nat);
        let j = last_slot(s, name, pos);
        lemma_last_slot_update(before, name, pos, j, (before[j].2 - 1) as usize);
    }
}

/// The remaining-use table of one graph compilation.
pub struct Scope {
    names: Vec<String>,
    positions: Vec<usize>,
    references: Vec<usize>,
}

impl View for Scope {
    type V = Seq<SlotView>;

    closed spec fn view(&self) -> Seq<SlotView> {
        Seq::new(
            self.names@.len(),
            |i: int| (self.names@[i]@, self.positions@[i], self.references@[i]),
        )
    }
}

impl Scope {
    pub closed spec fn wf(&self) -> bool {
        self.names@.len() == self.positions@.len() && self.names@.len()
            == self.references@.len()
    }

    pub fn new() -> (r: Scope)
        ensures
            r.wf(),
            r@ == Seq::<SlotView>::empty(),
    {
        let r = Scope { names: Vec::new(), positions: Vec::new(), references: Vec::new() };
        assert(r@ =~= Seq::<SlotView>::empty());
        r
    }

    /// Declares the value `name`, produced by the node at `node_position`,
    /// with no use yet.
    pub fn register_variable(&mut self, name: &String, node_position: usize)
        requires
            old(self).wf(),
        ensures
            final(self).wf(),
            final(self)@ == old(self)@.push((name@, node_position, 0usize)),
    {
        self.names.push(name.clone());
        self.positions.push(node_position);
        self.references.push(0);
        assert(self@ =~= old(self)@.push((name@, node_position, 0usize)));
    }

    /// The index of the latest declaration of `name` at or before
    /// `node_position`.
    fn find(&self, name: &String, node_position: usize) -> (r: Option<usize>)
        requires
            self.wf(),
        ensures
            match r {
                Some(k) => k as int == last_slot(self@, name@, node_position),
                None => last_slot(self@, name@, node_position) == -1,
            },
    {
        let mut i: usize = self.names.len();
        assert(self@.subrange(0, i as int) =~= self@);
        while i > 0
            invariant
                self.wf(),
                i <= self.names@.len(),
                last_slot(self@, name@, node_position) == last_slot(
                    self@.subrange(0, i as int),
                    name@,
                    node_position,
                ),
            decreases i,
        {
            let prefix = Ghost(self@.subrange(0, i as int));
            assert(prefix@.drop_last() =~= self@.subrange(0, i - 1));
            if self.names[i - 1] == *name && self.positions[i - 1] <= node_position {
                return Some(i - 1);
            }
            i = i - 1;
        }
        assert(self@.subrange(0, 0) =~= Seq::<SlotView>::empty());
        None
    }

    /// Records one more use of `name` by the node at `node_position`.
    /// Returns false, and changes nothing, when no declaration of `name` at
    /// or before that position is known, or when its count cannot grow.
    pub fn register_future_use(&mut self, name: &String, node_position: usize) -> (r: bool)
        requires
            old(self).wf(),
        ensures
            final(self).wf(),
            ({
                let k = last_slot(old(self)@, name@, node_position);
                if k >= 0 && old(self)@[k].2 < usize::MAX {
                    r && final(self)@ == old(self)@.update(
                        k,
                        (old(self)@[k].0, old(self)@[k].1, (old(self)@[k].2 + 1) as usize),
                    )
                } else {
                    !r && final(self)@ == old(self)@
                }
            }),
    {
        proof {
            lemma_last_slot_bounds(self@, name@, node_position);
        }
        match self.find(name, node_position) {
            Some(k) => {
                let n = self.references[k];
                if n < usize::MAX {
                    self.references.set(k, n + 1);
                    assert(self@ =~= old(self)@.update(
                        k as int,
                        (old(self)@[k as int].0, old(self)@[k as int].1, (n + 1) as usize),
                    ));
                    true
                } else {
                    false
                }
            },
            None => false,
        }
    }

    /// Takes one use of `name` by the node at `node_position`, and says
    /// whether generated code may move the value or must clone it.
    pub fn consume(&mut self, name: &String, node_position: usize) -> (r: AccessMode)
        requires
            old(self).wf(),
        ensures
            final(self).wf(),
            (final(self)@, r) == consume_spec(old(self)@, name@, node_position),
    {
        proof {
            lemma_last_slot_bounds(self@, name@, node_position);
        }
        match self.find(name, node_position) {
            Some(k) => {
                let n = self.references[k];
                if n > 0 {
                    self.references.set(k, n - 1);
                    assert(self@ =~= old(self)@.update(
                        k as int,
                        (old(self)@[k as int].0, old(self)@[k as int].1, (n - 1) as usize),
                    ));
                    if n - 1 == 0 {
                        AccessMode::ByValue
                    } else {
                        AccessMode::ByReference
                    }
                } else {
                    AccessMode::ByValue
                }
            },
            None => AccessMode::ByValue,
        }
    }
}

impl Clone for Scope {
    fn clone(&self) -> (r: Self)
        ensures
            r.wf() == self.wf(),
            r@ == self@,
    {
        let mut names: Vec<String> = Vec::new();
        let mut i: usize = 0;
        while i < self.names.len()
            invariant
                i <= self.names@.len(),
                names@.len() == i,
                forall|j: int| 0 <= j < i ==> names@[j]@ == self.names@[j]@,
            decreases self.names@.len() - i,
        {
            names.push(self.names[i].clone());
            i = i + 1;
        }
        let r = Scope {
            names,
            positions: self.positions.clone(),
            references: self.references.clone(),
        };
        assert(r@ =~= self@);
        r
    }
}

} // verus!
