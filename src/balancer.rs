use vstd::prelude::*;

use crate::reconciler::{ChangeEvent, EventView};

verus! {

/// The load every channel reports unless a metric is introduced.
pub const CONSTANT_LOAD: u32 = 0;

/// The two distinct positions that power-of-two-choices compares, drawn from the random
/// numbers `a` and `b` over `n >= 2` entries.
pub open spec fn p2c_pair(n: int, a: int, b: int) -> (int, int) {
    let i = a % n;
    let j = b % n;
    if j == i {
        (i, (i + 1) % n)
    } else {
        (i, j)
    }
}

/// The position power-of-two-choices picks: the sole entry, else of the two candidates the one
/// with the lower load (the first on a tie).
pub open spec fn p2c_choice(loads: Seq<u32>, a: int, b: int) -> int {
    if loads.len() == 1 {
        0
    } else {
        let (i, j) = p2c_pair(loads.len() as int, a, b);
        if loads[j] < loads[i] {
            j
        } else {
            i
        }
    }
}

/// The channels a client may use: instance ids with a load metric, kept as change events arrive.
pub struct ReadySet {
    ids: Vec<String>,
    loads: Vec<u32>,
}

impl ReadySet {
    /// The ready ids, in order of arrival.
    pub closed spec fn ids(&self) -> Seq<Seq<char>> {
        self.ids@.map_values(|s: String| s@)
    }

    /// The load of each ready id.
    pub closed spec fn loads(&self) -> Seq<u32> {
        self.loads@
    }

    /// Ids and loads line up, and no id is ready twice.
    pub closed spec fn wf(&self) -> bool {
        self.ids@.len() == self.loads@.len() && forall|i: int, j: int|
            0 <= i < j < self.ids@.len() ==> self.ids@[i]@ != self.ids@[j]@
    }

    /// Nothing is ready.
    pub fn new() -> (r: ReadySet)
        ensures
            r.wf(),
            r.ids() == Seq::<Seq<char>>::empty(),
    {
        let r = ReadySet { ids: Vec::new(), loads: Vec::new() };
        proof {
            assert(r.ids() =~= Seq::<Seq<char>>::empty());
        }
        r
    }

    /// The number of ready channels.
    pub fn len(&self) -> (r: usize)
        requires
            self.wf(),
        ensures
            r == self.ids().len(),
    {
        self.ids.len()
    }

    /// Whether no channel is ready: a request must wait.
    pub fn is_empty(&self) -> (r: bool)
        requires
            self.wf(),
        ensures
            r == (self.ids().len() == 0),
    {
        self.ids.len() == 0
    }

    fn position(&self, id: &String) -> (r: Option<usize>)
        requires
            self.wf(),
        ensures
            match r {
                Some(i) => i < self.ids().len() && self.ids()[i as int] == id@,
                None => !self.ids().contains(id@),
            },
    {
        let mut i: usize = 0;
        while i < self.ids.len()
            invariant
                i <= self.ids@.len(),
                forall|j: int| 0 <= j < i ==> self.ids@[j]@ != id@,
            decreases self.ids@.len() - i,
        {
            if self.ids[i] == *id {
                return Some(i);
            }
            i = i + 1;
        }
        proof {
            if self.ids().contains(id@) {
                let j = choose|j: int| 0 <= j < self.ids().len() && self.ids()[j] == id@;
                assert(self.ids@[j]@ == id@);
            }
        }
        None
    }

    /// Takes in one change event: `Insert` makes its id ready (at the constant load, once);
    /// `Remove` drops it.
    pub fn apply(&mut self, e: &ChangeEvent)
        requires
            old(self).wf(),
        ensures
            final(self).wf(),
            match e@ {
                EventView::Insert(id) => if old(self).ids().contains(id) {
                    final(self).ids() == old(self).ids()
                } else {
                    final(self).ids() == old(self).ids().push(id)
                },
                EventView::Remove(id) => !final(self).ids().contains(id) && forall|x: Seq<char>|
                    x != id ==> (final(self).ids().contains(x) <==> old(self).ids().contains(x)),
            },
    {
        match e {
            ChangeEvent::Insert(id) => {
                if self.position(id).is_none() {
                    let ghost before = self.ids();
                    self.ids.push(id.clone());
                    self.loads.push(CONSTANT_LOAD);
                    proof {
                        assert(self.ids() =~= before.push(id@));
                        assert forall|i: int, j: int|
                            0 <= i < j < self.ids@.len() implies self.ids@[i]@ != self.ids@[j]@ by {
                            if j == before.len() {
                                assert(before[i] == self.ids@[i]@);
                            }
                        }
                    }
                }
            },
            ChangeEvent::Remove(id) => {
                match self.position(id) {
                    Some(i) => {
                        let ghost before = self.ids();
                        let ghost old_ids = self.ids@;
                        self.ids.remove(i);
                        self.loads.remove(i);
                        proof {
                            assert(self.ids() =~= before.remove(i as int));
                            assert forall|x: Seq<char>|
                                x != id@ implies (self.ids().contains(x) <==> before.contains(x)) by {
                                if before.contains(x) {
                                    let k = choose|k: int| 0 <= k < before.len() && before[k] == x;
                                    if k < i {
                                        assert(self.ids()[k] == x);
                                    } else {
                                        assert(self.ids()[k - 1] == x);
                                    }
                                }
                            }
                            if self.ids().contains(id@) {
                                let k = choose|k: int|
                                    0 <= k < self.ids().len() && self.ids()[k] == id@;
                                if k < i {
                                    assert(old_ids[k]@ == old_ids[i as int]@);
                                } else {
                                    assert(old_ids[k + 1]@ == old_ids[i as int]@);
                                }
                            }
                        }
                    },
                    None => {},
                }
            },
        }
    }

    /// Picks a ready channel by power-of-two-choices from two random numbers; `None` when nothing
    /// is ready.
    pub fn select(&self, a: usize, b: usize) -> (r: Option<&String>)
        requires
            self.wf(),
        ensures
            self.ids().len() == 0 ==> r is None,
            self.ids().len() > 0 ==> r is Some && r->Some_0@ == self.ids()[p2c_choice(
                self.loads(),
                a as int,
                b as int,
            )] && self.ids().contains(r->Some_0@),
    {
        let n = self.ids.len();
        if n == 0 {
            return None;
        }
        if n == 1 {
            proof {
                assert(self.ids()[0] == self.ids@[0]@);
            }
            return Some(&self.ids[0]);
        }
        proof {
            lemma_p2c_candidates_distinct(n as int, a as int, b as int);
        }
        let i = a % n;
        let j0 = b % n;
        let j = if j0 == i {
            (i + 1) % n
        } else {
            j0
        };
        proof {
            assert(self.ids()[i as int] == self.ids@[i as int]@);
            assert(self.ids()[j as int] == self.ids@[j as int]@);
        }
        if self.loads[j] < self.loads[i] {
            Some(&self.ids[j])
        } else {
            Some(&self.ids[i])
        }
    }
}

/// The two candidates of power-of-two-choices are distinct positions of the set.
pub proof fn lemma_p2c_candidates_distinct(n: int, a: int, b: int)
    requires
        n >= 2,
        a >= 0,
        b >= 0,
    ensures
        0 <= p2c_pair(n, a, b).0 < n,
        0 <= p2c_pair(n, a, b).1 < n,
        p2c_pair(n, a, b).0 != p2c_pair(n, a, b).1,
{
    let i = a % n;
    assert(0 <= a % n < n) by (nonlinear_arith)
        requires
            n >= 2,
            a >= 0,
    ;
    assert(0 <= b % n < n) by (nonlinear_arith)
        requires
            n >= 2,
            b >= 0,
    ;
    if b % n == i {
        if i + 1 < n {
            assert((i + 1) % n == i + 1) by (nonlinear_arith)
                requires
                    0 <= i + 1 < n,
            ;
        } else {
            assert((i + 1) % n == 0) by (nonlinear_arith)
                requires
                    i + 1 == n,
                    n >= 2,
            ;
        }
    }
}

} // verus!
