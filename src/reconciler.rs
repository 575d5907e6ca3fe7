use vstd::prelude::*;
use vstd::string::StringExecFns;

use crate::config::TagFilter;
use crate::instance::{tag_filters_hold, InstanceView, ServiceInstance};

verus! {

/// A change that a reconciler reports to its consumer.
pub enum ChangeEvent {
    /// A channel to the instance with this id is now ready.
    Insert(String),
    /// The instance with this id is gone; its channel is dropped.
    Remove(String),
}

/// A change event as a mathematical value.
pub enum EventView {
    Insert(Seq<char>),
    Remove(Seq<char>),
}

impl View for ChangeEvent {
    type V = EventView;

    open spec fn view(&self) -> EventView {
        match self {
            ChangeEvent::Insert(id) => EventView::Insert(id@),
            ChangeEvent::Remove(id) => EventView::Remove(id@),
        }
    }
}

/// The views of a sequence of instances.
pub open spec fn views(s: Seq<ServiceInstance>) -> Seq<InstanceView> {
    s.map_values(|x: ServiceInstance| x@)
}

/// `tag_filters_hold` as a predicate on instances.
pub open spec fn tag_pred(filters: Seq<TagFilter>) -> spec_fn(InstanceView) -> bool {
    |v: InstanceView| tag_filters_hold(v.tags, filters)
}

/// Whether some instance of `s` has id `id`.
pub open spec fn has_id(s: Seq<InstanceView>, id: Seq<char>) -> bool {
    exists|i: int| 0 <= i < s.len() && #[trigger] s[i].instance_id == id
}

/// No id occurs twice in `s`.
pub open spec fn ids_unique(s: Seq<InstanceView>) -> bool {
    forall|i: int, j: int| 0 <= i < j < s.len() ==> s[i].instance_id != s[j].instance_id
}

/// `s` with every instance whose id occurred earlier dropped: the first occurrence wins.
pub open spec fn first_per_id(s: Seq<InstanceView>) -> Seq<InstanceView>
    decreases s.len(),
{
    if s.len() == 0 {
        s
    } else {
        let d = first_per_id(s.drop_last());
        if has_id(d, s.last().instance_id) {
            d
        } else {
            d.push(s.last())
        }
    }
}

/// The ids whose channel is live after `events`: inserted and not removed since.
pub open spec fn live_ids(events: Seq<EventView>) -> Set<Seq<char>>
    decreases events.len(),
{
    if events.len() == 0 {
        Set::empty()
    } else {
        match events.last() {
            EventView::Insert(id) => live_ids(events.drop_last()).insert(id),
            EventView::Remove(id) => live_ids(events.drop_last()).remove(id),
        }
    }
}

/// Every `Remove(id)` comes while `id` is live, and every `Insert(id)` while it is not.
pub open spec fn well_paired(events: Seq<EventView>) -> bool
    decreases events.len(),
{
    events.len() == 0 || (well_paired(events.drop_last()) && match events.last() {
        EventView::Insert(id) => !live_ids(events.drop_last()).contains(id),
        EventView::Remove(id) => live_ids(events.drop_last()).contains(id),
    })
}

/// `removals` names exactly the known ids that are not in `target`.
pub open spec fn removals_exact(known: Seq<InstanceView>, target: Seq<InstanceView>, removals: Seq<String>) -> bool {
    &&& forall|i: int|
        0 <= i < removals.len() ==> has_id(known, #[trigger] removals[i]@) && !has_id(target, removals[i]@)
    &&& forall|id: Seq<char>|
        has_id(known, id) && !has_id(target, id) ==> exists|i: int|
            0 <= i < removals.len() && removals[i]@ == id
}

/// `inserts` holds exactly the instances of `target` whose id is not known.
pub open spec fn inserts_exact(known: Seq<InstanceView>, target: Seq<InstanceView>, inserts: Seq<ServiceInstance>) -> bool {
    &&& forall|i: int|
        0 <= i < inserts.len() ==> target.contains(#[trigger] inserts[i]@) && !has_id(
            known,
            inserts[i]@.instance_id,
        )
    &&& forall|j: int|
        0 <= j < target.len() && !has_id(known, #[trigger] target[j].instance_id) ==> exists|i: int|
            0 <= i < inserts.len() && inserts[i]@ == target[j]
}

/// `replacements` holds exactly the instances of `target` whose id is known with other content.
pub open spec fn replacements_exact(
    known: Seq<InstanceView>,
    target: Seq<InstanceView>,
    replacements: Seq<ServiceInstance>,
) -> bool {
    &&& forall|i: int|
        0 <= i < replacements.len() ==> target.contains(#[trigger] replacements[i]@) && has_id(
            known,
            replacements[i]@.instance_id,
        ) && !known.contains(replacements[i]@)
    &&& forall|j: int|
        0 <= j < target.len() && has_id(known, #[trigger] target[j].instance_id) && !known.contains(
            target[j],
        ) ==> exists|i: int| 0 <= i < replacements.len() && replacements[i]@ == target[j]
}

/// What one discovery pass asks of the reconciler's owner.
pub struct ReconcilePlan {
    /// Ids to remove: known, and no longer discovered.
    pub removals: Vec<String>,
    /// Instances to dial and insert: discovered under an id that is not known.
    pub inserts: Vec<ServiceInstance>,
    /// Instances whose content changed: remove the old channel, dial anew, insert.
    pub replacements: Vec<ServiceInstance>,
}

/// The reconciler's state: the instances that have a live channel, in order of insertion,
/// and (as a ghost) every change event emitted so far.
pub struct Reconciler {
    known: Vec<ServiceInstance>,
    events: Ghost<Seq<EventView>>,
}

impl Reconciler {
    /// The instances with a live channel.
    pub closed spec fn known(&self) -> Seq<InstanceView> {
        views(self.known@)
    }

    /// Every change event emitted so far, in order.
    pub closed spec fn events(&self) -> Seq<EventView> {
        self.events@
    }

    /// The reconciler's invariant: ids are unique, the known ids are exactly the live ones of
    /// the event history, and that history is well paired.
    pub closed spec fn wf(&self) -> bool {
        ids_unique(self.known()) && well_paired(self.events@) && forall|id: Seq<char>|
            live_ids(self.events@).contains(id) <==> has_id(self.known(), id)
    }

    /// What the invariant of a reconciler gives its users: unique known ids, a well-paired event
    /// history, and known ids that are exactly the ids live in that history.
    pub proof fn lemma_wf_properties(r: Reconciler)
        requires
            r.wf(),
        ensures
            ids_unique(r.known()),
            well_paired(r.events()),
            forall|id: Seq<char>| live_ids(r.events()).contains(id) <==> has_id(r.known(), id),
    {
    }

    /// A reconciler that knows no instance and has emitted nothing.
    pub fn new() -> (r: Reconciler)
        ensures
            r.wf(),
            r.known() == Seq::<InstanceView>::empty(),
            r.events() == Seq::<EventView>::empty(),
    {
        let r = Reconciler { known: Vec::new(), events: Ghost(Seq::empty()) };
        proof {
            assert(r.known() =~= Seq::<InstanceView>::empty());
        }
        r
    }

    /// Copies of the instances with a live channel.
    pub fn instances(&self) -> (r: Vec<ServiceInstance>)
        ensures
            views(r@) == self.known(),
    {
        let mut r: Vec<ServiceInstance> = Vec::new();
        let mut i: usize = 0;
        while i < self.known.len()
            invariant
                i <= self.known@.len(),
                r@.len() == i,
                views(r@) == views(self.known@.subrange(0, i as int)),
            decreases self.known@.len() - i,
        {
            let ghost prev = r@;
            let d = self.known[i].duplicate();
            r.push(d);
            proof {
                assert(views(prev) == views(self.known@.subrange(0, i as int)));
                assert forall|j: int| 0 <= j < i implies #[trigger] r@[j]@ == self.known@[j]@ by {
                    assert(views(prev)[j] == prev[j]@);
                    assert(views(self.known@.subrange(0, i as int))[j] == self.known@[j]@);
                }
                assert(views(r@) =~= views(self.known@.subrange(0, i + 1)));
            }
            i = i + 1;
        }
        proof {
            assert(self.known@.subrange(0, i as int) =~= self.known@);
        }
        r
    }

    /// Copies of the known instances for which every tag filter holds, in known order.
    pub fn filter_by_tags(&self, filters: &Vec<TagFilter>) -> (r: Vec<ServiceInstance>)
        ensures
            views(r@) == self.known().filter(tag_pred(filters@)),
    {
        let ghost fs = filters@;
        let mut r: Vec<ServiceInstance> = Vec::new();
        let mut i: usize = 0;
        while i < self.known.len()
            invariant
                fs == filters@,
                i <= self.known@.len(),
                views(r@) == views(self.known@).subrange(0, i as int).filter(tag_pred(fs)),
            decreases self.known@.len() - i,
        {
            let ghost prev = r@;
            let keep = self.known[i].matches_tag_filters(filters);
            if keep {
                let d = self.known[i].duplicate();
                r.push(d);
            }
            proof {
                let all = views(self.known@);
                let sub = all.subrange(0, i + 1);
                reveal(Seq::filter);
                assert(sub.drop_last() =~= all.subrange(0, i as int));
                assert(sub.last() == self.known@[i as int]@);
                if keep {
                    assert(views(r@) =~= views(prev).push(self.known@[i as int]@));
                } else {
                    assert(views(r@) =~= views(prev));
                }
            }
            i = i + 1;
        }
        proof {
            assert(views(self.known@).subrange(0, i as int) =~= views(self.known@));
        }
        r
    }

    fn position(&self, id: &String) -> (r: Option<usize>)
        ensures
            match r {
                Some(i) => i < self.known@.len() && self.known@[i as int].instance_id@ == id@,
                None => !has_id(self.known(), id@),
            },
    {
        let mut i: usize = 0;
        while i < self.known.len()
            invariant
                i <= self.known@.len(),
                forall|j: int| 0 <= j < i ==> self.known@[j].instance_id@ != id@,
            decreases self.known@.len() - i,
        {
            if self.known[i].instance_id == *id {
                return Some(i);
            }
            i = i + 1;
        }
        proof {
            if has_id(self.known(), id@) {
                let j = choose|j: int|
                    0 <= j < self.known().len() && #[trigger] self.known()[j].instance_id == id@;
                assert(self.known@[j].instance_id@ == id@);
            }
        }
        None
    }

    /// The changes one discovery pass calls for, against `first_per_id(discovered)`: remove every
    /// known id that is no longer discovered; dial and insert every discovered instance whose id is
    /// not known; replace every discovered instance whose id is known with other content.
    pub fn plan(&self, discovered: &Vec<ServiceInstance>) -> (r: ReconcilePlan)
        requires
            self.wf(),
        ensures
            removals_exact(self.known(), first_per_id(views(discovered@)), r.removals@),
            inserts_exact(self.known(), first_per_id(views(discovered@)), r.inserts@),
            replacements_exact(self.known(), first_per_id(views(discovered@)), r.replacements@),
    {
        let target = dedup_by_id(discovered);
        let ghost tv = views(target@);
        let ghost known = self.known();
        proof {
            lemma_first_per_id(views(discovered@));
        }
        let mut removals: Vec<String> = Vec::new();
        let mut i: usize = 0;
        while i < self.known.len()
            invariant
                known == self.known(),
                tv == views(target@),
                i <= self.known@.len(),
                forall|k: int|
                    0 <= k < removals@.len() ==> has_id(known, #[trigger] removals@[k]@) && !has_id(
                        tv,
                        removals@[k]@,
                    ),
                forall|j: int|
                    0 <= j < i && !has_id(tv, #[trigger] known[j].instance_id) ==> exists|k: int|
                        0 <= k < removals@.len() && removals@[k]@ == known[j].instance_id,
            decreases self.known@.len() - i,
        {
            let ghost prev = removals@;
            let id = &self.known[i].instance_id;
            let found = index_of_id(&target, id);
            if found.is_none() {
                removals.push(id.clone());
                proof {
                    assert(known[i as int].instance_id == id@);
                    assert(removals@[prev.len() as int]@ == id@);
                    assert forall|j: int|
                        0 <= j < i + 1 && !has_id(tv, #[trigger] known[j].instance_id) implies exists|
                        k: int,
                    | 0 <= k < removals@.len() && removals@[k]@ == known[j].instance_id by {
                        if j < i {
                            let k = choose|k: int|
                                0 <= k < prev.len() && prev[k]@ == known[j].instance_id;
                            assert(removals@[k] == prev[k]);
                        } else {
                            assert(removals@[prev.len() as int]@ == known[j].instance_id);
                        }
                    }
                }
            } else {
                proof {
                    let q = found.unwrap() as int;
                    assert(known[i as int].instance_id == id@);
                    assert(tv[q].instance_id == id@);
                    assert(has_id(tv, known[i as int].instance_id));
                }
            }
            i = i + 1;
        }
        proof {
            assert(i == known.len());
        }
        let mut inserts: Vec<ServiceInstance> = Vec::new();
        let mut replacements: Vec<ServiceInstance> = Vec::new();
        let mut j: usize = 0;
        while j < target.len()
            invariant
                self.wf(),
                known == self.known(),
                tv == views(target@),
                j <= target@.len(),
                forall|k: int|
                    0 <= k < removals@.len() ==> has_id(known, #[trigger] removals@[k]@) && !has_id(
                        tv,
                        removals@[k]@,
                    ),
                forall|m: int|
                    0 <= m < known.len() && !has_id(tv, #[trigger] known[m].instance_id) ==> exists|
                        k: int,
                    | 0 <= k < removals@.len() && removals@[k]@ == known[m].instance_id,
                forall|k: int|
                    0 <= k < inserts@.len() ==> tv.contains(#[trigger] inserts@[k]@) && !has_id(
                        known,
                        inserts@[k]@.instance_id,
                    ),
                forall|m: int|
                    0 <= m < j && !has_id(known, #[trigger] tv[m].instance_id) ==> exists|k: int|
                        0 <= k < inserts@.len() && inserts@[k]@ == tv[m],
                forall|k: int|
                    0 <= k < replacements@.len() ==> tv.contains(#[trigger] replacements@[k]@)
                        && has_id(known, replacements@[k]@.instance_id) && !known.contains(
                        replacements@[k]@,
                    ),
                forall|m: int|
                    0 <= m < j && has_id(known, #[trigger] tv[m].instance_id) && !known.contains(
                        tv[m],
                    ) ==> exists|k: int| 0 <= k < replacements@.len() && replacements@[k]@ == tv[m],
            decreases target@.len() - j,
        {
            let ghost prev_ins = inserts@;
            let ghost prev_rep = replacements@;
            let t = &target[j];
            proof {
                assert(tv[j as int] == t@);
                assert(tv.contains(t@));
            }
            match index_of_id(&self.known, &t.instance_id) {
                None => {
                    inserts.push(t.duplicate());
                    proof {
                        assert forall|m: int|
                            0 <= m < j + 1 && !has_id(known, #[trigger] tv[m].instance_id) implies exists|
                            k: int,
                        | 0 <= k < inserts@.len() && inserts@[k]@ == tv[m] by {
                            if m < j {
                                let k = choose|k: int| 0 <= k < prev_ins.len() && prev_ins[k]@ == tv[m];
                                assert(inserts@[k] == prev_ins[k]);
                            } else {
                                assert(inserts@[prev_ins.len() as int]@ == tv[m]);
                            }
                        }
                        assert forall|m: int|
                            0 <= m < j + 1 && has_id(known, #[trigger] tv[m].instance_id)
                                && !known.contains(tv[m]) implies exists|k: int|
                            0 <= k < replacements@.len() && replacements@[k]@ == tv[m] by {
                            if m == j {
                                assert(!has_id(known, tv[m].instance_id));
                            }
                        }
                    }
                },
                Some(p) => {
                    proof {
                        assert(known[p as int].instance_id == t@.instance_id);
                        assert(has_id(known, t@.instance_id));
                    }
                    if !self.known[p].same_as(t) {
                        replacements.push(t.duplicate());
                        proof {
                            assert(!known.contains(t@)) by {
                                if known.contains(t@) {
                                    let q = choose|q: int| 0 <= q < known.len() && known[q] == t@;
                                    assert(known[q].instance_id == known[p as int].instance_id);
                                }
                            }
                            assert forall|m: int|
                                0 <= m < j + 1 && has_id(known, #[trigger] tv[m].instance_id)
                                    && !known.contains(tv[m]) implies exists|k: int|
                                0 <= k < replacements@.len() && replacements@[k]@ == tv[m] by {
                                if m < j {
                                    let k = choose|k: int|
                                        0 <= k < prev_rep.len() && prev_rep[k]@ == tv[m];
                                    assert(replacements@[k] == prev_rep[k]);
                                } else {
                                    assert(replacements@[prev_rep.len() as int]@ == tv[m]);
                                }
                            }
                        }
                    } else {
                        proof {
                            assert(known[p as int] == t@);
                            assert(known.contains(t@));
                        }
                    }
                },
            }
            j = j + 1;
        }
        proof {
            assert(tv.len() == target@.len());
            assert forall|id: Seq<char>| has_id(known, id) && !has_id(tv, id) implies exists|k: int|
                0 <= k < removals@.len() && removals@[k]@ == id by {
                let j = choose|j: int| 0 <= j < known.len() && #[trigger] known[j].instance_id == id;
                let k = choose|k: int|
                    0 <= k < removals@.len() && removals@[k]@ == known[j].instance_id;
                assert(removals@[k]@ == id);
            }
            assert forall|m: int|
                0 <= m < tv.len() && !has_id(known, #[trigger] tv[m].instance_id) implies exists|k: int|
                0 <= k < inserts@.len() && inserts@[k]@ == tv[m] by {
                let k = choose|k: int| 0 <= k < inserts@.len() && inserts@[k]@ == tv[m];
                assert(inserts@[k]@ == tv[m]);
            }
            assert forall|m: int|
                0 <= m < tv.len() && has_id(known, #[trigger] tv[m].instance_id) && !known.contains(
                    tv[m],
                ) implies exists|k: int| 0 <= k < replacements@.len() && replacements@[k]@ == tv[m] by {
                let k = choose|k: int| 0 <= k < replacements@.len() && replacements@[k]@ == tv[m];
                assert(replacements@[k]@ == tv[m]);
            }
        }
        proof {
            assert(removals_exact(known, tv, removals@));
            assert(inserts_exact(known, tv, inserts@));
            assert(replacements_exact(known, tv, replacements@));
        }
        ReconcilePlan { removals, inserts, replacements }
    }

    /// Records that `id` is gone: a known id is dropped and `Remove(id)` emitted; an unknown
    /// id changes nothing and emits nothing.
    pub fn apply_remove(&mut self, id: &str) -> (r: Option<ChangeEvent>)
        requires
            old(self).wf(),
        ensures
            final(self).wf(),
            !has_id(final(self).known(), id@),
            has_id(old(self).known(), id@) ==> (r matches Some(e) && e@ == EventView::Remove(id@)
                && final(self).events() == old(self).events().push(EventView::Remove(id@))
                && exists|i: int|
                0 <= i < old(self).known().len() && old(self).known()[i].instance_id == id@
                    && final(self).known() == old(self).known().remove(i)),
            !has_id(old(self).known(), id@) ==> r is None && final(self).known() == old(
                self,
            ).known() && final(self).events() == old(self).events(),
    {
        let key = String::from_str(id);
        match self.position(&key) {
            Some(i) => {
                let ghost before = self.known();
                let ghost ev = self.events@;
                self.known.remove(i);
                self.events = Ghost(ev.push(EventView::Remove(id@)));
                proof {
                    assert(self.known() =~= before.remove(i as int));
                    assert(before[i as int].instance_id == id@);
                    assert(self.events@.drop_last() =~= ev);
                    assert(ids_unique(self.known()));
                    assert(has_id(before, id@));
                    assert(live_ids(ev).contains(id@));
                    assert(well_paired(self.events@));
                    assert forall|x: Seq<char>|
                        live_ids(self.events@).contains(x) <==> has_id(self.known(), x) by {
                        if x != id@ && has_id(before, x) {
                            let j = choose|j: int|
                                0 <= j < before.len() && #[trigger] before[j].instance_id == x;
                            if j < i {
                                assert(self.known()[j].instance_id == x);
                            } else {
                                assert(self.known()[j - 1].instance_id == x);
                            }
                        }
                        if has_id(self.known(), x) {
                            let j = choose|j: int|
                                0 <= j < self.known().len() && #[trigger] self.known()[j].instance_id
                                    == x;
                            if j < i {
                                assert(before[j].instance_id == x);
                                if x == id@ {
                                    assert(before[j].instance_id != before[i as int].instance_id);
                                }
                            } else {
                                assert(before[j + 1].instance_id == x);
                                if x == id@ {
                                    assert(before[i as int].instance_id != before[j
                                        + 1].instance_id);
                                }
                            }
                        }
                    }
                }
                Some(ChangeEvent::Remove(key))
            },
            None => None,
        }
    }

    /// Records that a channel to `inst` is ready: an instance whose id is not known is added
    /// and `Insert(id)` emitted; one whose id is known changes nothing and emits nothing.
    pub fn apply_insert(&mut self, inst: ServiceInstance) -> (r: Option<ChangeEvent>)
        requires
            old(self).wf(),
        ensures
            final(self).wf(),
            has_id(final(self).known(), inst@.instance_id),
            !has_id(old(self).known(), inst@.instance_id) ==> (r matches Some(e) && e@
                == EventView::Insert(inst@.instance_id) && final(self).known() == old(
                self,
            ).known().push(inst@) && final(self).events() == old(self).events().push(
                EventView::Insert(inst@.instance_id),
            )),
            has_id(old(self).known(), inst@.instance_id) ==> r is None && final(self).known()
                == old(self).known() && final(self).events() == old(self).events(),
    {
        match self.position(&inst.instance_id) {
            Some(i) => {
                proof {
                    assert(self.known()[i as int].instance_id == inst@.instance_id);
                }
                None
            },
            None => {
                let ghost before = self.known();
                let ghost ev = self.events@;
                let ghost v = inst@;
                let id = inst.instance_id.clone();
                self.known.push(inst);
                self.events = Ghost(ev.push(EventView::Insert(v.instance_id)));
                proof {
                    assert(self.known() =~= before.push(v));
                    assert(self.events@.drop_last() =~= ev);
                    assert forall|x: Seq<char>|
                        live_ids(self.events@).contains(x) <==> has_id(self.known(), x) by {
                        if x == v.instance_id {
                            assert(self.known()[before.len() as int].instance_id == x);
                        }
                        if has_id(before, x) {
                            let j = choose|j: int|
                                0 <= j < before.len() && #[trigger] before[j].instance_id == x;
                            assert(self.known()[j].instance_id == x);
                        }
                        if has_id(self.known(), x) && x != v.instance_id {
                            let j = choose|j: int|
                                0 <= j < self.known().len() && #[trigger] self.known()[j].instance_id
                                    == x;
                            assert(before[j].instance_id == x);
                        }
                    }
                }
                assert(id@ == v.instance_id);
                assert(self.known() == before.push(v));
                Some(ChangeEvent::Insert(id))
            },
        }
    }
}

proof fn lemma_first_per_id(s: Seq<InstanceView>)
    ensures
        ids_unique(first_per_id(s)),
        forall|id: Seq<char>| has_id(first_per_id(s), id) <==> has_id(s, id),
        forall|x: InstanceView| first_per_id(s).contains(x) ==> s.contains(x),
    decreases s.len(),
{
    if s.len() > 0 {
        let t = s.drop_last();
        lemma_first_per_id(t);
        let d = first_per_id(t);
        assert forall|id: Seq<char>| has_id(first_per_id(s), id) <==> has_id(s, id) by {
            if has_id(t, id) {
                let j = choose|j: int| 0 <= j < t.len() && #[trigger] t[j].instance_id == id;
                assert(s[j].instance_id == id);
            }
            if has_id(s, id) {
                let j = choose|j: int| 0 <= j < s.len() && #[trigger] s[j].instance_id == id;
                if j < t.len() {
                    assert(t[j].instance_id == id);
                }
            }
            if has_id(first_per_id(s), id) && !has_id(d, id) {
                let j = choose|j: int|
                    0 <= j < first_per_id(s).len() && #[trigger] first_per_id(s)[j].instance_id == id;
                assert(j == d.len());
                assert(s[s.len() - 1].instance_id == id);
            }
            if !has_id(d, s.last().instance_id) {
                assert(first_per_id(s)[d.len() as int].instance_id == s.last().instance_id);
                if has_id(d, id) {
                    let j = choose|j: int| 0 <= j < d.len() && #[trigger] d[j].instance_id == id;
                    assert(first_per_id(s)[j].instance_id == id);
                }
            }
        }
        assert forall|x: InstanceView| first_per_id(s).contains(x) implies s.contains(x) by {
            let j = choose|j: int| 0 <= j < first_per_id(s).len() && first_per_id(s)[j] == x;
            if j < d.len() {
                assert(d[j] == x);
                assert(d.contains(x));
                assert(t.contains(x));
                let k = choose|k: int| 0 <= k < t.len() && t[k] == x;
                assert(s[k] == x);
            } else {
                assert(s[s.len() - 1] == x);
            }
        }
        if !has_id(d, s.last().instance_id) {
            assert forall|a: int, b: int|
                0 <= a < b < first_per_id(s).len() implies first_per_id(s)[a].instance_id
                != first_per_id(s)[b].instance_id by {
                if b == d.len() {
                    if d[a].instance_id == s.last().instance_id {
                        assert(has_id(d, s.last().instance_id));
                    }
                }
            }
        }
    }
}

/// The position in `s` of the instance with id `id`.
pub fn index_of_id(s: &Vec<ServiceInstance>, id: &String) -> (r: Option<usize>)
    ensures
        match r {
            Some(i) => i < s@.len() && s@[i as int].instance_id@ == id@,
            None => !has_id(views(s@), id@),
        },
{
    let mut i: usize = 0;
    while i < s.len()
        invariant
            i <= s@.len(),
            forall|j: int| 0 <= j < i ==> s@[j].instance_id@ != id@,
        decreases s@.len() - i,
    {
        if s[i].instance_id == *id {
            return Some(i);
        }
        i = i + 1;
    }
    proof {
        if has_id(views(s@), id@) {
            let j = choose|j: int| 0 <= j < s@.len() && #[trigger] views(s@)[j].instance_id == id@;
            assert(s@[j].instance_id@ == id@);
        }
    }
    None
}

/// The discovered instances with every repeated id dropped: the first occurrence wins.
pub fn dedup_by_id(discovered: &Vec<ServiceInstance>) -> (r: Vec<ServiceInstance>)
    ensures
        views(r@) == first_per_id(views(discovered@)),
{
    let ghost all = views(discovered@);
    let mut out: Vec<ServiceInstance> = Vec::new();
    let mut i: usize = 0;
    while i < discovered.len()
        invariant
            all == views(discovered@),
            i <= discovered@.len(),
            views(out@) == first_per_id(all.subrange(0, i as int)),
        decreases discovered@.len() - i,
    {
        let ghost prev = out@;
        let found = index_of_id(&out, &discovered[i].instance_id);
        proof {
            let sub = all.subrange(0, i + 1);
            assert(sub.drop_last() =~= all.subrange(0, i as int));
            assert(sub.last() == discovered@[i as int]@);
        }
        if found.is_none() {
            let d = discovered[i].duplicate();
            out.push(d);
            proof {
                assert(views(out@) =~= views(prev).push(discovered@[i as int]@));
            }
        } else {
            proof {
                let k = found.unwrap() as int;
                assert(views(prev)[k].instance_id == discovered@[i as int]@.instance_id);
            }
        }
        i = i + 1;
    }
    proof {
        assert(all.subrange(0, all.len() as int) =~= all);
    }
    out
}

/// Each `Remove(id)` in a well-paired history has an `Insert(id)` strictly before it.
pub proof fn lemma_remove_follows_insert(events: Seq<EventView>, i: int, id: Seq<char>)
    requires
        well_paired(events),
        0 <= i < events.len(),
        events[i] == EventView::Remove(id),
    ensures
        exists|j: int| 0 <= j < i && events[j] == EventView::Insert(id),
    decreases events.len(),
{
    if i < events.len() - 1 {
        lemma_remove_follows_insert(events.drop_last(), i, id);
        let j = choose|j: int| 0 <= j < i && events.drop_last()[j] == EventView::Insert(id);
        assert(events[j] == EventView::Insert(id));
    } else {
        let prefix = events.drop_last();
        lemma_live_was_inserted(prefix, id);
        let j = choose|j: int| 0 <= j < prefix.len() && prefix[j] == EventView::Insert(id);
        assert(events[j] == EventView::Insert(id));
    }
}

proof fn lemma_live_was_inserted(events: Seq<EventView>, id: Seq<char>)
    requires
        live_ids(events).contains(id),
    ensures
        exists|j: int| 0 <= j < events.len() && events[j] == EventView::Insert(id),
    decreases events.len(),
{
    let prefix = events.drop_last();
    if events.last() == EventView::Insert(id) {
        assert(events[events.len() - 1] == EventView::Insert(id));
    } else {
        lemma_live_was_inserted(prefix, id);
        let j = choose|j: int| 0 <= j < prefix.len() && prefix[j] == EventView::Insert(id);
        assert(events[j] == EventView::Insert(id));
    }
}

proof fn lemma_first_occurrence_kept(s: Seq<InstanceView>, j: int)
    requires
        0 <= j < s.len(),
        forall|k: int| 0 <= k < j ==> s[k].instance_id != s[j].instance_id,
    ensures
        first_per_id(s).contains(s[j]),
    decreases s.len(),
{
    let t = s.drop_last();
    lemma_first_per_id(t);
    if j < s.len() - 1 {
        lemma_first_occurrence_kept(t, j);
        assert(t[j] == s[j]);
        let d = first_per_id(t);
        let k = choose|k: int| 0 <= k < d.len() && d[k] == s[j];
        if !has_id(d, s.last().instance_id) {
            assert(first_per_id(s)[k] == s[j]);
        }
    } else {
        if has_id(t, s[j].instance_id) {
            let k = choose|k: int| 0 <= k < t.len() && #[trigger] t[k].instance_id == s[j].instance_id;
            assert(s[k].instance_id == s[j].instance_id);
        }
        assert(!has_id(first_per_id(t), s.last().instance_id));
        assert(first_per_id(s)[first_per_id(t).len() as int] == s[j]);
    }
}

/// Once a discovery pass no longer returns a known instance, the pass's plan removes it.
pub proof fn lemma_deregistered_is_removed(
    known: Seq<InstanceView>,
    discovered: Seq<InstanceView>,
    removals: Seq<String>,
    id: Seq<char>,
)
    requires
        removals_exact(known, first_per_id(discovered), removals),
        has_id(known, id),
        !has_id(discovered, id),
    ensures
        exists|i: int| 0 <= i < removals.len() && removals[i]@ == id,
{
    lemma_first_per_id(discovered);
}

/// An instance that a discovery pass returns (first under its id) and that has no live channel
/// yet is among the instances the pass's plan dials and inserts.
pub proof fn lemma_registered_is_inserted(
    known: Seq<InstanceView>,
    discovered: Seq<InstanceView>,
    inserts: Seq<ServiceInstance>,
    j: int,
)
    requires
        inserts_exact(known, first_per_id(discovered), inserts),
        0 <= j < discovered.len(),
        forall|k: int| 0 <= k < j ==> discovered[k].instance_id != discovered[j].instance_id,
        !has_id(known, discovered[j].instance_id),
    ensures
        exists|i: int| 0 <= i < inserts.len() && inserts[i]@ == discovered[j],
{
    lemma_first_occurrence_kept(discovered, j);
    let t = first_per_id(discovered);
    let m = choose|m: int| 0 <= m < t.len() && t[m] == discovered[j];
    assert(!has_id(known, t[m].instance_id));
}

/// No spurious remove: in the events of any well-formed reconciler, each `Remove(id)` has an
/// `Insert(id)` strictly before it.
pub proof fn lemma_reconciler_no_spurious_remove(r: Reconciler, i: int, id: Seq<char>)
    requires
        r.wf(),
        0 <= i < r.events().len(),
        r.events()[i] == EventView::Remove(id),
    ensures
        exists|j: int| 0 <= j < i && r.events()[j] == EventView::Insert(id),
{
    Reconciler::lemma_wf_properties(r);
    lemma_remove_follows_insert(r.events(), i, id);
}

proof fn lemma_live_since_insert(events: Seq<EventView>, id: Seq<char>)
    requires
        live_ids(events).contains(id),
    ensures
        exists|j: int|
            0 <= j < events.len() && events[j] == EventView::Insert(id) && forall|m: int|
                j < m < events.len() ==> events[m] != EventView::Remove(id),
    decreases events.len(),
{
    let prefix = events.drop_last();
    if events.last() == EventView::Insert(id) {
        assert(events[events.len() - 1] == EventView::Insert(id));
    } else {
        if events.last() == EventView::Remove(id) {
            assert(!live_ids(events).contains(id));
        }
        lemma_live_since_insert(prefix, id);
        let j = choose|j: int|
            0 <= j < prefix.len() && prefix[j] == EventView::Insert(id) && forall|m: int|
                j < m < prefix.len() ==> prefix[m] != EventView::Remove(id);
        assert(events[j] == EventView::Insert(id));
        assert forall|m: int| j < m < events.len() implies events[m] != EventView::Remove(id) by {
            if m < prefix.len() {
                assert(events[m] == prefix[m]);
            }
        }
    }
}

/// In the events of any well-formed reconciler, each `Remove(id)` is preceded by an `Insert(id)`
/// with no other `Remove(id)` between the two.
pub proof fn lemma_reconciler_remove_pairs_with_insert(r: Reconciler, k: int, id: Seq<char>)
    requires
        r.wf(),
        0 <= k < r.events().len(),
        r.events()[k] == EventView::Remove(id),
    ensures
        exists|j: int|
            0 <= j < k && r.events()[j] == EventView::Insert(id) && forall|m: int|
                j < m < k ==> r.events()[m] != EventView::Remove(id),
{
    Reconciler::lemma_wf_properties(r);
    let ev = r.events();
    lemma_well_paired_prefix(ev, k + 1);
    let pre = ev.subrange(0, k);
    assert(ev.subrange(0, k + 1).drop_last() =~= pre);
    assert(ev.subrange(0, k + 1).last() == EventView::Remove(id));
    lemma_live_since_insert(pre, id);
    let j = choose|j: int|
        0 <= j < pre.len() && pre[j] == EventView::Insert(id) && forall|m: int|
            j < m < pre.len() ==> pre[m] != EventView::Remove(id);
    assert(ev[j] == pre[j]);
    assert forall|m: int| j < m < k implies ev[m] != EventView::Remove(id) by {
        assert(ev[m] == pre[m]);
    }
}

proof fn lemma_well_paired_prefix(events: Seq<EventView>, n: int)
    requires
        well_paired(events),
        0 <= n <= events.len(),
    ensures
        well_paired(events.subrange(0, n)),
    decreases events.len(),
{
    if n < events.len() {
        assert(events.drop_last().subrange(0, n) =~= events.subrange(0, n));
        lemma_well_paired_prefix(events.drop_last(), n);
    } else {
        assert(events.subrange(0, n) =~= events);
    }
}

} // verus!
