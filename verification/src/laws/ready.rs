//! What holds of the ready queue while the executor empties it.

use crate::id::NodeId;
use crate::model::{ReadyStep, TaskRef, Tasks};
use crate::rng::RngHistory;
use vstd::prelude::*;

verus! {

impl<R, I> Tasks<R, I> {
    /// What is held back before something comes next that need not be, in this order.
    pub open spec fn held_back_next(self, rand: RngHistory) -> Seq<(R, TaskRef)>
        decreases self.ready.len(),
    {
        if self.ready.len() == 0 {
            Seq::empty()
        } else {
            let len = self.ready.len() as u64;
            let place = rand.draw(0, len) as int;
            if self.pick(place).1 is HeldBack {
                seq![self.ready[place]] + self.pick(place).0.held_back_next(rand.after(0, len))
            } else {
                Seq::empty()
            }
        }
    }

    /// Those of `entries` that are for tasks of the node `id`.
    pub open spec fn for_node(self, entries: Seq<(R, TaskRef)>, id: NodeId) -> Seq<(R, TaskRef)> {
        entries.filter(|entry: (R, TaskRef)| self.info(entry.1).node == id)
    }

    /// `after` differs from this at most in what is ready and in what the nodes hold back, which
    /// are what they held back before and then those of `held` that are for tasks of theirs.
    pub open spec fn holds_back_only(self, held: Seq<(R, TaskRef)>, after: Tasks<R, I>) -> bool {
        &&& after.infos == self.infos
        &&& after.next_node_id == self.next_node_id
        &&& after.next_task_id == self.next_task_id
        &&& after.paused_node_ids == self.paused_node_ids
        &&& after.nodes.dom() == self.nodes.dom()
        &&& forall|id: u64| #[trigger]
            self.nodes.contains_key(id) ==> {
                &&& after.nodes[id].info == self.nodes[id].info
                &&& after.nodes[id].init == self.nodes[id].init
                &&& after.nodes[id].paused == self.nodes[id].paused + self.for_node(
                    held,
                    NodeId(id),
                )
            }
    }

    /// All of `entries` are for tasks that are known.
    pub open spec fn knows(self, entries: Seq<(R, TaskRef)>) -> bool {
        forall|i: int| 0 <= i < entries.len() ==> self.has_task((#[trigger] entries[i]).1)
    }

    /// All of `entries` are for tasks that are paused and not killed.
    pub open spec fn all_paused(self, entries: Seq<(R, TaskRef)>) -> bool {
        forall|i: int|
            0 <= i < entries.len() ==> self.info((#[trigger] entries[i]).1).paused && !self.info(
                entries[i].1,
            ).killed
    }

    /// All of `entries` are for tasks that are killed.
    pub open spec fn all_killed(self, entries: Seq<(R, TaskRef)>) -> bool {
        forall|i: int| 0 <= i < entries.len() ==> self.info((#[trigger] entries[i]).1).killed
    }

    /// All of `entries` are for tasks that are neither paused nor killed.
    pub open spec fn all_runnable(self, entries: Seq<(R, TaskRef)>) -> bool {
        forall|i: int| 0 <= i < entries.len() ==> self.info((#[trigger] entries[i]).1).runnable()
    }
}

impl<R> ReadyStep<R> {
    /// What is to be run.
    pub open spec fn to_run(self) -> Seq<(R, TaskRef)> {
        match self {
            ReadyStep::Run(runnable, task) => seq![(runnable, task)],
            _ => Seq::empty(),
        }
    }

    /// What is to be dropped.
    pub open spec fn to_drop(self) -> Seq<(R, TaskRef)> {
        match self {
            ReadyStep::Drop(runnable, task) => seq![(runnable, task)],
            _ => Seq::empty(),
        }
    }
}

/// One pick from the ready queue leaves everything well formed, and changes no more than what is
/// ready and what the node of the task holds back.
proof fn lemma_pick<R, I>(tasks: Tasks<R, I>, place: int)
    requires
        tasks.wf(),
        0 <= place < tasks.ready.len(),
    ensures
        tasks.pick(place).0.wf(),
        tasks.holds_back_only(
            if tasks.pick(place).1 is HeldBack {
                seq![tasks.ready[place]]
            } else {
                Seq::empty()
            },
            tasks.pick(place).0,
        ),
{
    let after = tasks.pick(place).0;
    let entry = tasks.ready[place];
    assert forall|id: u64| #[trigger] tasks.nodes.contains_key(id) implies {
        &&& tasks.for_node(Seq::empty(), NodeId(id)) == Seq::<(R, TaskRef)>::empty()
        &&& tasks.for_node(seq![entry], NodeId(id)) == if tasks.info(entry.1).node == NodeId(id) {
            seq![entry]
        } else {
            Seq::empty()
        }
    } by {
        let of_node = |entry: (R, TaskRef)| tasks.info(entry.1).node == NodeId(id);
        reveal(Seq::filter);
        assert(seq![entry].drop_last() =~= Seq::empty());
        assert(Seq::<(R, TaskRef)>::empty().filter(of_node) =~= Seq::empty());
        assert(seq![entry].filter(of_node) =~= if of_node(entry) {
            seq![entry]
        } else {
            Seq::empty()
        });
    }
    assert(after.nodes.dom() =~= tasks.nodes.dom());
    assert forall|id: u64| #[trigger] tasks.nodes.contains_key(id) implies after.nodes[id].paused
        == tasks.nodes[id].paused + tasks.for_node(
        if tasks.pick(place).1 is HeldBack {
            seq![entry]
        } else {
            Seq::empty()
        },
        NodeId(id),
    ) by {
        assert(after.nodes[id].paused =~= tasks.nodes[id].paused + tasks.for_node(
            if tasks.pick(place).1 is HeldBack {
                seq![entry]
            } else {
                Seq::empty()
            },
            NodeId(id),
        ));
    }
}

/// Holding back `first` and then `second` is holding back both.
proof fn lemma_holds_back_both<R, I>(
    tasks: Tasks<R, I>,
    first: Seq<(R, TaskRef)>,
    between: Tasks<R, I>,
    second: Seq<(R, TaskRef)>,
    after: Tasks<R, I>,
)
    requires
        tasks.holds_back_only(first, between),
        between.holds_back_only(second, after),
    ensures
        tasks.holds_back_only(first + second, after),
{
    assert forall|id: u64| #[trigger] tasks.nodes.contains_key(id) implies {
        &&& after.nodes[id].info == tasks.nodes[id].info
        &&& after.nodes[id].init == tasks.nodes[id].init
        &&& after.nodes[id].paused == tasks.nodes[id].paused + tasks.for_node(
            first + second,
            NodeId(id),
        )
    } by {
        assert(between.nodes.dom().contains(id));
        let of_node = |entry: (R, TaskRef)| tasks.info(entry.1).node == NodeId(id);
        let of_node_between = |entry: (R, TaskRef)| between.info(entry.1).node == NodeId(id);
        assert(of_node =~= of_node_between);
        Seq::filter_distributes_over_add(first, second, of_node);
        assert(after.nodes[id].paused =~= tasks.nodes[id].paused + tasks.for_node(
            first + second,
            NodeId(id),
        ));
    }
}

/// When the executor looks for what comes next, nothing that is ready is lost: everything that was
/// ready is still ready, is what is to be run or dropped now, or is held back, exactly once. What is
/// to be run is for a task that is neither paused nor killed, what is to be dropped is for a killed
/// one, and what is held back is for paused ones and waits with their nodes, in the order in which
/// it was taken. The tasks stay as they are, and so do the nodes but for what they hold back. Unless
/// nothing is ready any more, there is something to be run or dropped.
pub proof fn law_next_step_loses_nothing<R, I>(tasks: Tasks<R, I>, rand: RngHistory)
    requires
        tasks.wf(),
        tasks.draws_in_queue(rand),
    ensures
        ({
            let (_, after, step) = tasks.next_ready(rand);
            let held = tasks.held_back_next(rand);
            &&& after.wf()
            &&& tasks.ready.to_multiset() == after.ready.to_multiset().add(
                step.to_run().to_multiset(),
            ).add(step.to_drop().to_multiset()).add(held.to_multiset())
            &&& tasks.holds_back_only(held, after)
            &&& tasks.all_runnable(step.to_run())
            &&& tasks.all_killed(step.to_drop())
            &&& tasks.all_paused(held)
            &&& tasks.knows(step.to_run()) && tasks.knows(step.to_drop()) && tasks.knows(held)
            &&& step is Idle ==> after.ready.len() == 0
            &&& !(step is Idle) ==> after.ready.len() < tasks.ready.len()
        }),
    decreases tasks.ready.len(),
{
    broadcast use vstd::seq_lib::group_to_multiset_ensures;

    let (_, after, step) = tasks.next_ready(rand);
    let held = tasks.held_back_next(rand);
    if tasks.ready.len() == 0 {
        assert forall|id: u64| #[trigger] tasks.nodes.contains_key(id) implies tasks.for_node(
            held,
            NodeId(id),
        ) == Seq::<(R, TaskRef)>::empty() by {
            reveal(Seq::filter);
        }
        assert forall|id: u64| #[trigger]
            tasks.nodes.contains_key(id) implies after.nodes[id].paused == tasks.nodes[id].paused
            + tasks.for_node(held, NodeId(id)) by {
            assert(after.nodes[id].paused =~= tasks.nodes[id].paused + tasks.for_node(
                held,
                NodeId(id),
            ));
        }
        assert(tasks.ready =~= Seq::empty());
        assert(tasks.ready.to_multiset() =~= after.ready.to_multiset().add(
            step.to_run().to_multiset(),
        ).add(step.to_drop().to_multiset()).add(held.to_multiset()));
    } else {
        let len = tasks.ready.len() as u64;
        let place = rand.draw(0, len) as int;
        let entry = tasks.ready[place];
        let (rest, picked) = tasks.pick(place);
        lemma_pick(tasks, place);
        crate::laws::tasks::lemma_swap_removed(tasks.ready, place);
        assert(seq![entry] =~= Seq::empty().push(entry));
        if picked is HeldBack {
            law_next_step_loses_nothing(rest, rand.after(0, len));
            let later = rest.held_back_next(rand.after(0, len));
            lemma_holds_back_both(tasks, seq![entry], rest, later, after);
            vstd::seq_lib::lemma_multiset_commutative(seq![entry], later);
        }
        assert(tasks.ready.to_multiset() =~= after.ready.to_multiset().add(
            step.to_run().to_multiset(),
        ).add(step.to_drop().to_multiset()).add(held.to_multiset()));
    }
}

/// What has become of the ready queue in some steps of the executor.
#[verifier::ext_equal]
#[verifier::reject_recursive_types(R)]
#[verifier::reject_recursive_types(I)]
pub struct Drained<R, I> {
    pub tasks: Tasks<R, I>,
    /// What was run, oldest first.
    pub ran: Seq<(R, TaskRef)>,
    /// What was dropped, oldest first.
    pub dropped: Seq<(R, TaskRef)>,
    /// What was held back, oldest first.
    pub held: Seq<(R, TaskRef)>,
}

/// All of `arrivals`, one after the other.
pub open spec fn arrived<R>(arrivals: Seq<Seq<(R, TaskRef)>>) -> Seq<(R, TaskRef)>
    decreases arrivals.len(),
{
    if arrivals.len() == 0 {
        Seq::empty()
    } else {
        arrived(arrivals.drop_last()) + arrivals.last()
    }
}

impl<R, I> Tasks<R, I> {
    /// What becomes of the ready queue in as many steps as there are `rands`, if places are drawn
    /// from these, and `arrivals` are what becomes ready after each step.
    pub open spec fn drain(
        self,
        rands: Seq<RngHistory>,
        arrivals: Seq<Seq<(R, TaskRef)>>,
    ) -> Drained<R, I>
        decreases rands.len(),
    {
        if rands.len() == 0 {
            Drained { tasks: self, ran: Seq::empty(), dropped: Seq::empty(), held: Seq::empty() }
        } else {
            let before = self.drain(rands.drop_last(), arrivals.drop_last());
            let (_, after, step) = before.tasks.next_ready(rands.last());
            Drained {
                tasks: Tasks { ready: after.ready + arrivals.last(), ..after },
                ran: before.ran + step.to_run(),
                dropped: before.dropped + step.to_drop(),
                held: before.held + before.tasks.held_back_next(rands.last()),
            }
        }
    }

    /// In each of the steps, the places that are drawn lie in the ready queue.
    pub open spec fn drains_in_queue(
        self,
        rands: Seq<RngHistory>,
        arrivals: Seq<Seq<(R, TaskRef)>>,
    ) -> bool
        decreases rands.len(),
    {
        rands.len() > 0 ==> {
            &&& self.drains_in_queue(rands.drop_last(), arrivals.drop_last())
            &&& self.drain(rands.drop_last(), arrivals.drop_last()).tasks.draws_in_queue(
                rands.last(),
            )
        }
    }
}

/// Emptying the ready queue loses nothing: over any number of steps, everything that was ready, and
/// everything that has become ready meanwhile, is still ready or was run, dropped or held back,
/// exactly once. When nothing is ready any more, all of it was. What was run is for tasks that are
/// neither paused nor killed, what was dropped for killed ones, and what was held back for paused
/// ones, with whose nodes it waits.
pub proof fn law_draining_loses_nothing<R, I>(
    tasks: Tasks<R, I>,
    rands: Seq<RngHistory>,
    arrivals: Seq<Seq<(R, TaskRef)>>,
)
    requires
        tasks.wf(),
        rands.len() == arrivals.len(),
        forall|i: int| 0 <= i < arrivals.len() ==> tasks.knows(#[trigger] arrivals[i]),
        tasks.drains_in_queue(rands, arrivals),
    ensures
        ({
            let drained = tasks.drain(rands, arrivals);
            let all = tasks.ready.to_multiset().add(arrived(arrivals).to_multiset());
            let done = drained.ran.to_multiset().add(drained.dropped.to_multiset()).add(
                drained.held.to_multiset(),
            );
            &&& drained.tasks.wf()
            &&& all == drained.tasks.ready.to_multiset().add(done)
            &&& drained.tasks.ready.len() == 0 ==> all == done
            &&& tasks.holds_back_only(drained.held, drained.tasks)
            &&& tasks.all_runnable(drained.ran)
            &&& tasks.all_killed(drained.dropped)
            &&& tasks.all_paused(drained.held)
        }),
    decreases rands.len(),
{
    broadcast use vstd::seq_lib::group_to_multiset_ensures;

    let drained = tasks.drain(rands, arrivals);
    let all = tasks.ready.to_multiset().add(arrived(arrivals).to_multiset());
    let done = drained.ran.to_multiset().add(drained.dropped.to_multiset()).add(
        drained.held.to_multiset(),
    );
    if rands.len() == 0 {
        assert forall|id: u64| #[trigger]
            tasks.nodes.contains_key(id) implies drained.tasks.nodes[id].paused
            == tasks.nodes[id].paused + tasks.for_node(drained.held, NodeId(id)) by {
            reveal(Seq::filter);
            assert(drained.tasks.nodes[id].paused =~= tasks.nodes[id].paused + tasks.for_node(
                drained.held,
                NodeId(id),
            ));
        }
    } else {
        let earlier = arrivals.drop_last();
        assert forall|i: int| 0 <= i < earlier.len() implies tasks.knows(#[trigger] earlier[i]) by {
            assert(earlier[i] == arrivals[i]);
        }
        law_draining_loses_nothing(tasks, rands.drop_last(), earlier);
        let before = tasks.drain(rands.drop_last(), earlier);
        let rand = rands.last();
        let (_, after, step) = before.tasks.next_ready(rand);
        let held = before.tasks.held_back_next(rand);
        law_next_step_loses_nothing(before.tasks, rand);
        assert(tasks.knows(arrivals[arrivals.len() - 1]));
        assert(before.tasks.holds_back_only(held, drained.tasks));
        lemma_holds_back_both(tasks, before.held, before.tasks, held, drained.tasks);
        vstd::seq_lib::lemma_multiset_commutative(after.ready, arrivals.last());
        vstd::seq_lib::lemma_multiset_commutative(arrived(earlier), arrivals.last());
        vstd::seq_lib::lemma_multiset_commutative(before.ran, step.to_run());
        vstd::seq_lib::lemma_multiset_commutative(before.dropped, step.to_drop());
        vstd::seq_lib::lemma_multiset_commutative(before.held, held);
        assert forall|entry: (R, TaskRef)|
            all.count(entry) == drained.tasks.ready.to_multiset().add(done).count(entry) by {
            assert(tasks.ready.to_multiset().add(arrived(earlier).to_multiset()).count(entry)
                == before.tasks.ready.to_multiset().count(entry)
                + before.ran.to_multiset().count(entry)
                + before.dropped.to_multiset().count(entry)
                + before.held.to_multiset().count(entry));
            assert(before.tasks.ready.to_multiset().count(entry)
                == after.ready.to_multiset().count(entry)
                + step.to_run().to_multiset().count(entry)
                + step.to_drop().to_multiset().count(entry) + held.to_multiset().count(entry));
        }
    }
    assert(all =~= drained.tasks.ready.to_multiset().add(done));
    if drained.tasks.ready.len() == 0 {
        assert(drained.tasks.ready =~= Seq::empty());
        assert(all =~= done);
    }
}

} // verus!
