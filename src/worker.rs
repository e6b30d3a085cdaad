//! The sample producer: advances the signal graph and hands each sample to
//! the queue, in order, without ever dropping one. When the queue is full
//! the sample waits in the worker until there is room.
use crate::graph::SignalGraph;
use crate::queue::{silence, SampleProducer, StereoSample};
use vstd::prelude::*;

verus! {

/// What the thread running a worker does next.
#[derive(Clone, Copy, Debug, PartialEq, Eq, Structural)]
pub enum WorkerAction {
    /// Fill again at once.
    Continue,
    /// The queue is full: yield, then fill again.
    Wait,
    /// Shutdown was requested: leave the loop.
    Stop,
}

/// The next action of a worker thread, given whether shutdown was requested
/// and how many samples the last fill handed over.
pub open spec fn next_action(shutdown: bool, pushed: nat) -> WorkerAction {
    if shutdown {
        WorkerAction::Stop
    } else if pushed == 0 {
        WorkerAction::Wait
    } else {
        WorkerAction::Continue
    }
}

pub fn decide(shutdown: bool, pushed: usize) -> (r: WorkerAction)
    ensures
        r == next_action(shutdown, pushed as nat),
{
    if shutdown {
        WorkerAction::Stop
    } else if pushed == 0 {
        WorkerAction::Wait
    } else {
        WorkerAction::Continue
    }
}

/// The samples a worker has computed but not yet handed over.
pub open spec fn waiting(pending: Option<StereoSample>) -> Seq<StereoSample> {
    match pending {
        Some(s) => seq![s],
        None => Seq::empty(),
    }
}

/// A producer worker: the writing half of the queue, and the one sample
/// (if any) that the queue could not yet take.
pub struct ProducerWorker {
    producer: SampleProducer,
    pending: Option<StereoSample>,
    computed: Ghost<Seq<StereoSample>>,
}

impl ProducerWorker {
    /// Every sample this worker has taken from the graph, in order.
    pub closed spec fn computed(&self) -> Seq<StereoSample> {
        self.computed@
    }

    /// The sample waiting for room in the queue, if any.
    pub closed spec fn pending(&self) -> Option<StereoSample> {
        self.pending
    }

    /// Every sample this worker has handed to the queue, in order.
    pub closed spec fn pushed(&self) -> Seq<StereoSample> {
        self.producer.pushed()
    }

    /// Every offer this worker made to the queue, with whether it was taken.
    pub closed spec fn offers(&self) -> Seq<(StereoSample, bool)> {
        self.producer.offers()
    }

    /// Nothing is lost or reordered: what was handed over, then what waits,
    /// is exactly what was computed.
    pub closed spec fn wf(&self) -> bool {
        self.producer.pushed() + waiting(self.pending) == self.computed@
    }

    /// A worker that writes through `producer`.
    pub fn new(producer: SampleProducer) -> (w: ProducerWorker)
        ensures
            w.wf(),
            w.pending() is None,
            w.computed() == producer.pushed(),
            w.pushed() == producer.pushed(),
            w.offers() == producer.offers(),
            w.pushed() + waiting(w.pending()) == w.computed(),
    {
        let ghost start = producer.pushed();
        let w = ProducerWorker { producer, pending: None, computed: Ghost(start) };
        assert(w.producer.pushed() + waiting(w.pending) =~= w.computed@);
        w
    }

    /// Hands at most `budget` samples to the queue: first the one waiting,
    /// if any, then fresh ticks of `graph`. Stops early when the queue is
    /// full, keeping the refused sample for the next fill. Returns how many
    /// were handed over.
    pub fn fill(&mut self, graph: &mut SignalGraph, budget: usize) -> (r: usize)
        requires
            old(self).wf(),
            old(graph).wf(),
            old(graph).spec_sample_rate() is Some,
        ensures
            final(graph).spec_sample_rate() == old(graph).spec_sample_rate(),
            final(self).wf(),
            final(self).pushed() + waiting(final(self).pending()) == final(self).computed(),
            final(graph).wf(),
            final(graph)@ == old(graph)@,
            final(graph).output_node() == old(graph).output_node(),
            final(graph).spec_channels() == old(graph).spec_channels(),
            r <= budget,
            final(self).pushed().len() == old(self).pushed().len() + r,
            final(self).pushed().subrange(0, old(self).pushed().len() as int) == old(
                self,
            ).pushed(),
            old(self).computed().len() <= final(self).computed().len(),
            final(self).computed().subrange(0, old(self).computed().len() as int) == old(
                self,
            ).computed(),
            final(graph).ticked().len() >= old(graph).ticked().len(),
            final(self).computed().subrange(
                old(self).computed().len() as int,
                final(self).computed().len() as int,
            ) == final(graph).ticked().subrange(
                old(graph).ticked().len() as int,
                final(graph).ticked().len() as int,
            ),
            old(graph).output_node() is None ==> forall|i: int|
                old(self).computed().len() <= i < final(self).computed().len() ==> (
                #[trigger] final(self).computed()[i]) == silence(),
            r == budget && budget > 0 ==> final(self).pending() is None,
            r < budget ==> {
                &&& final(self).pending() is Some
                &&& final(self).offers().len() > old(self).offers().len()
                &&& final(self).offers().last() == (final(self).pending()->Some_0, false)
            },
            old(graph).spec_channels() == 1 ==> forall|i: int|
                old(self).computed().len() <= i < final(self).computed().len() ==> (
                #[trigger] final(self).computed()[i]).0 == final(self).computed()[i].1,
    {
        let mut count: usize = 0;
        while count < budget
            invariant
                self.wf(),
                graph.wf(),
                graph@ == old(graph)@,
                graph.output_node() == old(graph).output_node(),
                graph.spec_channels() == old(graph).spec_channels(),
                graph.spec_sample_rate() == old(graph).spec_sample_rate(),
                graph.spec_sample_rate() is Some,
                old(self).offers().len() <= self.offers().len(),
                graph.ticked().len() >= old(graph).ticked().len(),
                self.computed().subrange(
                    old(self).computed().len() as int,
                    self.computed().len() as int,
                ) == graph.ticked().subrange(
                    old(graph).ticked().len() as int,
                    graph.ticked().len() as int,
                ),
                old(graph).output_node() is None ==> forall|i: int|
                    old(self).computed().len() <= i < self.computed().len() ==> (
                    #[trigger] self.computed()[i]) == silence(),
                count > 0 ==> self.pending is None,
                count <= budget,
                self.pushed().len() == old(self).pushed().len() + count,
                self.pushed().subrange(0, old(self).pushed().len() as int) == old(self).pushed(),
                old(self).computed().len() <= self.computed().len(),
                self.computed().subrange(0, old(self).computed().len() as int) == old(
                    self,
                ).computed(),
                old(graph).spec_channels() == 1 ==> forall|i: int|
                    old(self).computed().len() <= i < self.computed().len() ==> (
                    #[trigger] self.computed()[i]).0 == self.computed()[i].1,
            decreases budget - count,
        {
            let ghost before = self.computed@;
            let ghost ticks_before = graph.ticked();
            let sample = match self.pending {
                Some(s) => s,
                None => {
                    let s = graph.tick();
                    self.computed = Ghost(self.computed@.push(s));
                    assert(self.computed@.subrange(
                        old(self).computed().len() as int,
                        self.computed@.len() as int,
                    ) =~= graph.ticked().subrange(
                        old(graph).ticked().len() as int,
                        graph.ticked().len() as int,
                    )) by {
                        let c0 = old(self).computed().len() as int;
                        let t0 = old(graph).ticked().len() as int;
                        assert(self.computed@.subrange(c0, self.computed@.len() as int) =~= before.subrange(
                            c0,
                            before.len() as int,
                        ).push(s));
                        assert(graph.ticked().subrange(t0, graph.ticked().len() as int)
                            =~= ticks_before.subrange(t0, ticks_before.len() as int).push(s));
                    }
                    s
                },
            };
            self.pending = None;
            match self.producer.push(sample) {
                Ok(()) => {
                    count = count + 1;
                    assert(self.producer.pushed() + waiting(self.pending) =~= self.computed@);
                },
                Err(back) => {
                    self.pending = Some(back);
                    assert(self.producer.pushed() + waiting(self.pending) =~= self.computed@);
                    return count;
                },
            }
            assert(self.pushed().subrange(0, old(self).pushed().len() as int) =~= old(
                self,
            ).pushed());
            assert(self.computed().subrange(0, old(self).computed().len() as int) =~= old(
                self,
            ).computed());
        }
        count
    }
}

} // verus!
