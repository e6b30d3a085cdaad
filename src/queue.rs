//! The bounded sample queue: a fixed-capacity FIFO of stereo samples, kept in
//! a `ringbuf` ring buffer, and the two halves it splits into for one
//! producer thread and one realtime consumer.
use ringbuf::{HeapConsumer, HeapProducer, HeapRb, Rb};
use vstd::prelude::*;

verus! {

/// One stereo frame, carried as the IEEE-754 bit patterns of its left and
/// right `f64` amplitudes. The pipeline moves samples without computing on
/// them, so it never needs their numeric value.
pub type StereoSample = (u64, u64);

/// The bit pattern of a silent amplitude (positive zero).
pub const SILENT_BITS: u64 = 0;

/// The largest capacity a queue may be built with. The ring counts its
/// indices modulo twice its capacity and adds them, which stays in range up
/// to a quarter of `usize::MAX`; its storage of 16-byte samples must not
/// exceed `isize::MAX` bytes, which is the tighter bound.
pub const MAX_CAPACITY: usize = usize::MAX / 32;

/// A silent stereo frame.
pub open spec fn silence() -> StereoSample {
    (SILENT_BITS, SILENT_BITS)
}

/// Whether a queue holding `items` takes one more under capacity `cap`.
pub open spec fn push_accepts(items: Seq<StereoSample>, cap: nat) -> bool {
    items.len() < cap
}

/// What a queue holds after `sample` is offered to it.
pub open spec fn after_push(items: Seq<StereoSample>, cap: nat, sample: StereoSample) -> Seq<
    StereoSample,
> {
    if push_accepts(items, cap) {
        items.push(sample)
    } else {
        items
    }
}

/// What a pop returns from a queue holding `items`.
pub open spec fn pop_result(items: Seq<StereoSample>) -> Option<StereoSample> {
    if items.len() > 0 {
        Some(items[0])
    } else {
        None
    }
}

/// What a queue holds after a pop.
pub open spec fn after_pop(items: Seq<StereoSample>) -> Seq<StereoSample> {
    if items.len() > 0 {
        items.drop_first()
    } else {
        items
    }
}

/// One operation on a queue: offer a sample, or pop.
pub enum QueueOp {
    Push(StereoSample),
    Pop,
}

/// Runs `ops` in order on a queue holding `items` with capacity `cap`.
/// Returns what the queue then holds, the samples it accepted, and the
/// samples that pops returned.
pub open spec fn run_ops(items: Seq<StereoSample>, cap: nat, ops: Seq<QueueOp>) -> (Seq<
    StereoSample,
>, Seq<StereoSample>, Seq<StereoSample>)
    decreases ops.len(),
{
    if ops.len() == 0 {
        (items, Seq::empty(), Seq::empty())
    } else {
        let rest = ops.drop_first();
        match ops[0] {
            QueueOp::Push(s) => {
                let r = run_ops(after_push(items, cap, s), cap, rest);
                let taken = if push_accepts(items, cap) {
                    seq![s]
                } else {
                    Seq::empty()
                };
                (r.0, taken + r.1, r.2)
            },
            QueueOp::Pop => {
                let r = run_ops(after_pop(items), cap, rest);
                let out = match pop_result(items) {
                    Some(x) => seq![x],
                    None => Seq::empty(),
                };
                (r.0, r.1, out + r.2)
            },
        }
    }
}

/// First in, first out, whatever the interleaving: what the queue held, then
/// every sample it accepted, is exactly what the pops returned, then what
/// it still holds.
pub proof fn lemma_fifo(items: Seq<StereoSample>, cap: nat, ops: Seq<QueueOp>)
    ensures
        items + run_ops(items, cap, ops).1 == run_ops(items, cap, ops).2 + run_ops(
            items,
            cap,
            ops,
        ).0,
    decreases ops.len(),
{
    if ops.len() > 0 {
        let rest = ops.drop_first();
        match ops[0] {
            QueueOp::Push(s) => {
                let next = after_push(items, cap, s);
                lemma_fifo(next, cap, rest);
                let r = run_ops(next, cap, rest);
                if push_accepts(items, cap) {
                    assert(items + (seq![s] + r.1) =~= next + r.1);
                } else {
                    assert(items + (Seq::<StereoSample>::empty() + r.1) =~= next + r.1);
                }
            },
            QueueOp::Pop => {
                let next = after_pop(items);
                lemma_fifo(next, cap, rest);
                let r = run_ops(next, cap, rest);
                if items.len() > 0 {
                    assert(items =~= seq![items[0]] + next);
                    assert(items + r.1 =~= seq![items[0]] + (next + r.1));
                    assert((seq![items[0]] + r.2) + r.0 =~= seq![items[0]] + (r.2 + r.0));
                } else {
                    assert(Seq::<StereoSample>::empty() + r.2 =~= r.2);
                }
            },
        }
    }
}

/// A queue holding its capacity refuses another sample and stays as it is;
/// after exactly one pop it takes exactly one more.
pub proof fn lemma_capacity(items: Seq<StereoSample>, cap: nat, a: StereoSample, b: StereoSample)
    requires
        items.len() == cap,
        cap > 0,
    ensures
        !push_accepts(items, cap),
        after_push(items, cap, a) == items,
        push_accepts(after_pop(items), cap),
        !push_accepts(after_push(after_pop(items), cap, a), cap),
        after_push(after_pop(items), cap, a).len() == cap,
{
}

/// A `ringbuf` heap ring buffer of samples. Verus cannot declare ringbuf's
/// buffer type itself (its storage parameter is bound by a ringbuf trait), so
/// it is held here, opaque, and read through the names below.
#[verifier::external_body]
pub struct Ring {
    rb: HeapRb<StereoSample>,
}

/// The samples a ring buffer holds, oldest first.
pub uninterp spec fn ring_items(rb: Ring) -> Seq<StereoSample>;

/// The capacity a ring buffer was built with.
pub uninterp spec fn ring_capacity(rb: Ring) -> nat;

/// The writing half of a split ring buffer, held opaque as `Ring` is.
#[verifier::external_body]
pub struct RingProducer {
    p: HeapProducer<StereoSample>,
}

/// The reading half of a split ring buffer, held opaque as `Ring` is.
#[verifier::external_body]
pub struct RingConsumer {
    c: HeapConsumer<StereoSample>,
}

/// Relies on `SharedRb::split`: one writing and one reading half of the same
/// buffer, each of which may move to its own thread.
#[verifier::external_body]
fn ring_split(rb: Ring) -> (RingProducer, RingConsumer) {
    let (p, c) = rb.rb.split();
    (RingProducer { p }, RingConsumer { c })
}

/// Relies on `Producer::push`: a refused item is handed back as it was.
/// Whether there is room depends on the reading half, which another thread
/// may be using.
#[verifier::external_body]
fn producer_push(p: &mut RingProducer, item: StereoSample) -> (r: Result<(), StereoSample>)
    ensures
        r is Err ==> r->Err_0 == item,
{
    p.p.push(item)
}

/// Relies on `Consumer::pop`: never waits. What it returns depends on the
/// writing half, which another thread may be using.
#[verifier::external_body]
fn consumer_pop(c: &mut RingConsumer) -> Option<StereoSample> {
    c.c.pop()
}

/// Relies on `HeapRb::new`: an empty ring buffer of the given capacity
/// (it panics on capacity zero).
#[verifier::external_body]
fn ring_new(capacity: usize) -> (rb: Ring)
    requires
        0 < capacity <= MAX_CAPACITY,
    ensures
        ring_items(rb) == Seq::<StereoSample>::empty(),
        ring_capacity(rb) == capacity,
{
    Ring { rb: HeapRb::new(capacity) }
}

/// Relies on `Rb::push`: appends the item when fewer than `capacity` items
/// are held, and otherwise hands the item back and changes nothing.
#[verifier::external_body]
fn ring_push(rb: &mut Ring, item: StereoSample) -> (r: Result<(), StereoSample>)
    ensures
        ring_capacity(*final(rb)) == ring_capacity(*old(rb)),
        r is Ok == push_accepts(ring_items(*old(rb)), ring_capacity(*old(rb))),
        r is Err ==> r->Err_0 == item,
        ring_items(*final(rb)) == after_push(ring_items(*old(rb)), ring_capacity(*old(rb)), item),
{
    rb.rb.push(item)
}

/// Relies on `Rb::pop`: removes and returns the oldest item, or returns
/// `None` and changes nothing when the ring is empty.
#[verifier::external_body]
fn ring_pop(rb: &mut Ring) -> (r: Option<StereoSample>)
    ensures
        ring_capacity(*final(rb)) == ring_capacity(*old(rb)),
        r == pop_result(ring_items(*old(rb))),
        ring_items(*final(rb)) == after_pop(ring_items(*old(rb))),
{
    rb.rb.pop()
}

/// Relies on `Rb::len`: the number of items held.
#[verifier::external_body]
fn ring_len(rb: &Ring) -> (r: usize)
    ensures
        r == ring_items(*rb).len(),
{
    rb.rb.len()
}

/// Relies on `Rb::capacity`: the capacity the ring was built with.
#[verifier::external_body]
fn ring_capacity_of(rb: &Ring) -> (r: usize)
    ensures
        r == ring_capacity(*rb),
{
    rb.rb.capacity()
}

/// A bounded FIFO of stereo samples. Its view is the sequence of samples it
/// holds, oldest first; it never holds more than its capacity, which is fixed
/// when it is built.
pub struct SampleQueue {
    rb: Ring,
}

impl View for SampleQueue {
    type V = Seq<StereoSample>;

    closed spec fn view(&self) -> Seq<StereoSample> {
        ring_items(self.rb)
    }
}

impl SampleQueue {
    /// The capacity the queue was built with.
    pub closed spec fn spec_capacity(&self) -> nat {
        ring_capacity(self.rb)
    }

    /// The queue holds at most its capacity, and its capacity is in range.
    pub closed spec fn wf(&self) -> bool {
        &&& 0 < ring_capacity(self.rb) <= MAX_CAPACITY
        &&& ring_items(self.rb).len() <= ring_capacity(self.rb)
    }

    /// A queue never holds more than its capacity.
    pub proof fn lemma_bounded(&self)
        requires
            self.wf(),
        ensures
            0 < self.spec_capacity() <= MAX_CAPACITY,
            self@.len() <= self.spec_capacity(),
    {
    }

    /// An empty queue of the given capacity.
    pub fn new(capacity: usize) -> (q: SampleQueue)
        requires
            0 < capacity <= MAX_CAPACITY,
        ensures
            q.wf(),
            q@ == Seq::<StereoSample>::empty(),
            q.spec_capacity() == capacity,
    {
        SampleQueue { rb: ring_new(capacity) }
    }

    pub fn capacity(&self) -> (r: usize)
        requires
            self.wf(),
        ensures
            r == self.spec_capacity(),
    {
        ring_capacity_of(&self.rb)
    }

    pub fn len(&self) -> (r: usize)
        requires
            self.wf(),
        ensures
            r == self@.len(),
    {
        ring_len(&self.rb)
    }

    pub fn is_empty(&self) -> (r: bool)
        requires
            self.wf(),
        ensures
            r == (self@.len() == 0),
    {
        ring_len(&self.rb) == 0
    }

    pub fn is_full(&self) -> (r: bool)
        requires
            self.wf(),
        ensures
            r == (self@.len() == self.spec_capacity()),
    {
        ring_len(&self.rb) == ring_capacity_of(&self.rb)
    }

    /// Appends `sample` when there is room. A full queue hands the sample
    /// back unchanged: the caller waits and offers it again.
    pub fn push(&mut self, sample: StereoSample) -> (r: Result<(), StereoSample>)
        requires
            old(self).wf(),
        ensures
            final(self).wf(),
            final(self).spec_capacity() == old(self).spec_capacity(),
            r is Ok == push_accepts(old(self)@, old(self).spec_capacity()),
            r is Err ==> r->Err_0 == sample,
            final(self)@ == after_push(old(self)@, old(self).spec_capacity(), sample),
    {
        ring_push(&mut self.rb, sample)
    }

    /// Removes and returns the oldest sample; never waits: an empty queue
    /// gives `None`.
    pub fn pop(&mut self) -> (r: Option<StereoSample>)
        requires
            old(self).wf(),
        ensures
            final(self).wf(),
            final(self).spec_capacity() == old(self).spec_capacity(),
            r == pop_result(old(self)@),
            final(self)@ == after_pop(old(self)@),
    {
        ring_pop(&mut self.rb)
    }

    /// Splits the queue into its writing half, for the one producer
    /// thread, and its reading half, for the realtime callback. Both start
    /// with empty histories; what each half then sees depends on the other
    /// thread, so no contract links them.
    pub fn split(self) -> (r: (SampleProducer, SampleConsumer))
        ensures
            r.0.pushed() == Seq::<StereoSample>::empty(),
            r.0.offers() == Seq::<(StereoSample, bool)>::empty(),
            r.1.polled() == Seq::<Option<StereoSample>>::empty(),
    {
        let (p, c) = ring_split(self.rb);
        (
            SampleProducer { inner: p, pushed: Ghost(Seq::empty()), offers: Ghost(Seq::empty()) },
            SampleConsumer { inner: c, polled: Ghost(Seq::empty()) },
        )
    }
}

/// The writing half of a sample queue, owned by the producer thread.
pub struct SampleProducer {
    inner: RingProducer,
    pushed: Ghost<Seq<StereoSample>>,
    offers: Ghost<Seq<(StereoSample, bool)>>,
}

impl SampleProducer {
    /// Every sample this half has handed to the queue, in order.
    pub closed spec fn pushed(&self) -> Seq<StereoSample> {
        self.pushed@
    }

    /// Every sample this half offered, in order, with whether the queue
    /// took it.
    pub closed spec fn offers(&self) -> Seq<(StereoSample, bool)> {
        self.offers@
    }

    /// Offers `sample` to the queue. A full queue hands it back unchanged:
    /// the producer waits and offers it again, so no computed sample is
    /// dropped.
    pub fn push(&mut self, sample: StereoSample) -> (r: Result<(), StereoSample>)
        ensures
            r is Ok ==> final(self).pushed() == old(self).pushed().push(sample),
            r is Err ==> r->Err_0 == sample && final(self).pushed() == old(self).pushed(),
            final(self).offers() == old(self).offers().push((sample, r is Ok)),
    {
        let r = producer_push(&mut self.inner, sample);
        self.offers = Ghost(self.offers@.push((sample, r is Ok)));
        if r.is_ok() {
            self.pushed = Ghost(self.pushed@.push(sample));
        }
        r
    }
}

/// The reading half of a sample queue, owned by the realtime callback.
pub struct SampleConsumer {
    inner: RingConsumer,
    polled: Ghost<Seq<Option<StereoSample>>>,
}

impl SampleConsumer {
    /// What each pop on this half returned, in order.
    pub closed spec fn polled(&self) -> Seq<Option<StereoSample>> {
        self.polled@
    }

    /// Takes the oldest sample, or `None` at once when the queue is empty.
    pub fn pop(&mut self) -> (r: Option<StereoSample>)
        ensures
            final(self).polled() == old(self).polled().push(r),
    {
        let r = consumer_pop(&mut self.inner);
        self.polled = Ghost(self.polled@.push(r));
        r
    }
}

} // verus!
