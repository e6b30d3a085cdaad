//! The signal graph: processing units held in a `fundsp` network, the
//! connections between them, and the node whose output is the sample of each
//! tick. Every mutation is checked first and then applied whole, and the
//! connections never form a cycle, which the network could not evaluate.
use crate::queue::{silence, StereoSample};
use fundsp::audiounit::AudioUnit64;
use fundsp::net::Net64;
use vstd::prelude::*;

verus! {

/// The handle of a node: its position in the order nodes were added.
pub type NodeId = usize;

/// A node as the graph sees it: its number of inputs, its number of
/// outputs, and the node whose outputs feed all of its inputs, if any.
pub type NodeShape = (usize, usize, Option<NodeId>);

/// Why a graph mutation was refused. A refused mutation changes nothing.
#[derive(Clone, Copy, Debug, PartialEq, Eq, Structural)]
pub enum GraphError {
    /// A node id that names no node.
    UnknownNode,
    /// The outputs of the source do not match the inputs of the target (or
    /// the graph's channels, for the output node), or the target has no
    /// inputs to connect.
    PortMismatch,
    /// The connection would close a loop.
    Cycle,
}

#[verifier::external_type_specification]
#[verifier::external_body]
pub struct ExNet64(Net64);

/// The nodes of a network, in the order they were added.
pub uninterp spec fn net_nodes(net: Net64) -> Seq<NodeShape>;

/// The number of global inputs and outputs of a network.
pub uninterp spec fn net_ports(net: Net64) -> (usize, usize);

/// Every connection between the network's own nodes is a whole-node pipe
/// recorded in `net_nodes` (inputs are otherwise unconnected or read global
/// inputs that the network has), and the unit of every node, with any network nested in it, can be
/// ordered by fundsp. Such a network can then be ordered exactly when
/// `net_nodes` has no loop.
pub uninterp spec fn net_sound(net: Net64) -> bool;

/// The node whose outputs feed the network's outputs; none while those are
/// unconnected, and then they read zero.
pub uninterp spec fn net_output_source(net: Net64) -> Option<NodeId>;

/// A network after all its units were reset at `sample_rate`.
pub uninterp spec fn net_after_reset(net: Net64, sample_rate: u32) -> Net64;

/// fundsp can reset and tick this network without meeting a loop.
pub open spec fn orderable(net: Net64) -> bool {
    net_sound(net) && acyclic(net_nodes(net))
}

/// The node reached from `n` by following sources `k` times, if the chain
/// is that long.
pub open spec fn ancestor(nodes: Seq<NodeShape>, n: NodeId, k: nat) -> Option<NodeId>
    decreases k,
{
    if k == 0 {
        Some(n)
    } else {
        match ancestor(nodes, n, (k - 1) as nat) {
            Some(m) => if m < nodes.len() {
                nodes[m as int].2
            } else {
                None
            },
            None => None,
        }
    }
}

/// Whether node `t` is `n` itself or lies upstream of it.
pub open spec fn feeds(nodes: Seq<NodeShape>, t: NodeId, n: NodeId) -> bool {
    exists|k: nat| ancestor(nodes, n, k) == Some(t)
}

/// `rank` numbers the nodes so that every source has a smaller number than
/// the node it feeds.
pub open spec fn ranked(nodes: Seq<NodeShape>, rank: Seq<nat>) -> bool {
    &&& rank.len() == nodes.len()
    &&& forall|n: int|
        #![trigger nodes[n]]
        0 <= n < nodes.len() ==> match nodes[n].2 {
            Some(p) => p < nodes.len() && rank[p as int] < rank[n],
            None => true,
        }
}

/// The connections form no loop: the nodes have a topological order.
pub open spec fn acyclic(nodes: Seq<NodeShape>) -> bool {
    exists|rank: Seq<nat>| ranked(nodes, rank)
}

/// Relies on `Net64::new`: a network with the given ports and no nodes.
#[verifier::external_body]
fn net_new(outputs: usize) -> (net: Net64)
    ensures
        net_nodes(net) == Seq::<NodeShape>::empty(),
        net_ports(net) == (0usize, outputs),
        net_sound(net),
        net_output_source(net) is None,
{
    Net64::new(0, outputs)
}

/// Relies on `AudioUnit64::inputs` of a network: its global inputs.
#[verifier::external_body]
fn net_inputs(net: &Net64) -> (r: usize)
    ensures
        r == net_ports(*net).0,
{
    net.inputs()
}

/// Relies on `AudioUnit64::outputs` of a network: its global outputs.
#[verifier::external_body]
fn net_outputs(net: &Net64) -> (r: usize)
    ensures
        r == net_ports(*net).1,
{
    net.outputs()
}

/// Relies on `Net64::push`: the unit becomes the next node, with its own
/// ports and its inputs unconnected, and its id is its position. Pushing
/// resets the unit, which orders its nodes (and those of networks nested in
/// it) and panics on a loop.
#[verifier::external_body]
fn net_push(net: &mut Net64, unit: Net64) -> (id: usize)
    requires
        orderable(unit),
    ensures
        net_sound(*final(net)) == net_sound(*old(net)),
        net_output_source(*final(net)) == net_output_source(*old(net)),
        id == net_nodes(*old(net)).len(),
        net_nodes(*final(net)) == net_nodes(*old(net)).push(
            (net_ports(unit).0, net_ports(unit).1, None),
        ),
        net_ports(*final(net)) == net_ports(*old(net)),
{
    net.push(Box::new(unit))
}

/// Relies on `Net64::pipe`: every input of `target` now reads the same-
/// numbered output of `source`. It panics unless both nodes exist and the
/// port counts match.
#[verifier::external_body]
fn net_pipe(net: &mut Net64, source: usize, target: usize)
    requires
        source < net_nodes(*old(net)).len(),
        target < net_nodes(*old(net)).len(),
        net_nodes(*old(net))[source as int].1 == net_nodes(*old(net))[target as int].0,
        net_nodes(*old(net))[target as int].0 > 0,
    ensures
        net_nodes(*final(net)) == net_nodes(*old(net)).update(
            target as int,
            (
                net_nodes(*old(net))[target as int].0,
                net_nodes(*old(net))[target as int].1,
                Some(source),
            ),
        ),
        net_ports(*final(net)) == net_ports(*old(net)),
        net_sound(*final(net)) == net_sound(*old(net)),
        net_output_source(*final(net)) == net_output_source(*old(net)),
{
    net.pipe(source, target)
}

/// Relies on `Net64::pipe_output`: the network's outputs now read the
/// node's outputs. It panics unless the node exists and has as many outputs
/// as the network.
#[verifier::external_body]
fn net_pipe_output(net: &mut Net64, node: usize)
    requires
        node < net_nodes(*old(net)).len(),
        net_nodes(*old(net))[node as int].1 == net_ports(*old(net)).1,
    ensures
        net_nodes(*final(net)) == net_nodes(*old(net)),
        net_ports(*final(net)) == net_ports(*old(net)),
        net_sound(*final(net)) == net_sound(*old(net)),
        net_output_source(*final(net)) == Some(node),
{
    net.pipe_output(node)
}

/// Relies on `AudioUnit64::reset` of a network: every unit restarts at the
/// given sample rate. It orders the nodes, and panics on a loop.
#[verifier::external_body]
fn net_reset(net: &mut Net64, sample_rate: u32)
    requires
        orderable(*old(net)),
    ensures
        *final(net) == net_after_reset(*old(net), sample_rate),
        net_nodes(*final(net)) == net_nodes(*old(net)),
        net_ports(*final(net)) == net_ports(*old(net)),
        net_sound(*final(net)) == net_sound(*old(net)),
        net_output_source(*final(net)) == net_output_source(*old(net)),
{
    net.reset(Some(sample_rate.into()))
}

/// Relies on `AudioUnit64::get_stereo` of a network: one tick, with a mono
/// output copied to both sides and unconnected outputs reading zero. What a
/// connected output gives is not a function of the network alone: a unit
/// may read a value that another thread sets. It wants no global inputs,
/// one or two outputs, and no loop.
#[verifier::external_body]
fn net_tick(net: &mut Net64) -> (r: StereoSample)
    requires
        net_ports(*old(net)).0 == 0,
        1 <= net_ports(*old(net)).1 <= 2,
        orderable(*old(net)),
    ensures
        net_output_source(*old(net)) is None ==> r == (0u64, 0u64),
        net_nodes(*final(net)) == net_nodes(*old(net)),
        net_ports(*final(net)) == net_ports(*old(net)),
        net_sound(*final(net)) == net_sound(*old(net)),
        net_output_source(*final(net)) == net_output_source(*old(net)),
        net_ports(*old(net)).1 == 1 ==> r.0 == r.1,
{
    let (left, right) = net.get_stereo();
    (left.to_bits(), right.to_bits())
}

/// Following sources one more time from `n` is following them from its
/// source.
proof fn lemma_ancestor_step(nodes: Seq<NodeShape>, n: NodeId, p: NodeId, k: nat)
    requires
        n < nodes.len(),
        nodes[n as int].2 == Some(p),
    ensures
        ancestor(nodes, n, k + 1) == ancestor(nodes, p, k),
    decreases k,
{
    assert(ancestor(nodes, n, 0) == Some(n));
    assert(ancestor(nodes, p, 0) == Some(p));
    if k > 0 {
        lemma_ancestor_step(nodes, n, p, (k - 1) as nat);
        assert(ancestor(nodes, n, k + 1) == match ancestor(nodes, n, k) {
            Some(m) => if m < nodes.len() {
                nodes[m as int].2
            } else {
                None
            },
            None => None,
        });
    } else {
        assert(ancestor(nodes, n, 1) == nodes[n as int].2);
    }
}

/// A chain that has ended stays ended.
proof fn lemma_ancestor_ended(nodes: Seq<NodeShape>, n: NodeId, j: nat, k: nat)
    requires
        ancestor(nodes, n, j) is None,
        j <= k,
    ensures
        ancestor(nodes, n, k) is None,
    decreases k - j,
{
    if j < k {
        lemma_ancestor_ended(nodes, n, j, (k - 1) as nat);
    }
}

/// For a node other than `t`, `t` feeds it exactly when `t` feeds its
/// source.
proof fn lemma_feeds_through(nodes: Seq<NodeShape>, t: NodeId, n: NodeId, p: NodeId)
    requires
        n < nodes.len(),
        n != t,
        nodes[n as int].2 == Some(p),
    ensures
        feeds(nodes, t, n) == feeds(nodes, t, p),
{
    if feeds(nodes, t, n) {
        let k = choose|k: nat| ancestor(nodes, n, k) == Some(t);
        assert(k != 0);
        lemma_ancestor_step(nodes, n, p, (k - 1) as nat);
    }
    if feeds(nodes, t, p) {
        let k = choose|k: nat| ancestor(nodes, p, k) == Some(t);
        lemma_ancestor_step(nodes, n, p, k);
    }
}

/// The ranks after `source` is connected into `target`: every node that
/// `target` feeds moves up far enough to sit above `source`.
spec fn shifted_rank(nodes: Seq<NodeShape>, rank: Seq<nat>, source: NodeId, target: NodeId) -> Seq<
    nat,
> {
    let lift: nat = if rank[source as int] + 1 > rank[target as int] {
        (rank[source as int] + 1 - rank[target as int]) as nat
    } else {
        0
    };
    Seq::new(
        nodes.len(),
        |n: int|
            if feeds(nodes, target, n as NodeId) {
                rank[n] + lift
            } else {
                rank[n]
            },
    )
}

/// Connecting `source` into `target` keeps the graph free of loops when
/// `target` does not feed `source`.
proof fn lemma_connect_acyclic(
    nodes: Seq<NodeShape>,
    rank: Seq<nat>,
    source: NodeId,
    target: NodeId,
)
    requires
        ranked(nodes, rank),
        nodes.len() <= usize::MAX,
        source < nodes.len(),
        target < nodes.len(),
        !feeds(nodes, target, source),
    ensures
        ranked(
            nodes.update(
                target as int,
                (nodes[target as int].0, nodes[target as int].1, Some(source)),
            ),
            shifted_rank(nodes, rank, source, target),
        ),
{
    let after = nodes.update(
        target as int,
        (nodes[target as int].0, nodes[target as int].1, Some(source)),
    );
    let r2 = shifted_rank(nodes, rank, source, target);
    assert(ancestor(nodes, target, 0) == Some(target));
    assert(feeds(nodes, target, target));
    assert forall|n: int| #![trigger after[n]] 0 <= n < after.len() implies match after[n].2 {
        Some(p) => p < after.len() && r2[p as int] < r2[n],
        None => true,
    } by {
        if n != target as int {
            assert(after[n] == nodes[n]);
            match nodes[n].2 {
                Some(p) => {
                    lemma_feeds_through(nodes, target, n as NodeId, p);
                },
                None => {},
            }
        }
    }
}

/// A signal graph. Its view is its nodes in the order they were added;
/// besides them it has the node whose output each tick returns, and its
/// number of output channels (one or two; a mono output is copied to both
/// sides of the stereo sample).
pub struct SignalGraph {
    net: Net64,
    nodes: Vec<NodeShape>,
    output: Option<NodeId>,
    channels: usize,
    sample_rate: Option<u32>,
    rank: Ghost<Seq<nat>>,
    ticked: Ghost<Seq<StereoSample>>,
}

impl View for SignalGraph {
    type V = Seq<NodeShape>;

    closed spec fn view(&self) -> Seq<NodeShape> {
        self.nodes@
    }
}

impl SignalGraph {
    /// The node whose output each tick returns, once one is set.
    pub closed spec fn output_node(&self) -> Option<NodeId> {
        self.output
    }

    /// The number of output channels.
    pub closed spec fn spec_channels(&self) -> usize {
        self.channels
    }

    /// The rate of the last reset; none before the first.
    pub closed spec fn spec_sample_rate(&self) -> Option<u32> {
        self.sample_rate
    }

    /// Every sample the graph's ticks returned, in order.
    pub closed spec fn ticked(&self) -> Seq<StereoSample> {
        self.ticked@
    }

    /// The fundsp network that computes the samples.
    pub closed spec fn net_state(&self) -> Net64 {
        self.net
    }

    /// The network mirrors the node table, has no global inputs and one or
    /// two outputs, its connections have no loop, and the output node
    /// exists and has as many outputs as the graph has channels.
    pub closed spec fn wf(&self) -> bool {
        &&& self.nodes@ == net_nodes(self.net)
        &&& net_ports(self.net) == (0usize, self.channels)
        &&& net_sound(self.net)
        &&& net_output_source(self.net) == self.output
        &&& 1 <= self.channels <= 2
        &&& ranked(self.nodes@, self.rank@)
        &&& self.output matches Some(o) ==> o < self.nodes@.len() && self.nodes@[o as int].1
            == self.channels
    }

    /// An empty graph with `channels` output channels.
    pub fn new(channels: usize) -> (g: SignalGraph)
        requires
            1 <= channels <= 2,
        ensures
            g.wf(),
            g@ == Seq::<NodeShape>::empty(),
            g.output_node() is None,
            g.spec_channels() == channels,
            g.spec_sample_rate() is None,
            g.ticked() == Seq::<StereoSample>::empty(),
    {
        SignalGraph {
            net: net_new(channels),
            nodes: Vec::new(),
            output: None,
            channels,
            sample_rate: None,
            rank: Ghost(Seq::empty()),
            ticked: Ghost(Seq::empty()),
        }
    }

    /// The connections of a graph never form a loop, it has one or two
    /// channels, and its output node, once set, exists and has as many
    /// outputs as the graph has channels.
    pub proof fn lemma_invariant(&self)
        requires
            self.wf(),
        ensures
            acyclic(self@),
            orderable(self.net_state()),
            net_nodes(self.net_state()) == self@,
            net_ports(self.net_state()) == (0usize, self.spec_channels()),
            1 <= self.spec_channels() <= 2,
            self.output_node() matches Some(o) ==> o < self@.len() && self@[o as int].1
                == self.spec_channels(),
    {
        assert(ranked(self.nodes@, self.rank@));
    }

    /// The graph's network, to be added as one unit of another graph.
    pub fn into_unit(self) -> (unit: Net64)
        requires
            self.wf(),
        ensures
            orderable(unit),
            net_nodes(unit) == self@,
            net_ports(unit) == (0usize, self.spec_channels()),
    {
        proof {
            self.lemma_invariant();
        }
        self.net
    }

    pub fn channels(&self) -> (r: usize)
        ensures
            r == self.spec_channels(),
    {
        self.channels
    }

    pub fn node_count(&self) -> (r: usize)
        ensures
            r == self@.len(),
    {
        self.nodes.len()
    }

    /// Adds a processing unit as the next node, with its inputs
    /// unconnected, and returns its id. The unit is a `fundsp` network that
    /// fundsp can order: another graph's `into_unit`, or one plain fundsp
    /// unit wrapped by `Net64::wrap`.
    pub fn add_node(&mut self, unit: Net64) -> (id: NodeId)
        requires
            old(self).wf(),
            orderable(unit),
        ensures
            final(self).spec_sample_rate() == old(self).spec_sample_rate(),
            final(self).ticked() == old(self).ticked(),
            final(self).wf(),
            id == old(self)@.len(),
            final(self)@ == old(self)@.push((net_ports(unit).0, net_ports(unit).1, None)),
            final(self).output_node() == old(self).output_node(),
            final(self).spec_channels() == old(self).spec_channels(),
    {
        let inputs = net_inputs(&unit);
        let outputs = net_outputs(&unit);
        let id = net_push(&mut self.net, unit);
        self.nodes.push((inputs, outputs, None));
        self.rank = Ghost(self.rank@.push(0));
        proof {
            assert forall|n: int| #![trigger self.nodes@[n]] 0 <= n < self.nodes@.len() implies match self.nodes@[n].2 {
                Some(p) => p < self.nodes@.len() && self.rank@[p as int] < self.rank@[n],
                None => true,
            } by {
                if n < old(self).nodes@.len() {
                    assert(self.nodes@[n] == old(self).nodes@[n]);
                }
            }
        }
        id
    }

    /// Whether `target` is `source` itself or lies upstream of it.
    fn feeds_exec(&self, target: NodeId, source: NodeId) -> (r: bool)
        requires
            self.wf(),
            source < self@.len(),
        ensures
            r == feeds(self@, target, source),
    {
        let mut cur = source;
        let ghost mut k: nat = 0;
        loop
            invariant
                self.wf(),
                cur < self@.len(),
                ancestor(self@, source, k) == Some(cur),
                forall|j: nat| j < k ==> #[trigger] ancestor(self@, source, j) != Some(target),
            decreases self.rank@[cur as int],
        {
            if cur == target {
                return true;
            }
            match self.nodes[cur].2 {
                Some(p) => {
                    assert(self.nodes@[cur as int].2 == Some(p));
                    cur = p;
                    proof {
                        k = k + 1;
                    }
                },
                None => {
                    proof {
                        assert(ancestor(self@, source, k + 1) is None);
                        assert forall|j: nat| ancestor(self@, source, j) != Some(target) by {
                            if j > k {
                                lemma_ancestor_ended(self@, source, k + 1, j);
                            }
                        }
                    }
                    return false;
                },
            }
        }
    }

    /// Connects every output of `source` to the same-numbered input of
    /// `target`, replacing what fed `target` before. Refused, with nothing
    /// changed, when either node is unknown, when the ports do not match,
    /// or when `target` already feeds `source`.
    pub fn connect(&mut self, source: NodeId, target: NodeId) -> (r: Result<(), GraphError>)
        requires
            old(self).wf(),
        ensures
            final(self).wf(),
            final(self).output_node() == old(self).output_node(),
            final(self).spec_channels() == old(self).spec_channels(),
            final(self).spec_sample_rate() == old(self).spec_sample_rate(),
            final(self).ticked() == old(self).ticked(),
            r is Err ==> final(self)@ == old(self)@,
            (source >= old(self)@.len() || target >= old(self)@.len()) ==> r == Err::<
                (),
                GraphError,
            >(GraphError::UnknownNode),
            source < old(self)@.len() && target < old(self)@.len() ==> {
                let nodes = old(self)@;
                if nodes[source as int].1 != nodes[target as int].0 || nodes[target as int].0
                    == 0 {
                    r == Err::<(), GraphError>(GraphError::PortMismatch)
                } else if feeds(nodes, target, source) {
                    r == Err::<(), GraphError>(GraphError::Cycle)
                } else {
                    r is Ok && final(self)@ == nodes.update(
                        target as int,
                        (nodes[target as int].0, nodes[target as int].1, Some(source)),
                    )
                }
            },
    {
        let len = self.nodes.len();
        if source >= len || target >= len {
            return Err(GraphError::UnknownNode);
        }
        let (t_inputs, t_outputs, _) = self.nodes[target];
        if self.nodes[source].1 != t_inputs || t_inputs == 0 {
            return Err(GraphError::PortMismatch);
        }
        if self.feeds_exec(target, source) {
            return Err(GraphError::Cycle);
        }
        proof {
            lemma_connect_acyclic(self.nodes@, self.rank@, source, target);
        }
        let ghost rank = shifted_rank(self.nodes@, self.rank@, source, target);
        net_pipe(&mut self.net, source, target);
        self.nodes.set(target, (t_inputs, t_outputs, Some(source)));
        self.rank = Ghost(rank);
        Ok(())
    }

    /// Makes `node` the source of each tick's sample. Refused, with nothing
    /// changed, when the node is unknown or its outputs do not match the
    /// graph's channels.
    pub fn set_output(&mut self, node: NodeId) -> (r: Result<(), GraphError>)
        requires
            old(self).wf(),
        ensures
            final(self).wf(),
            final(self)@ == old(self)@,
            final(self).spec_channels() == old(self).spec_channels(),
            final(self).spec_sample_rate() == old(self).spec_sample_rate(),
            final(self).ticked() == old(self).ticked(),
            node >= old(self)@.len() ==> r == Err::<(), GraphError>(GraphError::UnknownNode),
            node < old(self)@.len() && old(self)@[node as int].1 != old(self).spec_channels()
                ==> r == Err::<(), GraphError>(GraphError::PortMismatch),
            node < old(self)@.len() && old(self)@[node as int].1 == old(self).spec_channels()
                ==> r is Ok,
            r is Ok ==> final(self).output_node() == Some(node),
            r is Err ==> final(self).output_node() == old(self).output_node(),
    {
        if node >= self.nodes.len() {
            return Err(GraphError::UnknownNode);
        }
        if self.nodes[node].1 != self.channels {
            return Err(GraphError::PortMismatch);
        }
        net_pipe_output(&mut self.net, node);
        self.output = Some(node);
        Ok(())
    }

    /// Restarts every unit at `sample_rate`; needed before generating and
    /// whenever the rate changes. The structure is unchanged.
    pub fn reset(&mut self, sample_rate: u32)
        requires
            old(self).wf(),
        ensures
            final(self).wf(),
            final(self).net_state() == net_after_reset(old(self).net_state(), sample_rate),
            final(self).spec_sample_rate() == Some(sample_rate),
            final(self).ticked() == old(self).ticked(),
            final(self)@ == old(self)@,
            final(self).output_node() == old(self).output_node(),
            final(self).spec_channels() == old(self).spec_channels(),
    {
        proof {
            self.lemma_invariant();
        }
        net_reset(&mut self.net, sample_rate);
        self.sample_rate = Some(sample_rate);
    }

    /// Advances every unit by one frame and returns the output node's
    /// sample, silence while no output node is set. Only a graph that was
    /// reset generates. The structure is unchanged; a mono graph gives the
    /// same amplitude on both sides.
    pub fn tick(&mut self) -> (r: StereoSample)
        requires
            old(self).wf(),
            old(self).spec_sample_rate() is Some,
        ensures
            final(self).wf(),
            final(self).ticked() == old(self).ticked().push(r),
            old(self).output_node() is None ==> r == silence(),
            final(self).spec_sample_rate() == old(self).spec_sample_rate(),
            final(self)@ == old(self)@,
            final(self).output_node() == old(self).output_node(),
            final(self).spec_channels() == old(self).spec_channels(),
            old(self).spec_channels() == 1 ==> r.0 == r.1,
    {
        proof {
            self.lemma_invariant();
        }
        let r = net_tick(&mut self.net);
        self.ticked = Ghost(self.ticked@.push(r));
        r
    }
}

} // verus!
