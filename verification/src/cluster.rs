use vstd::prelude::*;
use crate::fib_spec::fib;

verus! {

/// Picks which node gets a request: calls `fastrand::usize(..len)`.
///
/// The index comes from a thread-local random generator, so nothing is
/// claimed of it beyond what holds of every outcome: it is below `len`.
/// `fastrand` panics on an empty range, hence `len > 0`.
#[verifier::external_body]
fn random_node_index(len: usize) -> (index: usize)
    requires
        len > 0,
    ensures
        index < len,
{
    fastrand::usize(..len)
}

/// A worker that answers Fibonacci requests for the cluster.
pub struct DistributedFibNode;

impl DistributedFibNode {
    /// Answers a request: the `num + 1`-th Fibonacci number.
    pub fn fibonacci(&self, num: u64) -> (result: u64)
        requires
            num <= 92,
        ensures
            result == fib((num + 1) as nat),
    {
        crate::fib64::fibonacci(num)
    }
}

/// The coordinator: the handles of the worker nodes that joined it, in the
/// order they joined. `N` is whatever handle the transport gives for a node.
pub struct DistributedFibCluster<N> {
    pub nodes: Vec<N>,
}

/// What the coordinator does with a request before any network traffic.
pub enum FibPlan {
    /// No node is available: the answer, computed here.
    Local(u64),
    /// Send `num` to the node at index `node_num` of `nodes`.
    Remote { node_num: usize, num: u64 },
}

/// The answer the coordinator gives once the chosen node has replied:
/// the node's value, or on failure the value computed locally.
pub open spec fn cluster_answer<E>(num: u64, reply: Result<u64, E>) -> int {
    match reply {
        Ok(v) => v as int,
        Err(_) => fib((num + 1) as nat) as int,
    }
}

/// The node list after the node at `node_num` replied: unchanged on
/// success; on failure that node is dropped and the others keep their order.
pub open spec fn nodes_after_reply<N, E>(nodes: Seq<N>, node_num: int, reply: Result<u64, E>) -> Seq<N> {
    match reply {
        Ok(_) => nodes,
        Err(_) => nodes.remove(node_num),
    }
}

impl<N> Default for DistributedFibCluster<N> {
    /// A coordinator with no nodes.
    fn default() -> (cluster: Self)
        ensures
            cluster.nodes@ == Seq::<N>::empty(),
    {
        DistributedFibCluster { nodes: Vec::new() }
    }
}

impl<N> DistributedFibCluster<N> {
    /// Registers a node that joined; it goes to the end of the list.
    pub fn insert_node(&mut self, node: N)
        ensures
            final(self).nodes@ == old(self).nodes@.push(node),
    {
        self.nodes.push(node);
    }

    /// Decides how to serve a request for `num`: with no node, compute the
    /// answer locally; otherwise pick a node at random and pass `num` on to
    /// it unchanged.
    pub fn plan_calculation(&self, num: u64) -> (plan: FibPlan)
        requires
            self.nodes.len() == 0 ==> num <= 92,
        ensures
            self.nodes.len() == 0 <==> plan is Local,
            plan matches FibPlan::Local(v) ==> v == fib((num + 1) as nat),
            plan matches FibPlan::Remote { node_num, num: sent } ==> node_num < self.nodes.len() && sent == num,
    {
        if self.nodes.len() == 0 {
            FibPlan::Local(crate::fib64::fibonacci(num))
        } else {
            FibPlan::Remote { node_num: random_node_index(self.nodes.len()), num }
        }
    }

    /// Completes a request for `num` that was sent to the node at
    /// `node_num`, given what came back: the node's answer is passed on;
    /// if the node failed, it is removed and the answer is computed locally.
    pub fn finish_calculation<E>(&mut self, node_num: usize, num: u64, reply: Result<u64, E>) -> (answer: u64)
        requires
            node_num < old(self).nodes.len(),
            reply is Err ==> num <= 92,
        ensures
            answer == cluster_answer(num, reply),
            final(self).nodes@ == nodes_after_reply(old(self).nodes@, node_num as int, reply),
            final(self).nodes@ == old(self).nodes@ || final(self).nodes@ == old(self).nodes@.remove(node_num as int),
            final(self).nodes.len() <= old(self).nodes.len(),
    {
        match reply {
            Ok(res) => res,
            Err(_) => {
                self.nodes.remove(node_num);
                crate::fib64::fibonacci(num)
            },
        }
    }
}

/// Whatever path a request takes (no node, a node that answers, or a node
/// that fails and is dropped), the coordinator's answer is the `num + 1`-th
/// Fibonacci number, provided that a node that answers answers correctly.
pub proof fn lemma_cluster_answers_fib<E>(num: u64, reply: Result<u64, E>)
    requires
        reply matches Ok(v) ==> v == fib((num + 1) as nat),
    ensures
        cluster_answer(num, reply) == fib((num + 1) as nat),
{
}

/// The node list after the nodes in `joins` joined, one after another, a
/// coordinator whose list was `nodes`: each join appends its node.
pub open spec fn after_joins<N>(nodes: Seq<N>, joins: Seq<N>) -> Seq<N>
    decreases joins.len(),
{
    if joins.len() == 0 {
        nodes
    } else {
        after_joins(nodes, joins.drop_last()).push(joins.last())
    }
}

/// Nodes that join keep the order in which they joined, none lost or
/// repeated: after any run of joins the list is the earlier list followed
/// by the joined nodes, and from an empty coordinator it is exactly them.
pub proof fn lemma_joins_keep_order<N>(nodes: Seq<N>, joins: Seq<N>)
    ensures
        after_joins(nodes, joins) == nodes + joins,
        after_joins(Seq::<N>::empty(), joins) == joins,
    decreases joins.len(),
{
    if joins.len() > 0 {
        lemma_joins_keep_order(nodes, joins.drop_last());
        assert(nodes + joins =~= (nodes + joins.drop_last()).push(joins.last()));
    }
    lemma_empty_joins(joins);
}

proof fn lemma_empty_joins<N>(joins: Seq<N>)
    ensures
        after_joins(Seq::<N>::empty(), joins) == joins,
    decreases joins.len(),
{
    if joins.len() > 0 {
        lemma_empty_joins(joins.drop_last());
        assert(joins =~= joins.drop_last().push(joins.last()));
    }
}

/// Serving a request never adds a node: afterwards the list is the one
/// before, or the one before without the node that was asked.
pub proof fn lemma_calculation_never_adds_nodes<N, E>(nodes: Seq<N>, node_num: int, reply: Result<u64, E>)
    requires
        0 <= node_num < nodes.len(),
    ensures
        nodes_after_reply(nodes, node_num, reply) == nodes
            || nodes_after_reply(nodes, node_num, reply) == nodes.remove(node_num),
        nodes_after_reply(nodes, node_num, reply).len() <= nodes.len(),
{
}

/// A failed node is the only one that leaves: every other node stays, in
/// the same order, and a successful reply leaves the list as it was.
pub proof fn lemma_failover_drops_only_the_failed_node<N, E>(nodes: Seq<N>, node_num: int, reply: Result<u64, E>)
    requires
        0 <= node_num < nodes.len(),
    ensures
        reply is Ok ==> nodes_after_reply(nodes, node_num, reply) == nodes,
        reply is Err ==> {
            let after = nodes_after_reply(nodes, node_num, reply);
            &&& after.len() == nodes.len() - 1
            &&& forall|j: int| 0 <= j < node_num ==> after[j] == nodes[j]
            &&& forall|j: int| node_num <= j < after.len() ==> after[j] == nodes[j + 1]
        },
{
}

} // verus!
