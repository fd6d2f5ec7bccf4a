//! Evaluating a sound graph: each node is run on the values of its inputs,
//! which come from the outputs of the nodes they are connected to, or from
//! the constants typed into them. Every output a node produces is cached,
//! and an input reads a cached output without running its node again; a
//! node whose run leaves the output an input reads uncached is run again
//! for each input that reads it.
use vstd::prelude::*;
use crate::text::same_text;

verus! {

/// A node of the graph as evaluation sees it: its kind, and its input and
/// output ports, each by name with the identifier of the port.
#[derive(Clone, Debug)]
pub struct GraphNode {
    pub kind: String,
    pub inputs: Vec<(String, usize)>,
    pub outputs: Vec<(String, usize)>,
}

/// Ports as their names' text and their identifiers.
pub open spec fn ports_view(ports: Seq<(String, usize)>) -> Seq<(Seq<char>, usize)> {
    ports.map_values(|p: (String, usize)| (p.0@, p.1))
}

impl View for GraphNode {
    type V = (Seq<char>, Seq<(Seq<char>, usize)>, Seq<(Seq<char>, usize)>);

    /// The kind's text, then the input and the output ports.
    open spec fn view(&self) -> Self::V {
        (self.kind@, ports_view(self.inputs@), ports_view(self.outputs@))
    }
}

/// A copy of the ports, name by name.
fn copy_ports(ports: &Vec<(String, usize)>) -> (r: Vec<(String, usize)>)
    ensures
        ports_view(r@) == ports_view(ports@),
{
    let mut r: Vec<(String, usize)> = Vec::new();
    let mut k: usize = 0;
    while k < ports.len()
        invariant
            k <= ports@.len(),
            r@.len() == k,
            forall|j: int| 0 <= j < k ==> (#[trigger] r@[j]).0@ == ports@[j].0@ && r@[j].1 == ports@[j].1,
        decreases ports@.len() - k,
    {
        r.push((ports[k].0.clone(), ports[k].1));
        k = k + 1;
    }
    assert(ports_view(r@) =~= ports_view(ports@));
    r
}

impl GraphNode {
    /// A copy of the node: the same kind and the same ports.
    pub fn duplicate(&self) -> (r: GraphNode)
        ensures
            r@ == self@,
    {
        GraphNode { kind: self.kind.clone(), inputs: copy_ports(&self.inputs), outputs: copy_ports(&self.outputs) }
    }
}

/// The graph: the nodes by identifier (none for an identifier no longer in
/// use), and for each input port its typed-in value (none for an identifier
/// no longer in use) and the output port it is connected to, if any, and for
/// each output port the node it belongs to.
pub struct GraphModel<V> {
    pub nodes: Vec<Option<GraphNode>>,
    pub inputs: Vec<Option<V>>,
    pub connections: Vec<Option<usize>>,
    pub output_nodes: Vec<usize>,
}

/// Why a node could not be evaluated.
#[derive(Debug)]
pub enum EvalError<E> {
    /// The node identifier is not in the graph.
    NodeMissing,
    /// The node's kind is not among the known kinds.
    UnknownKind,
    /// Running the node failed.
    Failed(E),
    /// The node produced no output named `out`.
    NoOutput,
}

/// A kind of node: its name, and the names of the inputs a node of this
/// kind reads, in the order they are read.
pub struct NodeDefinition {
    pub name: String,
    pub inputs: Vec<String>,
}

/// The position of the first definition named `name`, if any.
pub open spec fn definition_index(definitions: Seq<NodeDefinition>, name: Seq<char>) -> Option<usize>
    decreases definitions.len(),
{
    if definitions.len() == 0 {
        None
    } else {
        match definition_index(definitions.drop_last(), name) {
            Some(d) => Some(d),
            None => if definitions.last().name@ == name {
                Some((definitions.len() - 1) as usize)
            } else {
                None
            },
        }
    }
}

/// A found definition index is a position of the definitions.
proof fn lemma_definition_index_in_range(definitions: Seq<NodeDefinition>, name: Seq<char>)
    ensures
        definition_index(definitions, name) matches Some(d) ==> 0 <= d < definitions.len(),
    decreases definitions.len(),
{
    if definitions.len() > 0 {
        lemma_definition_index_in_range(definitions.drop_last(), name);
    }
}

/// The position of the first definition named `name`, if any.
pub fn find_definition(definitions: &Vec<NodeDefinition>, name: &str) -> (r: Option<usize>)
    ensures
        r matches Some(d) ==> definition_index(definitions@, name@) == Some(d),
        r is None ==> definition_index(definitions@, name@) is None,
{
    let mut found: Option<usize> = None;
    let mut k: usize = 0;
    assert(definitions@.subrange(0, 0) =~= Seq::<NodeDefinition>::empty());
    while k < definitions.len()
        invariant
            k <= definitions@.len(),
            found matches Some(d) ==> definition_index(definitions@.subrange(0, k as int), name@) == Some(d),
            found is None ==> definition_index(definitions@.subrange(0, k as int), name@) is None,
        decreases definitions@.len() - k,
    {
        assert(definitions@.subrange(0, k + 1).drop_last() =~= definitions@.subrange(0, k as int));
        if found.is_none() && same_text(definitions[k].name.as_str(), name) {
            found = Some(k);
        }
        k = k + 1;
    }
    assert(definitions@.subrange(0, definitions@.len() as int) =~= definitions@);
    found
}

/// The identifier of the first port named `name`, if any.
pub open spec fn first_port(ports: Seq<(String, usize)>, name: Seq<char>) -> Option<usize>
    decreases ports.len(),
{
    if ports.len() == 0 {
        None
    } else if ports[0].0@ == name {
        Some(ports[0].1)
    } else {
        first_port(ports.drop_first(), name)
    }
}

/// A port found by `first_port` is one of the ports.
pub proof fn lemma_first_port_is_a_port(ports: Seq<(String, usize)>, name: Seq<char>)
    ensures
        first_port(ports, name) matches Some(id) ==> exists|k: int|
            0 <= k < ports.len() && (#[trigger] ports[k]).1 == id && ports[k].0@ == name,
    decreases ports.len(),
{
    if ports.len() > 0 && ports[0].0@ != name {
        lemma_first_port_is_a_port(ports.drop_first(), name);
        if let Some(id) = first_port(ports, name) {
            let k = choose|k: int| 0 <= k < ports.drop_first().len() && (#[trigger] ports.drop_first()[k]).1 == id
                && ports.drop_first()[k].0@ == name;
            assert(ports[k + 1] == ports.drop_first()[k]);
        }
    }
}

/// The identifier of the first port named `name`.
pub fn find_port(ports: &Vec<(String, usize)>, name: &str) -> (r: Option<usize>)
    ensures
        r == first_port(ports@, name@),
{
    let mut k: usize = 0;
    assert(ports@.subrange(0, ports@.len() as int) =~= ports@);
    while k < ports.len()
        invariant
            k <= ports@.len(),
            first_port(ports@, name@) == first_port(ports@.subrange(k as int, ports@.len() as int), name@),
        decreases ports@.len() - k,
    {
        let ghost rest = ports@.subrange(k as int, ports@.len() as int);
        assert(rest.drop_first() =~= ports@.subrange(k + 1, ports@.len() as int));
        if same_text(ports[k].0.as_str(), name) {
            return Some(ports[k].1);
        }
        k = k + 1;
    }
    None
}

impl<V> GraphModel<V> {
    /// The node with identifier `n`, if the graph has it.
    pub open spec fn node_at(self, n: int) -> Option<GraphNode> {
        if 0 <= n < self.nodes@.len() {
            self.nodes@[n]
        } else {
            None
        }
    }

    /// Every port identifier the graph mentions exists.
    pub open spec fn wf(self) -> bool {
        &&& self.connections@.len() == self.inputs@.len()
        &&& forall|i: int|
            0 <= i < self.connections@.len() ==> (#[trigger] self.connections@[i] matches Some(o) ==> o
                < self.output_nodes@.len())
        &&& forall|o: int| 0 <= o < self.output_nodes@.len() ==> #[trigger] self.output_nodes@[o] < self.nodes@.len()
        &&& forall|n: int, k: int|
            #![trigger self.nodes@[n], self.nodes@[n]->0.inputs@[k]]
            0 <= n < self.nodes@.len() && self.nodes@[n] is Some && 0 <= k < self.nodes@[n]->0.inputs@.len()
                ==> self.nodes@[n]->0.inputs@[k].1 < self.inputs@.len()
        &&& forall|n: int, k: int|
            #![trigger self.nodes@[n], self.nodes@[n]->0.outputs@[k]]
            0 <= n < self.nodes@.len() && self.nodes@[n] is Some && 0 <= k < self.nodes@[n]->0.outputs@.len()
                ==> self.nodes@[n]->0.outputs@[k].1 < self.output_nodes@.len()
    }

    /// `rank` orders the nodes so that every connection runs from a node of
    /// lower rank into a node of higher rank.
    pub open spec fn ranked(self, rank: Seq<nat>) -> bool {
        &&& rank.len() == self.nodes@.len()
        &&& forall|n: int, k: int|
            #![trigger self.nodes@[n], self.nodes@[n]->0.inputs@[k]]
            0 <= n < self.nodes@.len() && self.nodes@[n] is Some && 0 <= k < self.nodes@[n]->0.inputs@.len()
                ==> (self.connections@[self.nodes@[n]->0.inputs@[k].1 as int] matches Some(o) ==> rank[
                self.output_nodes@[o as int] as int] < rank[n])
    }

    /// The connections form no cycle.
    pub open spec fn acyclic(self) -> bool {
        exists|rank: Seq<nat>| self.ranked(rank)
    }
}

/// Stores `value` as the output named `name` of node `node_id`, when the
/// node exists and has such an output.
pub fn populate_output<V>(graph: &GraphModel<V>, cache: &mut Vec<Option<V>>, node_id: usize, name: &str, value: V)
    requires
        graph.wf(),
        old(cache)@.len() == graph.output_nodes@.len(),
    ensures
        final(cache)@.len() == old(cache)@.len(),
        final(cache)@ == (match graph.node_at(node_id as int) {
            Some(node) => match first_port(node.outputs@, name@) {
                Some(o) => old(cache)@.update(o as int, Some(value)),
                None => old(cache)@,
            },
            None => old(cache)@,
        }),
{
    if node_id >= graph.nodes.len() {
        return;
    }
    match &graph.nodes[node_id] {
        Some(node) => match find_port(&node.outputs, name) {
            Some(o) => {
                proof {
                    lemma_first_port_is_a_port(node.outputs@, name@);
                }
                cache.set(o, Some(value));
            },
            None => {},
        },
        None => {},
    }
}

/// The value of the last entry named `name`, if any.
pub open spec fn last_named<V>(entries: Seq<(String, V)>, name: Seq<char>) -> Option<V>
    decreases entries.len(),
{
    if entries.len() == 0 {
        None
    } else if entries.last().0@ == name {
        Some(entries.last().1)
    } else {
        last_named(entries.drop_last(), name)
    }
}

/// The cache after the named `outputs` of node `node_id` have been stored
/// one after the other, each under the node's output port of that name
/// (an output the node has no port for is dropped).
pub open spec fn stored_outputs<V>(
    graph: GraphModel<V>,
    node_id: int,
    cache: Seq<Option<V>>,
    outputs: Seq<(String, V)>,
) -> Seq<Option<V>>
    decreases outputs.len(),
{
    if outputs.len() == 0 {
        cache
    } else {
        let before = stored_outputs(graph, node_id, cache, outputs.drop_last());
        match graph.node_at(node_id) {
            Some(node) => match first_port(node.outputs@, outputs.last().0@) {
                Some(o) => before.update(o as int, Some(outputs.last().1)),
                None => before,
            },
            None => before,
        }
    }
}

/// Storing outputs leaves the cache as long as it was.
proof fn lemma_stored_outputs_len<V>(graph: GraphModel<V>, node_id: int, cache: Seq<Option<V>>, outputs: Seq<(String, V)>)
    requires
        graph.wf(),
        cache.len() == graph.output_nodes@.len(),
    ensures
        stored_outputs(graph, node_id, cache, outputs).len() == cache.len(),
    decreases outputs.len(),
{
    if outputs.len() > 0 {
        lemma_stored_outputs_len(graph, node_id, cache, outputs.drop_last());
        if let Some(node) = graph.node_at(node_id) {
            lemma_first_port_is_a_port(node.outputs@, outputs.last().0@);
        }
    }
}

/// Once an output named `out` has been stored, the node's `out` port holds
/// a value.
proof fn lemma_out_stored<V>(graph: GraphModel<V>, node_id: int, cache: Seq<Option<V>>, outputs: Seq<(String, V)>)
    requires
        graph.wf(),
        cache.len() == graph.output_nodes@.len(),
        graph.node_at(node_id) is Some,
        last_named(outputs, "out"@) is Some,
    ensures
        first_port(graph.node_at(node_id)->0.outputs@, "out"@) matches Some(o) ==> stored_outputs(
            graph,
            node_id,
            cache,
            outputs,
        )[o as int] is Some,
    decreases outputs.len(),
{
    let node = graph.node_at(node_id)->0;
    lemma_first_port_is_a_port(node.outputs@, "out"@);
    lemma_first_port_is_a_port(node.outputs@, outputs.last().0@);
    lemma_stored_outputs_len(graph, node_id, cache, outputs.drop_last());
    if outputs.last().0@ != "out"@ {
        lemma_out_stored(graph, node_id, cache, outputs.drop_last());
    }
}

/// Stores the named `outputs` that node `node_id` produced in the cache, in
/// order, and gives a copy of the one named `out` (the last such, if the
/// node named several).
pub fn store_outputs<V: Clone>(
    graph: &GraphModel<V>,
    cache: &mut Vec<Option<V>>,
    node_id: usize,
    outputs: Vec<(String, V)>,
) -> (r: Option<V>)
    requires
        graph.wf(),
        old(cache)@.len() == graph.output_nodes@.len(),
    ensures
        final(cache)@.len() == old(cache)@.len(),
        final(cache)@ == stored_outputs(*graph, node_id as int, old(cache)@, outputs@),
        match last_named(outputs@, "out"@) {
            Some(v) => r matches Some(w) && cloned(v, w),
            None => r is None,
        },
{
    let ghost all = outputs@;
    let mut rest = outputs;
    let mut out: Option<V> = None;
    let ghost start = cache@;
    let ghost mut j: int = 0;
    assert(all.subrange(0, 0) =~= Seq::<(String, V)>::empty());
    assert(all.subrange(0, all.len() as int) =~= all);
    while rest.len() > 0
        invariant
            graph.wf(),
            cache@.len() == graph.output_nodes@.len(),
            0 <= j <= all.len(),
            rest@ =~= all.subrange(j, all.len() as int),
            cache@ == stored_outputs(*graph, node_id as int, start, all.subrange(0, j)),
            match last_named(all.subrange(0, j), "out"@) {
                Some(v) => out matches Some(w) && cloned(v, w),
                None => out is None,
            },
        decreases rest@.len(),
    {
        let (name, value) = rest.remove(0);
        proof {
            assert(all.subrange(0, j + 1).drop_last() =~= all.subrange(0, j));
            assert(all.subrange(0, j + 1).last() == all[j]);
        }
        if same_text(name.as_str(), "out") {
            out = Some(value.clone());
        }
        populate_output(graph, cache, node_id, name.as_str(), value);
        proof {
            j = j + 1;
        }
    }
    out
}

impl<V> GraphModel<V> {
    /// A ranking of the nodes that shows the graph has no cycle (any one
    /// will do, when there is one).
    pub open spec fn eval_rank(self) -> Seq<nat> {
        choose|rank: Seq<nat>| self.ranked(rank)
    }
}

/// What running a node gave, and what evaluation then does with it: a
/// failed run fails the evaluation and stores nothing; the outputs of a
/// successful run are stored one after the other (from the cache `mid` that
/// the inputs' evaluation left), and the evaluation gives a copy of the last
/// one named `out`, or fails with `NoOutput` when there is none.
pub open spec fn run_outcome<V: Clone, E>(
    graph: GraphModel<V>,
    node_id: int,
    mid: Seq<Option<V>>,
    ran: Result<Vec<(String, V)>, E>,
    after: Seq<Option<V>>,
    r: Result<V, EvalError<E>>,
) -> bool {
    match ran {
        Err(e) => r == Err::<V, EvalError<E>>(EvalError::Failed(e)) && after == mid,
        Ok(outputs) => {
            &&& after == stored_outputs(graph, node_id, mid, outputs@)
            &&& match last_named(outputs@, "out"@) {
                Some(w) => r matches Ok(v) && cloned(w, v),
                None => r == Err::<V, EvalError<E>>(EvalError::NoOutput),
            }
        },
    }
}

/// What evaluating node `node_id` does, from cache `before` to cache
/// `after`, giving `r`: for a node the graph lacks, `NodeMissing`; for a
/// node whose kind has no definition, `UnknownKind`; both leave the cache as
/// it was. Otherwise the inputs named by the kind's (first) definition are
/// evaluated in order, each from the cache the one before left, and the run
/// is handed the definition's position and exactly those names with those
/// values; `run_outcome` then says what follows from what the run gave.
pub open spec fn node_eval<V: Clone, E, F: Fn(usize, Vec<(String, V)>) -> Result<Vec<(String, V)>, E>>(
    graph: GraphModel<V>,
    definitions: Seq<NodeDefinition>,
    run: F,
    rank: Seq<nat>,
    node_id: int,
    before: Seq<Option<V>>,
    after: Seq<Option<V>>,
    fallback: V,
    r: Result<V, EvalError<E>>,
) -> bool
    decreases (if 0 <= node_id < rank.len() { rank[node_id] } else { 0 }), 2nat,
{
    match graph.node_at(node_id) {
        None => r == Err::<V, EvalError<E>>(EvalError::NodeMissing) && after == before,
        Some(node) => match definition_index(definitions, node.kind@) {
            None => r == Err::<V, EvalError<E>>(EvalError::UnknownKind) && after == before,
            Some(d) => exists|caches: Seq<Seq<Option<V>>>, inputs: Vec<(String, V)>, ran: Result<Vec<(String, V)>, E>|
                #![trigger caches[0], call_ensures(run, (d, inputs), ran)]
                {
                    &&& caches.len() >= 1
                    &&& caches[0] == before
                    &&& inputs_evaluated(
                        graph,
                        definitions,
                        run,
                        rank,
                        node_id,
                        definitions[d as int].inputs@,
                        caches,
                        inputs@,
                        fallback,
                    )
                    &&& call_ensures(run, (d, inputs), ran)
                    &&& run_outcome(graph, node_id, caches.last(), ran, after, r)
                },
        },
    }
}

/// The result of evaluating the node upstream of an input: the input
/// itself uses only what that evaluation left in the cache.
pub open spec fn upstream_result<V, E>(r: Result<V, EvalError<E>>) -> Result<V, EvalError<E>> {
    r
}

/// A connected input reads its own port: whatever evaluating it had to run
/// upstream, the value it gives is a copy of what the output it is
/// connected to then holds (the fallback when that output holds nothing),
/// not whatever the upstream node gave as its `out`.
pub proof fn lemma_connected_input_reads_its_port<V: Clone, E, F: Fn(usize, Vec<(String, V)>) -> Result<Vec<(String, V)>, E>>(
    graph: GraphModel<V>,
    definitions: Seq<NodeDefinition>,
    run: F,
    rank: Seq<nat>,
    node_id: int,
    name: Seq<char>,
    before: Seq<Option<V>>,
    after: Seq<Option<V>>,
    fallback: V,
    r: V,
    i: usize,
    o: usize,
)
    requires
        input_value(graph, definitions, run, rank, node_id, name, before, after, fallback, r),
        graph.node_at(node_id) matches Some(node) && first_port(node.inputs@, name) == Some(i),
        graph.connections@[i as int] == Some(o),
    ensures
        match after[o as int] {
            Some(v) => cloned(v, r),
            None => cloned(fallback, r),
        },
{
}

/// The inputs `names` of node `node_id` evaluated in order: `caches[k]` is
/// the cache before input `k` and `caches[k + 1]` the cache after it, and
/// entry `k` of `inputs` is input `k`'s name with the value its evaluation
/// gave.
pub open spec fn inputs_evaluated<V: Clone, E, F: Fn(usize, Vec<(String, V)>) -> Result<Vec<(String, V)>, E>>(
    graph: GraphModel<V>,
    definitions: Seq<NodeDefinition>,
    run: F,
    rank: Seq<nat>,
    node_id: int,
    names: Seq<String>,
    caches: Seq<Seq<Option<V>>>,
    inputs: Seq<(String, V)>,
    fallback: V,
) -> bool
    decreases (if 0 <= node_id < rank.len() { rank[node_id] } else { 0 }), 1nat,
{
    &&& caches.len() == names.len() + 1
    &&& inputs.len() == names.len()
    &&& forall|k: int|
        #![trigger names[k]]
        0 <= k < names.len() ==> inputs[k].0@ == names[k]@ && input_value(
            graph,
            definitions,
            run,
            rank,
            node_id,
            names[k]@,
            caches[k],
            caches[k + 1],
            fallback,
            inputs[k].1,
        )
}

/// What evaluating input `name` of node `node_id` gives, from cache `before`
/// to cache `after`: the fallback when the node or the input does not
/// exist; for an unconnected input, its typed-in value, or the fallback when
/// it has none; for an input connected to an output that is cached, that
/// value; for one that is not, the output's node is evaluated (as
/// `node_eval` says, from `before` to `after`) and the input gives the value
/// the output then holds, or the fallback when it still holds none. Only
/// that evaluation changes the cache. Values given are clones.
pub open spec fn input_value<V: Clone, E, F: Fn(usize, Vec<(String, V)>) -> Result<Vec<(String, V)>, E>>(
    graph: GraphModel<V>,
    definitions: Seq<NodeDefinition>,
    run: F,
    rank: Seq<nat>,
    node_id: int,
    name: Seq<char>,
    before: Seq<Option<V>>,
    after: Seq<Option<V>>,
    fallback: V,
    r: V,
) -> bool
    decreases (if 0 <= node_id < rank.len() { rank[node_id] } else { 0 }), 0nat,
{
    if graph.ranked(rank) {
        match graph.node_at(node_id) {
            None => cloned(fallback, r) && after == before,
            Some(node) => match first_port(node.inputs@, name) {
                None => cloned(fallback, r) && after == before,
                Some(i) => match graph.connections@[i as int] {
                    None => after == before && match graph.inputs@[i as int] {
                        Some(v) => cloned(v, r),
                        None => cloned(fallback, r),
                    },
                    Some(o) => match before[o as int] {
                        Some(v) => cloned(v, r) && after == before,
                        None => {
                            &&& exists|upstream: Result<V, EvalError<E>>|
                                #![trigger upstream_result(upstream)]
                                {
                                    proof {
                                        lemma_first_port_is_a_port(node.inputs@, name);
                                        let k = choose|k: int|
                                            0 <= k < node.inputs@.len() && (#[trigger] node.inputs@[k]).1 == i
                                                && node.inputs@[k].0@ == name;
                                        assert(graph.nodes@[node_id] is Some && graph.nodes@[node_id]->0.inputs@[k].1 == i);
                                    }
                                    node_eval(
                                        graph,
                                        definitions,
                                        run,
                                        rank,
                                        graph.output_nodes@[o as int] as int,
                                        before,
                                        after,
                                        fallback,
                                        upstream_result(upstream),
                                    )
                                }
                            &&& match after[o as int] {
                                Some(v) => cloned(v, r),
                                None => cloned(fallback, r),
                            }
                        },
                    },
                },
            },
        }
    } else {
        false
    }
}

fn evaluate_input_ranked<V: Clone, E, F: Fn(usize, Vec<(String, V)>) -> Result<Vec<(String, V)>, E>>(
    graph: &GraphModel<V>,
    definitions: &Vec<NodeDefinition>,
    run: &F,
    node_id: usize,
    name: &str,
    cache: &mut Vec<Option<V>>,
    fallback: &V,
    Ghost(rank): Ghost<Seq<nat>>,
) -> (r: V)
    requires
        graph.wf(),
        graph.ranked(rank),
        old(cache)@.len() == graph.output_nodes@.len(),
        forall|d: usize, inputs: Vec<(String, V)>| run.requires((d, inputs)),
    ensures
        final(cache)@.len() == old(cache)@.len(),
        input_value(*graph, definitions@, *run, rank, node_id as int, name@, old(cache)@, final(cache)@, *fallback, r),
        graph.node_at(node_id as int) matches Some(node) ==> (first_port(node.inputs@, name@) matches Some(i) ==> (
        graph.connections@[i as int] matches Some(o) ==> match final(cache)@[o as int] {
            Some(v) => cloned(v, r),
            None => cloned(*fallback, r),
        })),
    decreases (if node_id < rank.len() { rank[node_id as int] } else { 0 }), 0nat,
{
    if node_id >= graph.nodes.len() {
        return fallback.clone();
    }
    let node = match &graph.nodes[node_id] {
        Some(node) => node,
        None => {
            return fallback.clone();
        },
    };
    let input_id = match find_port(&node.inputs, name) {
        Some(i) => i,
        None => {
            return fallback.clone();
        },
    };
    proof {
        lemma_first_port_is_a_port(node.inputs@, name@);
    }
    match graph.connections[input_id] {
        Some(o) => {
            match &cache[o] {
                Some(v) => v.clone(),
                None => {
                    let owner = graph.output_nodes[o];
                    let ghost before = cache@;
                    let upstream = evaluate_node_ranked(graph, definitions, run, owner, cache, fallback, Ghost(rank));
                    proof {
                        assert(node_eval(*graph, definitions@, *run, rank, owner as int, before, cache@, *fallback, upstream_result(upstream)));
                    }
                    match &cache[o] {
                        Some(v) => v.clone(),
                        None => fallback.clone(),
                    }
                },
            }
        },
        None => match &graph.inputs[input_id] {
            Some(v) => v.clone(),
            None => fallback.clone(),
        },
    }
}

fn evaluate_inputs_ranked<V: Clone, E, F: Fn(usize, Vec<(String, V)>) -> Result<Vec<(String, V)>, E>>(
    graph: &GraphModel<V>,
    definitions: &Vec<NodeDefinition>,
    run: &F,
    node_id: usize,
    names: &Vec<String>,
    cache: &mut Vec<Option<V>>,
    fallback: &V,
    Ghost(rank): Ghost<Seq<nat>>,
) -> (r: Vec<(String, V)>)
    requires
        graph.wf(),
        graph.ranked(rank),
        old(cache)@.len() == graph.output_nodes@.len(),
        forall|d: usize, inputs: Vec<(String, V)>| run.requires((d, inputs)),
    ensures
        final(cache)@.len() == old(cache)@.len(),
        exists|caches: Seq<Seq<Option<V>>>|
            {
                &&& caches.len() >= 1
                &&& caches[0] == old(cache)@
                &&& caches.last() == final(cache)@
                &&& #[trigger] inputs_evaluated(
                    *graph,
                    definitions@,
                    *run,
                    rank,
                    node_id as int,
                    names@,
                    caches,
                    r@,
                    *fallback,
                )
            },
    decreases (if node_id < rank.len() { rank[node_id as int] } else { 0 }), 1nat,
{
    let mut inputs: Vec<(String, V)> = Vec::new();
    let ghost mut caches: Seq<Seq<Option<V>>> = seq![cache@];
    let mut k: usize = 0;
    while k < names.len()
        invariant
            graph.wf(),
            graph.ranked(rank),
            cache@.len() == graph.output_nodes@.len(),
            forall|d: usize, inputs: Vec<(String, V)>| run.requires((d, inputs)),
            k <= names@.len(),
            caches.len() == k + 1,
            caches[0] == old(cache)@,
            caches.last() == cache@,
            inputs@.len() == k,
            forall|j: int|
                #![trigger names@[j]]
                0 <= j < k ==> inputs@[j].0@ == names@[j]@ && input_value(
                    *graph,
                    definitions@,
                    *run,
                    rank,
                    node_id as int,
                    names@[j]@,
                    caches[j],
                    caches[j + 1],
                    *fallback,
                    inputs@[j].1,
                ),
        decreases names@.len() - k,
    {
        let value = evaluate_input_ranked(graph, definitions, run, node_id, names[k].as_str(), cache, fallback, Ghost(rank));
        inputs.push((names[k].clone(), value));
        proof {
            caches = caches.push(cache@);
        }
        k = k + 1;
    }
    proof {
        assert(inputs_evaluated(*graph, definitions@, *run, rank, node_id as int, names@, caches, inputs@, *fallback));
    }
    inputs
}

fn evaluate_node_ranked<V: Clone, E, F: Fn(usize, Vec<(String, V)>) -> Result<Vec<(String, V)>, E>>(
    graph: &GraphModel<V>,
    definitions: &Vec<NodeDefinition>,
    run: &F,
    node_id: usize,
    cache: &mut Vec<Option<V>>,
    fallback: &V,
    Ghost(rank): Ghost<Seq<nat>>,
) -> (r: Result<V, EvalError<E>>)
    requires
        graph.wf(),
        graph.ranked(rank),
        old(cache)@.len() == graph.output_nodes@.len(),
        forall|d: usize, inputs: Vec<(String, V)>| run.requires((d, inputs)),
    ensures
        final(cache)@.len() == old(cache)@.len(),
        node_eval(*graph, definitions@, *run, rank, node_id as int, old(cache)@, final(cache)@, *fallback, r),
        r is Ok ==> (first_port(graph.node_at(node_id as int)->0.outputs@, "out"@) matches Some(o) ==> final(cache)@[o as int] is Some),
    decreases (if node_id < rank.len() { rank[node_id as int] } else { 0 }), 2nat,
{
    if node_id >= graph.nodes.len() {
        return Err(EvalError::NodeMissing);
    }
    let node = match &graph.nodes[node_id] {
        Some(node) => node,
        None => {
            return Err(EvalError::NodeMissing);
        },
    };
    let d = match find_definition(definitions, node.kind.as_str()) {
        Some(d) => d,
        None => {
            return Err(EvalError::UnknownKind);
        },
    };
    proof {
        lemma_definition_index_in_range(definitions@, node.kind@);
    }
    let inputs = evaluate_inputs_ranked(graph, definitions, run, node_id, &definitions[d].inputs, cache, fallback, Ghost(rank));
    let ghost given = inputs;
    let ghost mid = cache@;
    let ran = run(d, inputs);
    let ghost ran_seen = ran;
    let r = match ran {
        Ok(outputs) => {
            let ghost produced = outputs@;
            let out = store_outputs(graph, cache, node_id, outputs);
            proof {
                if out is Some {
                    lemma_out_stored(*graph, node_id as int, mid, produced);
                }
            }
            match out {
                Some(v) => Ok(v),
                None => Err(EvalError::NoOutput),
            }
        },
        Err(e) => Err(EvalError::Failed(e)),
    };
    proof {
        let caches = choose|caches: Seq<Seq<Option<V>>>|
            {
                &&& caches.len() >= 1
                &&& caches[0] == old(cache)@
                &&& caches.last() == mid
                &&& #[trigger] inputs_evaluated(
                    *graph,
                    definitions@,
                    *run,
                    rank,
                    node_id as int,
                    definitions@[d as int].inputs@,
                    caches,
                    given@,
                    *fallback,
                )
            };
        assert(caches[0] == old(cache)@ && call_ensures(*run, (d, given), ran_seen));
        assert(node_eval(*graph, definitions@, *run, rank, node_id as int, old(cache)@, cache@, *fallback, r));
    }
    r
}

/// Evaluates input `name` of node `node_id`, running whatever nodes upstream
/// have not been run yet; see [`input_value`] for what it gives.
pub fn evaluate_input<V: Clone, E, F: Fn(usize, Vec<(String, V)>) -> Result<Vec<(String, V)>, E>>(
    graph: &GraphModel<V>,
    node_id: usize,
    name: &str,
    cache: &mut Vec<Option<V>>,
    definitions: &Vec<NodeDefinition>,
    run: &F,
    fallback: &V,
) -> (r: V)
    requires
        graph.wf(),
        graph.acyclic(),
        old(cache)@.len() == graph.output_nodes@.len(),
        forall|d: usize, inputs: Vec<(String, V)>| run.requires((d, inputs)),
    ensures
        final(cache)@.len() == old(cache)@.len(),
        input_value(*graph, definitions@, *run, graph.eval_rank(), node_id as int, name@, old(cache)@, final(cache)@, *fallback, r),
        graph.node_at(node_id as int) matches Some(node) ==> (first_port(node.inputs@, name@) matches Some(i) ==> (
        graph.connections@[i as int] matches Some(o) ==> match final(cache)@[o as int] {
            Some(v) => cloned(v, r),
            None => cloned(*fallback, r),
        })),
{
    evaluate_input_ranked(graph, definitions, run, node_id, name, cache, fallback, Ghost(graph.eval_rank()))
}

/// Evaluates the inputs `names` of node `node_id` in order, running whatever
/// nodes upstream have not been run yet, and gives each name with its
/// value: what a node of that kind is run on.
pub fn evaluate_inputs<V: Clone, E, F: Fn(usize, Vec<(String, V)>) -> Result<Vec<(String, V)>, E>>(
    graph: &GraphModel<V>,
    node_id: usize,
    names: &Vec<String>,
    cache: &mut Vec<Option<V>>,
    definitions: &Vec<NodeDefinition>,
    run: &F,
    fallback: &V,
) -> (r: Vec<(String, V)>)
    requires
        graph.wf(),
        graph.acyclic(),
        old(cache)@.len() == graph.output_nodes@.len(),
        forall|d: usize, inputs: Vec<(String, V)>| run.requires((d, inputs)),
    ensures
        final(cache)@.len() == old(cache)@.len(),
        exists|caches: Seq<Seq<Option<V>>>|
            {
                &&& caches.len() >= 1
                &&& caches[0] == old(cache)@
                &&& caches.last() == final(cache)@
                &&& #[trigger] inputs_evaluated(
                    *graph,
                    definitions@,
                    *run,
                    graph.eval_rank(),
                    node_id as int,
                    names@,
                    caches,
                    r@,
                    *fallback,
                )
            },
{
    evaluate_inputs_ranked(graph, definitions, run, node_id, names, cache, fallback, Ghost(graph.eval_rank()))
}

/// Evaluates node `node_id`: finds its kind's definition, evaluates the
/// inputs the definition names (running whatever nodes upstream have not
/// been run yet), runs the node on them with `run`, caches every output the
/// run produced, and gives the output named `out`; see [`node_eval`].
pub fn evaluate_node<V: Clone, E, F: Fn(usize, Vec<(String, V)>) -> Result<Vec<(String, V)>, E>>(
    graph: &GraphModel<V>,
    node_id: usize,
    cache: &mut Vec<Option<V>>,
    definitions: &Vec<NodeDefinition>,
    run: &F,
    fallback: &V,
) -> (r: Result<V, EvalError<E>>)
    requires
        graph.wf(),
        graph.acyclic(),
        old(cache)@.len() == graph.output_nodes@.len(),
        forall|d: usize, inputs: Vec<(String, V)>| run.requires((d, inputs)),
    ensures
        final(cache)@.len() == old(cache)@.len(),
        (r matches Err(EvalError::NodeMissing)) <==> graph.node_at(node_id as int) is None,
        node_eval(*graph, definitions@, *run, graph.eval_rank(), node_id as int, old(cache)@, final(cache)@, *fallback, r),
        r is Ok ==> (first_port(graph.node_at(node_id as int)->0.outputs@, "out"@) matches Some(o) ==> final(cache)@[o as int] is Some),
{
    evaluate_node_ranked(graph, definitions, run, node_id, cache, fallback, Ghost(graph.eval_rank()))
}

} // verus!
