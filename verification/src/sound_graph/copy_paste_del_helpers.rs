//! Copying selected nodes of the editor's graph, and pasting them back in:
//! what a copy takes from the graph, and which connections a paste restores
//! between the new nodes.
use vstd::prelude::*;
use crate::sound_graph::evaluate::GraphNode;
use crate::text::same_text;

verus! {

/// `s` without its repeats: each element where it first occurs, in order.
pub open spec fn unique<T>(s: Seq<T>) -> Seq<T>
    decreases s.len(),
{
    if s.len() == 0 {
        s
    } else {
        let before = unique(s.drop_last());
        if before.contains(s.last()) {
            before
        } else {
            before.push(s.last())
        }
    }
}

/// Dropping repeats keeps every element and leaves no element twice.
pub proof fn lemma_unique_keeps_each_once<T>(s: Seq<T>)
    ensures
        unique(s).no_duplicates(),
        forall|x: T| #[trigger] unique(s).contains(x) <==> s.contains(x),
    decreases s.len(),
{
    if s.len() > 0 {
        let rest = s.drop_last();
        lemma_unique_keeps_each_once(rest);
        assert forall|x: T| #[trigger] s.contains(x) <==> rest.contains(x) || x == s.last() by {
            if s.contains(x) && x != s.last() {
                let i = choose|i: int| 0 <= i < s.len() && s[i] == x;
                assert(rest[i] == x);
            }
            if rest.contains(x) {
                let i = choose|i: int| 0 <= i < rest.len() && rest[i] == x;
                assert(s[i] == x);
            }
            if x == s.last() {
                assert(s[s.len() - 1] == x);
            }
        }
        let before = unique(rest);
        if !before.contains(s.last()) {
            let after = before.push(s.last());
            assert forall|x: T| #[trigger] after.contains(x) <==> before.contains(x) || x == s.last() by {
                if after.contains(x) && x != s.last() {
                    let i = choose|i: int| 0 <= i < after.len() && after[i] == x;
                    assert(before[i] == x);
                }
                if before.contains(x) {
                    let i = choose|i: int| 0 <= i < before.len() && before[i] == x;
                    assert(after[i] == x);
                }
                if x == s.last() {
                    assert(after[after.len() - 1] == x);
                }
            }
            assert forall|i: int, j: int| 0 <= i < after.len() && 0 <= j < after.len() && i != j implies after[i]
                != after[j] by {
                if j == after.len() - 1 {
                    assert(before[i] == after[i]);
                } else if i == after.len() - 1 {
                    assert(before[j] == after[j]);
                }
            }
        }
    }
}

/// The pairs without their repeats, each where it first occurs.
pub fn unique_pairs(pairs: &Vec<(usize, usize)>) -> (r: Vec<(usize, usize)>)
    ensures
        r@ == unique(pairs@),
{
    let mut r: Vec<(usize, usize)> = Vec::new();
    let mut k: usize = 0;
    assert(pairs@.subrange(0, 0) =~= Seq::<(usize, usize)>::empty());
    while k < pairs.len()
        invariant
            k <= pairs@.len(),
            r@ == unique(pairs@.subrange(0, k as int)),
        decreases pairs@.len() - k,
    {
        let p = pairs[k];
        assert(pairs@.subrange(0, k + 1).drop_last() =~= pairs@.subrange(0, k as int));
        let mut seen = false;
        let mut j: usize = 0;
        while j < r.len()
            invariant
                j <= r@.len(),
                seen <==> exists|i: int| 0 <= i < j && r@[i] == p,
            decreases r@.len() - j,
        {
            if r[j].0 == p.0 && r[j].1 == p.1 {
                seen = true;
            }
            j = j + 1;
        }
        if !seen {
            r.push(p);
        }
        k = k + 1;
    }
    assert(pairs@.subrange(0, pairs@.len() as int) =~= pairs@);
    r
}

/// What the editor holds of its graph, as a copy reads it: the nodes by
/// identifier (none for an identifier no longer in use), each node's place
/// on the canvas, the parameters of the input and of the output ports by
/// port identifier, and for each input port the output it is connected to.
pub struct EditorGraph<I, O, P> {
    pub nodes: Vec<Option<GraphNode>>,
    pub positions: Vec<Option<P>>,
    pub input_params: Vec<Option<I>>,
    pub output_params: Vec<Option<O>>,
    pub connections: Vec<Option<usize>>,
}

/// What a copy puts on the clipboard: the copied nodes with their places,
/// the connections into their inputs (each input with the output feeding
/// it), and the parameters of their ports by port identifier.
pub struct ClipboardData<I, O, P> {
    pub nodes: Vec<(GraphNode, P)>,
    pub connections: Vec<(usize, usize)>,
    pub input_params: Vec<(usize, I)>,
    pub output_params: Vec<(usize, O)>,
}

/// The identifiers of the ports, in order.
pub open spec fn port_ids(ports: Seq<(String, usize)>) -> Seq<usize> {
    ports.map_values(|p: (String, usize)| p.1)
}

/// The identifiers of the entries, in order.
pub open spec fn keys<T>(entries: Seq<(usize, T)>) -> Seq<usize> {
    entries.map_values(|e: (usize, T)| e.0)
}

/// `params` holds a parameter for port `id`.
pub open spec fn has_param<T>(params: Seq<Option<T>>, id: usize) -> bool {
    id < params.len() && params[id as int] is Some
}

/// Every entry is a copy of the parameter `params` holds for its port.
pub open spec fn copied_params<T: Clone>(entries: Seq<(usize, T)>, params: Seq<Option<T>>) -> bool {
    forall|j: int|
        0 <= j < entries.len() ==> has_param(params, (#[trigger] entries[j]).0) && cloned(
            params[entries[j].0 as int]->0,
            entries[j].1,
        )
}

impl<I, O, P> EditorGraph<I, O, P> {
    /// The node with identifier `n`, if the graph has it.
    pub open spec fn node_at(self, n: int) -> Option<GraphNode> {
        if 0 <= n < self.nodes@.len() {
            self.nodes@[n]
        } else {
            None
        }
    }

    /// The output that input port `i` is connected to, if any.
    pub open spec fn connection_of(self, i: int) -> Option<usize> {
        if 0 <= i < self.connections@.len() {
            self.connections@[i]
        } else {
            None
        }
    }

    /// Node `n`, if the graph has it, has a place and a parameter for each of
    /// its ports, as a copy needs.
    pub open spec fn copyable(self, n: int) -> bool {
        self.node_at(n) matches Some(node) ==> {
            &&& 0 <= n < self.positions@.len() && self.positions@[n] is Some
            &&& forall|j: int| 0 <= j < node.inputs@.len() ==> has_param(self.input_params@, #[trigger] node.inputs@[j].1)
            &&& forall|j: int| 0 <= j < node.outputs@.len() ==> has_param(self.output_params@, #[trigger] node.outputs@[j].1)
        }
    }

    /// The selected identifiers that name nodes of the graph, in order.
    pub open spec fn kept(self, selected: Seq<usize>) -> Seq<usize>
        decreases selected.len(),
    {
        if selected.len() == 0 {
            selected
        } else if self.node_at(selected.last() as int) is Some {
            self.kept(selected.drop_last()).push(selected.last())
        } else {
            self.kept(selected.drop_last())
        }
    }

    /// Each connected one of the input ports, with the output feeding it.
    pub open spec fn port_links(self, ports: Seq<(String, usize)>) -> Seq<(usize, usize)>
        decreases ports.len(),
    {
        if ports.len() == 0 {
            Seq::empty()
        } else {
            match self.connection_of(ports.last().1 as int) {
                Some(o) => self.port_links(ports.drop_last()).push((ports.last().1, o)),
                None => self.port_links(ports.drop_last()),
            }
        }
    }

    /// The connections into the inputs of the nodes `ids`, node by node.
    pub open spec fn links(self, ids: Seq<usize>) -> Seq<(usize, usize)>
        decreases ids.len(),
    {
        if ids.len() == 0 {
            Seq::empty()
        } else {
            self.links(ids.drop_last()) + match self.node_at(ids.last() as int) {
                Some(node) => self.port_links(node.inputs@),
                None => Seq::empty(),
            }
        }
    }

    /// The input port identifiers of the nodes `ids`, node by node.
    pub open spec fn input_ids(self, ids: Seq<usize>) -> Seq<usize>
        decreases ids.len(),
    {
        if ids.len() == 0 {
            Seq::empty()
        } else {
            self.input_ids(ids.drop_last()) + match self.node_at(ids.last() as int) {
                Some(node) => port_ids(node.inputs@),
                None => Seq::empty(),
            }
        }
    }

    /// The output port identifiers of the nodes `ids`, node by node.
    pub open spec fn output_ids(self, ids: Seq<usize>) -> Seq<usize>
        decreases ids.len(),
    {
        if ids.len() == 0 {
            Seq::empty()
        } else {
            self.output_ids(ids.drop_last()) + match self.node_at(ids.last() as int) {
                Some(node) => port_ids(node.outputs@),
                None => Seq::empty(),
            }
        }
    }

    /// Appends the connections into `ports` to `links`.
    fn collect_links(&self, ports: &Vec<(String, usize)>, links: &mut Vec<(usize, usize)>)
        ensures
            final(links)@ == old(links)@ + self.port_links(ports@),
    {
        let ghost start = links@;
        let mut j: usize = 0;
        assert(ports@.subrange(0, 0) =~= Seq::<(String, usize)>::empty());
        assert(start + Seq::<(usize, usize)>::empty() =~= start);
        while j < ports.len()
            invariant
                j <= ports@.len(),
                links@ == start + self.port_links(ports@.subrange(0, j as int)),
            decreases ports@.len() - j,
        {
            let id = ports[j].1;
            assert(ports@.subrange(0, j + 1).drop_last() =~= ports@.subrange(0, j as int));
            if id < self.connections.len() {
                if let Some(o) = self.connections[id] {
                    links.push((id, o));
                    assert(start + self.port_links(ports@.subrange(0, j as int)).push((id, o)) =~= (start
                        + self.port_links(ports@.subrange(0, j as int))).push((id, o)));
                }
            }
            j = j + 1;
        }
        assert(ports@.subrange(0, ports@.len() as int) =~= ports@);
    }
}

/// Puts `value` under `key`: in place of the entry with that key, if there
/// is one, else as a new last entry.
fn insert_param<T>(entries: &mut Vec<(usize, T)>, key: usize, value: T)
    ensures
        keys(old(entries)@).contains(key) ==> exists|j: int|
            0 <= j < old(entries)@.len() && old(entries)@[j].0 == key && final(entries)@ == old(entries)@.update(
                j,
                (key, value),
            ),
        !keys(old(entries)@).contains(key) ==> final(entries)@ == old(entries)@.push((key, value)),
{
    let mut j: usize = 0;
    while j < entries.len()
        invariant
            j <= entries@.len(),
            entries@ == old(entries)@,
            forall|i: int| 0 <= i < j ==> entries@[i].0 != key,
        decreases entries@.len() - j,
    {
        if entries[j].0 == key {
            assert(keys(old(entries)@)[j as int] == key);
            entries.set(j, (key, value));
            return;
        }
        j = j + 1;
    }
    assert(!keys(old(entries)@).contains(key)) by {
        if keys(old(entries)@).contains(key) {
            let i = choose|i: int| 0 <= i < keys(old(entries)@).len() && keys(old(entries)@)[i] == key;
            assert(old(entries)@[i].0 == key);
        }
    }
    entries.push((key, value));
}

/// Copies into `entries` the parameters of `ports`, each under its port.
fn collect_params<T: Clone>(
    ports: &Vec<(String, usize)>,
    params: &Vec<Option<T>>,
    entries: &mut Vec<(usize, T)>,
    Ghost(before): Ghost<Seq<usize>>,
)
    requires
        keys(old(entries)@) == unique(before),
        copied_params(old(entries)@, params@),
        forall|j: int| 0 <= j < ports@.len() ==> has_param(params@, #[trigger] ports@[j].1),
    ensures
        keys(final(entries)@) == unique(before + port_ids(ports@)),
        copied_params(final(entries)@, params@),
{
    let mut j: usize = 0;
    assert(before + port_ids(ports@.subrange(0, 0)) =~= before);
    while j < ports.len()
        invariant
            j <= ports@.len(),
            keys(entries@) == unique(before + port_ids(ports@.subrange(0, j as int))),
            copied_params(entries@, params@),
            forall|i: int| 0 <= i < ports@.len() ==> has_param(params@, #[trigger] ports@[i].1),
        decreases ports@.len() - j,
    {
        let id = ports[j].1;
        let ghost seen = before + port_ids(ports@.subrange(0, j as int));
        assert(before + port_ids(ports@.subrange(0, j + 1)) =~= seen.push(id));
        assert(seen.push(id).drop_last() =~= seen);
        assert(has_param(params@, ports@[j as int].1));
        match &params[id] {
            Some(v) => {
                let ghost old_entries = entries@;
                insert_param(entries, id, v.clone());
                proof {
                    if keys(old_entries).contains(id) {
                        let i = choose|i: int|
                            0 <= i < old_entries.len() && old_entries[i].0 == id && entries@ == old_entries.update(
                                i,
                                (id, entries@[i].1),
                            );
                        assert(keys(entries@) =~= keys(old_entries));
                    } else {
                        assert(keys(entries@) =~= keys(old_entries).push(id));
                    }
                }
            },
            None => {},
        }
        j = j + 1;
    }
    assert(ports@.subrange(0, ports@.len() as int) =~= ports@);
}

/// Copies the selected nodes for the clipboard: each selected node that is
/// in the graph (in the order of the selection) with a copy of its place;
/// the connections into their inputs, without repeats; and copies of the
/// parameters of their input and output ports, one entry per port.
pub fn copy_selection<I: Clone, O: Clone, P: Clone>(graph: &EditorGraph<I, O, P>, selected: &Vec<usize>) -> (data:
    ClipboardData<I, O, P>)
    requires
        forall|k: int| 0 <= k < selected@.len() ==> graph.copyable(#[trigger] selected@[k] as int),
    ensures
        ({
            let kept = graph.kept(selected@);
            &&& data.nodes@.len() == kept.len()
            &&& forall|k: int|
                0 <= k < kept.len() ==> (#[trigger] data.nodes@[k]).0@ == graph.node_at(kept[k] as int)->0@
                    && cloned(graph.positions@[kept[k] as int]->0, data.nodes@[k].1)
            &&& data.connections@ == unique(graph.links(kept))
            &&& data.connections@.no_duplicates()
            &&& keys(data.input_params@) == unique(graph.input_ids(kept))
            &&& keys(data.input_params@).no_duplicates()
            &&& copied_params(data.input_params@, graph.input_params@)
            &&& keys(data.output_params@) == unique(graph.output_ids(kept))
            &&& keys(data.output_params@).no_duplicates()
            &&& copied_params(data.output_params@, graph.output_params@)
        }),
{
    let mut nodes: Vec<(GraphNode, P)> = Vec::new();
    let mut links: Vec<(usize, usize)> = Vec::new();
    let mut input_params: Vec<(usize, I)> = Vec::new();
    let mut output_params: Vec<(usize, O)> = Vec::new();
    let mut k: usize = 0;
    assert(selected@.subrange(0, 0) =~= Seq::<usize>::empty());
    assert(keys(input_params@) =~= Seq::<usize>::empty());
    assert(keys(output_params@) =~= Seq::<usize>::empty());
    while k < selected.len()
        invariant
            k <= selected@.len(),
            forall|i: int| 0 <= i < selected@.len() ==> graph.copyable(#[trigger] selected@[i] as int),
            ({
                let kept = graph.kept(selected@.subrange(0, k as int));
                &&& nodes@.len() == kept.len()
                &&& forall|i: int|
                    0 <= i < kept.len() ==> (#[trigger] nodes@[i]).0@ == graph.node_at(kept[i] as int)->0@
                        && cloned(graph.positions@[kept[i] as int]->0, nodes@[i].1)
                &&& links@ == graph.links(kept)
                &&& keys(input_params@) == unique(graph.input_ids(kept))
                &&& copied_params(input_params@, graph.input_params@)
                &&& keys(output_params@) == unique(graph.output_ids(kept))
                &&& copied_params(output_params@, graph.output_params@)
            }),
        decreases selected@.len() - k,
    {
        let id = selected[k];
        let ghost prefix = selected@.subrange(0, k as int);
        let ghost kept = graph.kept(prefix);
        assert(selected@.subrange(0, k + 1).drop_last() =~= prefix);
        assert(graph.copyable(selected@[k as int] as int));
        if id < graph.nodes.len() {
            match &graph.nodes[id] {
                Some(node) => {
                    match &graph.positions[id] {
                        Some(place) => {
                            nodes.push((node.duplicate(), place.clone()));
                        },
                        None => {},
                    }
                    graph.collect_links(&node.inputs, &mut links);
                    collect_params(&node.inputs, &graph.input_params, &mut input_params, Ghost(graph.input_ids(kept)));
                    collect_params(&node.outputs, &graph.output_params, &mut output_params, Ghost(graph.output_ids(kept)));
                    proof {
                        assert(kept.push(id).drop_last() =~= kept);
                    }
                },
                None => {},
            }
        }
        k = k + 1;
    }
    assert(selected@.subrange(0, selected@.len() as int) =~= selected@);
    let connections = unique_pairs(&links);
    proof {
        let kept = graph.kept(selected@);
        lemma_unique_keeps_each_once(graph.links(kept));
        lemma_unique_keeps_each_once(graph.input_ids(kept));
        lemma_unique_keeps_each_once(graph.output_ids(kept));
    }
    ClipboardData { nodes, connections, input_params, output_params }
}

/// For port `new` of a pasted node: each copied port of the same name, in
/// order, as (copied identifier, new identifier).
pub open spec fn name_pairs(new: (String, usize), copied: Seq<(String, usize)>) -> Seq<(usize, usize)>
    decreases copied.len(),
{
    if copied.len() == 0 {
        Seq::empty()
    } else if copied.last().0@ == new.0@ {
        name_pairs(new, copied.drop_last()).push((copied.last().1, new.1))
    } else {
        name_pairs(new, copied.drop_last())
    }
}

/// For each port of a pasted node in order, its pairs with the copied ports
/// of the same name.
pub open spec fn port_pairs(new: Seq<(String, usize)>, copied: Seq<(String, usize)>) -> Seq<(usize, usize)>
    decreases new.len(),
{
    if new.len() == 0 {
        Seq::empty()
    } else {
        port_pairs(new.drop_last(), copied) + name_pairs(new.last(), copied)
    }
}

/// For each pasted node in order, given as (the node as copied, the node as
/// added to the graph), the pairs of its input ports (or of its output
/// ports).
pub open spec fn id_pairs(pasted: Seq<(GraphNode, GraphNode)>, inputs: bool) -> Seq<(usize, usize)>
    decreases pasted.len(),
{
    if pasted.len() == 0 {
        Seq::empty()
    } else {
        id_pairs(pasted.drop_last(), inputs) + if inputs {
            port_pairs(pasted.last().1.inputs@, pasted.last().0.inputs@)
        } else {
            port_pairs(pasted.last().1.outputs@, pasted.last().0.outputs@)
        }
    }
}

/// What a map filled with `pairs` in order holds for `id`: the second
/// member of the last pair whose first member is `id`, if any.
pub open spec fn mapped(pairs: Seq<(usize, usize)>, id: usize) -> Option<usize>
    decreases pairs.len(),
{
    if pairs.len() == 0 {
        None
    } else if pairs.last().0 == id {
        Some(pairs.last().1)
    } else {
        mapped(pairs.drop_last(), id)
    }
}

/// The connections to make between pasted nodes: for each copied
/// connection (input, output) in order whose input and output both map to
/// new ports, (new output, new input).
pub open spec fn relinked(
    connections: Seq<(usize, usize)>,
    input_pairs: Seq<(usize, usize)>,
    output_pairs: Seq<(usize, usize)>,
) -> Seq<(usize, usize)>
    decreases connections.len(),
{
    if connections.len() == 0 {
        Seq::empty()
    } else {
        let before = relinked(connections.drop_last(), input_pairs, output_pairs);
        match (mapped(input_pairs, connections.last().0), mapped(output_pairs, connections.last().1)) {
            (Some(i), Some(o)) => before.push((o, i)),
            _ => before,
        }
    }
}

/// Appends the pairs of port `new` with the copied ports of its name.
fn push_name_pairs(new: &(String, usize), copied: &Vec<(String, usize)>, pairs: &mut Vec<(usize, usize)>)
    ensures
        final(pairs)@ == old(pairs)@ + name_pairs(*new, copied@),
{
    let ghost start = pairs@;
    let mut j: usize = 0;
    assert(copied@.subrange(0, 0) =~= Seq::<(String, usize)>::empty());
    assert(start + Seq::<(usize, usize)>::empty() =~= start);
    while j < copied.len()
        invariant
            j <= copied@.len(),
            pairs@ == start + name_pairs(*new, copied@.subrange(0, j as int)),
        decreases copied@.len() - j,
    {
        assert(copied@.subrange(0, j + 1).drop_last() =~= copied@.subrange(0, j as int));
        if same_text(copied[j].0.as_str(), new.0.as_str()) {
            pairs.push((copied[j].1, new.1));
            assert(start + name_pairs(*new, copied@.subrange(0, j as int)).push((copied@[j as int].1, new.1)) =~= (
            start + name_pairs(*new, copied@.subrange(0, j as int))).push((copied@[j as int].1, new.1)));
        }
        j = j + 1;
    }
    assert(copied@.subrange(0, copied@.len() as int) =~= copied@);
}

/// Appends the pairs of each of the ports `new` in order.
fn push_port_pairs(new: &Vec<(String, usize)>, copied: &Vec<(String, usize)>, pairs: &mut Vec<(usize, usize)>)
    ensures
        final(pairs)@ == old(pairs)@ + port_pairs(new@, copied@),
{
    let ghost start = pairs@;
    let mut j: usize = 0;
    assert(new@.subrange(0, 0) =~= Seq::<(String, usize)>::empty());
    assert(start + Seq::<(usize, usize)>::empty() =~= start);
    while j < new.len()
        invariant
            j <= new@.len(),
            pairs@ == start + port_pairs(new@.subrange(0, j as int), copied@),
        decreases new@.len() - j,
    {
        assert(new@.subrange(0, j + 1).drop_last() =~= new@.subrange(0, j as int));
        let ghost mid = pairs@;
        push_name_pairs(&new[j], copied, pairs);
        assert(start + port_pairs(new@.subrange(0, j + 1), copied@) =~= mid + name_pairs(new@[j as int], copied@));
        j = j + 1;
    }
    assert(new@.subrange(0, new@.len() as int) =~= new@);
}

/// The pairs of the input ports (or of the output ports) of the pasted
/// nodes.
fn collect_id_pairs(pasted: &Vec<(GraphNode, GraphNode)>, inputs: bool) -> (r: Vec<(usize, usize)>)
    ensures
        r@ == id_pairs(pasted@, inputs),
{
    let mut r: Vec<(usize, usize)> = Vec::new();
    let mut k: usize = 0;
    assert(pasted@.subrange(0, 0) =~= Seq::<(GraphNode, GraphNode)>::empty());
    while k < pasted.len()
        invariant
            k <= pasted@.len(),
            r@ == id_pairs(pasted@.subrange(0, k as int), inputs),
        decreases pasted@.len() - k,
    {
        assert(pasted@.subrange(0, k + 1).drop_last() =~= pasted@.subrange(0, k as int));
        if inputs {
            push_port_pairs(&pasted[k].1.inputs, &pasted[k].0.inputs, &mut r);
        } else {
            push_port_pairs(&pasted[k].1.outputs, &pasted[k].0.outputs, &mut r);
        }
        k = k + 1;
    }
    assert(pasted@.subrange(0, pasted@.len() as int) =~= pasted@);
    r
}

/// What `pairs`, taken as a map filled in order, holds for `id`.
fn look_up(pairs: &Vec<(usize, usize)>, id: usize) -> (r: Option<usize>)
    ensures
        r == mapped(pairs@, id),
{
    let mut j: usize = pairs.len();
    assert(pairs@.subrange(0, pairs@.len() as int) =~= pairs@);
    while j > 0
        invariant
            j <= pairs@.len(),
            mapped(pairs@, id) == mapped(pairs@.subrange(0, j as int), id),
        decreases j,
    {
        assert(pairs@.subrange(0, j as int).drop_last() =~= pairs@.subrange(0, j - 1));
        if pairs[j - 1].0 == id {
            return Some(pairs[j - 1].1);
        }
        j = j - 1;
    }
    None
}

/// The connections a paste makes between the pasted nodes, each as (output,
/// input) in the new identifiers. `pasted` gives each pasted node as it was
/// copied and as it was added to the graph; a copied port maps to the new
/// port of the same name (the last such, going through the new node's ports
/// in order); a copied connection is restored when both its ends map.
pub fn pasted_connections(pasted: &Vec<(GraphNode, GraphNode)>, connections: &Vec<(usize, usize)>) -> (r: Vec<
    (usize, usize),
>)
    ensures
        r@ == relinked(connections@, id_pairs(pasted@, true), id_pairs(pasted@, false)),
{
    let input_pairs = collect_id_pairs(pasted, true);
    let output_pairs = collect_id_pairs(pasted, false);
    let mut r: Vec<(usize, usize)> = Vec::new();
    let mut k: usize = 0;
    assert(connections@.subrange(0, 0) =~= Seq::<(usize, usize)>::empty());
    while k < connections.len()
        invariant
            k <= connections@.len(),
            input_pairs@ == id_pairs(pasted@, true),
            output_pairs@ == id_pairs(pasted@, false),
            r@ == relinked(connections@.subrange(0, k as int), input_pairs@, output_pairs@),
        decreases connections@.len() - k,
    {
        assert(connections@.subrange(0, k + 1).drop_last() =~= connections@.subrange(0, k as int));
        let (input, output) = connections[k];
        match (look_up(&input_pairs, input), look_up(&output_pairs, output)) {
            (Some(i), Some(o)) => {
                r.push((o, i));
            },
            _ => {},
        }
        k = k + 1;
    }
    assert(connections@.subrange(0, connections@.len() as int) =~= connections@);
    r
}

/// The copied ports (inputs or outputs) of a pasted node.
pub open spec fn copied_ports(p: (GraphNode, GraphNode), inputs: bool) -> Seq<(String, usize)> {
    if inputs {
        p.0.inputs@
    } else {
        p.0.outputs@
    }
}

/// The new ports (inputs or outputs) of a pasted node.
pub open spec fn new_ports(p: (GraphNode, GraphNode), inputs: bool) -> Seq<(String, usize)> {
    if inputs {
        p.1.inputs@
    } else {
        p.1.outputs@
    }
}

/// Each pasted node was added with ports named as its copied ones, in the
/// same order, and the copied ports of a node differ in name and in
/// identifier.
pub open spec fn pasted_as_copied(pasted: Seq<(GraphNode, GraphNode)>, inputs: bool) -> bool {
    forall|k: int|
        0 <= k < pasted.len() ==> {
            let copied = copied_ports(#[trigger] pasted[k], inputs);
            let new = new_ports(pasted[k], inputs);
            &&& new.len() == copied.len()
            &&& forall|j: int| 0 <= j < new.len() ==> (#[trigger] new[j]).0@ == copied[j].0@
            &&& forall|i: int, j: int|
                0 <= i < j < copied.len() ==> (#[trigger] copied[i]).0@ != (#[trigger] copied[j]).0@
                    && copied[i].1 != copied[j].1
        }
}

/// No two pasted nodes have a copied port identifier in common.
pub open spec fn copied_ids_apart(pasted: Seq<(GraphNode, GraphNode)>, inputs: bool) -> bool {
    forall|k1: int, k2: int, j1: int, j2: int|
        0 <= k1 < pasted.len() && 0 <= k2 < pasted.len() && k1 != k2 && 0 <= j1 < copied_ports(
            pasted[k1],
            inputs,
        ).len() && 0 <= j2 < copied_ports(pasted[k2], inputs).len() ==> #[trigger] copied_ports(
            pasted[k1],
            inputs,
        )[j1].1 != #[trigger] copied_ports(pasted[k2], inputs)[j2].1
}

/// The new port of the last of the `new` ports that has a copied port of
/// its name with identifier `id`.
pub open spec fn last_match(new: Seq<(String, usize)>, copied: Seq<(String, usize)>, id: usize) -> Option<usize>
    decreases new.len(),
{
    if new.len() == 0 {
        None
    } else if exists|j: int| 0 <= j < copied.len() && copied[j].1 == id && copied[j].0@ == new.last().0@ {
        Some(new.last().1)
    } else {
        last_match(new.drop_last(), copied, id)
    }
}

proof fn lemma_mapped_concat(a: Seq<(usize, usize)>, b: Seq<(usize, usize)>, id: usize)
    ensures
        mapped(a + b, id) == (if mapped(b, id) is Some { mapped(b, id) } else { mapped(a, id) }),
    decreases b.len(),
{
    if b.len() == 0 {
        assert(a + b =~= a);
    } else {
        assert((a + b).drop_last() =~= a + b.drop_last());
        assert((a + b).last() == b.last());
        lemma_mapped_concat(a, b.drop_last(), id);
    }
}

proof fn lemma_name_pairs_mapped(new: (String, usize), copied: Seq<(String, usize)>, id: usize)
    ensures
        mapped(name_pairs(new, copied), id) == (if exists|j: int|
            0 <= j < copied.len() && copied[j].1 == id && copied[j].0@ == new.0@ {
            Some(new.1)
        } else {
            None
        }),
    decreases copied.len(),
{
    if copied.len() > 0 {
        let rest = copied.drop_last();
        let before = name_pairs(new, rest);
        lemma_name_pairs_mapped(new, rest, id);
        let found_before = exists|j: int| 0 <= j < rest.len() && rest[j].1 == id && rest[j].0@ == new.0@;
        let found = exists|j: int| 0 <= j < copied.len() && copied[j].1 == id && copied[j].0@ == new.0@;
        if found_before {
            let j = choose|j: int| 0 <= j < rest.len() && rest[j].1 == id && rest[j].0@ == new.0@;
            assert(copied[j] == rest[j]);
            assert(found);
        }
        if found {
            let j = choose|j: int| 0 <= j < copied.len() && copied[j].1 == id && copied[j].0@ == new.0@;
            if j < copied.len() - 1 {
                assert(rest[j] == copied[j]);
                assert(found_before);
            }
        }
        if copied.last().0@ == new.0@ {
            let pushed = before.push((copied.last().1, new.1));
            assert(pushed.drop_last() =~= before);
            assert(pushed.last() == (copied.last().1, new.1));
            if copied.last().1 == id {
                assert(found);
            } else {
                assert(found == found_before);
            }
        } else {
            assert(found == found_before);
        }
    }
}

proof fn lemma_port_pairs_mapped(new: Seq<(String, usize)>, copied: Seq<(String, usize)>, id: usize)
    ensures
        mapped(port_pairs(new, copied), id) == last_match(new, copied, id),
    decreases new.len(),
{
    if new.len() > 0 {
        lemma_mapped_concat(port_pairs(new.drop_last(), copied), name_pairs(new.last(), copied), id);
        lemma_name_pairs_mapped(new.last(), copied, id);
        lemma_port_pairs_mapped(new.drop_last(), copied, id);
    }
}

/// Within one pasted node: the copied port at position `j` maps to the new
/// port at position `j`, going through the new ports up to `n`.
proof fn lemma_last_match_at(new: Seq<(String, usize)>, copied: Seq<(String, usize)>, j: int, n: int)
    requires
        new.len() == copied.len(),
        forall|m: int| 0 <= m < new.len() ==> (#[trigger] new[m]).0@ == copied[m].0@,
        forall|a: int, b: int|
            0 <= a < b < copied.len() ==> (#[trigger] copied[a]).0@ != (#[trigger] copied[b]).0@ && copied[a].1
                != copied[b].1,
        0 <= j < n <= new.len(),
    ensures
        last_match(new.subrange(0, n), copied, copied[j].1) == Some(new[j].1),
    decreases n,
{
    let prefix = new.subrange(0, n);
    assert(prefix.drop_last() =~= new.subrange(0, n - 1));
    assert(prefix.last() == new[n - 1]);
    if n - 1 == j {
        assert(copied[j].1 == copied[j].1 && copied[j].0@ == new[j].0@);
    } else {
        lemma_last_match_at(new, copied, j, n - 1);
        assert(!exists|i: int| 0 <= i < copied.len() && copied[i].1 == copied[j].1 && copied[i].0@ == prefix.last().0@) by {
            if exists|i: int| 0 <= i < copied.len() && copied[i].1 == copied[j].1 && copied[i].0@ == prefix.last().0@ {
                let i = choose|i: int|
                    0 <= i < copied.len() && copied[i].1 == copied[j].1 && copied[i].0@ == prefix.last().0@;
                if i < j {
                    assert(copied[i].1 != copied[j].1);
                } else if j < i {
                    assert(copied[j].1 != copied[i].1);
                }
                assert(copied[j].0@ == copied[n - 1].0@);
                assert(copied[j].0@ != copied[n - 1].0@);
            }
        }
    }
}

/// No new port matches an identifier that none of the copied ports has.
proof fn lemma_last_match_none(new: Seq<(String, usize)>, copied: Seq<(String, usize)>, id: usize)
    requires
        forall|j: int| 0 <= j < copied.len() ==> (#[trigger] copied[j]).1 != id,
    ensures
        last_match(new, copied, id) is None,
    decreases new.len(),
{
    if new.len() > 0 {
        lemma_last_match_none(new.drop_last(), copied, id);
    }
}

/// Pasting maps ports by position: when each pasted node was added with its
/// ports named as the copied ones, in the same order (names and identifiers
/// differing within a node, identifiers differing between nodes), the
/// copied port at position `j` of pasted node `k` maps to the new port at
/// position `j` of that node.
pub proof fn lemma_paste_maps_ports_by_position(pasted: Seq<(GraphNode, GraphNode)>, inputs: bool, k: int, j: int)
    requires
        pasted_as_copied(pasted, inputs),
        copied_ids_apart(pasted, inputs),
        0 <= k < pasted.len(),
        0 <= j < copied_ports(pasted[k], inputs).len(),
    ensures
        mapped(id_pairs(pasted, inputs), copied_ports(pasted[k], inputs)[j].1) == Some(
            new_ports(pasted[k], inputs)[j].1,
        ),
    decreases pasted.len(),
{
    let id = copied_ports(pasted[k], inputs)[j].1;
    let last = pasted.last();
    let rest = pasted.drop_last();
    assert(id_pairs(pasted, inputs) == id_pairs(rest, inputs) + port_pairs(new_ports(last, inputs), copied_ports(last, inputs)));
    lemma_mapped_concat(id_pairs(rest, inputs), port_pairs(new_ports(last, inputs), copied_ports(last, inputs)), id);
    lemma_port_pairs_mapped(new_ports(last, inputs), copied_ports(last, inputs), id);
    assert(pasted[pasted.len() - 1] == last);
    if k == pasted.len() - 1 {
        let new = new_ports(last, inputs);
        lemma_last_match_at(new, copied_ports(last, inputs), j, new.len() as int);
        assert(new.subrange(0, new.len() as int) =~= new);
    } else {
        assert forall|i: int| 0 <= i < copied_ports(last, inputs).len() implies (#[trigger] copied_ports(last, inputs)[i]).1 != id by {
            assert(copied_ports(pasted[pasted.len() - 1], inputs)[i].1 != copied_ports(pasted[k], inputs)[j].1);
        }
        lemma_last_match_none(new_ports(last, inputs), copied_ports(last, inputs), id);
        assert(rest[k] == pasted[k]);
        assert forall|k1: int| 0 <= k1 < rest.len() implies #[trigger] rest[k1] == pasted[k1] by {}
        lemma_paste_maps_ports_by_position(rest, inputs, k, j);
    }
}

/// Pasting drops what was not pasted: an identifier that is no copied port
/// of any pasted node maps to nothing, so a connection to a node outside
/// the paste is not restored.
pub proof fn lemma_paste_drops_outside_ports(pasted: Seq<(GraphNode, GraphNode)>, inputs: bool, id: usize)
    requires
        forall|k: int, j: int|
            0 <= k < pasted.len() && 0 <= j < copied_ports(pasted[k], inputs).len() ==> (#[trigger] copied_ports(
                pasted[k],
                inputs,
            )[j]).1 != id,
    ensures
        mapped(id_pairs(pasted, inputs), id) is None,
    decreases pasted.len(),
{
    if pasted.len() > 0 {
        let last = pasted.last();
        let rest = pasted.drop_last();
        lemma_mapped_concat(id_pairs(rest, inputs), port_pairs(new_ports(last, inputs), copied_ports(last, inputs)), id);
        lemma_port_pairs_mapped(new_ports(last, inputs), copied_ports(last, inputs), id);
        assert forall|i: int| 0 <= i < copied_ports(last, inputs).len() implies (#[trigger] copied_ports(last, inputs)[i]).1 != id by {
            assert(copied_ports(pasted[pasted.len() - 1], inputs)[i].1 != id);
        }
        lemma_last_match_none(new_ports(last, inputs), copied_ports(last, inputs), id);
        assert forall|k: int, j: int|
            0 <= k < rest.len() && 0 <= j < copied_ports(rest[k], inputs).len() implies (#[trigger] copied_ports(
            rest[k],
            inputs,
        )[j]).1 != id by {
            assert(rest[k] == pasted[k]);
        }
        lemma_paste_drops_outside_ports(rest, inputs, id);
    }
}

} // verus!
