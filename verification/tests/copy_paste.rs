use node_sound_core::sound_graph::copy_paste_del_helpers::{
    copy_selection, pasted_connections, unique_pairs, EditorGraph,
};
use node_sound_core::sound_graph::evaluate::GraphNode;

fn node(kind: &str, inputs: &[(&str, usize)], outputs: &[(&str, usize)]) -> GraphNode {
    GraphNode {
        kind: kind.to_string(),
        inputs: inputs.iter().map(|(n, i)| (n.to_string(), *i)).collect(),
        outputs: outputs.iter().map(|(n, i)| (n.to_string(), *i)).collect(),
    }
}

fn same_node(a: &GraphNode, b: &GraphNode) -> bool {
    a.kind == b.kind && a.inputs == b.inputs && a.outputs == b.outputs
}

/// Node 0: a constant (output 0). Node 1: adds inputs 0 and 1 (output 1).
/// Node 2: adds inputs 2 and 3 (output 2). Input 0 and input 3 are fed by
/// output 0, input 2 by output 1.
fn editor() -> EditorGraph<i64, i64, (i32, i32)> {
    EditorGraph {
        nodes: vec![
            Some(node("Const", &[], &[("out", 0)])),
            Some(node("Add", &[("a", 0), ("b", 1)], &[("out", 1)])),
            Some(node("Add", &[("a", 2), ("b", 3)], &[("out", 2)])),
        ],
        positions: vec![Some((0, 0)), Some((10, 0)), Some((20, 0))],
        input_params: vec![Some(100), Some(101), Some(102), Some(103)],
        output_params: vec![Some(200), Some(201), Some(202)],
        connections: vec![Some(0), None, Some(1), Some(0)],
    }
}

#[test]
fn copying_takes_the_selected_nodes() {
    let g = editor();
    // A missing node is skipped; a node selected twice is copied twice.
    let data = copy_selection(&g, &vec![2, 0, 5, 0]);
    assert_eq!(data.nodes.len(), 3);
    assert!(same_node(&data.nodes[0].0, g.nodes[2].as_ref().unwrap()));
    assert!(same_node(&data.nodes[1].0, g.nodes[0].as_ref().unwrap()));
    assert!(same_node(&data.nodes[2].0, g.nodes[0].as_ref().unwrap()));
    assert_eq!(data.nodes.iter().map(|n| n.1).collect::<Vec<_>>(), vec![(20, 0), (0, 0), (0, 0)]);
    assert_eq!(data.connections, vec![(2, 1), (3, 0)]);
    assert_eq!(data.input_params, vec![(2, 102), (3, 103)]);
    assert_eq!(data.output_params, vec![(2, 202), (0, 200)]);
}

#[test]
fn copying_nothing() {
    let g = editor();
    let data = copy_selection(&g, &vec![7]);
    assert!(data.nodes.is_empty());
    assert!(data.connections.is_empty());
    assert!(data.input_params.is_empty());
    assert!(data.output_params.is_empty());
}

#[test]
fn repeated_pairs_are_dropped() {
    let pairs = vec![(1, 2), (3, 4), (1, 2), (2, 1), (3, 4)];
    assert_eq!(unique_pairs(&pairs), vec![(1, 2), (3, 4), (2, 1)]);
    assert_eq!(unique_pairs(&vec![]), vec![]);
}

#[test]
fn pasting_restores_connections_between_pasted_nodes() {
    let g = editor();
    let data = copy_selection(&g, &vec![2, 0]);
    // The graph gave the pasted nodes new port identifiers.
    let pasted = vec![
        (data.nodes[0].0.duplicate(), node("Add", &[("a", 12), ("b", 13)], &[("out", 22)])),
        (data.nodes[1].0.duplicate(), node("Const", &[], &[("out", 20)])),
    ];
    // Input 2 was fed by node 1, which was not pasted: that link is dropped.
    assert_eq!(pasted_connections(&pasted, &data.connections), vec![(20, 13)]);
}

#[test]
fn pasting_every_node_restores_every_connection() {
    let g = editor();
    let data = copy_selection(&g, &vec![0, 1, 2]);
    assert_eq!(data.connections, vec![(0, 0), (2, 1), (3, 0)]);
    let pasted = vec![
        (data.nodes[0].0.duplicate(), node("Const", &[], &[("out", 30)])),
        (data.nodes[1].0.duplicate(), node("Add", &[("a", 40), ("b", 41)], &[("out", 31)])),
        (data.nodes[2].0.duplicate(), node("Add", &[("a", 42), ("b", 43)], &[("out", 32)])),
    ];
    assert_eq!(pasted_connections(&pasted, &data.connections), vec![(30, 40), (31, 42), (30, 43)]);
}

#[test]
fn a_port_maps_to_the_last_new_port_of_its_name() {
    let copied = node("Mix", &[("x", 1)], &[]);
    let added = node("Mix", &[("x", 5), ("x", 6)], &[]);
    let source = node("Const", &[], &[("out", 9)]);
    let source_new = node("Const", &[], &[("out", 19)]);
    let pasted = vec![(copied, added), (source, source_new)];
    assert_eq!(pasted_connections(&pasted, &vec![(1, 9)]), vec![(19, 6)]);
}
