use std::cell::RefCell;

use node_sound_core::sound_graph::evaluate::{
    evaluate_input, evaluate_inputs, evaluate_node, find_definition, find_port, populate_output, store_outputs,
    EvalError, GraphModel, GraphNode, NodeDefinition,
};

/// Kinds used by the tests: `Const` gives the value 3 on `out`; `Add` reads
/// `a` and `b` and gives their sum on `out` and their difference on `diff`;
/// `Silent` gives nothing; `Broken` fails.
fn definitions() -> Vec<NodeDefinition> {
    let def = |name: &str, inputs: &[&str]| NodeDefinition {
        name: name.to_string(),
        inputs: inputs.iter().map(|s| s.to_string()).collect(),
    };
    vec![def("Const", &[]), def("Add", &["a", "b"]), def("Silent", &[]), def("Broken", &[])]
}

/// Runs a node of the definition at position `d`, noting the kind's name
/// and the inputs it was handed in `runs`.
fn runner<'a>(
    runs: &'a RefCell<Vec<(String, Vec<(String, i64)>)>>,
) -> impl Fn(usize, Vec<(String, i64)>) -> Result<Vec<(String, i64)>, String> + 'a {
    move |d: usize, inputs: Vec<(String, i64)>| {
        let names = ["Const", "Add", "Silent", "Broken"];
        runs.borrow_mut().push((names[d].to_string(), inputs.clone()));
        match d {
            0 => Ok(vec![("out".to_string(), 3)]),
            1 => {
                let a = inputs.iter().find(|(n, _)| n == "a").map(|x| x.1).unwrap_or(0);
                let b = inputs.iter().find(|(n, _)| n == "b").map(|x| x.1).unwrap_or(0);
                Ok(vec![("diff".to_string(), a - b), ("out".to_string(), a + b)])
            }
            2 => Ok(vec![]),
            _ => Err("broken".to_string()),
        }
    }
}

fn kinds_run(runs: &RefCell<Vec<(String, Vec<(String, i64)>)>>) -> Vec<String> {
    runs.borrow().iter().map(|r| r.0.clone()).collect()
}

fn node(kind: &str, inputs: &[(&str, usize)], outputs: &[(&str, usize)]) -> Option<GraphNode> {
    Some(GraphNode {
        kind: kind.to_string(),
        inputs: inputs.iter().map(|(n, i)| (n.to_string(), *i)).collect(),
        outputs: outputs.iter().map(|(n, i)| (n.to_string(), *i)).collect(),
    })
}

/// Node 0: Const (out = output 0). Node 1: Add with a <- output 0 and b
/// typed in as 10 (outputs: out = 1, diff = 2). Node 2: Add with a <- output
/// 1 and b <- output 0 (out = 3). Node 3: removed. Node 4: Silent (out = 4).
/// Node 5: Broken. Node 6: of an unknown kind.
fn graph() -> GraphModel<i64> {
    GraphModel {
        nodes: vec![
            node("Const", &[], &[("out", 0)]),
            node("Add", &[("a", 0), ("b", 1)], &[("out", 1), ("diff", 2)]),
            node("Add", &[("a", 2), ("b", 3)], &[("out", 3)]),
            None,
            node("Silent", &[], &[("out", 4)]),
            node("Broken", &[], &[("out", 5)]),
            node("Mystery", &[], &[]),
        ],
        inputs: vec![Some(0), Some(10), Some(0), Some(0)],
        connections: vec![Some(0), None, Some(1), Some(0)],
        output_nodes: vec![0, 1, 1, 2, 4, 5],
    }
}

#[test]
fn evaluating_a_node_runs_its_inputs_first() {
    let g = graph();
    let defs = definitions();
    let runs = RefCell::new(vec![]);
    let run = runner(&runs);
    let mut cache: Vec<Option<i64>> = vec![None; 6];
    let r = evaluate_node(&g, 2, &mut cache, &defs, &run, &-1);
    assert_eq!(r.ok(), Some(16));
    assert_eq!(cache, vec![Some(3), Some(13), Some(-7), Some(16), None, None]);
    // The constant node feeds two nodes but runs once.
    assert_eq!(kinds_run(&runs), vec!["Const", "Add", "Add"]);
    // Each run is handed the inputs its definition names, evaluated.
    let handed = runs.borrow();
    assert_eq!(handed[1].1, vec![("a".to_string(), 3), ("b".to_string(), 10)]);
    assert_eq!(handed[2].1, vec![("a".to_string(), 13), ("b".to_string(), 3)]);
}

#[test]
fn cached_outputs_are_not_recomputed() {
    let g = graph();
    let defs = definitions();
    let runs = RefCell::new(vec![]);
    let run = runner(&runs);
    let mut cache: Vec<Option<i64>> = vec![Some(100), None, None, None, None, None];
    let r = evaluate_node(&g, 1, &mut cache, &defs, &run, &-1);
    assert_eq!(r.ok(), Some(110));
    assert_eq!(kinds_run(&runs), vec!["Add".to_string()]);
}

#[test]
fn evaluation_errors() {
    let g = graph();
    let defs = definitions();
    let runs = RefCell::new(vec![]);
    let run = runner(&runs);
    let mut cache: Vec<Option<i64>> = vec![None; 6];
    assert!(matches!(evaluate_node(&g, 3, &mut cache, &defs, &run, &-1), Err(EvalError::NodeMissing)));
    assert!(matches!(evaluate_node(&g, 99, &mut cache, &defs, &run, &-1), Err(EvalError::NodeMissing)));
    assert!(matches!(evaluate_node(&g, 6, &mut cache, &defs, &run, &-1), Err(EvalError::UnknownKind)));
    assert!(matches!(evaluate_node(&g, 4, &mut cache, &defs, &run, &-1), Err(EvalError::NoOutput)));
    match evaluate_node(&g, 5, &mut cache, &defs, &run, &-1) {
        Err(EvalError::Failed(e)) => assert_eq!(e, "broken"),
        _ => panic!("expected a failure"),
    }
    assert_eq!(cache, vec![None; 6]);
    // The unknown kind and the missing nodes ran nothing.
    assert_eq!(kinds_run(&runs), vec!["Silent", "Broken"]);
}

#[test]
fn input_values() {
    let g = graph();
    let defs = definitions();
    let runs = RefCell::new(vec![]);
    let run = runner(&runs);
    let mut cache: Vec<Option<i64>> = vec![None; 6];
    // Typed-in value of an unconnected input.
    assert_eq!(evaluate_input(&g, 1, "b", &mut cache, &defs, &run, &-1), 10);
    // Unknown input, removed node: the fallback.
    assert_eq!(evaluate_input(&g, 1, "c", &mut cache, &defs, &run, &-1), -1);
    assert_eq!(evaluate_input(&g, 3, "a", &mut cache, &defs, &run, &-1), -1);
    assert!(runs.borrow().is_empty());
    // Connected input: the upstream node is run and its output cached.
    assert_eq!(evaluate_input(&g, 2, "a", &mut cache, &defs, &run, &-1), 13);
    assert_eq!(cache[1], Some(13));
    // Connected to a node that produces no such output: the fallback.
    let mut g2 = graph();
    g2.connections[3] = Some(4);
    let mut cache2: Vec<Option<i64>> = vec![None; 6];
    assert_eq!(evaluate_input(&g2, 2, "b", &mut cache2, &defs, &run, &-1), -1);
}

#[test]
fn inputs_for_a_run() {
    let g = graph();
    let defs = definitions();
    let runs = RefCell::new(vec![]);
    let run = runner(&runs);
    let mut cache: Vec<Option<i64>> = vec![None; 6];
    let names = vec!["b".to_string(), "a".to_string(), "zzz".to_string()];
    let inputs = evaluate_inputs(&g, 2, &names, &mut cache, &defs, &run, &-1);
    assert_eq!(
        inputs,
        vec![("b".to_string(), 3), ("a".to_string(), 13), ("zzz".to_string(), -1)]
    );
    assert_eq!(kinds_run(&runs), vec!["Const", "Add"]);
}

#[test]
fn finding_definitions() {
    let mut defs = definitions();
    defs.push(NodeDefinition { name: "Add".to_string(), inputs: vec![] });
    assert_eq!(find_definition(&defs, "Add"), Some(1));
    assert_eq!(find_definition(&defs, "Broken"), Some(3));
    assert_eq!(find_definition(&defs, "Mystery"), None);
}

#[test]
fn ports_and_outputs() {
    let ports = vec![("a".to_string(), 4), ("b".to_string(), 5), ("a".to_string(), 6)];
    assert_eq!(find_port(&ports, "a"), Some(4));
    assert_eq!(find_port(&ports, "b"), Some(5));
    assert_eq!(find_port(&ports, "c"), None);
    let g = graph();
    let mut cache: Vec<Option<i64>> = vec![None; 6];
    populate_output(&g, &mut cache, 1, "diff", 7);
    assert_eq!(cache[2], Some(7));
    populate_output(&g, &mut cache, 1, "nothing", 8);
    populate_output(&g, &mut cache, 3, "out", 9);
    assert_eq!(cache, vec![None, None, Some(7), None, None, None]);
}

#[test]
fn storing_a_nodes_outputs() {
    let g = graph();
    let mut cache: Vec<Option<i64>> = vec![None; 6];
    let outputs = vec![
        ("out".to_string(), 1),
        ("diff".to_string(), 2),
        ("unknown".to_string(), 3),
        ("out".to_string(), 4),
    ];
    // The last value named `out` is the one kept and given back.
    assert_eq!(store_outputs(&g, &mut cache, 1, outputs), Some(4));
    assert_eq!(cache, vec![None, Some(4), Some(2), None, None, None]);
    let mut cache2: Vec<Option<i64>> = vec![None; 6];
    assert_eq!(store_outputs(&g, &mut cache2, 1, vec![("diff".to_string(), 5)]), None);
    assert_eq!(cache2, vec![None, None, Some(5), None, None, None]);
    // A removed node stores nothing, though it named an `out`.
    let mut cache3: Vec<Option<i64>> = vec![None; 6];
    assert_eq!(store_outputs(&g, &mut cache3, 3, vec![("out".to_string(), 6)]), Some(6));
    assert_eq!(cache3, vec![None; 6]);
}
