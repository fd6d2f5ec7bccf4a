//! The bookkeeping of the graph editor that does not depend on how it draws.
use vstd::prelude::*;
use crate::text::same_text;
use vstd::std_specs::cmp::PartialEqSpec;

verus! {

/// What the editor is doing with a node: playing it, recording it, or
/// neither. `Id` is the editor's node identifier.
#[derive(Clone, Copy, Debug, PartialEq, Eq)]
pub enum ActiveNodeState<Id> {
    PlayingNode(Id),
    RecordingNode(Id),
    NoNode,
}

impl<Id> ActiveNodeState<Id> {
    /// Whether a node is being played.
    pub fn is_playing(&self) -> (r: bool)
        ensures
            r == (*self is PlayingNode),
    {
        match self {
            ActiveNodeState::PlayingNode(_) => true,
            _ => false,
        }
    }
}

impl<Id> Default for ActiveNodeState<Id> {
    /// No node is active.
    fn default() -> (r: Self)
        ensures
            r is NoNode,
    {
        ActiveNodeState::NoNode
    }
}

/// The label that marks the node a plugin host plays.
pub open spec fn output_label() -> Seq<char> {
    "Output"@
}

/// The node a plugin host plays, among the editor's nodes given with their
/// labels in the editor's order: the last one labelled `Output`, if any.
pub fn output_node_id<Id: Copy>(nodes: &Vec<(Id, String)>) -> (r: Option<Id>)
    ensures
        r is None <==> forall|i: int| 0 <= i < nodes@.len() ==> (#[trigger] nodes@[i]).1@ != output_label(),
        r matches Some(id) ==> exists|i: int|
            0 <= i < nodes@.len() && (#[trigger] nodes@[i]).0 == id && nodes@[i].1@ == output_label()
                && forall|j: int| i < j < nodes@.len() ==> (#[trigger] nodes@[j]).1@ != output_label(),
{
    let mut found: Option<Id> = None;
    let ghost mut at: int = -1;
    let mut k: usize = 0;
    while k < nodes.len()
        invariant
            k <= nodes@.len(),
            -1 <= at < k,
            found is None <==> at == -1,
            found is None ==> forall|i: int| 0 <= i < k ==> (#[trigger] nodes@[i]).1@ != output_label(),
            found matches Some(id) ==> nodes@[at].0 == id && nodes@[at].1@ == output_label()
                && forall|j: int| at < j < k ==> (#[trigger] nodes@[j]).1@ != output_label(),
        decreases nodes@.len() - k,
    {
        if same_text(nodes[k].1.as_str(), "Output") {
            found = Some(nodes[k].0);
            proof {
                at = k as int;
            }
        }
        k = k + 1;
    }
    proof {
        if let Some(id) = found {
            assert(0 <= at < nodes@.len() && nodes@[at].0 == id);
        }
    }
    found
}

/// Whether `node` is the node being played.
pub open spec fn playing_here<Id: PartialEq>(active: ActiveNodeState<Id>, node: Id) -> bool {
    active matches ActiveNodeState::PlayingNode(x) && x.eq_spec(&node)
}

/// Whether a node's button offers to stop it (it is the node being played)
/// rather than to play it.
pub fn shows_stop<Id: PartialEq>(active: &ActiveNodeState<Id>, node: &Id) -> (r: bool)
    ensures
        !(*active is PlayingNode) ==> !r,
        Id::obeys_eq_spec() ==> r == playing_here(*active, *node),
{
    match active {
        ActiveNodeState::PlayingNode(x) => *x == *node,
        _ => false,
    }
}

/// What a click on a node's button asks of the editor, if anything: Stop
/// (on the node being played) makes no node active; Play makes the node the
/// one played, but only while no node is active, and does nothing else.
/// Whatever it asks marks the active node as changed.
pub fn button_clicked<Id: PartialEq + Copy>(active: &ActiveNodeState<Id>, node: Id) -> (r: Option<
    ActiveNodeState<Id>,
>)
    ensures
        *active is NoNode ==> r == Some(ActiveNodeState::PlayingNode(node)),
        *active is RecordingNode ==> r is None,
        *active is PlayingNode ==> r is None || r == Some(ActiveNodeState::<Id>::NoNode),
        Id::obeys_eq_spec() ==> r == (if playing_here(*active, node) {
            Some(ActiveNodeState::NoNode)
        } else if *active is NoNode {
            Some(ActiveNodeState::PlayingNode(node))
        } else {
            None
        }),
{
    if shows_stop(active, &node) {
        Some(ActiveNodeState::NoNode)
    } else {
        match active {
            ActiveNodeState::NoNode => Some(ActiveNodeState::PlayingNode(node)),
            _ => None,
        }
    }
}

} // verus!
