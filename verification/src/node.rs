//! A node as one watch event shows it, and the update built for it.

use crate::config::{opt_text, TaintSpec, TaintView};
use crate::labels::LabelMap;
use vstd::prelude::*;

verus! {

/// What a list of taints holds, entry by entry.
pub open spec fn taint_views(taints: Seq<TaintSpec>) -> Seq<TaintView> {
    taints.map_values(|taint: TaintSpec| taint@)
}

/// A node as one watch event shows it.
///
/// `name` is what an update is addressed by: one built for a node without a
/// name has none either and cannot be sent. `labels` is `None` for a node
/// that carries no label map at all. `taints` is `None` for a node whose
/// event held no `spec`, the part of a node in which its taints are listed; a
/// node with a `spec` and no taints has `Some` of an empty list.
#[derive(Debug, Clone)]
pub struct NodeSnapshot {
    pub name: Option<String>,
    pub namespace: Option<String>,
    pub labels: Option<LabelMap>,
    pub taints: Option<Vec<TaintSpec>>,
}

/// The mathematical content of a [`NodeSnapshot`].
pub struct NodeView {
    pub name: Option<Seq<char>>,
    pub namespace: Option<Seq<char>>,
    pub labels: Option<Map<Seq<char>, Seq<char>>>,
    pub taints: Option<Seq<TaintView>>,
}

impl NodeView {
    /// The node carries a label with this key, whatever its value.
    pub open spec fn has_label_key(self, key: Seq<char>) -> bool {
        self.labels matches Some(labels) && labels.contains_key(key)
    }

    /// The node carries a label with this key and exactly this value.
    pub open spec fn has_label(self, key: Seq<char>, value: Seq<char>) -> bool {
        self.labels matches Some(labels) && labels.contains_key(key) && labels[key] == value
    }

    /// The taints on the node, none where the event told of none.
    pub open spec fn current_taints(self) -> Seq<TaintView> {
        match self.taints {
            Some(taints) => taints,
            None => Seq::empty(),
        }
    }
}

impl View for NodeSnapshot {
    type V = NodeView;

    open spec fn view(&self) -> NodeView {
        NodeView {
            name: opt_text(self.name),
            namespace: opt_text(self.namespace),
            labels: match self.labels {
                Some(labels) => Some(labels@),
                None => None,
            },
            taints: match self.taints {
                Some(taints) => Some(taint_views(taints@)),
                None => None,
            },
        }
    }
}

/// The update sent for a node: the node it is addressed to, and the full
/// list of taints the node is to carry from then on.
#[derive(Debug, Clone, PartialEq)]
pub struct PatchDocument {
    pub name: Option<String>,
    pub namespace: Option<String>,
    pub taints: Vec<TaintSpec>,
}

/// The mathematical content of a [`PatchDocument`].
pub struct PatchView {
    pub name: Option<Seq<char>>,
    pub namespace: Option<Seq<char>>,
    pub taints: Seq<TaintView>,
}

impl View for PatchDocument {
    type V = PatchView;

    open spec fn view(&self) -> PatchView {
        PatchView {
            name: opt_text(self.name),
            namespace: opt_text(self.namespace),
            taints: taint_views(self.taints@),
        }
    }
}

} // verus!
