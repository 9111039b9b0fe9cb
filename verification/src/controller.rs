//! What to do for one node: match its labels, look for the taint, build the
//! update.

use crate::config::{
    opt_text_eq, Label, LabelView, TaintConfig, TaintLabelView, TaintSpec, TaintView,
};
use crate::node::{taint_views, NodeSnapshot, NodeView, PatchDocument, PatchView};
use vstd::prelude::*;

verus! {

/// A selector without a value matches a node that has the key; one with a
/// value matches a node that has the key with exactly that value.
pub open spec fn selector_matches(selector: LabelView, node: NodeView) -> bool {
    match selector.value {
        None => node.has_label_key(selector.key),
        Some(value) => node.has_label(selector.key, value),
    }
}

/// Whether the node's labels satisfy the selector.
pub fn node_matches_labels(label: &Label, node: &NodeSnapshot) -> (matched: bool)
    ensures
        matched == selector_matches(label@, node@),
        label.value is None ==> (matched <==> node@.has_label_key(label.key@)),
        label.value matches Some(value) ==> (matched <==> node@.has_label(label.key@, value@)),
        node.labels is None ==> !matched,
{
    let labels = match &node.labels {
        Some(labels) => labels,
        None => return false,
    };
    let entry = match labels.get(&label.key) {
        Some(entry) => entry,
        None => return false,
    };
    match &label.value {
        None => true,
        Some(value) => *entry == *value,
    }
}

/// Some entry of the list has the key, the value and the effect of `taint`.
pub open spec fn taint_present(taints: Seq<TaintView>, taint: TaintView) -> bool {
    exists|i: int| 0 <= i < taints.len() && (#[trigger] taints[i]).same_taint(taint)
}

/// Whether the list already holds the taint. An entry that differs in key,
/// value or effect does not count.
pub fn contains_taint(taints: &Vec<TaintSpec>, taint: &TaintSpec) -> (present: bool)
    ensures
        present == taint_present(taint_views(taints@), taint@),
{
    for present_taint in it: taints
        invariant
            forall|j: int|
                0 <= j < it.index() ==> !(#[trigger] taint_views(taints@)[j]).same_taint(taint@),
    {
        if present_taint.key == taint.key && opt_text_eq(&present_taint.value, &taint.value)
            && present_taint.effect == taint.effect {
            assert(taint_views(taints@)[it.index() as int].same_taint(taint@));
            return true;
        }
    }
    false
}

/// The update that adds `taint` to `node`: addressed to the node, and
/// listing the node's taints as they stand followed by `taint`.
pub open spec fn patch_for(node: NodeView, taint: TaintView) -> PatchView {
    PatchView {
        name: node.name,
        namespace: node.namespace,
        taints: node.current_taints().push(taint),
    }
}

/// Builds the update that adds `taint` to `node`. Every taint of the node
/// stays, in its place; `taint` comes last.
pub fn patch_taints(node: &NodeSnapshot, taint: &TaintSpec) -> (patch: PatchDocument)
    ensures
        patch@ == patch_for(node@, taint@),
        patch@.taints == node@.current_taints().push(taint@),
{
    let mut taints: Vec<TaintSpec> = match &node.taints {
        Some(present) => present.clone(),
        None => Vec::new(),
    };
    taints.push(taint.clone());
    assert(taint_views(taints@) =~= node@.current_taints().push(taint@));
    PatchDocument {
        name: match &node.name {
            Some(name) => Some(name.clone()),
            None => None,
        },
        namespace: match &node.namespace {
            Some(namespace) => Some(namespace.clone()),
            None => None,
        },
        taints,
    }
}

/// What one rule asks for on a node it matches.
#[derive(Debug, Clone, PartialEq)]
pub enum TaintDecision {
    /// The event held no spec for the node: there is nothing to do.
    NoSpec,
    /// The node carries the taint already: there is nothing to do.
    AlreadyPresent,
    /// The node lacks the taint: this update is to be submitted.
    Patch(PatchDocument),
}

/// The mathematical content of a [`TaintDecision`].
pub enum DecisionView {
    NoSpec,
    AlreadyPresent,
    Patch(PatchView),
}

impl View for TaintDecision {
    type V = DecisionView;

    open spec fn view(&self) -> DecisionView {
        match self {
            TaintDecision::NoSpec => DecisionView::NoSpec,
            TaintDecision::AlreadyPresent => DecisionView::AlreadyPresent,
            TaintDecision::Patch(patch) => DecisionView::Patch(patch@),
        }
    }
}

/// What a list of decisions holds, entry by entry.
pub open spec fn decision_views(decisions: Seq<TaintDecision>) -> Seq<DecisionView> {
    decisions.map_values(|decision: TaintDecision| decision@)
}

/// What `taint` asks for on `node`: nothing where the node has no spec or
/// carries the taint, else the update that adds it.
pub open spec fn decision_for(node: NodeView, taint: TaintView) -> DecisionView {
    match node.taints {
        None => DecisionView::NoSpec,
        Some(taints) => if taint_present(taints, taint) {
            DecisionView::AlreadyPresent
        } else {
            DecisionView::Patch(patch_for(node, taint))
        },
    }
}

/// Decides what `taint` asks for on `node`, which a rule with that taint has
/// matched.
pub fn process_event_for_taint(node: &NodeSnapshot, taint: &TaintSpec) -> (decision: TaintDecision)
    ensures
        decision@ == decision_for(node@, taint@),
{
    let taints = match &node.taints {
        Some(taints) => taints,
        None => return TaintDecision::NoSpec,
    };
    if contains_taint(taints, taint) {
        return TaintDecision::AlreadyPresent;
    }
    TaintDecision::Patch(patch_taints(node, taint))
}

/// What one rule asks for on `node`: no decision at all where its selector
/// does not match.
pub open spec fn rule_decision(node: NodeView, rule: TaintLabelView) -> Option<DecisionView> {
    if selector_matches(rule.selector, node) {
        Some(decision_for(node, rule.taint))
    } else {
        None
    }
}

/// [`rule_decision`] for a fixed node, as a function of the rule.
pub open spec fn rule_decider(node: NodeView) -> spec_fn(TaintLabelView) -> Option<DecisionView> {
    |rule: TaintLabelView| rule_decision(node, rule)
}

/// The decisions of all rules on `node`: one for each rule whose selector
/// matches, in the order of the rules. Each is taken from the node as the
/// event showed it, whatever the rules before it decided.
pub open spec fn decisions_for(node: NodeView, rules: Seq<TaintLabelView>) -> Seq<DecisionView> {
    rules.filter_map(rule_decider(node))
}

/// Holds `node` against every rule of `config`, in order, and returns what
/// the matching rules ask for.
pub fn reconcile_node(node: &NodeSnapshot, config: &TaintConfig) -> (decisions: Vec<TaintDecision>)
    ensures
        decision_views(decisions@) == decisions_for(node@, config@.label_taints),
{
    let ghost rules = config@.label_taints;
    let mut decisions: Vec<TaintDecision> = Vec::new();
    for label_taint in it: &config.label_taints
        invariant
            rules == config@.label_taints,
            decision_views(decisions@) == decisions_for(node@, rules.take(it.index() as int)),
    {
        proof {
            rules.lemma_filter_map_take_succ(rule_decider(node@), it.index() as int);
        }
        if node_matches_labels(&label_taint.selector, node) {
            decisions.push(process_event_for_taint(node, &label_taint.taint));
        }
    }
    assert(rules.take(rules.len() as int) == rules);
    decisions
}

/// A list whose entries all differ from `taint` in effect does not hold it,
/// whatever keys and values they share with it.
pub proof fn lemma_other_effect_is_absent(taints: Seq<TaintView>, taint: TaintView)
    requires
        forall|i: int| 0 <= i < taints.len() ==> (#[trigger] taints[i]).effect != taint.effect,
    ensures
        !taint_present(taints, taint),
{
}

/// The update of a decision, if it is one to submit.
pub open spec fn patch_of(decision: DecisionView) -> Option<PatchView> {
    match decision {
        DecisionView::Patch(patch) => Some(patch),
        _ => None,
    }
}

/// [`patch_of`] as a function.
pub open spec fn patch_picker() -> spec_fn(DecisionView) -> Option<PatchView> {
    |decision: DecisionView| patch_of(decision)
}

/// The updates that a list of decisions has submitted, in order.
pub open spec fn submitted(decisions: Seq<DecisionView>) -> Seq<PatchView> {
    decisions.filter_map(patch_picker())
}

/// The node as the control plane holds it once `patch` is applied and
/// nothing else has touched it: the taints are those of the update, the rest
/// is as before.
pub open spec fn node_after(node: NodeView, patch: PatchView) -> NodeView {
    NodeView { taints: Some(patch.taints), ..node }
}

/// What `filter_map` makes of an element that it keeps is in its result.
proof fn lemma_filter_map_keeps<A, B>(s: Seq<A>, f: spec_fn(A) -> Option<B>, i: int)
    requires
        0 <= i < s.len(),
        f(s[i]) is Some,
    ensures
        s.filter_map(f).contains(f(s[i])->0),
    decreases s.len(),
{
    let kept = f(s[i])->0;
    let rest = s.drop_last().filter_map(f);
    if i == s.len() - 1 {
        assert((rest + seq![kept])[rest.len() as int] == kept);
    } else {
        lemma_filter_map_keeps(s.drop_last(), f, i);
        let j = choose|j: int| 0 <= j < rest.len() && rest[j] == kept;
        assert(s.filter_map(f)[j] == kept);
    }
}

/// Every update that a run submits was asked for by a rule that matches the
/// node and whose taint the node lacks.
proof fn lemma_submitted_has_a_rule(node: NodeView, rules: Seq<TaintLabelView>, patch: PatchView)
    requires
        submitted(decisions_for(node, rules)).contains(patch),
    ensures
        exists|rule: TaintLabelView| #[trigger]
            rules.contains(rule) && rule_decision(node, rule) == Some(DecisionView::Patch(patch)),
{
    let run = decisions_for(node, rules);
    run.lemma_filter_map_contains(patch_picker(), patch);
    let decision = choose|decision: DecisionView| #[trigger]
        run.contains(decision) && patch_picker()(decision) == Some(patch);
    rules.lemma_filter_map_contains(rule_decider(node), decision);
    let rule = choose|rule: TaintLabelView| #[trigger]
        rules.contains(rule) && rule_decider(node)(rule) == Some(decision);
    assert(rules.contains(rule) && rule_decision(node, rule) == Some(DecisionView::Patch(patch)));
}

/// The update that a rule asks for is among those that the run submits.
proof fn lemma_rule_patch_is_submitted(
    node: NodeView,
    rules: Seq<TaintLabelView>,
    rule: TaintLabelView,
    patch: PatchView,
)
    requires
        rules.contains(rule),
        rule_decision(node, rule) == Some(DecisionView::Patch(patch)),
    ensures
        submitted(decisions_for(node, rules)).contains(patch),
{
    let run = decisions_for(node, rules);
    let i = choose|i: int| 0 <= i < rules.len() && rules[i] == rule;
    lemma_filter_map_keeps(rules, rule_decider(node), i);
    let k = choose|k: int| 0 <= k < run.len() && run[k] == DecisionView::Patch(patch);
    lemma_filter_map_keeps(run, patch_picker(), k);
}

/// Once the update that a taint asked for is applied, the taint asks for
/// nothing more: the same node, seen again, carries it.
pub proof fn lemma_applied_taint_is_present(node: NodeView, taint: TaintView)
    ensures
        decision_for(node, taint) matches DecisionView::Patch(patch) ==> decision_for(
            node_after(node, patch),
            taint,
        ) == DecisionView::AlreadyPresent,
{
    match decision_for(node, taint) {
        DecisionView::Patch(patch) => {
            assert(patch.taints.last().same_taint(taint));
        },
        _ => {},
    }
}

/// Reconciling a node twice submits at most one update in all, if the first
/// run submits at most one and the node is seen again as that update left it:
/// the second run finds every taint in place.
///
/// A first run that submits several updates is left out. Each of them lists
/// the node's taints as the event showed them and one more, so none holds
/// what the others add.
pub proof fn lemma_second_run_submits_nothing(node: NodeView, rules: Seq<TaintLabelView>)
    requires
        submitted(decisions_for(node, rules)).len() <= 1,
    ensures
        ({
            let first = submitted(decisions_for(node, rules));
            let seen_again = if first.len() == 1 {
                node_after(node, first[0])
            } else {
                node
            };
            first.len() + submitted(decisions_for(seen_again, rules)).len() <= 1
        }),
{
    let first = submitted(decisions_for(node, rules));
    if first.len() == 1 {
        let patch = first[0];
        let seen_again = node_after(node, patch);
        let second = submitted(decisions_for(seen_again, rules));
        // The update lists the node's taints as they were, and one more.
        lemma_submitted_has_a_rule(node, rules, patch);
        let maker = choose|rule: TaintLabelView| #[trigger]
            rules.contains(rule) && rule_decision(node, rule) == Some(DecisionView::Patch(patch));
        assert(patch == patch_for(node, maker.taint));
        assert(second.len() == 0) by {
            if second.len() > 0 {
                // Suppose a rule asks for an update on the node as it is
                // seen again.
                lemma_submitted_has_a_rule(seen_again, rules, second[0]);
                let rule = choose|rule: TaintLabelView| #[trigger]
                    rules.contains(rule) && rule_decision(seen_again, rule) == Some(
                        DecisionView::Patch(second[0]),
                    );
                // The node lacked the rule's taint before as well: every
                // taint that it had is still there.
                assert(!taint_present(node.current_taints(), rule.taint)) by {
                    if taint_present(node.current_taints(), rule.taint) {
                        let j = choose|j: int|
                            0 <= j < node.current_taints().len() && (
                            #[trigger] node.current_taints()[j]).same_taint(rule.taint);
                        assert(patch.taints[j].same_taint(rule.taint));
                    }
                }
                // So the rule asked for an update in the first run too. That
                // update is the one submitted, and what it added is the
                // rule's taint, which the node therefore carries.
                lemma_rule_patch_is_submitted(node, rules, rule, patch_for(node, rule.taint));
                assert(patch == patch_for(node, rule.taint));
                assert(patch.taints.last().same_taint(rule.taint));
            }
        }
    }
}

/// With a single rule, reconciling a node twice submits at most one update
/// in all, whatever the node and the rule: if the first run submits one, the
/// second, on the node as that update left it, submits none.
pub proof fn lemma_one_rule_submits_once(node: NodeView, rule: TaintLabelView)
    ensures
        ({
            let first = submitted(decisions_for(node, seq![rule]));
            let seen_again = if first.len() == 1 {
                node_after(node, first[0])
            } else {
                node
            };
            first.len() + submitted(decisions_for(seen_again, seq![rule])).len() <= 1
        }),
{
    let run = decisions_for(node, seq![rule]);
    Seq::lemma_filter_map_singleton(rule, rule_decider(node));
    if run.len() == 1 {
        Seq::lemma_filter_map_singleton(run[0], patch_picker());
    }
    lemma_second_run_submits_nothing(node, seq![rule]);
}

} // verus!
