//! The rules a controller runs with: which taint goes on which nodes.

use crate::timestamp::clone_time;
use k8s_openapi::apimachinery::pkg::apis::meta::v1::Time;
use vstd::prelude::*;

verus! {

/// What an optional text holds, as a sequence of characters.
pub open spec fn opt_text(s: Option<String>) -> Option<Seq<char>> {
    match s {
        Some(t) => Some(t@),
        None => None,
    }
}

/// Compares two optional texts character by character.
pub(crate) fn opt_text_eq(a: &Option<String>, b: &Option<String>) -> (same: bool)
    ensures
        same == (opt_text(*a) == opt_text(*b)),
{
    match (a, b) {
        (Some(x), Some(y)) => *x == *y,
        (None, None) => true,
        _ => false,
    }
}

/// A label selector: a key, and the value the key must carry if one is given.
#[derive(Debug, Clone, PartialEq)]
pub struct Label {
    pub key: String,
    pub value: Option<String>,
}

/// The mathematical content of a [`Label`].
pub struct LabelView {
    pub key: Seq<char>,
    pub value: Option<Seq<char>>,
}

impl View for Label {
    type V = LabelView;

    open spec fn view(&self) -> LabelView {
        LabelView { key: self.key@, value: opt_text(self.value) }
    }
}

/// A taint: key, value and effect. The control plane knows the effects
/// `NoSchedule`, `PreferNoSchedule` and `NoExecute`; the text is kept as it
/// came. `time_added` is the instant the control plane recorded for a taint
/// found on a node: it takes no part in telling two taints apart and is only
/// carried along, so that an update hands it back as it was.
#[derive(Debug)]
pub struct TaintSpec {
    pub key: String,
    pub value: Option<String>,
    pub effect: String,
    pub time_added: Option<Time>,
}

/// The mathematical content of a [`TaintSpec`].
pub struct TaintView {
    pub key: Seq<char>,
    pub value: Option<Seq<char>>,
    pub effect: Seq<char>,
    pub time_added: Option<Time>,
}

impl TaintView {
    /// Two taints are the same taint when key, value and effect all agree.
    pub open spec fn same_taint(self, other: TaintView) -> bool {
        &&& self.key == other.key
        &&& self.value == other.value
        &&& self.effect == other.effect
    }
}

impl View for TaintSpec {
    type V = TaintView;

    open spec fn view(&self) -> TaintView {
        TaintView {
            key: self.key@,
            value: opt_text(self.value),
            effect: self.effect@,
            time_added: self.time_added,
        }
    }
}

/// `==` on taints compares key, value and effect, and nothing else.
impl PartialEq for TaintSpec {
    fn eq(&self, other: &TaintSpec) -> (same: bool) {
        self.key == other.key && opt_text_eq(&self.value, &other.value) && self.effect
            == other.effect
    }
}

impl vstd::std_specs::cmp::PartialEqSpecImpl for TaintSpec {
    open spec fn obeys_eq_spec() -> bool {
        true
    }

    open spec fn eq_spec(&self, other: &TaintSpec) -> bool {
        self@.same_taint(other@)
    }
}

impl Clone for TaintSpec {
    /// A copy with the same content, the recorded instant included.
    fn clone(&self) -> (copy: TaintSpec)
        ensures
            copy == *self,
    {
        TaintSpec {
            key: self.key.clone(),
            value: match &self.value {
                Some(text) => Some(text.clone()),
                None => None,
            },
            effect: self.effect.clone(),
            time_added: match &self.time_added {
                Some(instant) => Some(clone_time(instant)),
                None => None,
            },
        }
    }
}

/// One rule: nodes that `selector` matches must carry `taint`.
#[derive(Debug, Clone, PartialEq)]
pub struct TaintLabel {
    pub taint: TaintSpec,
    pub selector: Label,
}

/// The mathematical content of a [`TaintLabel`].
pub struct TaintLabelView {
    pub taint: TaintView,
    pub selector: LabelView,
}

impl View for TaintLabel {
    type V = TaintLabelView;

    open spec fn view(&self) -> TaintLabelView {
        TaintLabelView { taint: self.taint@, selector: self.selector@ }
    }
}

/// The rules in the order in which they are evaluated, and the selector of
/// nodes to leave alone. The selector is kept as configured; no rule of this
/// library consults it.
#[derive(Debug, Clone, PartialEq)]
pub struct TaintConfig {
    pub label_taints: Vec<TaintLabel>,
    pub igore_label: Option<Label>,
}

/// The mathematical content of a [`TaintConfig`].
pub struct TaintConfigView {
    pub label_taints: Seq<TaintLabelView>,
    pub igore_label: Option<LabelView>,
}

impl View for TaintConfig {
    type V = TaintConfigView;

    open spec fn view(&self) -> TaintConfigView {
        TaintConfigView {
            label_taints: self.label_taints@.map_values(|rule: TaintLabel| rule@),
            igore_label: match self.igore_label {
                Some(label) => Some(label@),
                None => None,
            },
        }
    }
}

/// Why no configuration could be had.
#[derive(Debug, Clone, PartialEq)]
pub struct ConfigurationError {
    pub message: String,
}

impl ConfigurationError {
    /// The error for a configuration source that could not be read.
    pub fn load_failure(cause: &str) -> (err: ConfigurationError)
        ensures
            err.message@ == "Failed to load configuration: "@ + cause@,
    {
        ConfigurationError { message: "Failed to load configuration: ".to_owned().concat(cause) }
    }

    /// The error for a configuration that was read but does not have the
    /// expected shape.
    pub fn parse_failure(cause: &str) -> (err: ConfigurationError)
        ensures
            err.message@ == "Failed to parse configuration: "@ + cause@,
    {
        ConfigurationError { message: "Failed to parse configuration: ".to_owned().concat(cause) }
    }

    /// The error as it is shown to an operator.
    pub fn to_string(&self) -> (text: String)
        ensures
            text@ == "ConfigurationError: "@ + self.message@,
    {
        "ConfigurationError: ".to_owned().concat(self.message.as_str())
    }
}

} // verus!
