//! The control plane's timestamp, carried through and never read.

use k8s_openapi::apimachinery::pkg::apis::meta::v1::Time;
use vstd::prelude::*;

verus! {

/// `Time` of k8s-openapi: the instant a taint was put on a node. The library
/// never looks inside one. It takes the value from a node's taint and hands it
/// back in the patch built from that node, so to the verifier the type is
/// opaque and only equality of two values can be spoken of.
#[verifier::external_type_specification]
#[verifier::external_body]
pub struct ExTime(k8s_openapi::apimachinery::pkg::apis::meta::v1::Time);

/// Copies a timestamp with `Time::clone`. k8s-openapi derives that impl for a
/// wrapper around a `Copy` instant, so the copy is trusted to equal the value
/// it was made from; nothing here proves it.
#[verifier::external_body]
pub(crate) fn clone_time(t: &Time) -> (copy: Time)
    ensures
        copy == *t,
{
    t.clone()
}

} // verus!
