//! The rules of the action dispatcher that do not touch the network: which
//! restart method each resource type admits.

use vstd::prelude::*;

use crate::types::ResourceType;

verus! {

/// How a resource is restarted: pods by deletion (their controller
/// recreates them), stateful sets by a rollout-restart annotation patch.
#[derive(Clone, Copy, Debug, PartialEq, Eq, Structural)]
pub enum RestartMethod {
    DeleteAndRecreate,
    RolloutPatch,
}

/// The restart method for a resource type. Persistent-volume claims cannot
/// be restarted: the request is rejected here and never attempted.
pub fn restart_method(resource_type: ResourceType) -> (r: Result<RestartMethod, String>)
    ensures
        resource_type is Pods ==> r == Ok::<RestartMethod, String>(RestartMethod::DeleteAndRecreate),
        resource_type is StatefulSets ==> r == Ok::<RestartMethod, String>(
            RestartMethod::RolloutPatch,
        ),
        resource_type is PersistentVolumeClaims ==> (r matches Err(m)
            && m@ == "PVCs cannot be restarted"@),
{
    match resource_type {
        ResourceType::Pods => Ok(RestartMethod::DeleteAndRecreate),
        ResourceType::StatefulSets => Ok(RestartMethod::RolloutPatch),
        ResourceType::PersistentVolumeClaims => Err("PVCs cannot be restarted".to_owned()),
    }
}

} // verus!
