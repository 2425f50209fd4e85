//! Membership of an actor in a workspace.
use crate::domain::{ActorReference, ActorReferenceModel};
use vstd::prelude::*;

verus! {

/// Where a membership stands.
#[derive(Clone, Copy, Debug, PartialEq, Eq, Structural)]
pub enum MembershipStatus {
    Active,
    Invited,
    Revoked,
}

/// An actor's membership in a workspace.
#[derive(Debug)]
pub struct WorkspaceMembership {
    pub id: String,
    pub workspace_id: String,
    pub actor_ref: ActorReference,
    pub status: MembershipStatus,
    pub joined_at: String,
    pub revoked_at: Option<String>,
}

pub struct WorkspaceMembershipModel {
    pub id: Seq<char>,
    pub workspace_id: Seq<char>,
    pub actor_ref: ActorReferenceModel,
    pub status: MembershipStatus,
    pub joined_at: Seq<char>,
    pub revoked_at: Option<Seq<char>>,
}

impl DeepView for WorkspaceMembership {
    type V = WorkspaceMembershipModel;

    open spec fn deep_view(&self) -> WorkspaceMembershipModel {
        WorkspaceMembershipModel {
            id: self.id@,
            workspace_id: self.workspace_id@,
            actor_ref: self.actor_ref.deep_view(),
            status: self.status,
            joined_at: self.joined_at@,
            revoked_at: self.revoked_at.deep_view(),
        }
    }
}

impl Clone for WorkspaceMembership {
    fn clone(&self) -> (r: Self)
        ensures
            r.deep_view() == self.deep_view(),
    {
        WorkspaceMembership {
            id: self.id.clone(),
            workspace_id: self.workspace_id.clone(),
            actor_ref: self.actor_ref.clone(),
            status: self.status,
            joined_at: self.joined_at.clone(),
            revoked_at: crate::domain::clone_opt_text(&self.revoked_at),
        }
    }
}

impl WorkspaceMembership {
    /// Whether the membership is active.
    pub fn is_active(&self) -> (r: bool)
        ensures
            r == (self.status == MembershipStatus::Active),
    {
        self.status == MembershipStatus::Active
    }
}

} // verus!
