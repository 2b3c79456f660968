//! Carrying out a plan that takes a role away from a user or from a role.

use crate::exception::ErrorCode;
use vstd::prelude::*;

verus! {

/// A user, by name and by the host they connect from.
#[derive(Debug)]
pub struct UserIdentity {
    pub username: String,
    pub hostname: String,
}

/// Who holds a role: a user, or another role.
#[derive(Debug)]
pub enum PrincipalIdentity {
    User(UserIdentity),
    Role(String),
}

/// The plan to take `role` away from `principal`.
#[derive(Debug)]
pub struct RevokeRolePlan {
    pub principal: PrincipalIdentity,
    pub role: String,
}

/// What the user manager is asked to do.
#[derive(Debug)]
pub enum RevokeRequest {
    /// Take `role` away from the user.
    FromUser { tenant: String, user: UserIdentity, role: String },
    /// Take `role` away from the role `from`.
    FromRole { tenant: String, from: String, role: String },
}

/// A request to the user manager as a value.
pub ghost enum RevokeRequestView {
    FromUser { tenant: Seq<char>, username: Seq<char>, hostname: Seq<char>, role: Seq<char> },
    FromRole { tenant: Seq<char>, from: Seq<char>, role: Seq<char> },
}

impl View for RevokeRequest {
    type V = RevokeRequestView;

    open spec fn view(&self) -> RevokeRequestView {
        match self {
            RevokeRequest::FromUser { tenant, user, role } => RevokeRequestView::FromUser {
                tenant: tenant@,
                username: user.username@,
                hostname: user.hostname@,
                role: role@,
            },
            RevokeRequest::FromRole { tenant, from, role } => RevokeRequestView::FromRole {
                tenant: tenant@,
                from: from@,
                role: role@,
            },
        }
    }
}

/// The request that carries out `plan` for `tenant`.
pub open spec fn request_for(tenant: Seq<char>, plan: RevokeRolePlan) -> RevokeRequestView {
    match plan.principal {
        PrincipalIdentity::User(user) => RevokeRequestView::FromUser {
            tenant,
            username: user.username@,
            hostname: user.hostname@,
            role: plan.role@,
        },
        PrincipalIdentity::Role(from) => RevokeRequestView::FromRole {
            tenant,
            from: from@,
            role: plan.role@,
        },
    }
}

/// Carries out one plan on behalf of one tenant.
#[derive(Debug)]
pub struct RevokeRoleInterpreter {
    tenant: String,
    plan: RevokeRolePlan,
}

impl RevokeRoleInterpreter {
    /// The tenant on whose behalf the plan is carried out.
    pub closed spec fn tenant(&self) -> Seq<char> {
        self.tenant@
    }

    /// The plan that is carried out.
    pub closed spec fn plan(&self) -> RevokeRolePlan {
        self.plan
    }

    /// An interpreter for `plan`, acting for `tenant`.
    pub fn try_create(tenant: String, plan: RevokeRolePlan) -> (r: Result<Self, ErrorCode>)
        ensures
            r matches Ok(interpreter) && interpreter.tenant() == tenant@ && interpreter.plan()
                == plan,
    {
        Ok(RevokeRoleInterpreter { tenant, plan })
    }

    /// The name of this kind of interpreter.
    pub fn name(&self) -> (name: &'static str)
        ensures
            name@ == "RevokeRoleInterpreter"@,
    {
        "RevokeRoleInterpreter"
    }

    /// The one request to the user manager that carries out the plan. Once
    /// the manager has granted it, the statement is done and has no rows to show.
    pub fn execute(&self) -> (request: RevokeRequest)
        ensures
            request@ == request_for(self.tenant(), self.plan()),
    {
        match &self.plan.principal {
            PrincipalIdentity::User(user) => RevokeRequest::FromUser {
                tenant: self.tenant.clone(),
                user: UserIdentity {
                    username: user.username.clone(),
                    hostname: user.hostname.clone(),
                },
                role: self.plan.role.clone(),
            },
            PrincipalIdentity::Role(from) => RevokeRequest::FromRole {
                tenant: self.tenant.clone(),
                from: from.clone(),
                role: self.plan.role.clone(),
            },
        }
    }
}

} // verus!
