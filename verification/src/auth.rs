//! The authorization policy: does a principal hold administrator rights over
//! an asset class?
//!
//! The asset registry reports, per denomination, a list of access grants. A
//! principal is an administrator exactly when some grant names it and its
//! permission set includes the administrator capability — no other capability
//! qualifies.
use vstd::prelude::*;

verus! {

/// A capability a grant can carry on an asset class.
#[derive(Clone, Copy, Debug, PartialEq, Eq, Structural)]
pub enum MarkerAccess {
    Admin,
    Burn,
    Delete,
    Deposit,
    Mint,
    Transfer,
    Withdraw,
}

/// One permission grant of the asset registry: a principal and the
/// capabilities it holds on the asset class in question.
#[derive(Debug, PartialEq)]
pub struct AccessGrant {
    pub address: String,
    pub permissions: Vec<MarkerAccess>,
}

/// The mathematical shape of an `AccessGrant`.
pub struct AccessGrantV {
    pub address: Seq<char>,
    pub permissions: Seq<MarkerAccess>,
}

impl View for AccessGrant {
    type V = AccessGrantV;

    open spec fn view(&self) -> AccessGrantV {
        AccessGrantV { address: self.address@, permissions: self.permissions@ }
    }
}

impl Clone for AccessGrant {
    fn clone(&self) -> (r: Self)
        ensures
            r@ == self@,
    {
        AccessGrant { address: self.address.clone(), permissions: self.permissions.clone() }
    }
}

/// The view of a grant list.
pub open spec fn grants_view(grants: Seq<AccessGrant>) -> Seq<AccessGrantV> {
    grants.map_values(|g: AccessGrant| g@)
}

/// Whether, under the grants the registry reports for an asset class,
/// `principal` holds the administrator capability on it.
pub open spec fn spec_is_administrator(grants: Seq<AccessGrantV>, principal: Seq<char>) -> bool {
    exists|i: int|
        0 <= i < grants.len() && grants[i].address == principal && grants[i].permissions.contains(
            MarkerAccess::Admin,
        )
}

/// Whether one grant's permission set includes the administrator capability.
fn has_admin_permission(grant: &AccessGrant) -> (b: bool)
    ensures
        b == grant@.permissions.contains(MarkerAccess::Admin),
{
    let mut i: usize = 0;
    while i < grant.permissions.len()
        invariant
            i <= grant.permissions.len(),
            forall|j: int| 0 <= j < i ==> grant@.permissions[j] != MarkerAccess::Admin,
        decreases grant.permissions.len() - i,
    {
        if grant.permissions[i] == MarkerAccess::Admin {
            return true;
        }
        i = i + 1;
    }
    false
}

/// Whether `principal` is an administrator of the asset class whose grants the
/// registry reported as `grants`.
pub fn is_administrator(grants: &Vec<AccessGrant>, principal: &String) -> (b: bool)
    ensures
        b == spec_is_administrator(grants_view(grants@), principal@),
{
    let mut i: usize = 0;
    while i < grants.len()
        invariant
            i <= grants.len(),
            forall|j: int| 0 <= j < i ==>
                !(grants_view(grants@)[j].address == principal@
                    && grants_view(grants@)[j].permissions.contains(MarkerAccess::Admin)),
        decreases grants.len() - i,
    {
        if grants[i].address == *principal && has_admin_permission(&grants[i]) {
            proof {
                let gv = grants_view(grants@);
                assert(gv[i as int].address == principal@ && gv[i as int].permissions.contains(
                    MarkerAccess::Admin,
                ));
            }
            return true;
        }
        i = i + 1;
    }
    false
}

} // verus!
