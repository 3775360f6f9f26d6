//! Connection-admission decision.
use vstd::prelude::*;

verus! {

/// Outcome of admitting a connection.
#[derive(Debug, Clone, PartialEq, Eq)]
pub enum ConnDecision {
    Permit,
    Deny { reason: String },
}

/// The reason given when the plane certificate half did not verify.
pub open spec fn cert_unverified_reason() -> Seq<char> {
    "plane cert not verified"@
}

/// The reason given when the peer is not a member of the `maknae` group.
pub open spec fn not_in_group_reason() -> Seq<char> {
    "peer uid not in `maknae` group"@
}

/// A connection is admitted only when the certificate verified and the
/// peer's uid belongs to the group; the certificate refusal takes precedence.
pub fn authorize_connection(cert_verified: bool, uid_in_group: bool) -> (d: ConnDecision)
    ensures
        (d is Permit) <==> (cert_verified && uid_in_group),
        !cert_verified ==> (d matches ConnDecision::Deny { reason } && reason@
            == cert_unverified_reason()),
        (cert_verified && !uid_in_group) ==> (d matches ConnDecision::Deny { reason } && reason@
            == not_in_group_reason()),
{
    if cert_verified && uid_in_group {
        ConnDecision::Permit
    } else if !cert_verified {
        ConnDecision::Deny { reason: String::from_str("plane cert not verified") }
    } else {
        ConnDecision::Deny { reason: String::from_str("peer uid not in `maknae` group") }
    }
}

} // verus!
