//! Boot credential-posture determination: the closed
//! `(source, marker) -> posture` map. Reading the marker file and building
//! the boot record are the caller's.
use vstd::prelude::*;

verus! {

/// Where the boot credential came from.
#[derive(Debug, Clone, Copy, PartialEq, Eq, Structural)]
pub enum CredentialSource {
    CredentialsDirectory,
    SepSealed,
    PlaintextPath,
}

/// The root-owned provisioning-time attestation: the sealing mechanism, the
/// sealed target path, and when it was written.
#[derive(Debug, Clone, PartialEq, Eq)]
pub struct PostureMarker {
    pub mechanism: String,
    pub target: String,
    pub timestamp: String,
}

/// The mechanism a credentials-directory boot expects its marker to attest.
pub const MECHANISM_TPM2: &'static str = "tpm2";

/// The mechanism a Secure-Enclave-sealed boot expects its marker to attest.
pub const MECHANISM_SEP: &'static str = "sep";

/// The boot credential posture.
#[derive(Debug, Clone, Copy, PartialEq, Eq, Structural)]
pub enum Posture {
    HrotSealed,
    PlaintextDegraded,
    Unverified,
}

/// The token each posture is recorded as.
pub open spec fn posture_token(p: Posture) -> Seq<char> {
    match p {
        Posture::HrotSealed => "hrot_sealed"@,
        Posture::PlaintextDegraded => "plaintext_degraded"@,
        Posture::Unverified => "unverified"@,
    }
}

impl Posture {
    /// The exact token recorded for this posture.
    pub fn as_str(&self) -> (s: &'static str)
        ensures
            s@ == posture_token(*self),
    {
        match self {
            Posture::HrotSealed => "hrot_sealed",
            Posture::PlaintextDegraded => "plaintext_degraded",
            Posture::Unverified => "unverified",
        }
    }
}

/// The mechanism a sealed source's marker must attest.
pub open spec fn expected_mechanism(source: CredentialSource) -> Seq<char> {
    match source {
        CredentialSource::SepSealed => "sep"@,
        _ => "tpm2"@,
    }
}

/// The posture map: a plaintext source is always degraded, whatever marker
/// there is; a sealed source is sealed exactly when a marker attests its
/// mechanism and the expected target, and unverified otherwise.
pub open spec fn posture_of(
    source: CredentialSource,
    marker: Option<PostureMarker>,
    expected_target: Seq<char>,
) -> Posture {
    match source {
        CredentialSource::PlaintextPath => Posture::PlaintextDegraded,
        _ => match marker {
            Some(m) => if m.mechanism@ == expected_mechanism(source) && m.target@
                == expected_target {
                Posture::HrotSealed
            } else {
                Posture::Unverified
            },
            None => Posture::Unverified,
        },
    }
}

/// The `(source, marker) -> posture` decision.
pub fn determine(source: CredentialSource, marker: Option<&PostureMarker>, expected_target: &str) -> (p:
    Posture)
    ensures
        p == posture_of(
            source,
            match marker {
                Some(m) => Some(*m),
                None => None,
            },
            expected_target@,
        ),
{
    match source {
        CredentialSource::PlaintextPath => Posture::PlaintextDegraded,
        CredentialSource::CredentialsDirectory => sealed_posture(
            marker,
            MECHANISM_TPM2,
            expected_target,
        ),
        CredentialSource::SepSealed => sealed_posture(marker, MECHANISM_SEP, expected_target),
    }
}

/// Sealed when a marker attests both the mechanism and the target.
pub fn sealed_posture(marker: Option<&PostureMarker>, expected_mechanism: &str, expected_target: &str) -> (p:
    Posture)
    ensures
        p == match marker {
            Some(m) => if m.mechanism@ == expected_mechanism@ && m.target@ == expected_target@ {
                Posture::HrotSealed
            } else {
                Posture::Unverified
            },
            None => Posture::Unverified,
        },
{
    match marker {
        Some(m) => {
            let mech = String::from_str(expected_mechanism);
            let target = String::from_str(expected_target);
            if m.mechanism == mech && m.target == target {
                Posture::HrotSealed
            } else {
                Posture::Unverified
            }
        },
        None => Posture::Unverified,
    }
}

/// A sealed source with a marker naming its mechanism and the target.
pub open spec fn attests(source: CredentialSource, marker: Option<PostureMarker>, expected_target: Seq<char>) -> bool {
    match marker {
        Some(m) => !(source is PlaintextPath) && m.mechanism@ == expected_mechanism(source)
            && m.target@ == expected_target,
        None => false,
    }
}

/// No marker launders a plaintext secret into a sealed posture, and a sealed
/// source is attested only by a marker naming both its mechanism and this
/// boot's target.
pub proof fn law_only_a_matching_marker_seals(
    source: CredentialSource,
    marker: Option<PostureMarker>,
    expected_target: Seq<char>,
)
    ensures
        source is PlaintextPath ==> posture_of(source, marker, expected_target)
            == Posture::PlaintextDegraded,
        posture_of(source, marker, expected_target) == Posture::HrotSealed <==> attests(
            source,
            marker,
            expected_target,
        ),
{
}

} // verus!
