//! Fail-closed boot gates: the daemon constructs its policy decision point
//! at boot or refuses to start; it refuses a configuration that promises
//! audit offload it cannot perform; and it refuses a registered provider
//! whose credential path lies outside the egress grant.
use crate::paths::{bytes_of, starts_with, str_bytes, bytes_start_with, SLASH};
use vstd::prelude::*;

verus! {

/// The enrolled principal the policy decision point keys on.
#[derive(Debug, Clone, PartialEq, Eq)]
pub struct Principal {
    pub name: String,
    pub uid: u32,
    pub home: String,
}

/// A field-for-field copy of a principal.
fn copy_principal(p: &Principal) -> (r: Principal)
    ensures
        r == *p,
{
    Principal { name: p.name.clone(), uid: p.uid, home: p.home.clone() }
}

/// Why boot was refused at the authorization gate.
#[derive(Debug, Clone, PartialEq, Eq)]
pub enum AuthzBootRefusal {
    /// No `principal` section: nothing to key the enrolled default on.
    MissingPrincipal,
    /// The decision point refused construction; its rendered reason.
    Construct(String),
}

impl AuthzBootRefusal {
    /// The refusal as it is rendered into the boot record and the exit message.
    pub fn to_string(&self) -> (s: String)
        ensures
            self is MissingPrincipal ==> s@
                == "config has no `principal` section: the daemon cannot authorize anyone (enroll first)"@,
            self matches AuthzBootRefusal::Construct(e) ==> s@ == e@,
    {
        match self {
            AuthzBootRefusal::MissingPrincipal => String::from_str(
                "config has no `principal` section: the daemon cannot authorize anyone (enroll first)",
            ),
            AuthzBootRefusal::Construct(e) => e.clone(),
        }
    }
}

/// The policy file's path beneath a configuration directory, joined the way a
/// filesystem path joins one relative component.
pub open spec fn policy_path(config_dir: Seq<char>) -> Seq<char> {
    if config_dir.len() == 0 {
        "authz.yaml"@
    } else if config_dir.last() == '/' {
        config_dir + "authz.yaml"@
    } else {
        config_dir + "/authz.yaml"@
    }
}

/// The policy file's path beneath a configuration directory.
pub fn policy_file_path(config_dir: &str) -> (p: String)
    ensures
        p@ == policy_path(config_dir@),
{
    let b = str_bytes(config_dir);
    if b.len() == 0 {
        return String::from_str("authz.yaml");
    }
    let mut p = String::from_str(config_dir);
    proof {
        vstd::utf8::encode_utf8_first_scalar(config_dir@);
    }
    if ends_with_slash(config_dir) {
        p.append("authz.yaml");
    } else {
        p.append("/authz.yaml");
    }
    p
}

/// Whether a string's last character is `/`.
fn ends_with_slash(s: &str) -> (r: bool)
    requires
        s@.len() > 0,
    ensures
        r == (s@.last() == '/'),
{
    let n = s.unicode_len();
    s.get_char(n - 1) == '/'
}

/// Construct the boot-time decision point or refuse: no principal refuses
/// before anything is constructed; otherwise the constructor is handed the
/// policy file beneath `config_dir` and the principal, and its refusal is
/// carried as `Construct`. On success the principal is returned alongside.
pub fn authz_boot_gate_with<A, F: FnOnce(String, Principal) -> Result<A, String>>(
    config_dir: &str,
    principal: Option<Principal>,
    construct: F,
) -> (r: Result<(A, Principal), AuthzBootRefusal>)
    requires
        forall|p: String, pr: Principal| #[trigger] construct.requires((p, pr)),
    ensures
        principal is None ==> r == Err::<(A, Principal), AuthzBootRefusal>(
            AuthzBootRefusal::MissingPrincipal,
        ),
        principal is Some ==> exists|p: String, out: Result<A, String>|
            #![trigger construct.ensures((p, principal->0), out)]
            p@ == policy_path(config_dir@) && construct.ensures((p, principal->0), out) && match out {
                Ok(a) => r == Ok::<(A, Principal), AuthzBootRefusal>((a, principal->0)),
                Err(e) => r == Err::<(A, Principal), AuthzBootRefusal>(
                    AuthzBootRefusal::Construct(e),
                ),
            },
{
    let principal = match principal {
        Some(p) => p,
        None => return Err(AuthzBootRefusal::MissingPrincipal),
    };
    let path = policy_file_path(config_dir);
    let ghost handed = path;
    let handed_principal = copy_principal(&principal);
    let out = construct(path, handed_principal);
    assert(construct.ensures((handed, principal), out));
    match out {
        Ok(a) => Ok((a, principal)),
        Err(e) => Err(AuthzBootRefusal::Construct(e)),
    }
}

/// `audit.siem` is configured, but off-host audit offload is not implemented.
#[derive(Debug, Clone, Copy, PartialEq, Eq, Structural)]
pub struct SiemOffloadUnsupported;

impl SiemOffloadUnsupported {
    /// What the operator must do about it.
    pub fn to_string(&self) -> (s: String)
        ensures
            s@ == "remove `audit.siem` (offload arrives with issue #223) and ship the audit JSONL with a host log agent instead — see packaging/README.md"@,
    {
        String::from_str(
            "remove `audit.siem` (offload arrives with issue #223) and ship the audit JSONL with a host log agent instead — see packaging/README.md",
        )
    }
}

/// The audit section as the offload gate reads it.
#[derive(Debug, Clone, PartialEq, Eq)]
pub struct AuditConfig {
    pub jsonl_path: String,
    pub siem: Option<String>,
}

/// Fail closed when the config promises offload the daemon cannot perform:
/// the presence of the key refuses, whatever its content.
pub fn audit_offload_boot_gate(cfg: &AuditConfig) -> (r: Result<(), SiemOffloadUnsupported>)
    ensures
        r is Ok <==> cfg.siem is None,
{
    match cfg.siem {
        Some(_) => Err(SiemOffloadUnsupported),
        None => Ok(()),
    }
}

/// The file that declares the deputy's egress grant.
pub const EGRESS_BOUNDS_FILE: &'static str = "egress-bounds.yaml";

/// The one registered model provider.
#[derive(Debug, Clone, PartialEq, Eq)]
pub struct ProviderConfig {
    pub name: String,
    pub endpoint: String,
    pub model: String,
    pub key_vault_path: String,
}

/// The deputy's declared grant.
#[derive(Debug, Clone, PartialEq, Eq)]
pub struct EgressBounds {
    pub key_vault_path_prefix: String,
}

/// Why a registered provider's credential path is not startable.
#[derive(Debug, Clone, PartialEq, Eq)]
pub enum EgressBoundsRefusal {
    /// A provider is registered but the grant is not declared.
    Undeclared(String),
    /// The registered path sits outside the granted prefix.
    OutsideBounds { path: String, prefix: String },
}

impl EgressBoundsRefusal {
    /// The refusal, rendered for the operator.
    pub fn to_string(&self) -> (s: String)
        ensures
            self matches EgressBoundsRefusal::Undeclared(e) ==> s@ == "a provider is registered but "@
                + EGRESS_BOUNDS_FILE@ + " could not be read: "@ + e@,
            self matches EgressBoundsRefusal::OutsideBounds { path, prefix } ==> s@
                == "registered provider key_vault_path '"@ + path@
                + "' is outside the egress grant prefix '"@ + prefix@ + "'"@,
    {
        match self {
            EgressBoundsRefusal::Undeclared(e) => {
                let mut s = String::from_str("a provider is registered but ");
                s.append(EGRESS_BOUNDS_FILE);
                s.append(" could not be read: ");
                s.append(e.as_str());
                s
            },
            EgressBoundsRefusal::OutsideBounds { path, prefix } => {
                let mut s = String::from_str("registered provider key_vault_path '");
                s.append(path.as_str());
                s.append("' is outside the egress grant prefix '");
                s.append(prefix.as_str());
                s.append("'");
                s
            },
        }
    }
}

/// A slash-separated path lies within a prefix: it is the prefix, or it
/// continues the prefix across a segment boundary. A sibling that merely
/// begins with the prefix's text is outside it.
pub open spec fn within_prefix(path: Seq<u8>, prefix: Seq<u8>) -> bool {
    ||| path =~= prefix
    ||| (prefix.len() > 0 && starts_with(path, prefix) && path.len() > prefix.len() && (
    prefix.last() == SLASH || path[prefix.len() as int] == SLASH))
}

/// Whether `path` lies within `prefix`.
pub fn path_is_within_prefix(path: &str, prefix: &str) -> (r: bool)
    ensures
        r == within_prefix(bytes_of(path@), bytes_of(prefix@)),
{
    let p = str_bytes(path);
    let q = str_bytes(prefix);
    if crate::paths::bytes_eq(p, q) {
        return true;
    }
    q.len() > 0 && bytes_start_with(p, q) && p.len() > q.len() && (q[q.len() - 1] == SLASH
        || p[q.len()] == SLASH)
}

/// Validate the registered provider against the declared grant at boot: no
/// provider needs nothing; a provider with no declared grant refuses; a
/// provider whose path is outside the grant refuses, naming both.
pub fn egress_bounds_boot_gate(provider: Option<&ProviderConfig>, bounds: Option<&EgressBounds>) -> (r:
    Result<(), EgressBoundsRefusal>)
    ensures
        provider is None ==> r is Ok,
        provider is Some && bounds is None ==> (r matches Err(EgressBoundsRefusal::Undeclared(m))
            && m@ == EGRESS_BOUNDS_FILE@ + " is absent or unreadable"@),
        provider matches Some(p) ==> (bounds matches Some(b) ==> (
        if within_prefix(bytes_of(p.key_vault_path@), bytes_of(b.key_vault_path_prefix@)) {
            r is Ok
        } else {
            r == Err::<(), EgressBoundsRefusal>(
                EgressBoundsRefusal::OutsideBounds {
                    path: p.key_vault_path,
                    prefix: b.key_vault_path_prefix,
                },
            )
        })),
{
    let p = match provider {
        Some(p) => p,
        None => return Ok(()),
    };
    let b = match bounds {
        Some(b) => b,
        None => {
            let mut m = String::from_str(EGRESS_BOUNDS_FILE);
            m.append(" is absent or unreadable");
            return Err(EgressBoundsRefusal::Undeclared(m));
        },
    };
    if !path_is_within_prefix(p.key_vault_path.as_str(), b.key_vault_path_prefix.as_str()) {
        return Err(
            EgressBoundsRefusal::OutsideBounds {
                path: p.key_vault_path.clone(),
                prefix: b.key_vault_path_prefix.clone(),
            },
        );
    }
    Ok(())
}

} // verus!
