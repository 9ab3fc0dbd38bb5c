use vstd::prelude::*;
use vstd::string::*;

use crate::request::AgentExecutionRequest;

verus! {

/// The texts of a list of strings.
pub open spec fn texts(v: Seq<String>) -> Seq<Seq<char>> {
    v.map_values(|s: String| s@)
}

/// `flag value` when there is a value, nothing otherwise.
pub open spec fn optional_arg(flag: Seq<char>, value: Option<String>) -> Seq<Seq<char>> {
    match value {
        Some(v) => seq![flag, v@],
        None => seq![],
    }
}

/// `flag` when `on`, nothing otherwise.
pub open spec fn switch_arg(flag: Seq<char>, on: bool) -> Seq<Seq<char>> {
    if on {
        seq![flag]
    } else {
        seq![]
    }
}

/// The cosign flags: present only when cosign is required.
pub open spec fn cosign_args(req: AgentExecutionRequest) -> Seq<Seq<char>> {
    if req.require_cosign {
        seq!["--require-cosign"@] + optional_arg("--cosign-key"@, req.cosign_key) + optional_arg(
            "--cosign-cert-identity"@,
            req.cosign_cert_identity,
        ) + optional_arg("--cosign-cert-oidc-issuer"@, req.cosign_cert_oidc_issuer)
    } else {
        seq![]
    }
}

/// The trust parameters that both subcommands receive.
pub open spec fn trust_args(req: AgentExecutionRequest) -> Seq<Seq<char>> {
    seq!["--bundle"@, req.bundle@, "--keys"@, req.keys@] + optional_arg(
        "--keys-digest"@,
        req.keys_digest,
    ) + cosign_args(req) + optional_arg("--oci-ref"@, req.oci_ref) + switch_arg(
        "--allow-experimental"@,
        req.allow_experimental,
    )
}

/// `verify` followed by the trust parameters.
pub open spec fn verify_command(req: AgentExecutionRequest) -> Seq<Seq<char>> {
    seq!["verify"@] + trust_args(req)
}

/// `run` followed by the trust parameters, then the policy, input and receipt
/// paths.
pub open spec fn run_command(req: AgentExecutionRequest) -> Seq<Seq<char>> {
    seq!["run"@] + trust_args(req) + seq![
        "--policy"@,
        req.policy@,
        "--input"@,
        req.input@,
        "--receipt"@,
        req.receipt@,
    ]
}

fn push_text(v: &mut Vec<String>, s: &str)
    ensures
        texts(final(v)@) == texts(old(v)@) + seq![s@],
{
    v.push(String::from_str(s));
    assert(texts(final(v)@) =~= texts(old(v)@) + seq![s@]);
}

fn push_optional(v: &mut Vec<String>, flag: &str, value: &Option<String>)
    ensures
        texts(final(v)@) == texts(old(v)@) + optional_arg(flag@, *value),
{
    match value {
        Some(x) => {
            push_text(v, flag);
            push_text(v, x.as_str());
            assert(texts(final(v)@) =~= texts(old(v)@) + optional_arg(flag@, *value));
        },
        None => {
            assert(texts(final(v)@) =~= texts(old(v)@) + optional_arg(flag@, *value));
        },
    }
}

fn push_switch(v: &mut Vec<String>, flag: &str, on: bool)
    ensures
        texts(final(v)@) == texts(old(v)@) + switch_arg(flag@, on),
{
    if on {
        push_text(v, flag);
    } else {
        assert(texts(final(v)@) =~= texts(old(v)@) + switch_arg(flag@, on));
    }
}

fn push_trust(v: &mut Vec<String>, req: &AgentExecutionRequest)
    ensures
        texts(final(v)@) == texts(old(v)@) + trust_args(*req),
{
    let ghost start = texts(v@);
    push_text(v, "--bundle");
    push_text(v, req.bundle.as_str());
    push_text(v, "--keys");
    push_text(v, req.keys.as_str());
    assert(texts(v@) =~= start + seq!["--bundle"@, req.bundle@, "--keys"@, req.keys@]);
    push_optional(v, "--keys-digest", &req.keys_digest);
    let ghost before_cosign = texts(v@);
    if req.require_cosign {
        push_text(v, "--require-cosign");
        push_optional(v, "--cosign-key", &req.cosign_key);
        push_optional(v, "--cosign-cert-identity", &req.cosign_cert_identity);
        push_optional(v, "--cosign-cert-oidc-issuer", &req.cosign_cert_oidc_issuer);
    }
    assert(texts(v@) =~= before_cosign + cosign_args(*req));
    push_optional(v, "--oci-ref", &req.oci_ref);
    push_switch(v, "--allow-experimental", req.allow_experimental);
    assert(texts(v@) =~= start + trust_args(*req));
}

/// The arguments of the verify step.
pub fn verify_args(req: &AgentExecutionRequest) -> (r: Vec<String>)
    ensures
        texts(r@) == verify_command(*req),
{
    let mut v: Vec<String> = Vec::new();
    assert(texts(v@) =~= seq![]);
    push_text(&mut v, "verify");
    push_trust(&mut v, req);
    assert(texts(v@) =~= verify_command(*req));
    v
}

/// The arguments of the run step.
pub fn run_args(req: &AgentExecutionRequest) -> (r: Vec<String>)
    ensures
        texts(r@) == run_command(*req),
{
    let mut v: Vec<String> = Vec::new();
    assert(texts(v@) =~= seq![]);
    push_text(&mut v, "run");
    push_trust(&mut v, req);
    push_text(&mut v, "--policy");
    push_text(&mut v, req.policy.as_str());
    push_text(&mut v, "--input");
    push_text(&mut v, req.input.as_str());
    push_text(&mut v, "--receipt");
    push_text(&mut v, req.receipt.as_str());
    assert(texts(v@) =~= run_command(*req));
    v
}

} // verus!
