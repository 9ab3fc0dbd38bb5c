use provenact_agent_kit::args::{run_args, verify_args};
use provenact_agent_kit::request::{check_path, is_digest_text, is_white_char};
use provenact_agent_kit::{
    AdapterError, AgentExecutionRequest, ExecutionSession, InvalidReason, KeysDigest, Stage, Step,
};

const DIGEST: &str = "sha256:0123456789abcdef0123456789abcdef0123456789abcdef0123456789abcdef";

fn request() -> AgentExecutionRequest {
    AgentExecutionRequest {
        bundle: "./bundle".to_string(),
        keys: "./keys.json".to_string(),
        keys_digest: Some(DIGEST.to_string()),
        policy: "./policy.json".to_string(),
        input: "./input.json".to_string(),
        receipt: "./receipt.json".to_string(),
        require_cosign: false,
        oci_ref: None,
        cosign_key: None,
        cosign_cert_identity: None,
        cosign_cert_oidc_issuer: None,
        allow_experimental: false,
    }
}

fn strs(v: &[&str]) -> Vec<String> {
    v.iter().map(|s| s.to_string()).collect()
}

#[test]
fn verify_arguments_in_order() {
    let req = request();
    assert_eq!(
        verify_args(&req),
        strs(&["verify", "--bundle", "./bundle", "--keys", "./keys.json", "--keys-digest", DIGEST])
    );
}

#[test]
fn run_arguments_carry_trust_flags_and_paths() {
    let mut req = request();
    req.keys_digest = None;
    req.require_cosign = true;
    req.cosign_key = Some("./cosign.pub".to_string());
    req.cosign_cert_oidc_issuer = Some("https://issuer".to_string());
    req.oci_ref = Some("ghcr.io/acme/agent:1".to_string());
    req.allow_experimental = true;
    assert_eq!(
        run_args(&req),
        strs(&[
            "run",
            "--bundle",
            "./bundle",
            "--keys",
            "./keys.json",
            "--require-cosign",
            "--cosign-key",
            "./cosign.pub",
            "--cosign-cert-oidc-issuer",
            "https://issuer",
            "--oci-ref",
            "ghcr.io/acme/agent:1",
            "--allow-experimental",
            "--policy",
            "./policy.json",
            "--input",
            "./input.json",
            "--receipt",
            "./receipt.json",
        ])
    );
}

#[test]
fn cosign_identity_is_dropped_without_cosign() {
    let mut req = request();
    req.keys_digest = None;
    req.cosign_key = Some("./cosign.pub".to_string());
    assert_eq!(
        verify_args(&req),
        strs(&["verify", "--bundle", "./bundle", "--keys", "./keys.json"])
    );
}

#[test]
fn digest_shape() {
    assert!(is_digest_text(DIGEST));
    assert!(is_digest_text(
        "blake3:0123456789abcdef0123456789abcdef0123456789abcdef0123456789abcdef"
    ));
    assert!(!is_digest_text("sha256:invalid"));
    assert!(!is_digest_text(
        "SHA256:0123456789abcdef0123456789abcdef0123456789abcdef0123456789abcdef"
    ));
    assert!(!is_digest_text(
        "sha256:0123456789ABCDEF0123456789abcdef0123456789abcdef0123456789abcdef"
    ));
    assert!(!is_digest_text(
        ":0123456789abcdef0123456789abcdef0123456789abcdef0123456789abcdef"
    ));
    assert!(!is_digest_text(
        "sha256:0123456789abcdef0123456789abcdef0123456789abcdef0123456789abcdef0"
    ));
    assert!(KeysDigest::parse("sha256:invalid").is_none());
    assert_eq!(KeysDigest::parse(DIGEST).expect("valid").as_str(), DIGEST);
}

#[test]
fn path_checks() {
    assert_eq!(check_path(""), Some(InvalidReason::EmptyPath));
    assert_eq!(check_path(" a"), Some(InvalidReason::BoundaryWhitespace));
    assert_eq!(check_path("a\n"), Some(InvalidReason::BoundaryWhitespace));
    assert_eq!(check_path("a\u{a0}"), Some(InvalidReason::BoundaryWhitespace));
    assert_eq!(check_path("a b"), None);
    assert!(is_white_char('\u{2028}'));
    assert!(!is_white_char('x'));
}

#[test]
fn session_walks_the_steps() {
    let (mut s, step) = ExecutionSession::start(request());
    assert_eq!(s.stage(), Stage::Verifying);
    match step {
        Step::RunCommand(args) => assert_eq!(args[0], "verify"),
        other => panic!("unexpected {other:?}"),
    }
    match s.on_command(Ok("OK verify".to_string())) {
        Step::RunCommand(args) => assert_eq!(args[0], "run"),
        other => panic!("unexpected {other:?}"),
    }
    assert_eq!(s.stage(), Stage::Executing);
    match s.on_command(Ok("OK run".to_string())) {
        Step::ReadReceipt(path) => assert_eq!(path, "./receipt.json"),
        other => panic!("unexpected {other:?}"),
    }
    assert_eq!(s.stage(), Stage::Parsing);
    match s.on_receipt(Ok(r#"{"schema_version":"1.0.0"}"#.to_string())) {
        Step::Finished(Ok(out)) => {
            assert_eq!(out.verify_stdout, "OK verify");
            assert_eq!(out.execute_stdout, "OK run");
            assert_eq!(out.receipt.raw["schema_version"], "1.0.0");
        }
        other => panic!("unexpected {other:?}"),
    }
    assert_eq!(s.stage(), Stage::Done);
}

#[test]
fn session_refuses_at_start() {
    let mut req = request();
    req.bundle = String::new();
    let (s, step) = ExecutionSession::start(req);
    assert_eq!(s.stage(), Stage::Done);
    assert!(matches!(
        step,
        Step::Finished(Err(AdapterError::InvalidRequest { .. }))
    ));
}

#[test]
fn session_stops_when_run_fails() {
    let (mut s, _) = ExecutionSession::start(request());
    let _ = s.on_command(Ok("OK verify".to_string()));
    match s.on_command(Err("sandbox denied".to_string())) {
        Step::Finished(Err(AdapterError::CommandFailure { subcommand, detail })) => {
            assert_eq!(subcommand, "run");
            assert_eq!(detail, "sandbox denied");
        }
        other => panic!("unexpected {other:?}"),
    }
    assert_eq!(s.stage(), Stage::Done);
}
