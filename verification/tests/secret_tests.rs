use zero2prod::secret::SecretValue;

#[test]
fn reveal_returns_the_exact_plaintext() {
    let secret = SecretValue::new("s3cr3t".to_string());
    assert_eq!(secret.expose_secret(), "s3cr3t");
}

#[test]
fn redacted_rendering_never_contains_the_plaintext() {
    let secret = SecretValue::new("s3cr3t".to_string());
    let rendered = secret.redacted();
    assert!(!rendered.contains("s3cr3t"));
    assert_eq!(rendered, "[REDACTED]");
}

#[test]
fn redaction_is_the_same_for_every_secret() {
    let a = SecretValue::new("one secret".to_string());
    let b = SecretValue::new("a completely different one".to_string());
    assert_eq!(a.redacted(), b.redacted());
}

#[test]
fn clone_preserves_the_plaintext() {
    let secret = SecretValue::new("s3cr3t".to_string());
    let copy = secret.clone();
    assert_eq!(copy.expose_secret(), "s3cr3t");
}
