use op_cache::run::{
    build_env, collect_op_refs, is_file_reference, plan_reads, resolve_refs, StringHashMap,
    MAX_CONCURRENT_READS,
};

fn outcome(reference: &str, result: Result<&str, &str>) -> (String, Result<String, String>) {
    (reference.to_string(), result.map(|s| s.to_string()).map_err(|e| e.to_string()))
}

#[test]
fn collect_op_refs_finds_op_values() {
    let env = vec![
        ("SECRET".into(), "op://vault/item/field".into()),
        ("PLAIN".into(), "hello".into()),
        ("ANOTHER".into(), "op://vault/other/key".into()),
    ];
    let refs = collect_op_refs(&env);
    assert_eq!(refs, vec!["op://vault/item/field", "op://vault/other/key"]);
}

#[test]
fn collect_op_refs_empty_env() {
    let env: Vec<(String, String)> = vec![];
    let refs = collect_op_refs(&env);
    assert!(refs.is_empty());
}

#[test]
fn collect_op_refs_ignores_non_op() {
    let env = vec![
        ("URL".into(), "https://example.com".into()),
        ("PATH".into(), "/usr/bin".into()),
    ];
    let refs = collect_op_refs(&env);
    assert!(refs.is_empty());
}

#[test]
fn collect_op_refs_skips_partial_match() {
    let env = vec![
        ("URL".into(), "https://example.com/op://fake".into()),
        ("REAL".into(), "op://vault/item/field".into()),
    ];
    let refs = collect_op_refs(&env);
    assert_eq!(refs, vec!["op://vault/item/field"]);
}

#[test]
fn collect_op_refs_deduplicates() {
    let env = vec![
        ("SECRET_A".into(), "op://vault/item/field".into()),
        ("SECRET_B".into(), "op://vault/item/field".into()),
        ("OTHER".into(), "op://vault/other/key".into()),
    ];
    let refs = collect_op_refs(&env);
    assert_eq!(refs, vec!["op://vault/item/field", "op://vault/other/key"]);
}

#[test]
fn build_env_substitutes_resolved_values() {
    let env = vec![
        ("SECRET".into(), "op://vault/item/field".into()),
        ("PLAIN".into(), "hello".into()),
        ("ANOTHER".into(), "op://vault/other/key".into()),
    ];
    let mut resolved = StringHashMap::new();
    resolved.insert("op://vault/item/field".into(), "s3cret".into());
    resolved.insert("op://vault/other/key".into(), "k3y".into());

    let result = build_env(&env, &resolved);
    assert_eq!(result[0], ("SECRET".into(), "s3cret".into()));
    assert_eq!(result[1], ("PLAIN".into(), "hello".into()));
    assert_eq!(result[2], ("ANOTHER".into(), "k3y".into()));
}

#[test]
fn build_env_substitutes_duplicate_refs() {
    let env = vec![
        ("SECRET_A".into(), "op://vault/item/field".into()),
        ("SECRET_B".into(), "op://vault/item/field".into()),
    ];
    let mut resolved = StringHashMap::new();
    resolved.insert("op://vault/item/field".into(), "s3cret".into());

    let result = build_env(&env, &resolved);
    assert_eq!(result[0], ("SECRET_A".into(), "s3cret".into()));
    assert_eq!(result[1], ("SECRET_B".into(), "s3cret".into()));
}

#[test]
fn build_env_preserves_order() {
    let env = vec![
        ("A".into(), "1".into()),
        ("B".into(), "op://vault/b".into()),
        ("C".into(), "3".into()),
    ];
    let mut resolved = StringHashMap::new();
    resolved.insert("op://vault/b".into(), "2".into());

    let result = build_env(&env, &resolved);
    let keys: Vec<&str> = result.iter().map(|(k, _)| k.as_str()).collect();
    assert_eq!(keys, vec!["A", "B", "C"]);
}

#[test]
fn build_env_leaves_unresolved_unchanged() {
    let env = vec![("X".into(), "op://vault/x".into())];
    let resolved = StringHashMap::new();
    let result = build_env(&env, &resolved);
    assert_eq!(result[0], ("X".into(), "op://vault/x".into()));
}

#[test]
fn is_file_reference_detects_kubeconfig() {
    assert!(is_file_reference("op://platform-ops/nautilus-kubeconfig/config"));
}

#[test]
fn is_file_reference_detects_config_suffix() {
    assert!(is_file_reference("op://vault/item/config"));
    assert!(is_file_reference("op://vault/item/kubeconfig"));
}

#[test]
fn is_file_reference_detects_extensions() {
    assert!(is_file_reference("op://vault/item/key.pem"));
    assert!(is_file_reference("op://vault/item/cert.crt"));
    assert!(is_file_reference("op://vault:item/config.yaml"));
}

#[test]
fn is_file_reference_not_for_secrets() {
    assert!(!is_file_reference("op://vault/item/password"));
    assert!(!is_file_reference("op://vault/item/token"));
    assert!(!is_file_reference("op://vault/item/field"));
}

#[test]
fn is_file_reference_knows_every_extension() {
    for ext in [
        "conf", "cfg", "ini", "toml", "yaml", "yml", "json", "pem", "crt", "key", "cert",
    ] {
        assert!(is_file_reference(&format!("op://vault/item/a.{ext}")), "{ext}");
        assert!(!is_file_reference(&format!("op://vault/item/a.{ext}x")), "{ext}");
    }
    assert!(!is_file_reference("op://vault/item/a.PEM"));
    assert!(is_file_reference("op://vault/item/credentials"));
}

#[test]
fn is_file_reference_goes_by_the_file_name() {
    assert!(!is_file_reference("op://vault.pem/item/password"));
    assert!(!is_file_reference("op://vault/item/.pem"));
    assert!(is_file_reference("op://vault/item/a.pem/"));
    assert!(!is_file_reference("op://vault/item/config/"));
    assert!(!is_file_reference("op://vault/item/my.config"));
    assert!(!is_file_reference("op://vault/item/myconfig"));
}

#[test]
fn plan_reads_tells_files_from_values() {
    let plan = plan_reads(&["op://v/i/password", "op://v/i/key.pem"]);
    assert_eq!(plan.len(), 2);
    assert_eq!(plan[0].reference, "op://v/i/password");
    assert!(!plan[0].as_file);
    assert_eq!(plan[1].reference, "op://v/i/key.pem");
    assert!(plan[1].as_file);
}

#[test]
fn eight_references_are_read_at_a_time() {
    assert_eq!(MAX_CONCURRENT_READS, 8);
}

#[test]
fn resolve_refs_collects_what_was_read() {
    let resolved =
        resolve_refs(vec![outcome("op://a", Ok("1")), outcome("op://b", Ok("2"))]).unwrap();
    assert_eq!(resolved.get("op://a").map(|s| s.as_str()), Some("1"));
    assert_eq!(resolved.get("op://b").map(|s| s.as_str()), Some("2"));
    assert_eq!(resolved.get("op://c").map(|s| s.as_str()), None);
    assert_eq!(resolved.len(), 2);
}

#[test]
fn resolve_refs_of_nothing_is_empty() {
    assert_eq!(resolve_refs(vec![]).unwrap().len(), 0);
}

#[test]
fn resolve_refs_reports_one_failure() {
    let report = resolve_refs(vec![outcome("op://a", Ok("1")), outcome("op://b", Err("locked"))]);
    assert_eq!(
        report.err().unwrap(),
        "failed to resolve 1 secret(s):\n  op://b: locked"
    );
}

#[test]
fn resolve_refs_reports_every_failure() {
    let report = resolve_refs(vec![
        outcome("op://a", Err("locked")),
        outcome("op://b", Ok("2")),
        outcome("op://c", Err("gone")),
    ]);
    assert_eq!(
        report.err().unwrap(),
        "failed to resolve 2 secret(s):\n  op://a: locked\n  op://c: gone"
    );
}

#[test]
fn resolve_refs_counts_in_decimal() {
    let outcomes = (0..12).map(|i| outcome(&format!("op://{i}"), Err("x"))).collect();
    let report = resolve_refs(outcomes).err().unwrap();
    assert!(report.starts_with("failed to resolve 12 secret(s):\n  op://0: x\n  op://1: x"));
    assert!(report.ends_with("\n  op://11: x"));
}

#[test]
fn exactly_the_references_of_an_environment_are_substituted() {
    let env: Vec<(String, String)> = vec![
        ("A".into(), "op://v/i/a".into()),
        ("B".into(), "plain".into()),
        ("C".into(), "op://v/i/c".into()),
        ("D".into(), "op://v/i/a".into()),
    ];
    let outcomes = collect_op_refs(&env)
        .iter()
        .map(|reference| outcome(reference, Ok(&reference[9..])))
        .collect();
    let resolved = resolve_refs(outcomes).unwrap();
    let result = build_env(&env, &resolved);
    let expected: Vec<(String, String)> = vec![
        ("A".into(), "a".into()),
        ("B".into(), "plain".into()),
        ("C".into(), "c".into()),
        ("D".into(), "a".into()),
    ];
    assert_eq!(result, expected);
}
