//! Image versions and the flags that images know.
use arc_node::cli_version::{
    apply_version_compat, ensure_cl_image_supported, flag_matches, parse_image_semver,
};


#[test]
fn ensure_cl_image_supported_accepts_current_and_unparsable_tags() {
    for tag in [
        None,
        Some("arc_consensus:latest"),
        Some("latest"),
        Some("arc_consensus:v0.5.0"),
        Some("v0.5.0"),
        Some("0.5.0"),
        Some("arc_consensus:v0.6.0"),
        Some("arc_consensus:v1.0.0"),
        Some("v0.5.0-rc1"),
        Some("v0.5.0-rc.1"),
        Some("v0.5.0+build.1"),
        Some("v0.5.0-rc1+build.1"),
        Some("arc_consensus:abc123"),
    ] {
        assert!(
            ensure_cl_image_supported(tag).is_ok(),
            "tag {tag:?} should be accepted"
        );
    }
}

#[test]
fn ensure_cl_image_supported_rejects_pre_v0_5_0() {
    for tag in [
        "arc_consensus:v0.4.0",
        "arc_consensus:v0.4.1",
        "arc_consensus:v0.3.0",
        "v0.4.0",
        "0.4.0",
        "v0.4.0-rc1",
        "v0.4.0-rc.1",
        "v0.4.0+build.1",
        "v0.4.0-rc1+build.1",
    ] {
        let err = ensure_cl_image_supported(Some(tag))
            .expect_err(&format!("tag {tag} should be rejected"));
        assert!(
            err.message().contains("predates v0.5.0"),
            "unexpected error for {tag}: {}",
            err.message()
        );
    }
}

/// Rewrites `input` for the image and compares the list with `expected`.
fn assert_compat(image_tag: &str, input: &[&str], expected: &[&str]) {
    let input: Vec<String> = input.iter().map(|s| s.to_string()).collect();
    let expected: Vec<String> = expected.iter().map(|s| s.to_string()).collect();
    let result = apply_version_compat(input, Some(image_tag));
    assert_eq!(result, expected, "compat mismatch for tag {image_tag}");
}

fn compat_flags(image_tag: Option<&str>) -> Vec<String> {
    let flags = vec![
        "--moniker=val-1".to_string(),
        "--validator".to_string(),
        "--suggested-fee-recipient=0x1".to_string(),
    ];
    apply_version_compat(flags, image_tag)
}

#[test]
fn apply_version_compat_passes_flags_through_for_missing_latest_and_unparsable_tags() {
    for tag in [
        None,
        Some("arc_consensus:latest"),
        Some("latest"),
        Some("arc_consensus:abc123"),
        Some("main"),
    ] {
        let result = compat_flags(tag);
        assert!(
            result.iter().any(|f| f == "--validator"),
            "--validator should survive compat pass for tag {tag:?}, got {result:?}"
        );
    }
}

#[test]
fn apply_version_compat_drops_validator_for_images_at_or_below_v0_6_0() {
    for tag in [
        "arc_consensus:v0.6.0",
        "arc_consensus:v0.5.9",
        "arc_consensus:v0.4.0",
        "v0.6.0",
        "0.6.0",
        "v0.6.0-rc1",
        "v0.6.0-rc.1",
        "v0.6.0+build.1",
        "v0.6.0+2026-08-26",
        "v0.6.0-rc1+build.1",
    ] {
        let result = compat_flags(Some(tag));
        assert!(
            !result.iter().any(|f| f == "--validator"),
            "--validator should be dropped for tag {tag:?}, got {result:?}"
        );
        assert!(result.iter().any(|f| f == "--moniker=val-1"));
        assert!(result.iter().any(|f| f == "--suggested-fee-recipient=0x1"));
    }
}

#[test]
fn apply_version_compat_keeps_validator_for_images_strictly_newer_than_v0_6_0() {
    for tag in [
        "arc_consensus:v0.6.1",
        "arc_consensus:v0.6.2",
        "arc_consensus:v0.7.0",
        "arc_consensus:v1.0.0",
        "v0.6.1",
        "0.6.1",
        "v0.6.1-rc1",
        "v0.6.1-rc.1",
        "v0.6.1+build.1",
        "v0.6.1+2026-08-26",
        "v0.6.1-rc1+build.1",
        "v0.7.0-beta",
    ] {
        let result = compat_flags(Some(tag));
        assert!(
            result.iter().any(|f| f == "--validator"),
            "--validator should survive compat pass for tag {tag:?}, got {result:?}"
        );
    }
}

#[test]
fn flag_matches_handles_boolean_and_value_forms() {
    assert!(flag_matches("--validator", "--validator"));
    assert!(flag_matches("--moniker=val-1", "--moniker"));
    assert!(flag_matches(
        "--p2p.persistent-peers=a,b,c",
        "--p2p.persistent-peers"
    ));
    assert!(!flag_matches("--validator-set", "--validator"));
    assert!(!flag_matches("--moniker=validator", "--validator"));
    assert!(!flag_matches("--validator.something", "--validator"));
}

#[test]
fn apply_version_compat_drops_v0_5_era_added_flags_for_v0_5_0() {
    assert_compat(
        "arc_consensus:v0.5.0",
        &[
            "--moniker=val-1",
            "--log-level=info",
            "--log-format=json",
            "--p2p.persistent-peers-only",
            "--gossipsub.explicit-peering",
            "--gossipsub.mesh-prioritization",
            "--gossipsub.load=high",
            "--execution-persistence-backpressure",
            "--execution-persistence-backpressure-threshold=5",
            "--execution-ws-endpoint=ws://el:8546",
            "--full",
            "--minimal",
            "--pprof.heap-prof",
        ],
        &["--moniker=val-1"],
    );
}

#[test]
fn apply_version_compat_keeps_v0_5_era_added_flags_for_v0_5_1_and_later() {
    for tag in ["v0.5.1", "v0.6.0", "v0.7.0", "v0.5.1-rc1"] {
        assert_compat(
            tag,
            &["--log-level=info", "--gossipsub.load=high", "--full"],
            &["--log-level=info", "--gossipsub.load=high", "--full"],
        );
    }
}

#[test]
fn apply_version_compat_renames_pruning_flags_for_v0_5_0() {
    assert_compat(
        "arc_consensus:v0.5.0",
        &[
            "--moniker=val-1",
            "--prune.certificates.distance=237600",
            "--prune.certificates.before=100",
        ],
        &[
            "--moniker=val-1",
            "--pruning.block-interval=237600",
            "--pruning.min-height=100",
        ],
    );
}

#[test]
fn apply_version_compat_keeps_new_pruning_names_for_v0_5_1_and_later() {
    for tag in ["v0.5.1", "v0.6.0", "v0.7.0"] {
        assert_compat(
            tag,
            &[
                "--prune.certificates.distance=237600",
                "--prune.certificates.before=100",
            ],
            &[
                "--prune.certificates.distance=237600",
                "--prune.certificates.before=100",
            ],
        );
    }
}

fn strings(texts: &[&str]) -> Vec<String> {
    texts.iter().map(|s| s.to_string()).collect()
}

#[test]
fn versions_are_read_from_tags() {
    assert_eq!(parse_image_semver(Some("v0.6.0")), Some((0, 6, 0)));
    assert_eq!(parse_image_semver(Some("arc_consensus:v0.5.1-rc1")), Some((0, 5, 1)));
    assert_eq!(parse_image_semver(Some("v0.6.0+build.1")), Some((0, 6, 0)));
    assert_eq!(parse_image_semver(Some("0.7.0")), Some((0, 7, 0)));
    assert_eq!(parse_image_semver(Some("registry:5000/arc:v1.22.333")), Some((1, 22, 333)));
    assert_eq!(
        parse_image_semver(Some("18446744073709551615.0.1")),
        Some((u64::MAX, 0, 1))
    );
}

#[test]
fn texts_that_pin_no_version() {
    for tag in [
        "",
        "v",
        "v1.2",
        "1.2.x",
        "1..3",
        "1.2.-rc1",
        "v v1.2.3",
        "vv1.2.3",
        "1.2.3:latest",
        "18446744073709551616.0.0",
        "-1.0.0",
        "1.2.3.4",
        "v0.5.0.1",
        "arc_consensus:0.4.0.1",
        "1.2.3.4-rc1",
        "+1.2.3",
        "1.+2.3",
        "1.2.+3",
    ] {
        assert_eq!(parse_image_semver(Some(tag)), None, "tag {tag:?}");
    }
    assert_eq!(parse_image_semver(None), None);
}

#[test]
fn further_parts_need_a_label() {
    assert_eq!(parse_image_semver(Some("1.2.3-rc.4.5")), Some((1, 2, 3)));
    assert_eq!(parse_image_semver(Some("1.2.3+build.4")), Some((1, 2, 3)));
    assert_eq!(parse_image_semver(Some("1.2.3.")), None);
    // Such tags pin no version: they are supported, and keep their flags.
    assert!(ensure_cl_image_supported(Some("0.4.0.1")).is_ok());
    let flags = strings(&["--full", "--validator"]);
    assert_eq!(apply_version_compat(flags.clone(), Some("0.5.0.1")), flags);
}

#[test]
fn rejection_has_the_whole_message() {
    let err = ensure_cl_image_supported(Some("reg/arc:v0.4.9")).unwrap_err();
    assert_eq!(
        err.message(),
        "arc-node-consensus image 'reg/arc:v0.4.9' predates v0.5.0; releases before v0.5.0 \
         require a config.toml that Quake no longer generates. Pin v0.5.0 or newer."
    );
}

#[test]
fn rewriting_twice_changes_nothing_more() {
    let flags = [
        "--validator",
        "--prune.certificates.distance=1",
        "--prune.certificates.distance",
        "--prune.certificates.before=2",
        "--full",
        "--full=x",
        "--fuller",
        "--moniker=a",
    ];
    for tag in ["v0.4.0", "v0.5.0", "v0.6.0", "v0.6.1", "latest"] {
        let once = apply_version_compat(strings(&flags), Some(tag));
        let twice = apply_version_compat(once.clone(), Some(tag));
        assert_eq!(once, twice);
    }
    assert_eq!(
        apply_version_compat(strings(&flags), Some("v0.5.0")),
        strings(&[
            "--pruning.block-interval=1",
            "--prune.certificates.distance",
            "--pruning.min-height=2",
            "--fuller",
            "--moniker=a",
        ])
    );
}

#[test]
fn image_name_and_labels_do_not_matter_for_the_version() {
    for tag in ["v0.5.0", "0.6.1", "latest", "main"] {
        let named = format!("registry.example:443/arc_consensus:{tag}");
        assert_eq!(parse_image_semver(Some(&named)), parse_image_semver(Some(tag)));
    }
    for label in ["-rc1", "+build.7", "-rc.1+b.2", "-"] {
        let labelled = format!("v0.6.0{label}");
        assert_eq!(parse_image_semver(Some(&labelled)), Some((0, 6, 0)));
    }
}
