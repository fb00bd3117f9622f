use bootc_status::host::{
    BootEntry, BootEntryOstree, BootOrder, CachedImageStatus, Host, HostSpec, HostStatus,
    HostType, ImageReference, ImageSignature, ImageStatus, StatusError, Store,
};
use bootc_status::render::{
    human_readable_output, human_readable_output_beta, select_format, validate_format_version,
    OutputFormat,
};
use bootc_status::status::{
    boot_entry_from_deployment, classify, get_image_origin, get_status, get_status_require_booted,
    Deployment, Origin,
};

fn dep(osname: &str, index: u64, staged: bool, checksum: &str) -> Deployment {
    Deployment {
        osname: osname.to_string(),
        index,
        staged,
        pinned: false,
        checksum: checksum.to_string(),
        deploy_serial: 0,
        origin: None,
        store: None,
    }
}

fn empty_status() -> CachedImageStatus {
    CachedImageStatus { image: None, cached_update: None }
}

fn image_status(image: &str, version: Option<&str>, digest: &str) -> CachedImageStatus {
    CachedImageStatus {
        image: Some(ImageStatus {
            image: ImageReference {
                image: image.to_string(),
                transport: "registry".to_string(),
                signature: Some(ImageSignature::OstreeRemote("prod".to_string())),
            },
            version: version.map(|v| v.to_string()),
            image_digest: digest.to_string(),
        }),
        cached_update: None,
    }
}

fn image_entry(image: &str, version: Option<&str>, digest: &str) -> BootEntry {
    BootEntry {
        image: image_status(image, version, digest).image,
        cached_update: None,
        incompatible: false,
        store: Some(Store::OstreeContainer),
        pinned: false,
        ostree: Some(BootEntryOstree { checksum: "abc123".to_string(), deploy_serial: 0 }),
    }
}

fn host_with(staged: Option<BootEntry>, booted: Option<BootEntry>, rollback: Option<BootEntry>) -> Host {
    Host {
        spec: HostSpec { image: None, boot_order: BootOrder::Default },
        status: HostStatus {
            staged,
            booted,
            rollback,
            rollback_queued: false,
            ty: None,
        },
    }
}

#[test]
fn test_human_readable() {
    // Staged and booted entries, no rollback.
    let host = host_with(
        Some(image_entry("quay.io/example/someimage:latest", Some("nightly"), "sha256:abc1")),
        Some(image_entry("quay.io/example/someimage:latest", Some("nightly"), "sha256:abc1")),
        None,
    );
    let w = human_readable_output_beta(&host);
    assert!(w.contains("quay.io/example/someimage:latest"));

    // A plain ostree deployment with no image at all.
    let host = host_with(None, None, None);
    let w = human_readable_output_beta(&host);
    assert!(w.contains(""));

    // A staged image only, no booted or rollback entry.
    let host = host_with(
        Some(image_entry("quay.io/centos-bootc/centos-bootc:stream9", Some("stream9.20240807.0"), "sha256:abc2")),
        None,
        None,
    );
    let w = human_readable_output_beta(&host);
    assert!(w.contains("quay.io/centos-bootc/centos-bootc:stream9"));

    // A booted image only, no staged or rollback entry.
    let host = host_with(
        None,
        Some(image_entry("quay.io/centos-bootc/centos-bootc:stream9", Some("stream9.20240807.0"), "sha256:abc2")),
        None,
    );
    let w = human_readable_output_beta(&host);
    assert!(w.contains("quay.io/centos-bootc/centos-bootc:stream9"));
}

#[test]
fn human_readable_exact_output() {
    let host = host_with(
        Some(image_entry("quay.io/e/i:1", Some("v1"), "sha256:d1")),
        None,
        None,
    );
    let w = human_readable_output_beta(&host);
    assert_eq!(
        w,
        "Current staged image: quay.io/e/i:1\n\
         Image version: v1\n\
         Image transport: registry\n\
         Image signature: ostree-remote:prod\n\
         Image digest: sha256:d1\n\
         No booted image present\n\
         No rollback image present\n"
    );

    let brief = human_readable_output(&host);
    assert_eq!(
        brief,
        "Current staged image: quay.io/e/i:1No booted image presentNo rollback image present"
    );

    // An entry whose image lacks a version or a signature reports the most
    // specific missing piece.
    let mut entry = image_entry("quay.io/e/i:1", None, "sha256:d1");
    let host = host_with(Some(entry.clone()), None, None);
    let w = human_readable_output_beta(&host);
    assert!(w.starts_with("No image version defined\n"));

    entry = image_entry("quay.io/e/i:1", Some("v1"), "sha256:d1");
    if let Some(st) = entry.image.as_mut() {
        st.image.signature = None;
    }
    let host = host_with(Some(entry), None, None);
    let w = human_readable_output_beta(&host);
    assert!(w.starts_with("No image signature defined\n"));
}

#[test]
fn classify_scenario_staged_rollback() {
    // Deployments A (staged, index 3), B (index 4, booted), C (index 2),
    // all on one state root.
    let a = dep("r", 3, true, "ca");
    let b = dep("r", 4, false, "cb");
    let c = dep("r", 2, false, "cc");
    let booted = dep("r", 4, false, "cb");
    let (deployments, rollback_queued, boot_order) =
        classify(vec![a, b, c], Some(&booted));
    assert_eq!(deployments.staged.as_ref().map(|d| d.checksum.as_str()), Some("ca"));
    assert_eq!(deployments.rollback.as_ref().map(|d| d.checksum.as_str()), Some("cc"));
    assert!(rollback_queued);
    assert_eq!(boot_order, BootOrder::Rollback);
    assert!(deployments.other.is_empty());

    // With the booted deployment earlier in the menu than the rollback,
    // no rollback is queued.
    let a = dep("r", 3, true, "ca");
    let b = dep("r", 1, false, "cb");
    let c = dep("r", 2, false, "cc");
    let booted = dep("r", 1, false, "cb");
    let (deployments, rollback_queued, boot_order) =
        classify(vec![a, b, c], Some(&booted));
    assert_eq!(deployments.staged.as_ref().map(|d| d.checksum.as_str()), Some("ca"));
    assert_eq!(deployments.rollback.as_ref().map(|d| d.checksum.as_str()), Some("cc"));
    assert!(!rollback_queued);
    assert_eq!(boot_order, BootOrder::Default);
}

#[test]
fn classify_without_booted_deployment() {
    // With no booted deployment no entry is excluded by identity, every
    // deployment is related, and no rollback is ever queued.
    let a = dep("r", 3, true, "ca");
    let b = dep("other", 1, false, "cb");
    let c = dep("r", 2, false, "cc");
    let (deployments, rollback_queued, boot_order) = classify(vec![a, b, c], None);
    assert_eq!(deployments.staged.as_ref().map(|d| d.checksum.as_str()), Some("ca"));
    assert_eq!(deployments.rollback.as_ref().map(|d| d.checksum.as_str()), Some("cb"));
    assert_eq!(deployments.other.len(), 1);
    assert_eq!(deployments.other[0].checksum, "cc");
    assert!(!rollback_queued);
    assert_eq!(boot_order, BootOrder::Default);
}

#[test]
fn classify_first_staged_wins_and_other_roots_kept() {
    let a = dep("r", 1, false, "ca");
    let s1 = dep("r", 2, true, "cs1");
    let s2 = dep("r", 3, true, "cs2");
    let f = dep("elsewhere", 4, false, "cf");
    let booted = dep("r", 1, false, "ca");
    let (deployments, _, _) = classify(vec![a, s1, s2, f], Some(&booted));
    // Only the first staged deployment is treated as staged; the second
    // stays eligible and here becomes the rollback.
    assert_eq!(deployments.staged.as_ref().map(|d| d.checksum.as_str()), Some("cs1"));
    assert_eq!(deployments.rollback.as_ref().map(|d| d.checksum.as_str()), Some("cs2"));
    // Other-root deployments follow the remaining related ones.
    assert_eq!(deployments.other.len(), 1);
    assert_eq!(deployments.other[0].checksum, "cf");
}

#[test]
fn boot_entry_no_origin() {
    let d = dep("r", 1, false, "ca");
    let e = boot_entry_from_deployment(&d, Store::OstreeContainer, empty_status()).unwrap();
    assert_eq!(e.image, None);
    assert_eq!(e.cached_update, None);
    assert!(!e.incompatible);
    assert_eq!(e.store, None);
    assert_eq!(
        e.ostree,
        Some(BootEntryOstree { checksum: "ca".to_string(), deploy_serial: 0 })
    );
}

#[test]
fn boot_entry_origin_without_image_key() {
    let mut d = dep("r", 1, false, "ca");
    d.origin = Some(Origin { local_modifications: false, container_image: None });
    let e = boot_entry_from_deployment(&d, Store::OstreeContainer, empty_status()).unwrap();
    assert_eq!(e.image, None);
    assert_eq!(e.cached_update, None);
    assert!(!e.incompatible);
    assert_eq!(e.store, None);
}

#[test]
fn boot_entry_local_modifications_win_over_image() {
    let mut d = dep("r", 1, false, "ca");
    d.origin = Some(Origin {
        local_modifications: true,
        container_image: Some("ostree-unverified-registry:quay.io/e/i:1".to_string()),
    });
    // Even with a provider answer carrying an image, incompatibility wins.
    let e = boot_entry_from_deployment(
        &d,
        Store::OstreeContainer,
        image_status("quay.io/e/i:1", Some("v1"), "sha256:d1"),
    )
    .unwrap();
    assert!(e.incompatible);
    assert_eq!(e.image, None);
    assert_eq!(e.cached_update, None);
}

#[test]
fn boot_entry_image_managed() {
    let mut d = dep("r", 1, true, "ca");
    d.pinned = true;
    d.origin = Some(Origin {
        local_modifications: false,
        container_image: Some("ostree-unverified-registry:quay.io/e/i:1".to_string()),
    });
    let st = image_status("quay.io/e/i:1", Some("v1"), "sha256:d1");
    let e = boot_entry_from_deployment(&d, Store::OstreeContainer, st.clone()).unwrap();
    assert_eq!(e.image, st.image);
    assert!(!e.incompatible);
    assert_eq!(e.store, Some(Store::OstreeContainer));
    assert!(e.pinned);
}

#[test]
fn boot_entry_malformed_origin_reference() {
    let mut d = dep("r", 1, false, "ca");
    d.origin = Some(Origin {
        local_modifications: false,
        container_image: Some("nocolon".to_string()),
    });
    let r = boot_entry_from_deployment(&d, Store::OstreeContainer, empty_status());
    assert_eq!(r, Err(StatusError::MissingColon));
}

#[test]
fn image_origin_reading() {
    let o = Origin { local_modifications: false, container_image: None };
    assert!(matches!(get_image_origin(&o), Ok(None)));

    let o = Origin {
        local_modifications: false,
        container_image: Some("ostree-unverified-registry:quay.io/e/i:1".to_string()),
    };
    let r = get_image_origin(&o).unwrap().unwrap();
    assert_eq!(r.imgref.name, "quay.io/e/i:1");

    let o = Origin {
        local_modifications: false,
        container_image: Some("nocolon".to_string()),
    };
    assert_eq!(get_image_origin(&o), Err(StatusError::MissingColon));
}

#[test]
fn get_status_assembles_host() {
    let mut staged = dep("r", 3, true, "cs");
    staged.origin = Some(Origin {
        local_modifications: false,
        container_image: Some("ostree-unverified-registry:quay.io/e/staged:1".to_string()),
    });
    let mut booted = dep("r", 4, false, "cb");
    booted.origin = Some(Origin {
        local_modifications: false,
        container_image: Some("ostree-unverified-registry:quay.io/e/booted:1".to_string()),
    });
    let rollback = dep("r", 2, false, "cr");
    let all = vec![staged, dep("r", 4, false, "cb"), rollback];
    let (deployments, host) = get_status(
        all,
        Some(booted),
        Store::OstreeContainer,
        image_status("quay.io/e/staged:1", Some("v2"), "sha256:s"),
        image_status("quay.io/e/booted:1", Some("v1"), "sha256:b"),
        empty_status(),
    )
    .unwrap();
    assert_eq!(deployments.staged.as_ref().map(|d| d.checksum.as_str()), Some("cs"));
    assert_eq!(deployments.rollback.as_ref().map(|d| d.checksum.as_str()), Some("cr"));
    // The staged image wins the declared spec; the verdict comes from the
    // bootloader order; the type tag reflects the booted image.
    assert_eq!(
        host.spec.image.as_ref().map(|i| i.image.as_str()),
        Some("quay.io/e/staged:1")
    );
    assert_eq!(host.spec.boot_order, BootOrder::Rollback);
    assert!(host.status.rollback_queued);
    assert_eq!(host.status.ty, Some(HostType::BootcHost));
    assert!(host.status.staged.is_some());
    assert!(host.status.booted.is_some());
    assert!(host.status.rollback.is_some());
    assert_eq!(host.status.rollback.as_ref().unwrap().image, None);
}

#[test]
fn get_status_spec_falls_back_to_booted_image() {
    let mut booted = dep("r", 1, false, "cb");
    booted.origin = Some(Origin {
        local_modifications: false,
        container_image: Some("ostree-unverified-registry:quay.io/e/booted:1".to_string()),
    });
    let all = vec![dep("r", 1, false, "cb")];
    let (_, host) = get_status(
        all,
        Some(booted),
        Store::OstreeContainer,
        empty_status(),
        image_status("quay.io/e/booted:1", Some("v1"), "sha256:b"),
        empty_status(),
    )
    .unwrap();
    assert_eq!(
        host.spec.image.as_ref().map(|i| i.image.as_str()),
        Some("quay.io/e/booted:1")
    );
    assert_eq!(host.status.ty, Some(HostType::BootcHost));
}

#[test]
fn get_status_without_booted_image_has_no_type() {
    let all = vec![dep("r", 1, false, "cb")];
    let booted = dep("r", 1, false, "cb");
    let (_, host) = get_status(
        all,
        Some(booted),
        Store::OstreeContainer,
        empty_status(),
        empty_status(),
        empty_status(),
    )
    .unwrap();
    assert_eq!(host.status.ty, None);
    assert_eq!(host.spec.image, None);
    assert!(!host.status.rollback_queued);
}

#[test]
fn get_status_propagates_parse_error() {
    let mut booted = dep("r", 1, false, "cb");
    booted.origin = Some(Origin {
        local_modifications: false,
        container_image: Some("bogus:transport:name".to_string()),
    });
    let all = vec![dep("r", 1, false, "cb")];
    let r = get_status(
        all,
        Some(booted),
        Store::OstreeContainer,
        empty_status(),
        empty_status(),
        empty_status(),
    );
    assert!(matches!(r, Err(StatusError::UnknownScheme)));
}

#[test]
fn get_status_require_booted_without_booted() {
    let r = get_status_require_booted(
        Vec::new(),
        None,
        Store::OstreeContainer,
        empty_status(),
        empty_status(),
        empty_status(),
    );
    assert!(matches!(r, Err(StatusError::NotBooted)));
}

#[test]
fn get_status_require_booted_returns_booted() {
    let all = vec![dep("r", 1, false, "cb")];
    let booted = dep("r", 1, false, "cb");
    let (returned, _, host) = get_status_require_booted(
        all,
        Some(booted),
        Store::OstreeContainer,
        empty_status(),
        empty_status(),
        empty_status(),
    )
    .unwrap();
    assert_eq!(returned.checksum, "cb");
    assert_eq!(host.status.booted.is_some(), true);
}

#[test]
fn query_image_checksum() {
    let e = image_entry("quay.io/e/i:1", Some("v1"), "sha256:d1");
    assert_eq!(e.query_image().map(|c| c.as_str()), Some("abc123"));

    let mut no_image = image_entry("quay.io/e/i:1", Some("v1"), "sha256:d1");
    no_image.image = None;
    assert_eq!(no_image.query_image(), None);

    let mut no_ostree = image_entry("quay.io/e/i:1", Some("v1"), "sha256:d1");
    no_ostree.ostree = None;
    assert_eq!(no_ostree.query_image(), None);
}

#[test]
fn format_version_and_selection() {
    assert!(validate_format_version(None).is_ok());
    assert!(validate_format_version(Some(0)).is_ok());
    assert_eq!(
        validate_format_version(Some(1)),
        Err(StatusError::UnsupportedFormatVersion)
    );

    assert_eq!(
        select_format(Some(OutputFormat::Yaml), true, true),
        OutputFormat::Yaml
    );
    assert_eq!(select_format(None, true, false), OutputFormat::Json);
    assert_eq!(select_format(None, false, true), OutputFormat::HumanReadable);
    assert_eq!(select_format(None, false, false), OutputFormat::Yaml);
}

#[test]
fn classify_is_deterministic() {
    let mk = || {
        vec![
            dep("r", 3, true, "ca"),
            dep("r", 1, false, "cb"),
            dep("other", 2, false, "cc"),
        ]
    };
    let booted = dep("r", 1, false, "cb");
    let (d1, q1, o1) = classify(mk(), Some(&booted));
    let (d2, q2, o2) = classify(mk(), Some(&booted));
    assert_eq!(
        d1.staged.as_ref().map(|d| d.checksum.as_str()),
        d2.staged.as_ref().map(|d| d.checksum.as_str())
    );
    assert_eq!(
        d1.rollback.as_ref().map(|d| d.checksum.as_str()),
        d2.rollback.as_ref().map(|d| d.checksum.as_str())
    );
    assert_eq!(d1.other.len(), d2.other.len());
    assert_eq!(q1, q2);
    assert_eq!(o1, o2);
}
