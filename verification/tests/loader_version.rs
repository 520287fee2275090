use libcamera_core::loader::{
    collect_snapshots, parse_control_files, release_version_of_tag, LoadError, ReleaseSource,
};
use libcamera_core::meta::{ControlSize, ControlType};
use libcamera_core::version::{
    compatible, parse_version, resolve, CompatibilityMode, ResolveError, Version,
};

const CONTROLS_DOC: &str = "\
controls:
  - AeEnable:
      type: bool
      description: Enable the AE algorithm.
  - AwbMode:
      type: int32_t
      description: White balance mode.
      enum:
        - name: AwbModeAuto
          value: 0
          description: Search over the whole range.
        - name: AwbModeIncandescent
          value: 1
          description: Incandescent lighting.
  - SensorBlackLevels:
      type: int32_t
      description: Black levels, one per channel.
      size: [4]
  - ScalerCrops:
      type: Rectangle
      description: Per-stream crop regions.
      size: [n]
";

const VENDOR_DOC: &str = "\
vendor: rpi
controls:
  - StatsOutputEnable:
      type: bool
      description: Enable the statistics output.
";

const DRAFT_DOC: &str = "\
controls:
  - AePrecaptureTrigger:
      type: int32_t
      description: Precapture trigger.
      draft: true
";

#[test]
fn parse_schema_documents() {
    let files = vec![
        (String::from("control_ids_core.yaml"), String::from(CONTROLS_DOC)),
        (String::from("control_ids_rpi.yaml"), String::from(VENDOR_DOC)),
        (String::from("control_ids_draft.yaml"), String::from(DRAFT_DOC)),
    ];
    let controls = parse_control_files(&files).unwrap();
    assert_eq!(controls.len(), 6);

    assert_eq!(controls[0].name, "AeEnable");
    assert_eq!(controls[0].vendor, "libcamera");
    assert!(matches!(controls[0].typ, ControlType::Bool));
    assert!(controls[0].size.is_none());
    assert!(controls[0].enumeration.is_none());

    assert_eq!(controls[1].name, "AwbMode");
    let en = controls[1].enumeration.as_ref().unwrap();
    assert_eq!(en.len(), 2);
    assert_eq!(en[0].name, "AwbModeAuto");
    assert_eq!(en[0].value, 0);
    assert_eq!(en[1].value, 1);

    assert_eq!(controls[2].name, "SensorBlackLevels");
    assert_eq!(controls[2].size.as_ref().unwrap().as_slice(), &[ControlSize::Fixed(4)]);

    assert_eq!(controls[3].name, "ScalerCrops");
    assert_eq!(controls[3].size.as_ref().unwrap().as_slice(), &[ControlSize::Dynamic]);

    // The document's vendor tag applies to all of its entries.
    assert_eq!(controls[4].name, "StatsOutputEnable");
    assert_eq!(controls[4].vendor, "rpi");

    // An entry marked experimental defaults to the draft vendor.
    assert_eq!(controls[5].name, "AePrecaptureTrigger");
    assert_eq!(controls[5].vendor, "draft");
}

#[test]
fn parse_rejects_unknown_type() {
    let files = vec![(
        String::from("control_ids.yaml"),
        String::from("controls:\n  - Bad:\n      type: quaternion\n      description: x\n"),
    )];
    match parse_control_files(&files) {
        Err(LoadError::UnknownControlType(msg)) => {
            assert_eq!(msg, "Unknown control type quaternion");
        }
        other => panic!("unexpected result: {other:?}"),
    }
}

#[test]
fn parse_rejects_malformed_document() {
    let files = vec![(String::from("a.yaml"), String::from("just a scalar"))];
    assert!(matches!(parse_control_files(&files), Err(LoadError::MalformedDocument)));

    let files = vec![(
        String::from("a.yaml"),
        String::from("controls:\n  - NoType:\n      description: x\n"),
    )];
    assert!(matches!(parse_control_files(&files), Err(LoadError::MalformedDocument)));

    let files = vec![(String::from("a.yaml"), String::from(": : :\n- ["))];
    assert!(matches!(parse_control_files(&files), Err(LoadError::UnparsableDocument)));
}

#[test]
fn parse_rejects_invalid_size() {
    let files = vec![(
        String::from("a.yaml"),
        String::from(
            "controls:\n  - Windows:\n      type: Rectangle\n      description: x\n      size: [zzz]\n",
        ),
    )];
    match parse_control_files(&files) {
        Err(LoadError::InvalidSize(msg)) => assert_eq!(msg, "Unknown ControlSize string zzz"),
        other => panic!("unexpected result: {other:?}"),
    }
}

#[test]
fn type_aliases_are_case_insensitive() {
    assert!(matches!(ControlType::try_from("uint8_t"), Ok(ControlType::Byte)));
    assert!(matches!(ControlType::try_from("Byte"), Ok(ControlType::Byte)));
    assert!(matches!(ControlType::try_from("UINT8"), Ok(ControlType::Byte)));
    assert!(matches!(ControlType::try_from("u8"), Ok(ControlType::Byte)));
    assert!(matches!(ControlType::try_from("int32_t"), Ok(ControlType::Int32)));
    assert!(matches!(ControlType::try_from("Rectangle"), Ok(ControlType::Rectangle)));
    assert!(matches!(ControlType::try_from("string"), Ok(ControlType::String)));
    assert_eq!(ControlType::try_from("matrix").unwrap_err(), "Unknown control type matrix");
}

#[test]
fn tag_versions() {
    let v = release_version_of_tag("refs/tags/v0.4.0").unwrap();
    assert_eq!(v, Version::new(0, 4, 0));
    let v = release_version_of_tag("v1.2.3").unwrap();
    assert_eq!(v, Version::new(1, 2, 3));
    assert!(release_version_of_tag("refs/tags/android-13").is_none());
    assert!(release_version_of_tag("v1.2").is_none());
    assert!(release_version_of_tag("").is_none());
    // Pre-release text parses; the triple alone is kept.
    let v = release_version_of_tag("v2.0.0-rc1").unwrap();
    assert_eq!(v, Version::new(2, 0, 0));
}

fn release(tag: &str, marker: &str) -> ReleaseSource {
    ReleaseSource {
        tag: String::from(tag),
        controls: vec![(String::from("control_ids.yaml"), String::from(marker))],
        properties: vec![],
    }
}

#[test]
fn snapshots_are_collected_in_version_order() {
    let snaps = collect_snapshots(vec![
        release("refs/tags/v0.5.2", "five-two"),
        release("refs/tags/v0.0.0", "empty initial state"),
        release("refs/tags/unrelated", "not a release"),
        release("refs/tags/v0.4.0", "four-oh"),
        release("refs/tags/v0.5.2", "five-two-respun"),
    ]);
    assert_eq!(snaps.len(), 2);
    assert_eq!(snaps[0].version, Version::new(0, 4, 0));
    assert_eq!(snaps[0].controls[0].1, "four-oh");
    assert_eq!(snaps[1].version, Version::new(0, 5, 2));
    // A later release of the same version replaces the earlier one.
    assert_eq!(snaps[1].controls[0].1, "five-two-respun");
}

#[test]
fn caret_resolution_picks_greatest_compatible() {
    let available = vec![Version::new(0, 4, 0), Version::new(1, 0, 0), Version::new(1, 2, 0)];
    let linked = Version::new(1, 1, 5);
    let picked = resolve(&available, &linked, CompatibilityMode::Caret).unwrap();
    assert_eq!(picked, Version::new(1, 0, 0));
}

#[test]
fn exact_resolution_failure_lists_candidates() {
    let available = vec![Version::new(0, 4, 0), Version::new(1, 0, 0), Version::new(1, 2, 0)];
    let linked = Version::new(1, 1, 5);
    let err: ResolveError = resolve(&available, &linked, CompatibilityMode::Exact).unwrap_err();
    assert_eq!(err.linked, linked);
    assert_eq!(err.candidates, available);
    let msg = err.message();
    assert_eq!(
        msg,
        "Unsupported runtime version 1.1.5\nsupported versions are:\n\t0.4.0\n\t1.0.0\n\t1.2.0\n"
    );
}

#[test]
fn caret_compatibility_rules() {
    let caret = CompatibilityMode::Caret;
    // Same major, candidate not above the linked version.
    assert!(compatible(&Version::new(1, 0, 0), &Version::new(1, 1, 5), caret));
    assert!(!compatible(&Version::new(1, 2, 0), &Version::new(1, 1, 5), caret));
    assert!(!compatible(&Version::new(0, 4, 0), &Version::new(1, 1, 5), caret));
    // Major zero also requires the same minor.
    assert!(compatible(&Version::new(0, 4, 0), &Version::new(0, 4, 7), caret));
    assert!(!compatible(&Version::new(0, 4, 0), &Version::new(0, 5, 0), caret));
    // Major and minor zero require the same patch.
    assert!(compatible(&Version::new(0, 0, 3), &Version::new(0, 0, 3), caret));
    assert!(!compatible(&Version::new(0, 0, 3), &Version::new(0, 0, 4), caret));
    // Exact mode is plain equality.
    assert!(compatible(&Version::new(1, 1, 5), &Version::new(1, 1, 5), CompatibilityMode::Exact));
    assert!(!compatible(&Version::new(1, 1, 4), &Version::new(1, 1, 5), CompatibilityMode::Exact));
}

#[test]
fn version_parsing() {
    assert_eq!(parse_version("0.4.0"), Some(Version::new(0, 4, 0)));
    assert_eq!(parse_version("1.2.3-rc1+build7"), Some(Version::new(1, 2, 3)));
    assert_eq!(parse_version("1.2"), None);
    assert_eq!(parse_version("abc"), None);
}
