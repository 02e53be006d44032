use scoop_core::bucket::{Bucket, BucketRegistry};
use scoop_core::error::ErrorKind;
use scoop_core::manifest::Manifest;
use scoop_core::manifest::ManifestKind;
use scoop_core::ops::{find_app, find_manifest, plan_lookup, split_specifier, Scoop};

fn registry(names: &[&str]) -> BucketRegistry {
    let mut reg = BucketRegistry::new();
    for n in names {
        let root = format!("/repos/{}", n);
        assert!(reg.add(Bucket::new((*n).to_string(), root)));
    }
    reg
}

fn gcc_path(bucket: &str) -> String {
    format!("/repos/{}/bucket/gcc.json", bucket)
}

#[test]
fn qualified_specifier_resolves_through_named_bucket() {
    let reg = registry(&["main"]);
    let files = vec![(gcc_path("main"), "{\"version\": \"12.0\"}".to_string())];
    let m = find_manifest(&reg, "main/gcc", &files).unwrap().unwrap();
    assert_eq!(m.app, "gcc");
    assert_eq!(m.bucket.as_deref(), Some("main"));
    assert_eq!(m.version, "12.0");
}

#[test]
fn unknown_bucket_is_a_not_found_outcome() {
    let reg = registry(&["main"]);
    let files = vec![(gcc_path("main"), "{\"version\": \"12.0\"}".to_string())];
    let r = find_manifest(&reg, "nomatch/gcc", &files);
    assert!(matches!(r, Ok(None)));
}

#[test]
fn missing_file_in_known_bucket_is_a_not_found_outcome() {
    let reg = registry(&["main"]);
    let files: Vec<(String, String)> = Vec::new();
    let r = find_manifest(&reg, "main/gcc", &files);
    assert!(matches!(r, Ok(None)));
}

#[test]
fn earlier_bucket_shadows_later_one() {
    let reg = registry(&["main", "extras"]);
    let files = vec![
        (gcc_path("main"), "{\"version\": \"12.0\"}".to_string()),
        (gcc_path("extras"), "{\"version\": \"99.0\"}".to_string()),
    ];
    let m = find_manifest(&reg, "gcc", &files).unwrap().unwrap();
    assert_eq!(m.version, "12.0");
    assert_eq!(m.app, "gcc");
    assert_eq!(m.bucket, None);
}

#[test]
fn unqualified_specifier_falls_through_missing_buckets() {
    let reg = registry(&["main", "extras"]);
    let files = vec![(gcc_path("extras"), "{\"version\": \"99.0\"}".to_string())];
    let m = find_manifest(&reg, "gcc", &files).unwrap().unwrap();
    assert_eq!(m.version, "99.0");
}

#[test]
fn missing_version_is_a_schema_error() {
    let reg = registry(&["main"]);
    let files = vec![(gcc_path("main"), "{\"homepage\": \"x\"}".to_string())];
    let e = find_manifest(&reg, "main/gcc", &files).unwrap_err();
    match e.kind {
        ErrorKind::Schema { path, field } => {
            assert_eq!(path, gcc_path("main"));
            assert_eq!(field, "version");
        }
        k => panic!("unexpected error kind: {:?}", k),
    }
}

#[test]
fn non_string_version_is_a_schema_error() {
    let reg = registry(&["main"]);
    let files = vec![(gcc_path("main"), "{\"version\": 12}".to_string())];
    let e = find_manifest(&reg, "main/gcc", &files).unwrap_err();
    assert!(matches!(e.kind, ErrorKind::Schema { .. }));
}

#[test]
fn invalid_json_is_a_parse_error_not_a_fall_through() {
    let reg = registry(&["main", "extras"]);
    let files = vec![
        (gcc_path("main"), "this is not json".to_string()),
        (gcc_path("extras"), "{\"version\": \"99.0\"}".to_string()),
    ];
    let e = find_manifest(&reg, "gcc", &files).unwrap_err();
    match e.kind {
        ErrorKind::Parse { path } => assert_eq!(path, gcc_path("main")),
        k => panic!("unexpected error kind: {:?}", k),
    }
}

#[test]
fn error_messages_name_the_path() {
    let reg = registry(&["main"]);
    let files = vec![(gcc_path("main"), "{}".to_string())];
    let e = find_manifest(&reg, "main/gcc", &files).unwrap_err();
    assert_eq!(
        e.message(),
        format!("failed to read version from manifest '{}'", gcc_path("main"))
    );
}

#[test]
fn absent_license_normalizes_to_none() {
    let m = Manifest::from_content("/b/gcc.json", "{\"version\": \"1\"}", None).unwrap();
    assert_eq!(m.license, None);
}

#[test]
fn null_license_normalizes_to_none() {
    let m =
        Manifest::from_content("/b/gcc.json", "{\"version\": \"1\", \"license\": null}", None)
            .unwrap();
    assert_eq!(m.license, None);
}

#[test]
fn object_license_without_identifier_normalizes_to_none() {
    let m = Manifest::from_content(
        "/b/gcc.json",
        "{\"version\": \"1\", \"license\": {\"url\": \"https://example.com\"}}",
        None,
    )
    .unwrap();
    assert_eq!(m.license, None);
}

#[test]
fn object_license_with_identifier_resolves_through_registry() {
    let m = Manifest::from_content(
        "/b/gcc.json",
        "{\"version\": \"1\", \"license\": {\"identifier\": \"MIT\"}}",
        None,
    )
    .unwrap();
    let l = m.license.unwrap();
    assert_eq!(l.len(), 1);
    assert_eq!(l[0].0, "MIT");
    assert_eq!(l[0].1.as_deref(), Some("https://spdx.org/licenses/MIT.html"));
}

#[test]
fn object_license_url_overrides_resolution() {
    let m = Manifest::from_content(
        "/b/gcc.json",
        "{\"version\": \"1\", \"license\": {\"identifier\": \"MIT\", \"url\": \"https://example.com/mit\"}}",
        None,
    )
    .unwrap();
    let l = m.license.unwrap();
    assert_eq!(l.len(), 1);
    assert_eq!(l[0].0, "MIT");
    assert_eq!(l[0].1.as_deref(), Some("https://example.com/mit"));
}

#[test]
fn string_license_field_is_normalized() {
    let m = Manifest::from_content(
        "/b/gcc.json",
        "{\"version\": \"1\", \"license\": \"MIT|Apache-2.0\"}",
        None,
    )
    .unwrap();
    let l = m.license.unwrap();
    assert_eq!(l.len(), 2);
    assert_eq!(l[0].0, "MIT");
    assert_eq!(l[1].0, "Apache-2.0");
}

#[test]
fn payload_round_trips_including_unrecognized_fields() {
    let content = "{\"version\": \"1\", \"homepage\": \"https://example.com\", \
                   \"bin\": [\"gcc.exe\", \"gdb.exe\"], \"depends\": {\"a\": 1}}";
    let m = Manifest::from_content("/b/gcc.json", content, None).unwrap();
    let parsed: serde_json::Value = serde_json::from_str(content).unwrap();
    assert_eq!(m.json, parsed);
}

#[test]
fn app_name_is_the_file_stem_not_a_payload_field() {
    let m = Manifest::from_content(
        "/repos/main/bucket/gcc.json",
        "{\"version\": \"1\", \"name\": \"something-else\"}",
        None,
    )
    .unwrap();
    assert_eq!(m.app, "gcc");
}

#[test]
fn specifier_splits_on_first_slash_only() {
    let (b, a) = split_specifier("main/dir/app");
    assert_eq!(b.as_deref(), Some("main"));
    assert_eq!(a, "dir/app");

    let (b, a) = split_specifier("plain");
    assert_eq!(b, None);
    assert_eq!(a, "plain");
}

#[test]
fn plan_follows_registration_order() {
    let reg = registry(&["main", "extras"]);
    let plan = plan_lookup(&reg, "gcc");
    assert_eq!(plan.len(), 2);
    assert_eq!(plan[0].path, gcc_path("main"));
    assert_eq!(plan[1].path, gcc_path("extras"));
    assert_eq!(plan[0].bucket, None);
    assert_eq!(plan[0].source, "main");

    let plan = plan_lookup(&reg, "extras/gcc");
    assert_eq!(plan.len(), 1);
    assert_eq!(plan[0].path, gcc_path("extras"));
    assert_eq!(plan[0].bucket.as_deref(), Some("extras"));
}

#[test]
fn registry_rejects_duplicate_names_and_looks_up_exactly() {
    let mut reg = registry(&["main"]);
    assert!(!reg.add(Bucket::new("main".to_string(), "/elsewhere".to_string())));
    assert!(reg.add(Bucket::new("Main".to_string(), "/case".to_string())));
    assert!(reg.get("main").is_some());
    assert!(reg.get("Main").is_some());
    assert!(reg.get("MAIN").is_none());
    assert_eq!(reg.all().len(), 2);
}

#[test]
fn find_app_picks_first_bucket_whose_file_exists() {
    let reg = registry(&["main", "extras"]);
    let present = vec![gcc_path("extras")];
    let a = find_app(&reg, "gcc", &present).unwrap().unwrap();
    assert_eq!(a.name, "gcc");
    assert_eq!(a.bucket, "extras");
    assert_eq!(a.path, gcc_path("extras"));
}

#[test]
fn find_app_with_unknown_bucket_is_none_never_a_panic() {
    let reg = registry(&["main"]);
    let present = vec![gcc_path("main")];
    assert!(matches!(find_app(&reg, "nomatch/gcc", &present), Ok(None)));
    assert!(matches!(find_app(&reg, "main/absent", &present), Ok(None)));
    let a = find_app(&reg, "main/gcc", &present).unwrap().unwrap();
    assert_eq!(a.bucket, "main");
}

#[test]
fn resolved_manifest_records_local_provenance() {
    let reg = registry(&["main"]);
    let files = vec![(gcc_path("main"), "{\"version\": \"12.0\", \"license\": \"MIT\"}".to_string())];
    let m = find_manifest(&reg, "main/gcc", &files).unwrap().unwrap();
    match m.kind {
        ManifestKind::Local(p) => assert_eq!(p, gcc_path("main")),
        ManifestKind::Remote(u) => panic!("unexpected remote provenance: {}", u),
    }
    let l = m.license.unwrap();
    assert_eq!(l[0].1.as_deref(), Some("https://spdx.org/licenses/MIT.html"));
}

#[test]
fn bucket_paths_derive_from_the_root() {
    let b = Bucket::new("main".to_string(), "/repos/main".to_string());
    assert_eq!(b.name().as_str(), "main");
    assert_eq!(b.root().as_str(), "/repos/main");
    assert_eq!(b.manifest_dir().as_str(), "/repos/main/bucket");
    assert_eq!(b.manifest_path("gcc"), "/repos/main/bucket/gcc.json");
}

#[test]
fn empty_and_degenerate_specifiers_stay_negative_outcomes() {
    let reg = registry(&["main"]);
    let files = vec![(gcc_path("main"), "{\"version\": \"12.0\"}".to_string())];
    assert!(matches!(find_manifest(&reg, "", &files), Ok(None)));
    assert!(matches!(find_manifest(&reg, "main/", &files), Ok(None)));
    assert!(matches!(find_manifest(&reg, "/gcc", &files), Ok(None)));
}

#[test]
fn scoop_session_resolves_like_find_manifest() {
    let scoop = Scoop::new(registry(&["main"]));
    let files = vec![(gcc_path("main"), "{\"version\": \"3.1\"}".to_string())];
    let m = scoop.find_local_manifest("main/gcc", &files).unwrap().unwrap();
    assert_eq!(m.version, "3.1");
    assert_eq!(m.bucket.as_deref(), Some("main"));
}
