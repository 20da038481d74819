use vanta::errors::ProvisionError;
use vanta::json::JsonValue;
use vanta::manifest::{
    decode_manifest, decode_version_entry, parse_manifest, resolve_version, version_list_rows,
    VersionManifest, VersionManifestLatest, VersionManifestVersion,
};

fn s(text: &str) -> String {
    text.to_string()
}

fn version_json(id: &str, kind: &str, release_time: &str) -> JsonValue {
    JsonValue::Obj(vec![
        (s("id"), JsonValue::Str(s(id))),
        (s("type"), JsonValue::Str(s(kind))),
        (s("url"), JsonValue::Str(s("https://example.invalid/v.json"))),
        (s("time"), JsonValue::Str(s("2024-03-16T09:00:00Z"))),
        (s("releaseTime"), JsonValue::Str(s(release_time))),
        (s("sha1"), JsonValue::Str(s("da39a3ee5e6b4b0d3255bfef95601890afd80709"))),
        (s("complianceLevel"), JsonValue::UInt(1)),
    ])
}

fn manifest_json() -> JsonValue {
    JsonValue::Obj(vec![
        (
            s("latest"),
            JsonValue::Obj(vec![
                (s("release"), JsonValue::Str(s("1.20.4"))),
                (s("snapshot"), JsonValue::Str(s("24w11a"))),
            ]),
        ),
        (
            s("versions"),
            JsonValue::Arr(vec![
                version_json("1.20.3", "release", "2023-12-04T12:00:00Z"),
                version_json("1.20.4", "release", "2024-03-15T12:00:00Z"),
            ]),
        ),
    ])
}

#[test]
fn decode_manifest_reads_every_field() {
    let m = decode_manifest(&manifest_json()).unwrap();
    assert_eq!(m.latest.release, "1.20.4");
    assert_eq!(m.latest.snapshot, "24w11a");
    assert_eq!(m.versions.len(), 2);
    assert_eq!(m.versions[0].id, "1.20.3");
    assert_eq!(m.versions[1].id, "1.20.4");
    assert_eq!(m.versions[1].kind, "release");
    assert_eq!(m.versions[1].release_time, "2024-03-15T12:00:00Z");
    assert_eq!(m.versions[1].compliance_level, 1);
}

#[test]
fn decode_version_entry_rejects_missing_field() {
    let mut bad = vec![
        (s("id"), JsonValue::Str(s("1.0"))),
        (s("type"), JsonValue::Str(s("release"))),
    ];
    bad.push((s("url"), JsonValue::Str(s("u"))));
    let r = decode_version_entry(&JsonValue::Obj(bad));
    assert!(matches!(r, Err(ProvisionError::DecodeError)));
}

#[test]
fn decode_version_entry_rejects_mistyped_field() {
    let mut v = match version_json("1.0", "release", "2024-01-01T00:00:00Z") {
        JsonValue::Obj(pairs) => pairs,
        _ => unreachable!(),
    };
    v[0].1 = JsonValue::UInt(7);
    let r = decode_version_entry(&JsonValue::Obj(v));
    assert!(matches!(r, Err(ProvisionError::DecodeError)));
}

#[test]
fn decode_version_entry_rejects_oversized_compliance_level() {
    let mut v = match version_json("1.0", "release", "2024-01-01T00:00:00Z") {
        JsonValue::Obj(pairs) => pairs,
        _ => unreachable!(),
    };
    v[6].1 = JsonValue::UInt(128);
    let r = decode_version_entry(&JsonValue::Obj(v));
    assert!(matches!(r, Err(ProvisionError::DecodeError)));
}

#[test]
fn parse_manifest_reads_json_text() {
    let text = r#"{
        "latest": {"release": "1.1", "snapshot": "1.2-pre"},
        "versions": [
            {"id": "1.1", "type": "release", "url": "https://example.invalid/1.1.json",
             "time": "2024-01-02T00:00:00Z", "releaseTime": "2024-01-01T10:20:30Z",
             "sha1": "aa", "complianceLevel": 0}
        ]
    }"#;
    let m = parse_manifest(text).unwrap();
    assert_eq!(m.latest.release, "1.1");
    assert_eq!(m.versions.len(), 1);
    assert_eq!(m.versions[0].id, "1.1");
    assert_eq!(m.versions[0].release_time, "2024-01-01T10:20:30Z");
}

#[test]
fn parse_manifest_rejects_bad_text() {
    assert!(matches!(parse_manifest("not json"), Err(ProvisionError::DecodeError)));
    assert!(matches!(parse_manifest("{}"), Err(ProvisionError::DecodeError)));
}

fn plain_manifest(ids: &[&str]) -> VersionManifest {
    VersionManifest {
        latest: VersionManifestLatest { release: s("r"), snapshot: s("s") },
        versions: ids
            .iter()
            .enumerate()
            .map(|(i, id)| VersionManifestVersion {
                id: s(id),
                kind: s("release"),
                url: format!("https://example.invalid/{i}.json"),
                time: s("2024-03-16T09:00:00Z"),
                release_time: format!("2024-03-1{i}T12:00:00Z"),
                sha1: s("aa"),
                compliance_level: 1,
            })
            .collect(),
    }
}

#[test]
fn resolve_version_finds_exact_match() {
    let m = plain_manifest(&["1.0", "1.1", "1.2"]);
    let v = resolve_version(&m, "1.1").unwrap();
    assert_eq!(v.id, "1.1");
    assert_eq!(v.url, "https://example.invalid/1.json");
}

#[test]
fn resolve_version_is_case_sensitive_and_reports_absence() {
    let m = plain_manifest(&["1.0", "1.0-PRE"]);
    assert!(matches!(resolve_version(&m, "1.0-pre"), Err(ProvisionError::VersionNotFound)));
}

#[test]
fn resolve_version_takes_the_first_match() {
    let mut m = plain_manifest(&["1.0", "1.0"]);
    m.versions[0].sha1 = s("first");
    m.versions[1].sha1 = s("second");
    let v = resolve_version(&m, "1.0").unwrap();
    assert_eq!(v.sha1, "first");
}

#[test]
fn version_list_is_newest_first_with_ten_character_dates() {
    let m = plain_manifest(&["1.0", "1.1", "1.2"]);
    let rows = version_list_rows(&m);
    assert_eq!(rows.len(), 3);
    assert_eq!(rows[0].id, "1.2");
    assert_eq!(rows[1].id, "1.1");
    assert_eq!(rows[2].id, "1.0");
    assert_eq!(rows[0].date, "2024-03-12");
    assert_eq!(rows[2].date, "2024-03-10");
    assert_eq!(rows[0].date.len(), 10);
}
