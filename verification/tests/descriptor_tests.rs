use vanta::errors::ProvisionError;
use vanta::json::JsonValue;
use vanta::descriptor::{decode_assets, decode_version_json, parse_assets, parse_version_json};

fn s(text: &str) -> String {
    text.to_string()
}

fn library_json(path: &str) -> JsonValue {
    JsonValue::Obj(vec![(
        s("downloads"),
        JsonValue::Obj(vec![(
            s("artifact"),
            JsonValue::Obj(vec![
                (s("path"), JsonValue::Str(s(path))),
                (s("url"), JsonValue::Str(format!("https://example.invalid/{path}"))),
                (s("sha1"), JsonValue::Str(s("ff"))),
                (s("size"), JsonValue::UInt(5)),
            ]),
        )]),
    )])
}

fn descriptor_json() -> JsonValue {
    JsonValue::Obj(vec![
        (s("arguments"), JsonValue::Obj(vec![])),
        (
            s("assetIndex"),
            JsonValue::Obj(vec![(s("url"), JsonValue::Str(s("https://example.invalid/a.json")))]),
        ),
        (
            s("downloads"),
            JsonValue::Obj(vec![(
                s("client"),
                JsonValue::Obj(vec![
                    (s("url"), JsonValue::Str(s("https://example.invalid/client.jar"))),
                    (s("size"), JsonValue::UInt(100)),
                ]),
            )]),
        ),
        (s("libraries"), JsonValue::Arr(vec![library_json("a/b.jar"), library_json("c/d.jar")])),
    ])
}

#[test]
fn decode_descriptor_reads_pointer_client_and_libraries() {
    let v = decode_version_json(&descriptor_json()).unwrap();
    assert_eq!(v.asset_index_url, "https://example.invalid/a.json");
    assert_eq!(v.client_url, "https://example.invalid/client.jar");
    assert_eq!(v.client_size, 100);
    assert_eq!(v.libraries.len(), 2);
    assert_eq!(v.libraries[0].path, "a/b.jar");
    assert_eq!(v.libraries[1].path, "c/d.jar");
    assert_eq!(v.libraries[0].sha1, "ff");
    assert_eq!(v.libraries[0].size, 5);
}

#[test]
fn decode_descriptor_rejects_missing_client() {
    let j = JsonValue::Obj(vec![
        (s("arguments"), JsonValue::Null),
        (
            s("assetIndex"),
            JsonValue::Obj(vec![(s("url"), JsonValue::Str(s("u")))]),
        ),
        (s("downloads"), JsonValue::Obj(vec![])),
        (s("libraries"), JsonValue::Arr(vec![])),
    ]);
    assert!(matches!(decode_version_json(&j), Err(ProvisionError::DecodeError)));
}

#[test]
fn decode_descriptor_rejects_bad_library_record() {
    let j = JsonValue::Obj(vec![
        (s("arguments"), JsonValue::Null),
        (
            s("assetIndex"),
            JsonValue::Obj(vec![(s("url"), JsonValue::Str(s("u")))]),
        ),
        (
            s("downloads"),
            JsonValue::Obj(vec![(
                s("client"),
                JsonValue::Obj(vec![
                    (s("url"), JsonValue::Str(s("u"))),
                    (s("size"), JsonValue::UInt(1)),
                ]),
            )]),
        ),
        (s("libraries"), JsonValue::Arr(vec![JsonValue::Obj(vec![])])),
    ]);
    assert!(matches!(decode_version_json(&j), Err(ProvisionError::DecodeError)));
}

fn assets_json() -> JsonValue {
    JsonValue::Obj(vec![(
        s("objects"),
        JsonValue::Obj(vec![
            (
                s("pack.mcmeta"),
                JsonValue::Obj(vec![
                    (s("hash"), JsonValue::Str(s("ab0123"))),
                    (s("size"), JsonValue::UInt(9)),
                ]),
            ),
            (
                s("sounds/x.ogg"),
                JsonValue::Obj(vec![
                    (s("hash"), JsonValue::Str(s("cd4567"))),
                    (s("size"), JsonValue::UInt(13)),
                ]),
            ),
        ]),
    )])
}

#[test]
fn decode_assets_keeps_names_hashes_and_sizes() {
    let a = decode_assets(&assets_json()).unwrap();
    assert_eq!(a.objects.len(), 2);
    assert_eq!(a.objects[0].0, "pack.mcmeta");
    assert_eq!(a.objects[0].1.hash, "ab0123");
    assert_eq!(a.objects[0].1.size, 9);
    assert_eq!(a.objects[1].0, "sounds/x.ogg");
}

#[test]
fn decode_assets_rejects_a_hash_too_short_to_shard() {
    let j = JsonValue::Obj(vec![(
        s("objects"),
        JsonValue::Obj(vec![(
            s("x"),
            JsonValue::Obj(vec![
                (s("hash"), JsonValue::Str(s("a"))),
                (s("size"), JsonValue::UInt(1)),
            ]),
        )]),
    )]);
    assert!(matches!(decode_assets(&j), Err(ProvisionError::DecodeError)));
}

#[test]
fn parse_descriptor_reads_json_text() {
    let text = r#"{
        "arguments": {"game": []},
        "assetIndex": {"id": "17", "url": "https://example.invalid/17.json"},
        "downloads": {"client": {"url": "https://example.invalid/c.jar", "size": 77}},
        "libraries": [
            {"downloads": {"artifact": {"path": "p/q.jar", "url": "https://example.invalid/p/q.jar",
                                        "sha1": "ee", "size": 3}}}
        ],
        "mainClass": "kept.verbatim.Elsewhere"
    }"#;
    let v = parse_version_json(text).unwrap();
    assert_eq!(v.asset_index_url, "https://example.invalid/17.json");
    assert_eq!(v.client_url, "https://example.invalid/c.jar");
    assert_eq!(v.client_size, 77);
    assert_eq!(v.libraries.len(), 1);
    assert_eq!(v.libraries[0].path, "p/q.jar");
}

#[test]
fn parse_assets_reads_json_text() {
    let text = r#"{"objects": {"icons/icon.png": {"hash": "9910", "size": 4}}}"#;
    let a = parse_assets(text).unwrap();
    assert_eq!(a.objects.len(), 1);
    assert_eq!(a.objects[0].0, "icons/icon.png");
    assert_eq!(a.objects[0].1.hash, "9910");
}

#[test]
fn parse_assets_rejects_bad_text() {
    assert!(matches!(parse_assets("[1, 2"), Err(ProvisionError::DecodeError)));
    assert!(matches!(parse_assets("{}"), Err(ProvisionError::DecodeError)));
}

#[test]
fn decode_descriptor_rejects_an_escaping_library_path() {
    for bad in ["../evil.jar", "/abs.jar", "a/../b.jar", "a/.."] {
        let mut j = descriptor_json();
        if let JsonValue::Obj(pairs) = &mut j {
            pairs[3].1 = JsonValue::Arr(vec![library_json(bad)]);
        }
        assert!(
            matches!(decode_version_json(&j), Err(ProvisionError::DecodeError)),
            "accepted {bad}"
        );
    }
}

#[test]
fn decode_descriptor_keeps_a_dotted_but_safe_path() {
    let mut j = descriptor_json();
    if let JsonValue::Obj(pairs) = &mut j {
        pairs[3].1 = JsonValue::Arr(vec![library_json("com/example/lib-1.0.jar")]);
    }
    let v = decode_version_json(&j).unwrap();
    assert_eq!(v.libraries[0].path, "com/example/lib-1.0.jar");
}

#[test]
fn decode_assets_rejects_a_hash_that_is_not_hexadecimal() {
    for bad in ["zz12", "../abcd", "ab/cd", "abcd123."] {
        let j = JsonValue::Obj(vec![(
            s("objects"),
            JsonValue::Obj(vec![(
                s("x"),
                JsonValue::Obj(vec![
                    (s("hash"), JsonValue::Str(s(bad))),
                    (s("size"), JsonValue::UInt(1)),
                ]),
            )]),
        )]);
        assert!(
            matches!(decode_assets(&j), Err(ProvisionError::DecodeError)),
            "accepted {bad}"
        );
    }
}
