use vanta::manifest::{VersionManifest, VersionManifestLatest, VersionManifestVersion};
use vanta::text::{center, listing_line, pad_left, pad_right, version_list_lines};

fn s(text: &str) -> String {
    text.to_string()
}

#[test]
fn padding_matches_the_fixed_column_widths() {
    assert_eq!(pad_right("abc", 5), "abc  ");
    assert_eq!(pad_left("abc", 5), "  abc");
    assert_eq!(center("Type", 11), "   Type    ");
    assert_eq!(pad_right("longer than width", 5), "longer than width");
    assert_eq!(pad_left("12345", 5), "12345");
    assert_eq!(center("ab", 5), " ab  ");
}

#[test]
fn listing_line_has_bars_between_the_three_columns() {
    assert_eq!(
        listing_line("1.20.4", "release", "2024-03-15"),
        "1.20.4              |  release  | 2024-03-15"
    );
}

#[test]
fn version_listing_prints_header_rule_and_reversed_rows() {
    let m = VersionManifest {
        latest: VersionManifestLatest { release: s("b"), snapshot: s("b") },
        versions: vec![
            VersionManifestVersion {
                id: s("a"),
                kind: s("release"),
                url: s("u1"),
                time: s("t"),
                release_time: s("2023-06-07T12:00:00+00:00"),
                sha1: s("x"),
                compliance_level: 1,
            },
            VersionManifestVersion {
                id: s("b"),
                kind: s("snapshot"),
                url: s("u2"),
                time: s("t"),
                release_time: s("2024-03-15T12:00:00Z"),
                sha1: s("y"),
                compliance_level: 1,
            },
        ],
    };
    let lines = version_list_lines(&m);
    assert_eq!(lines.len(), 4);
    assert_eq!(lines[0], "ID                  |   Type    |   Released");
    assert_eq!(lines[1], "--------------------|-----------|-----------");
    assert_eq!(lines[2], "b                   | snapshot  | 2024-03-15");
    assert_eq!(lines[3], "a                   |  release  | 2023-06-07");
}
