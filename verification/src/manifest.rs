//! The remote version index.  The manifest document lists every available
//! version, oldest first, together with the ids of the latest release and
//! snapshot.  Decoding from the JSON model is exact: a document either
//! matches the expected shape and yields the typed manifest, or the
//! decoder reports a shape mismatch; a missing or mistyped field never
//! goes unnoticed.

use vstd::prelude::*;
use crate::errors::ProvisionError;
use crate::json::{JsonValue, parse_json, spec_get, spec_parsed_json, spec_str_field, spec_u64_field};
use vstd::string::StrSliceExecFns;

verus! {

/// The ids of the newest release and the newest snapshot.
#[derive(Debug)]
pub struct VersionManifestLatest {
    pub release: String,
    pub snapshot: String,
}

/// One version the manifest offers.  The document calls the second field
/// `type`; that word cannot name a field here.
#[derive(Debug)]
pub struct VersionManifestVersion {
    pub id: String,
    pub kind: String,
    pub url: String,
    pub time: String,
    pub release_time: String,
    pub sha1: String,
    pub compliance_level: i8,
}

/// The whole version index.
#[derive(Debug)]
pub struct VersionManifest {
    pub latest: VersionManifestLatest,
    pub versions: Vec<VersionManifestVersion>,
}

/// The mathematical content of one manifest version entry.
pub ghost struct VersionEntryModel {
    pub id: Seq<char>,
    pub kind: Seq<char>,
    pub url: Seq<char>,
    pub time: Seq<char>,
    pub release_time: Seq<char>,
    pub sha1: Seq<char>,
    pub compliance_level: int,
}

/// The mathematical content of the whole manifest.
pub ghost struct ManifestModel {
    pub release: Seq<char>,
    pub snapshot: Seq<char>,
    pub versions: Seq<VersionEntryModel>,
}

impl View for VersionManifestVersion {
    type V = VersionEntryModel;

    open spec fn view(&self) -> VersionEntryModel {
        VersionEntryModel {
            id: self.id@,
            kind: self.kind@,
            url: self.url@,
            time: self.time@,
            release_time: self.release_time@,
            sha1: self.sha1@,
            compliance_level: self.compliance_level as int,
        }
    }
}

impl View for VersionManifest {
    type V = ManifestModel;

    open spec fn view(&self) -> ManifestModel {
        ManifestModel {
            release: self.latest.release@,
            snapshot: self.latest.snapshot@,
            versions: Seq::new(self.versions@.len(), |i: int| self.versions@[i]@),
        }
    }
}

/// What one entry of the manifest's `versions` array decodes to: all
/// seven fields present, the first six strings and the seventh an
/// unsigned integer small enough for its byte-sized field.
pub open spec fn spec_version_entry(j: JsonValue) -> Option<VersionEntryModel> {
    match (
        spec_str_field(j, "id"@),
        spec_str_field(j, "type"@),
        spec_str_field(j, "url"@),
        spec_str_field(j, "time"@),
        spec_str_field(j, "releaseTime"@),
        spec_str_field(j, "sha1"@),
        spec_u64_field(j, "complianceLevel"@),
    ) {
        (Some(id), Some(kind), Some(url), Some(time), Some(rt), Some(sha1), Some(cl)) => if cl
            <= 127 {
            Some(
                VersionEntryModel {
                    id,
                    kind,
                    url,
                    time,
                    release_time: rt,
                    sha1,
                    compliance_level: cl as int,
                },
            )
        } else {
            None
        },
        _ => None,
    }
}

/// What an array of version entries decodes to: every element must
/// decode.
pub open spec fn spec_versions(vs: Seq<JsonValue>) -> Option<Seq<VersionEntryModel>> {
    if forall|i: int| 0 <= i < vs.len() ==> spec_version_entry(#[trigger] vs[i]) is Some {
        Some(Seq::new(vs.len(), |i: int| spec_version_entry(vs[i]).unwrap()))
    } else {
        None
    }
}

/// What a manifest document decodes to: a `latest` object with `release`
/// and `snapshot` ids, and a `versions` array of version entries.
pub open spec fn spec_manifest(j: JsonValue) -> Option<ManifestModel> {
    match (spec_get(j, "latest"@), spec_get(j, "versions"@)) {
        (Some(lat), Some(JsonValue::Arr(vs))) => match (
            spec_str_field(lat, "release"@),
            spec_str_field(lat, "snapshot"@),
            spec_versions(vs@),
        ) {
            (Some(release), Some(snapshot), Some(versions)) => Some(
                ManifestModel { release, snapshot, versions },
            ),
            _ => None,
        },
        _ => None,
    }
}

/// Decodes one entry of the `versions` array, exactly as
/// `spec_version_entry` describes: a typed entry when the shape matches,
/// a shape-mismatch failure when and only when it does not.
pub fn decode_version_entry(j: &JsonValue) -> (r: Result<VersionManifestVersion, ProvisionError>)
    ensures
        match r {
            Ok(v) => spec_version_entry(*j) == Some(v@),
            Err(e) => e is DecodeError && spec_version_entry(*j) is None,
        },
{
    let id = match j.get_str("id") {
        Some(s) => s.clone(),
        None => {
            return Err(ProvisionError::DecodeError);
        },
    };
    let kind = match j.get_str("type") {
        Some(s) => s.clone(),
        None => {
            return Err(ProvisionError::DecodeError);
        },
    };
    let url = match j.get_str("url") {
        Some(s) => s.clone(),
        None => {
            return Err(ProvisionError::DecodeError);
        },
    };
    let time = match j.get_str("time") {
        Some(s) => s.clone(),
        None => {
            return Err(ProvisionError::DecodeError);
        },
    };
    let release_time = match j.get_str("releaseTime") {
        Some(s) => s.clone(),
        None => {
            return Err(ProvisionError::DecodeError);
        },
    };
    let sha1 = match j.get_str("sha1") {
        Some(s) => s.clone(),
        None => {
            return Err(ProvisionError::DecodeError);
        },
    };
    let cl = match j.get_u64("complianceLevel") {
        Some(u) => u,
        None => {
            return Err(ProvisionError::DecodeError);
        },
    };
    if cl > 127 {
        return Err(ProvisionError::DecodeError);
    }
    Ok(
        VersionManifestVersion {
            id,
            kind,
            url,
            time,
            release_time,
            sha1,
            compliance_level: cl as i8,
        },
    )
}

/// Decodes a whole manifest document, exactly as `spec_manifest`
/// describes.
pub fn decode_manifest(j: &JsonValue) -> (r: Result<VersionManifest, ProvisionError>)
    ensures
        match r {
            Ok(m) => spec_manifest(*j) == Some(m@),
            Err(e) => e is DecodeError && spec_manifest(*j) is None,
        },
{
    let latest = match j.get("latest") {
        Some(l) => l,
        None => {
            return Err(ProvisionError::DecodeError);
        },
    };
    let release = match latest.get_str("release") {
        Some(s) => s.clone(),
        None => {
            return Err(ProvisionError::DecodeError);
        },
    };
    let snapshot = match latest.get_str("snapshot") {
        Some(s) => s.clone(),
        None => {
            return Err(ProvisionError::DecodeError);
        },
    };
    let versions_json = match j.get("versions") {
        Some(JsonValue::Arr(vs)) => vs,
        _ => {
            return Err(ProvisionError::DecodeError);
        },
    };
    let n = versions_json.len();
    let mut versions: Vec<VersionManifestVersion> = Vec::new();
    let mut i: usize = 0;
    while i < n
        invariant
            n == versions_json@.len(),
            i <= n,
            versions@.len() == i,
            spec_get(*j, "versions"@) == Some(JsonValue::Arr(*versions_json)),
            forall|k: int|
                0 <= k < i ==> spec_version_entry(#[trigger] versions_json@[k]) == Some(
                    versions@[k]@,
                ),
        decreases n - i,
    {
        match decode_version_entry(&versions_json[i]) {
            Ok(v) => versions.push(v),
            Err(e) => {
                return Err(e);
            },
        }
        i = i + 1;
    }
    let m = VersionManifest { latest: VersionManifestLatest { release, snapshot }, versions };
    proof {
        assert(Seq::new(versions_json@.len(), |k: int| spec_version_entry(versions_json@[k]).unwrap())
            =~= m@.versions);
    }
    Ok(m)
}

/// Parses manifest text and decodes it: exactly the typed manifest the
/// text holds, and a shape mismatch when and only when the text is not
/// JSON or its document does not match the manifest shape.
pub fn parse_manifest(s: &str) -> (r: Result<VersionManifest, ProvisionError>)
    ensures
        match spec_parsed_json(s@) {
            Some(j) => match spec_manifest(j) {
                Some(model) => r matches Ok(m) && m@ == model,
                None => r matches Err(e) && e is DecodeError,
            },
            None => r matches Err(e) && e is DecodeError,
        },
{
    match parse_json(s) {
        Some(j) => decode_manifest(&j),
        None => Err(ProvisionError::DecodeError),
    }
}

/// Resolves a version id against the manifest: an exact, case-sensitive
/// match on `id`, first match wins; the id being absent is the one and
/// only failure.
pub fn resolve_version<'a>(m: &'a VersionManifest, version_id: &str) -> (r: Result<
    &'a VersionManifestVersion,
    ProvisionError,
>)
    ensures
        match r {
            Ok(v) => {
                &&& v.id@ == version_id@
                &&& exists|i: int|
                    0 <= i < m.versions@.len() && (#[trigger] m.versions@[i]) == *v && (forall|
                        k: int,
                    |
                        0 <= k < i ==> (#[trigger] m.versions@[k]).id@ != version_id@)
            },
            Err(e) => {
                &&& e is VersionNotFound
                &&& forall|i: int|
                    0 <= i < m.versions@.len() ==> (#[trigger] m.versions@[i]).id@ != version_id@
            },
        },
{
    let target: String = version_id.to_owned();
    let n = m.versions.len();
    let mut i: usize = 0;
    while i < n
        invariant
            n == m.versions@.len(),
            i <= n,
            target@ == version_id@,
            forall|k: int| 0 <= k < i ==> (#[trigger] m.versions@[k]).id@ != version_id@,
        decreases n - i,
    {
        if m.versions[i].id == target {
            return Ok(&m.versions[i]);
        }
        i = i + 1;
    }
    Err(ProvisionError::VersionNotFound)
}

/// One row of the version listing: the id, the kind, and the release
/// date, which is the first ten characters of the release timestamp.
#[derive(Debug)]
pub struct VersionRow {
    pub id: String,
    pub kind: String,
    pub date: String,
}

/// The date shown for a release timestamp: its first ten characters, or
/// the whole timestamp when it is shorter than that.
pub open spec fn spec_date_of(ts: Seq<char>) -> Seq<char> {
    if ts.len() >= 10 {
        ts.take(10)
    } else {
        ts
    }
}

/// The rows of the version listing, newest first: the manifest's entries
/// in reverse order, each dated by the first ten characters of its
/// release timestamp.
pub fn version_list_rows(m: &VersionManifest) -> (rows: Vec<VersionRow>)
    ensures
        rows@.len() == m.versions@.len(),
        forall|i: int|
            0 <= i < rows@.len() ==> {
                &&& (#[trigger] rows@[i]).id@ == m.versions@[rows@.len() - 1 - i].id@
                &&& rows@[i].kind@ == m.versions@[rows@.len() - 1 - i].kind@
                &&& rows@[i].date@ == spec_date_of(m.versions@[rows@.len() - 1 - i].release_time@)
            },
{
    let n = m.versions.len();
    let mut rows: Vec<VersionRow> = Vec::new();
    let mut done: usize = 0;
    while done < n
        invariant
            n == m.versions@.len(),
            done <= n,
            rows@.len() == done,
            forall|i: int|
                0 <= i < done ==> {
                    &&& (#[trigger] rows@[i]).id@ == m.versions@[n - 1 - i].id@
                    &&& rows@[i].kind@ == m.versions@[n - 1 - i].kind@
                    &&& rows@[i].date@ == spec_date_of(m.versions@[n - 1 - i].release_time@)
                },
        decreases n - done,
    {
        let v = &m.versions[n - 1 - done];
        let ts = v.release_time.as_str();
        let date: String = if ts.unicode_len() >= 10 {
            ts.substring_char(0, 10).to_owned()
        } else {
            v.release_time.clone()
        };
        rows.push(VersionRow { id: v.id.clone(), kind: v.kind.clone(), date });
        done = done + 1;
    }
    rows
}

} // verus!
