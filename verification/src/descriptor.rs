//! The per-version descriptor document and the asset index it points to.
//! The descriptor names the runtime binary, the library set and the asset
//! index; the asset index maps logical asset names to content hashes.
//! Both are decoded from the JSON model with safe lookups: a missing or
//! mistyped field is a shape mismatch, never a crash.

use vstd::prelude::*;
use crate::errors::ProvisionError;
use crate::helpers::{clean_rel_path, is_clean_rel_path, is_hex_seq, is_hex_str};
use crate::json::{JsonValue, parse_json, spec_get, spec_parsed_json, spec_str_field, spec_u64_field};
use vstd::string::StrSliceExecFns;

verus! {

/// The artifact of one library record: where it lives remotely, where it
/// goes locally, and its declared checksum and size.
#[derive(Debug)]
pub struct LibraryArtifact {
    pub path: String,
    pub url: String,
    pub sha1: String,
    pub size: u64,
}

/// The typed content of the per-version descriptor: the asset-index
/// pointer, the runtime binary's source, and the declared libraries.
/// Fields of the document this library never reads (arguments and the
/// rest) are not modelled; the caller keeps the document's text verbatim
/// for later re-serialization.
#[derive(Debug)]
pub struct VersionJson {
    pub asset_index_url: String,
    pub client_url: String,
    pub client_size: u64,
    pub libraries: Vec<LibraryArtifact>,
}

/// One entry of the asset index: a content hash and a size.
#[derive(Debug)]
pub struct MinecraftAsset {
    pub hash: String,
    pub size: u64,
}

/// The decoded asset index: each logical asset name with its entry, in
/// document order.
#[derive(Debug)]
pub struct MinecraftAssets {
    pub objects: Vec<(String, MinecraftAsset)>,
}

/// The mathematical content of one library artifact.
pub ghost struct LibraryModel {
    pub path: Seq<char>,
    pub url: Seq<char>,
    pub sha1: Seq<char>,
    pub size: u64,
}

/// The mathematical content of the descriptor.
pub ghost struct DescriptorModel {
    pub asset_index_url: Seq<char>,
    pub client_url: Seq<char>,
    pub client_size: u64,
    pub libraries: Seq<LibraryModel>,
}

/// The mathematical content of one named asset.
pub ghost struct AssetModel {
    pub name: Seq<char>,
    pub hash: Seq<char>,
    pub size: u64,
}

impl View for LibraryArtifact {
    type V = LibraryModel;

    open spec fn view(&self) -> LibraryModel {
        LibraryModel { path: self.path@, url: self.url@, sha1: self.sha1@, size: self.size }
    }
}

impl View for VersionJson {
    type V = DescriptorModel;

    open spec fn view(&self) -> DescriptorModel {
        DescriptorModel {
            asset_index_url: self.asset_index_url@,
            client_url: self.client_url@,
            client_size: self.client_size,
            libraries: Seq::new(self.libraries@.len(), |i: int| self.libraries@[i]@),
        }
    }
}

impl View for MinecraftAssets {
    type V = Seq<AssetModel>;

    open spec fn view(&self) -> Seq<AssetModel> {
        Seq::new(
            self.objects@.len(),
            |i: int| AssetModel {
                name: self.objects@[i].0@,
                hash: self.objects@[i].1.hash@,
                size: self.objects@[i].1.size,
            },
        )
    }
}

/// What one library record decodes to: a nested `downloads.artifact`
/// object holding the artifact's `path`, `url`, `sha1` and `size`.  The
/// path must be a safe relative path: the artifact lands under the
/// instance root and must never be able to resolve outside it.
pub open spec fn spec_library(j: JsonValue) -> Option<LibraryModel> {
    match spec_get(j, "downloads"@) {
        Some(dl) => match spec_get(dl, "artifact"@) {
            Some(art) => match (
                spec_str_field(art, "path"@),
                spec_str_field(art, "url"@),
                spec_str_field(art, "sha1"@),
                spec_u64_field(art, "size"@),
            ) {
                (Some(path), Some(url), Some(sha1), Some(size)) => if clean_rel_path(path) {
                    Some(LibraryModel { path, url, sha1, size })
                } else {
                    None
                },
                _ => None,
            },
            None => None,
        },
        None => None,
    }
}

/// What the `libraries` array decodes to: every record must decode.
pub open spec fn spec_libraries(ls: Seq<JsonValue>) -> Option<Seq<LibraryModel>> {
    if forall|i: int| 0 <= i < ls.len() ==> spec_library(#[trigger] ls[i]) is Some {
        Some(Seq::new(ls.len(), |i: int| spec_library(ls[i]).unwrap()))
    } else {
        None
    }
}

/// What a descriptor document decodes to.  The four known top-level
/// fields must all be present: `assetIndex` with a `url`, `downloads`
/// with a `client` holding `url` and `size`, a `libraries` array whose
/// records all decode, and `arguments`, whose content is free.
pub open spec fn spec_version_json(j: JsonValue) -> Option<DescriptorModel> {
    if spec_get(j, "arguments"@) is None {
        None
    } else {
        match (spec_get(j, "assetIndex"@), spec_get(j, "downloads"@), spec_get(j, "libraries"@)) {
            (Some(ai), Some(dls), Some(JsonValue::Arr(ls))) => match spec_get(dls, "client"@) {
                Some(client) => match (
                    spec_str_field(ai, "url"@),
                    spec_str_field(client, "url"@),
                    spec_u64_field(client, "size"@),
                    spec_libraries(ls@),
                ) {
                    (Some(asset_index_url), Some(client_url), Some(client_size), Some(
                        libraries,
                    )) => Some(
                        DescriptorModel { asset_index_url, client_url, client_size, libraries },
                    ),
                    _ => None,
                },
                None => None,
            },
            _ => None,
        }
    }
}

/// What one asset-index entry decodes to: a `hash` of at least two
/// hexadecimal digits, whose first two form the shard directory, and a
/// `size`.  A hash that is not hexadecimal could steer the content
/// address outside the instance root and is a shape mismatch.
pub open spec fn spec_asset(j: JsonValue) -> Option<(Seq<char>, u64)> {
    match (spec_str_field(j, "hash"@), spec_u64_field(j, "size"@)) {
        (Some(hash), Some(size)) => if hash.len() >= 2 && is_hex_seq(hash) {
            Some((hash, size))
        } else {
            None
        },
        _ => None,
    }
}

/// What an asset-index document decodes to: an `objects` object whose
/// every field is a named asset that decodes.
pub open spec fn spec_assets(j: JsonValue) -> Option<Seq<AssetModel>> {
    match spec_get(j, "objects"@) {
        Some(JsonValue::Obj(pairs)) => {
            if forall|i: int| 0 <= i < pairs@.len() ==> spec_asset((#[trigger] pairs@[i]).1) is Some {
                Some(
                    Seq::new(
                        pairs@.len(),
                        |i: int| AssetModel {
                            name: pairs@[i].0@,
                            hash: spec_asset(pairs@[i].1).unwrap().0,
                            size: spec_asset(pairs@[i].1).unwrap().1,
                        },
                    ),
                )
            } else {
                None
            }
        },
        _ => None,
    }
}

/// Every decoded asset's hash is long enough to shard on and is made of
/// hexadecimal digits.
pub open spec fn assets_wf(assets: Seq<AssetModel>) -> bool {
    forall|i: int|
        0 <= i < assets.len() ==> (#[trigger] assets[i]).hash.len() >= 2 && is_hex_seq(
            assets[i].hash,
        )
}

/// Every declared library path is a safe relative path.
pub open spec fn libraries_wf(libs: Seq<LibraryModel>) -> bool {
    forall|i: int| 0 <= i < libs.len() ==> clean_rel_path((#[trigger] libs[i]).path)
}

/// Decodes one library record, exactly as `spec_library` describes.
pub fn decode_library(j: &JsonValue) -> (r: Result<LibraryArtifact, ProvisionError>)
    ensures
        match r {
            Ok(lib) => spec_library(*j) == Some(lib@),
            Err(e) => e is DecodeError && spec_library(*j) is None,
        },
{
    let art = match j.get("downloads") {
        Some(dl) => match dl.get("artifact") {
            Some(art) => art,
            None => {
                return Err(ProvisionError::DecodeError);
            },
        },
        None => {
            return Err(ProvisionError::DecodeError);
        },
    };
    let path = match art.get_str("path") {
        Some(s) => s.clone(),
        None => {
            return Err(ProvisionError::DecodeError);
        },
    };
    let url = match art.get_str("url") {
        Some(s) => s.clone(),
        None => {
            return Err(ProvisionError::DecodeError);
        },
    };
    let sha1 = match art.get_str("sha1") {
        Some(s) => s.clone(),
        None => {
            return Err(ProvisionError::DecodeError);
        },
    };
    let size = match art.get_u64("size") {
        Some(u) => u,
        None => {
            return Err(ProvisionError::DecodeError);
        },
    };
    if !is_clean_rel_path(path.as_str()) {
        return Err(ProvisionError::DecodeError);
    }
    Ok(LibraryArtifact { path, url, sha1, size })
}

/// Decodes a whole descriptor document, exactly as `spec_version_json`
/// describes.
pub fn decode_version_json(j: &JsonValue) -> (r: Result<VersionJson, ProvisionError>)
    ensures
        match r {
            Ok(v) => spec_version_json(*j) == Some(v@) && libraries_wf(v@.libraries),
            Err(e) => e is DecodeError && spec_version_json(*j) is None,
        },
{
    if j.get("arguments").is_none() {
        return Err(ProvisionError::DecodeError);
    }
    let asset_index_url = match j.get("assetIndex") {
        Some(ai) => match ai.get_str("url") {
            Some(s) => s.clone(),
            None => {
                return Err(ProvisionError::DecodeError);
            },
        },
        None => {
            return Err(ProvisionError::DecodeError);
        },
    };
    let (client_url, client_size) = match j.get("downloads") {
        Some(dls) => match dls.get("client") {
            Some(client) => {
                let u = match client.get_str("url") {
                    Some(s) => s.clone(),
                    None => {
                        return Err(ProvisionError::DecodeError);
                    },
                };
                let sz = match client.get_u64("size") {
                    Some(v) => v,
                    None => {
                        return Err(ProvisionError::DecodeError);
                    },
                };
                (u, sz)
            },
            None => {
                return Err(ProvisionError::DecodeError);
            },
        },
        None => {
            return Err(ProvisionError::DecodeError);
        },
    };
    let libraries_json = match j.get("libraries") {
        Some(JsonValue::Arr(ls)) => ls,
        _ => {
            return Err(ProvisionError::DecodeError);
        },
    };
    let n = libraries_json.len();
    let mut libraries: Vec<LibraryArtifact> = Vec::new();
    let mut i: usize = 0;
    while i < n
        invariant
            n == libraries_json@.len(),
            i <= n,
            libraries@.len() == i,
            spec_get(*j, "libraries"@) == Some(JsonValue::Arr(*libraries_json)),
            spec_get(*j, "arguments"@) is Some,
            forall|k: int|
                0 <= k < i ==> spec_library(#[trigger] libraries_json@[k]) == Some(
                    libraries@[k]@,
                ),
        decreases n - i,
    {
        match decode_library(&libraries_json[i]) {
            Ok(lib) => libraries.push(lib),
            Err(e) => {
                return Err(e);
            },
        }
        i = i + 1;
    }
    let v = VersionJson { asset_index_url, client_url, client_size, libraries };
    proof {
        assert(Seq::new(
            libraries_json@.len(),
            |k: int| spec_library(libraries_json@[k]).unwrap(),
        ) =~= v@.libraries);
    }
    Ok(v)
}

/// Decodes a whole asset-index document, exactly as `spec_assets`
/// describes.  The decoded set satisfies `assets_wf`.
pub fn decode_assets(j: &JsonValue) -> (r: Result<MinecraftAssets, ProvisionError>)
    ensures
        match r {
            Ok(a) => spec_assets(*j) == Some(a@) && assets_wf(a@),
            Err(e) => e is DecodeError && spec_assets(*j) is None,
        },
{
    let pairs = match j.get("objects") {
        Some(JsonValue::Obj(pairs)) => pairs,
        _ => {
            return Err(ProvisionError::DecodeError);
        },
    };
    let n = pairs.len();
    let mut objects: Vec<(String, MinecraftAsset)> = Vec::new();
    let mut i: usize = 0;
    while i < n
        invariant
            n == pairs@.len(),
            i <= n,
            objects@.len() == i,
            spec_get(*j, "objects"@) == Some(JsonValue::Obj(*pairs)),
            forall|k: int|
                0 <= k < i ==> {
                    &&& spec_asset((#[trigger] pairs@[k]).1) is Some
                    &&& objects@[k].0@ == pairs@[k].0@
                    &&& objects@[k].1.hash@ == spec_asset(pairs@[k].1).unwrap().0
                    &&& objects@[k].1.size == spec_asset(pairs@[k].1).unwrap().1
                    &&& objects@[k].1.hash@.len() >= 2
                    &&& is_hex_seq(objects@[k].1.hash@)
                },
        decreases n - i,
    {
        let name = pairs[i].0.clone();
        let entry = &pairs[i].1;
        let hash = match entry.get_str("hash") {
            Some(s) => s.clone(),
            None => {
                return Err(ProvisionError::DecodeError);
            },
        };
        let size = match entry.get_u64("size") {
            Some(u) => u,
            None => {
                return Err(ProvisionError::DecodeError);
            },
        };
        if hash.as_str().unicode_len() < 2 {
            return Err(ProvisionError::DecodeError);
        }
        if !is_hex_str(hash.as_str()) {
            return Err(ProvisionError::DecodeError);
        }
        objects.push((name, MinecraftAsset { hash, size }));
        i = i + 1;
    }
    let a = MinecraftAssets { objects };
    proof {
        assert(Seq::new(
            pairs@.len(),
            |k: int| AssetModel {
                name: pairs@[k].0@,
                hash: spec_asset(pairs@[k].1).unwrap().0,
                size: spec_asset(pairs@[k].1).unwrap().1,
            },
        ) =~= a@);
    }
    Ok(a)
}

/// Parses descriptor text and decodes it: exactly the typed descriptor
/// the text holds, and a shape mismatch when and only when the text is
/// not JSON or its document does not match the descriptor shape.
pub fn parse_version_json(s: &str) -> (r: Result<VersionJson, ProvisionError>)
    ensures
        match spec_parsed_json(s@) {
            Some(j) => match spec_version_json(j) {
                Some(model) => r matches Ok(v) && v@ == model && libraries_wf(v@.libraries),
                None => r matches Err(e) && e is DecodeError,
            },
            None => r matches Err(e) && e is DecodeError,
        },
{
    match parse_json(s) {
        Some(j) => decode_version_json(&j),
        None => Err(ProvisionError::DecodeError),
    }
}

/// Parses asset-index text and decodes it: exactly the typed asset set
/// the text holds, satisfying `assets_wf`, and a shape mismatch when
/// and only when the text is not JSON or its document does not match
/// the index shape.
pub fn parse_assets(s: &str) -> (r: Result<MinecraftAssets, ProvisionError>)
    ensures
        match spec_parsed_json(s@) {
            Some(j) => match spec_assets(j) {
                Some(model) => r matches Ok(a) && a@ == model && assets_wf(a@),
                None => r matches Err(e) && e is DecodeError,
            },
            None => r matches Err(e) && e is DecodeError,
        },
{
    match parse_json(s) {
        Some(j) => decode_assets(&j),
        None => Err(ProvisionError::DecodeError),
    }
}

} // verus!
