//! The download plan.  The decoded descriptor and asset index are turned
//! into a flat, ordered queue of download entries: one entry per asset,
//! one per declared library, and exactly one for the runtime binary, in
//! that order.  Every destination is a relative path under the instance
//! root.  No platform filtering is applied to the library set: every
//! declared library is queued.

use vstd::prelude::*;
use crate::descriptor::{
    AssetModel, DescriptorModel, LibraryModel, MinecraftAssets, VersionJson, assets_wf,
    libraries_wf,
};
use crate::helpers::{
    clean_rel_path, has_dotdot_segment, is_hex_char, is_hex_seq, join_path, spec_joined,
};
use crate::partition::{
    WorkerRange, normalize_worker_count, partition, range_end, range_start,
};
use vstd::string::{StrSliceExecFns, StringExecFns};

verus! {

/// One unit of download work: a remote source, a relative destination
/// under the instance root, and display metadata.  The size is shown in
/// progress output only, and the checksum is carried but not verified.
#[derive(Debug)]
pub struct DownloadEntry {
    pub url: String,
    pub destination: String,
    pub size: Option<u64>,
    pub sha1: Option<String>,
    pub name: Option<String>,
    pub executable: bool,
}

/// The mathematical content of one download entry.
pub ghost struct EntryModel {
    pub url: Seq<char>,
    pub destination: Seq<char>,
    pub size: Option<u64>,
    pub sha1: Option<Seq<char>>,
    pub name: Option<Seq<char>>,
    pub executable: bool,
}

impl View for DownloadEntry {
    type V = EntryModel;

    open spec fn view(&self) -> EntryModel {
        EntryModel {
            url: self.url@,
            destination: self.destination@,
            size: self.size,
            sha1: match self.sha1 {
                Some(s) => Some(s@),
                None => None,
            },
            name: match self.name {
                Some(s) => Some(s@),
                None => None,
            },
            executable: self.executable,
        }
    }
}

/// The entry an asset yields: its source under the resource host and its
/// destination under `assets/objects`, both sharded by the first two
/// characters of the content hash, exactly as the remote store lays its
/// files out.
pub open spec fn spec_asset_entry(a: AssetModel) -> EntryModel {
    EntryModel {
        url: "https://resources.download.minecraft.net/"@ + a.hash.take(2) + "/"@ + a.hash,
        destination: "assets/objects/"@ + a.hash.take(2) + "/"@ + a.hash,
        size: Some(a.size),
        sha1: None,
        name: Some(a.name),
        executable: false,
    }
}

/// The entry a library yields: the artifact's own url, a destination of
/// its declared path under `libraries/`, and its declared checksum.
pub open spec fn spec_library_entry(lib: LibraryModel) -> EntryModel {
    EntryModel {
        url: lib.url,
        destination: "libraries/"@ + lib.path,
        size: Some(lib.size),
        sha1: Some(lib.sha1),
        name: Some(lib.path),
        executable: false,
    }
}

/// The one synthetic entry for the runtime binary.
pub open spec fn spec_client_entry(d: DescriptorModel) -> EntryModel {
    EntryModel {
        url: d.client_url,
        destination: "versions/client.jar"@,
        size: Some(d.client_size),
        sha1: Some(Seq::<char>::empty()),
        name: Some("Client"@),
        executable: true,
    }
}

/// The whole plan: asset entries, then library entries, then the client
/// entry.
pub open spec fn spec_build_queue(d: DescriptorModel, assets: Seq<AssetModel>) -> Seq<EntryModel> {
    Seq::new(assets.len(), |i: int| spec_asset_entry(assets[i])) + Seq::new(
        d.libraries.len(),
        |i: int| spec_library_entry(d.libraries[i]),
    ) + seq![spec_client_entry(d)]
}

/// The views of a queue's entries.
pub open spec fn queue_view(q: Seq<DownloadEntry>) -> Seq<EntryModel> {
    Seq::new(q.len(), |i: int| q[i]@)
}

/// Builds the asset part of the queue: one entry per named asset, in
/// index order, each formed as `spec_asset_entry` describes.
pub fn queue_assets(assets: &MinecraftAssets) -> (q: Vec<DownloadEntry>)
    requires
        assets_wf(assets@),
    ensures
        queue_view(q@) == assets@.map(|i: int, a: AssetModel| spec_asset_entry(a)),
{
    let n = assets.objects.len();
    let mut q: Vec<DownloadEntry> = Vec::new();
    let mut i: usize = 0;
    while i < n
        invariant
            n == assets.objects@.len(),
            i <= n,
            q@.len() == i,
            assets_wf(assets@),
            forall|k: int| 0 <= k < i ==> (#[trigger] q@[k])@ == spec_asset_entry(assets@[k]),
        decreases n - i,
    {
        proof {
            assert(assets@[i as int].hash == assets.objects@[i as int].1.hash@);
        }
        let name = assets.objects[i].0.clone();
        let asset = &assets.objects[i].1;
        let shard = asset.hash.as_str().substring_char(0, 2);
        let mut url = String::new();
        url.append("https://resources.download.minecraft.net/");
        url.append(shard);
        url.append("/");
        url.append(asset.hash.as_str());
        let mut destination = String::new();
        destination.append("assets/objects/");
        destination.append(shard);
        destination.append("/");
        destination.append(asset.hash.as_str());
        let entry = DownloadEntry {
            url,
            destination,
            size: Some(asset.size),
            sha1: None,
            name: Some(name),
            executable: false,
        };
        proof {
            assert(entry@.url =~= spec_asset_entry(assets@[i as int]).url);
            assert(entry@.destination =~= spec_asset_entry(assets@[i as int]).destination);
        }
        q.push(entry);
        i = i + 1;
    }
    proof {
        assert(queue_view(q@) =~= assets@.map(|i: int, a: AssetModel| spec_asset_entry(a)));
    }
    q
}

/// Builds the library part of the queue: one entry per declared library
/// record, in declaration order, each formed as `spec_library_entry`
/// describes; no record is filtered out.
pub fn queue_libs(version: &VersionJson) -> (q: Vec<DownloadEntry>)
    ensures
        queue_view(q@) == version@.libraries.map(|i: int, l: LibraryModel| spec_library_entry(l)),
{
    let n = version.libraries.len();
    let mut q: Vec<DownloadEntry> = Vec::new();
    let mut i: usize = 0;
    while i < n
        invariant
            n == version.libraries@.len(),
            i <= n,
            q@.len() == i,
            forall|k: int|
                0 <= k < i ==> (#[trigger] q@[k])@ == spec_library_entry(version@.libraries[k]),
        decreases n - i,
    {
        let lib = &version.libraries[i];
        let mut destination = String::new();
        destination.append("libraries/");
        destination.append(lib.path.as_str());
        let entry = DownloadEntry {
            url: lib.url.clone(),
            destination,
            size: Some(lib.size),
            sha1: Some(lib.sha1.clone()),
            name: Some(lib.path.clone()),
            executable: false,
        };
        proof {
            assert(entry@.destination =~= spec_library_entry(version@.libraries[i as int]).destination);
        }
        q.push(entry);
        i = i + 1;
    }
    proof {
        assert(queue_view(q@) =~= version@.libraries.map(
            |i: int, l: LibraryModel| spec_library_entry(l),
        ));
    }
    q
}

/// Builds the one synthetic entry for the runtime binary.
pub fn client_entry(version: &VersionJson) -> (entry: DownloadEntry)
    ensures
        entry@ == spec_client_entry(version@),
{
    let entry = DownloadEntry {
        url: version.client_url.clone(),
        destination: String::from_str("versions/client.jar"),
        size: Some(version.client_size),
        sha1: Some(String::new()),
        name: Some(String::from_str("Client")),
        executable: true,
    };
    entry
}

/// Builds the whole plan: asset entries, then library entries, then the
/// client entry, exactly as `spec_build_queue` describes.  The queue is
/// built once and the download phase never changes it.
pub fn build_queue(version: &VersionJson, assets: &MinecraftAssets) -> (q: Vec<DownloadEntry>)
    requires
        assets_wf(assets@),
    ensures
        queue_view(q@) == spec_build_queue(version@, assets@),
        q@.len() == assets@.len() + version@.libraries.len() + 1,
{
    let mut q = queue_assets(assets);
    let mut libs = queue_libs(version);
    let ghost apart = q@;
    let ghost lpart = libs@;
    q.append(&mut libs);
    let entry = client_entry(version);
    let ghost withlibs = q@;
    q.push(entry);
    proof {
        assert(q@ == apart + lpart + seq![entry]);
        let spec_q = spec_build_queue(version@, assets@);
        assert(apart.len() == queue_view(apart).len());
        assert(lpart.len() == queue_view(lpart).len());
        assert(apart.len() == assets@.len());
        assert(lpart.len() == version@.libraries.len());
        assert(q@.len() == spec_q.len());
        assert forall|i: int| 0 <= i < q@.len() implies queue_view(q@)[i] == spec_q[i] by {
            if i < apart.len() {
                assert(q@[i] == apart[i]);
                assert(apart[i]@ == queue_view(apart)[i]);
                assert(queue_view(apart)[i] == spec_asset_entry(assets@[i]));
                assert(spec_q[i] == spec_asset_entry(assets@[i]));
            } else if i < apart.len() + lpart.len() {
                let k = i - apart.len();
                assert(q@[i] == lpart[k]);
                assert(lpart[k]@ == queue_view(lpart)[k]);
                assert(queue_view(lpart)[k] == spec_library_entry(version@.libraries[k]));
                assert(spec_q[i] == spec_library_entry(version@.libraries[k]));
            } else {
                assert(q@[i] == entry);
                assert(spec_q[i] == spec_client_entry(version@));
            }
        }
        assert(queue_view(q@) =~= spec_q);
    }
    q
}

/// Where one entry's bytes are written: its relative destination joined
/// under the instance root.
pub fn download_target(instance_root: &str, entry: &DownloadEntry) -> (r: String)
    ensures
        r@ == spec_joined(instance_root@, entry.destination@),
{
    join_path(instance_root, entry.destination.as_str())
}

/// Where the resolved descriptor document is persisted, so a later
/// launch can reconstruct its arguments without resolving again.
pub fn metadata_path(instance_root: &str) -> (r: String)
    ensures
        r@ == spec_joined(instance_root@, "versions/client.json"@),
{
    join_path(instance_root, "versions/client.json")
}

/// The whole provisioning plan: the queue, built once, and its
/// partition over the workers — at least one worker, whatever was
/// requested.  The workers' ranges split the queue's indices exactly.
pub fn install_plan(version: &VersionJson, assets: &MinecraftAssets, workers: usize) -> (r: (
    Vec<DownloadEntry>,
    Vec<WorkerRange>,
))
    requires
        assets_wf(assets@),
    ensures
        queue_view(r.0@) == spec_build_queue(version@, assets@),
        r.1@.len() >= 1,
        forall|i: int|
            0 <= i < r.1@.len() ==> (#[trigger] r.1@[i]).start == range_start(
                r.0@.len() as int,
                r.1@.len() as int,
                i,
            ) && r.1@[i].end == range_end(r.0@.len() as int, r.1@.len() as int, i),
        r.1@.len() == if workers >= 1 {
            workers as int
        } else {
            1
        },
{
    let queue = build_queue(version, assets);
    let t = normalize_worker_count(workers);
    let ranges = partition(queue.len(), t);
    (queue, ranges)
}

/// An asset entry's destination is a safe relative path.
proof fn lemma_asset_destination_clean(a: AssetModel)
    requires
        a.hash.len() >= 2,
        is_hex_seq(a.hash),
    ensures
        clean_rel_path(spec_asset_entry(a).destination),
{
    reveal_strlit("assets/objects/");
    reveal_strlit("/");
    let dest = spec_asset_entry(a).destination;
    assert(dest[0] == 'a');
    assert forall|p: int| 0 <= p < dest.len() implies dest[p] != '.' by {
        if p < 15 {
            assert(dest[p] == "assets/objects/"@[p]);
        } else if p < 17 {
            assert(dest[p] == a.hash[p - 15]);
            assert(is_hex_char(a.hash[p - 15]));
        } else if p == 17 {
            assert(dest[p] == '/');
        } else {
            assert(dest[p] == a.hash[p - 18]);
            assert(is_hex_char(a.hash[p - 18]));
        }
    }
    assert(!has_dotdot_segment(dest)) by {
        if has_dotdot_segment(dest) {
            let i = choose|i: int|
                0 <= i && i + 2 <= dest.len() && (i == 0 || dest[i - 1] == '/') && #[trigger] dest[i]
                    == '.' && dest[i + 1] == '.' && (i + 2 == dest.len() || dest[i + 2] == '/');
            assert(dest[i] != '.');
        }
    }
}

/// A library entry's destination is a safe relative path.
proof fn lemma_library_destination_clean(l: LibraryModel)
    requires
        clean_rel_path(l.path),
    ensures
        clean_rel_path(spec_library_entry(l).destination),
{
    reveal_strlit("libraries/");
    let dest = spec_library_entry(l).destination;
    assert(dest[0] == 'l');
    assert(!has_dotdot_segment(dest)) by {
        if has_dotdot_segment(dest) {
            let i = choose|i: int|
                0 <= i && i + 2 <= dest.len() && (i == 0 || dest[i - 1] == '/') && #[trigger] dest[i]
                    == '.' && dest[i + 1] == '.' && (i + 2 == dest.len() || dest[i + 2] == '/');
            if i < 10 {
                assert(dest[i] == "libraries/"@[i]);
                assert(dest[i] != '.');
            } else {
                let j = i - 10;
                assert(dest[i] == l.path[j]);
                assert(dest[i + 1] == l.path[j + 1]);
                if i > 10 {
                    assert(dest[i - 1] == l.path[j - 1]);
                }
                if i + 2 < dest.len() {
                    assert(dest[i + 2] == l.path[j + 2]);
                }
                assert((j == 0 || l.path[j - 1] == '/') && l.path[j] == '.' && l.path[j + 1] == '.'
                    && (j + 2 == l.path.len() || l.path[j + 2] == '/'));
                assert(has_dotdot_segment(l.path));
            }
        }
    }
}

/// The client entry's destination is a safe relative path.
proof fn lemma_client_destination_clean(d: DescriptorModel)
    ensures
        clean_rel_path(spec_client_entry(d).destination),
{
    reveal_strlit("versions/client.jar");
    let dest = spec_client_entry(d).destination;
    assert(dest[0] == 'v');
    assert(!has_dotdot_segment(dest)) by {
        if has_dotdot_segment(dest) {
            let i = choose|i: int|
                0 <= i && i + 2 <= dest.len() && (i == 0 || dest[i - 1] == '/') && #[trigger] dest[i]
                    == '.' && dest[i + 1] == '.' && (i + 2 == dest.len() || dest[i + 2] == '/');
            assert(dest[i] == '.' && dest[i + 1] == '.');
            assert(false);
        }
    }
}

/// The plan's invariant: every destination in the queue is a relative
/// path without a parent-directory step, so no queued write, joined
/// under the instance root, can ever resolve outside that root.
pub proof fn theorem_destinations_stay_inside(d: DescriptorModel, assets: Seq<AssetModel>)
    requires
        assets_wf(assets),
        libraries_wf(d.libraries),
    ensures
        forall|i: int|
            0 <= i < spec_build_queue(d, assets).len() ==> clean_rel_path(
                (#[trigger] spec_build_queue(d, assets)[i]).destination,
            ),
{
    let q = spec_build_queue(d, assets);
    assert forall|i: int| 0 <= i < q.len() implies clean_rel_path(q[i].destination) by {
        if i < assets.len() {
            assert(q[i] == spec_asset_entry(assets[i]));
            lemma_asset_destination_clean(assets[i]);
        } else if i < assets.len() + d.libraries.len() {
            assert(q[i] == spec_library_entry(d.libraries[i - assets.len()]));
            lemma_library_destination_clean(d.libraries[i - assets.len()]);
        } else {
            assert(q[i] == spec_client_entry(d));
            lemma_client_destination_clean(d);
        }
    }
}

/// Re-planning is identical: any two queues built from the same
/// resolved descriptor and asset index carry the same entries, so a
/// re-run plans exactly the same writes to exactly the same
/// destinations.  Together with overwriting file writes outside the
/// library, a re-run heals missing files without touching any file the
/// plan does not name.
pub proof fn theorem_replanning_is_identical(
    q1: Seq<DownloadEntry>,
    q2: Seq<DownloadEntry>,
    d: DescriptorModel,
    assets: Seq<AssetModel>,
)
    requires
        queue_view(q1) == spec_build_queue(d, assets),
        queue_view(q2) == spec_build_queue(d, assets),
    ensures
        queue_view(q1) == queue_view(q2),
{
}

} // verus!
