use vanta::descriptor::{LibraryArtifact, MinecraftAsset, MinecraftAssets, VersionJson};
use vanta::plan::{
    build_queue, client_entry, download_target, install_plan, metadata_path, queue_assets,
    queue_libs,
};

fn s(text: &str) -> String {
    text.to_string()
}

fn descriptor() -> VersionJson {
    VersionJson {
        asset_index_url: s("https://example.invalid/assets.json"),
        client_url: s("https://example.invalid/client.jar"),
        client_size: 4242,
        libraries: vec![LibraryArtifact {
            path: s("com/example/lib-1.0.jar"),
            url: s("https://example.invalid/com/example/lib-1.0.jar"),
            sha1: s("0123456789abcdef0123456789abcdef01234567"),
            size: 77,
        }],
    }
}

fn assets() -> MinecraftAssets {
    MinecraftAssets {
        objects: vec![(
            s("minecraft/sounds/note/harp.ogg"),
            MinecraftAsset { hash: s("abcd1234abcd1234abcd1234abcd1234abcd1234"), size: 11 },
        )],
    }
}

#[test]
fn library_artifact_lands_under_libraries() {
    let q = queue_libs(&descriptor());
    assert_eq!(q.len(), 1);
    assert_eq!(q[0].destination, "libraries/com/example/lib-1.0.jar");
    assert!(!q[0].executable);
    assert_eq!(q[0].url, "https://example.invalid/com/example/lib-1.0.jar");
    assert_eq!(q[0].sha1.as_deref(), Some("0123456789abcdef0123456789abcdef01234567"));
    assert_eq!(q[0].size, Some(77));
    assert_eq!(q[0].name.as_deref(), Some("com/example/lib-1.0.jar"));
}

#[test]
fn asset_is_sharded_by_the_first_two_hash_characters() {
    let q = queue_assets(&assets());
    assert_eq!(q.len(), 1);
    assert_eq!(q[0].destination, "assets/objects/ab/abcd1234abcd1234abcd1234abcd1234abcd1234");
    assert_eq!(
        q[0].url,
        "https://resources.download.minecraft.net/ab/abcd1234abcd1234abcd1234abcd1234abcd1234"
    );
    assert_eq!(q[0].size, Some(11));
    assert_eq!(q[0].sha1, None);
    assert_eq!(q[0].name.as_deref(), Some("minecraft/sounds/note/harp.ogg"));
    assert!(!q[0].executable);
}

#[test]
fn client_entry_is_the_executable_runtime_binary() {
    let e = client_entry(&descriptor());
    assert_eq!(e.destination, "versions/client.jar");
    assert_eq!(e.url, "https://example.invalid/client.jar");
    assert_eq!(e.size, Some(4242));
    assert_eq!(e.sha1.as_deref(), Some(""));
    assert_eq!(e.name.as_deref(), Some("Client"));
    assert!(e.executable);
}

#[test]
fn queue_is_assets_then_libraries_then_client() {
    let q = build_queue(&descriptor(), &assets());
    assert_eq!(q.len(), 3);
    assert!(q[0].destination.starts_with("assets/objects/"));
    assert!(q[1].destination.starts_with("libraries/"));
    assert_eq!(q[2].destination, "versions/client.jar");
}

#[test]
fn install_plan_partitions_the_whole_queue() {
    let (q, ranges) = install_plan(&descriptor(), &assets(), 2);
    assert_eq!(q.len(), 3);
    assert_eq!(ranges.len(), 2);
    assert_eq!(ranges[0].start, 0);
    assert_eq!(ranges[0].end, 2);
    assert_eq!(ranges[1].start, 2);
    assert_eq!(ranges[1].end, 3);
}

#[test]
fn install_plan_never_runs_without_a_worker() {
    let (_, ranges) = install_plan(&descriptor(), &assets(), 0);
    assert_eq!(ranges.len(), 1);
}

#[test]
fn entry_target_is_joined_under_the_instance_root() {
    let q = queue_libs(&descriptor());
    let target = download_target("/data/instances/alpha", &q[0]);
    assert_eq!(target, "/data/instances/alpha/libraries/com/example/lib-1.0.jar");
}

#[test]
fn metadata_lands_beside_the_runtime_binary() {
    assert_eq!(
        metadata_path("/data/instances/alpha"),
        "/data/instances/alpha/versions/client.json"
    );
}
