use oxide_launcher::error::{Error, TransportError};
use oxide_launcher::meta::{VersionJson, VersionManifest};
use oxide_launcher::Platform;

fn catalog_body() -> String {
    "{\"latest\":{\"release\":\"1.18.1\",\"snapshot\":\"22w03a\"},\
     \"versions\":[\
     {\"id\":\"22w03a\",\"type\":\"snapshot\",\
      \"url\":\"https://launchermeta.mojang.com/v1/packages/aaa/22w03a.json\",\
      \"time\":\"2022-01-19T17:07:41+00:00\",\"releaseTime\":\"2022-01-19T16:57:19+00:00\",\
      \"sha1\":\"aaa\",\"complianceLevel\":1},\
     {\"id\":\"1.18.1\",\"type\":\"release\",\
      \"url\":\"https://launchermeta.mojang.com/v1/packages/bbb/1.18.1.json\",\
      \"time\":\"2021-12-10T08:26:34+00:00\",\"releaseTime\":\"2021-12-10T08:23:00+00:00\",\
      \"sha1\":\"bbb\",\"complianceLevel\":1}]}"
        .to_string()
}

#[test]
fn manifest_endpoint_is_fixed() {
    assert_eq!(
        VersionManifest::get_endpoint(),
        "https://launchermeta.mojang.com/mc/game/version_manifest_v2.json"
    );
}

#[test]
fn catalog_decodes_and_keeps_order() {
    let catalog = VersionManifest::process_response(Ok(catalog_body())).unwrap();
    assert_eq!(catalog.latest.release, "1.18.1");
    assert_eq!(catalog.latest.snapshot, "22w03a");
    assert_eq!(catalog.versions.len(), 2);
    assert_eq!(catalog.versions[0].id, "22w03a");
    assert_eq!(catalog.versions[0].version_type, "snapshot");
    assert_eq!(catalog.versions[1].id, "1.18.1");
    assert_eq!(catalog.versions[1].version_type, "release");
    assert_eq!(catalog.versions[1].sha1, "bbb");
    assert_eq!(catalog.versions[1].compliance_level, 1);
}

#[test]
fn catalog_without_latest_fails() {
    let body = "{\"versions\":[]}".to_string();
    assert!(matches!(
        VersionManifest::process_response(Ok(body)),
        Err(Error::Decode)
    ));
}

#[test]
fn catalog_transport_failure_surfaces() {
    let r = VersionManifest::process_response(Err(TransportError {
        message: "HTTP 500".to_string(),
    }));
    match r {
        Err(Error::Transport(t)) => assert_eq!(t.message, "HTTP 500"),
        _ => panic!("expected a transport error"),
    }
}

#[test]
fn cache_path_uses_platform_separator() {
    let catalog = VersionManifest::process_response(Ok(catalog_body())).unwrap();
    let v = &catalog.versions[1];
    assert_eq!(
        v.cache_path("/home/u/.minecraft", &Platform::Other),
        "/home/u/.minecraft/versions/1.18.1/1.18.1.json"
    );
    assert_eq!(
        v.cache_path("C:/mc", &Platform::Windows),
        "C:/mc\\versions\\1.18.1\\1.18.1.json"
    );
}

fn descriptor_body() -> String {
    "{\"assetIndex\":{\"id\":\"1.18\",\"sha1\":\"ccc\",\"size\":1234,\
      \"totalSize\":5678,\"url\":\"https://example.invalid/assets.json\"},\
     \"assets\":\"1.18\",\"complianceLevel\":1,\
     \"downloads\":{\
      \"client\":{\"sha1\":\"ddd\",\"size\":100,\"url\":\"https://example.invalid/client.jar\"},\
      \"server\":{\"sha1\":\"eee\",\"size\":200,\"url\":\"https://example.invalid/server.jar\"}},\
     \"id\":\"1.18.1\",\"mainClass\":\"net.minecraft.client.main.Main\",\
     \"minimumLauncherVersion\":21,\"type\":\"release\"}"
        .to_string()
}

#[test]
fn descriptor_decodes() {
    let d = VersionJson::process_response(Ok(descriptor_body())).unwrap();
    assert_eq!(d.id, "1.18.1");
    assert_eq!(d.main_class, "net.minecraft.client.main.Main");
    assert_eq!(d.minimum_launcher_version, 21);
    assert_eq!(d.version_type, "release");
    assert_eq!(d.assets, "1.18");
    assert_eq!(d.compliance_level, Some(1));
    assert!(d.minecraft_arguments.is_none());
    assert_eq!(d.asset_index.id, "1.18");
    assert_eq!(d.asset_index.size, 1234);
    assert_eq!(d.asset_index.total_size, 5678);
    assert_eq!(d.downloads.client.sha1, "ddd");
    assert_eq!(d.downloads.client.size, 100);
    let server = d.downloads.server.unwrap();
    assert_eq!(server.sha1, "eee");
    assert!(d.downloads.client_mappings.is_none());
    assert!(d.downloads.server_mappings.is_none());
}

#[test]
fn descriptor_without_client_download_fails() {
    let body = "{\"assetIndex\":{\"id\":\"1.18\",\"sha1\":\"c\",\"size\":1,\
                 \"totalSize\":2,\"url\":\"u\"},\
                \"assets\":\"1.18\",\"downloads\":{},\"id\":\"x\",\
                \"mainClass\":\"m\",\"minimumLauncherVersion\":1,\"type\":\"release\"}"
        .to_string();
    assert!(matches!(
        VersionJson::process_response(Ok(body)),
        Err(Error::Decode)
    ));
}

#[test]
fn descriptor_without_compliance_level_decodes_with_none() {
    let body = descriptor_body().replace("\"complianceLevel\":1,", "");
    let d = VersionJson::process_response(Ok(body)).unwrap();
    assert!(d.compliance_level.is_none());
}

#[test]
fn descriptor_with_oversized_compliance_level_fails() {
    let body = descriptor_body().replace("\"complianceLevel\":1", "\"complianceLevel\":300");
    assert!(matches!(
        VersionJson::process_response(Ok(body)),
        Err(Error::Decode)
    ));
}
