//! The version catalog of the game-metadata service and the per-version
//! descriptor document.
//!
//! The catalog enumerates released and snapshot versions, most recent first;
//! the order the service returns is preserved, never re-sorted.  A version's
//! detailed descriptor is fetched separately, from the URL carried in its
//! catalog entry.

use vstd::prelude::*;
use vstd::string::StringExecFns;

use crate::error::{Error, TransportError};
use crate::json::{
    entries_view, get_str, get_u64, get_u8, json_of, lookup, obj_get, parse_json,
    spec_opt_str_field, spec_opt_u8_field, spec_str_field, spec_u64_field, spec_u8_field, Json,
    JsonView,
};
use crate::Platform;

verus! {

/// One entry of the version catalog.
#[derive(Debug, Clone)]
pub struct Version {
    pub id: String,
    /// The release channel, e.g. release or snapshot.
    pub version_type: String,
    /// Where this version's detailed descriptor document lives.
    pub url: String,
    pub time: String,
    pub release_time: String,
    pub sha1: String,
    pub compliance_level: u8,
}

/// The mathematical content of a [`Version`].
pub ghost struct VersionView {
    pub id: Seq<char>,
    pub version_type: Seq<char>,
    pub url: Seq<char>,
    pub time: Seq<char>,
    pub release_time: Seq<char>,
    pub sha1: Seq<char>,
    pub compliance_level: u8,
}

impl View for Version {
    type V = VersionView;

    open spec fn view(&self) -> VersionView {
        VersionView {
            id: self.id@,
            version_type: self.version_type@,
            url: self.url@,
            time: self.time@,
            release_time: self.release_time@,
            sha1: self.sha1@,
            compliance_level: self.compliance_level,
        }
    }
}

/// The two distinguished version ids of the catalog's `latest` object.
#[derive(Debug, Clone)]
pub struct LatestVersions {
    pub release: String,
    pub snapshot: String,
}

/// The mathematical content of a [`LatestVersions`].
pub ghost struct LatestVersionsView {
    pub release: Seq<char>,
    pub snapshot: Seq<char>,
}

impl View for LatestVersions {
    type V = LatestVersionsView;

    open spec fn view(&self) -> LatestVersionsView {
        LatestVersionsView { release: self.release@, snapshot: self.snapshot@ }
    }
}

/// The decoded version catalog.
#[derive(Debug)]
pub struct Versions {
    pub latest: LatestVersions,
    /// In the order the service returned them: most recent first.
    pub versions: Vec<Version>,
}

/// The view of a version list.
pub open spec fn versions_seq_view(v: Vec<Version>) -> Seq<VersionView> {
    Seq::new(v@.len(), |i: int| v@[i]@)
}

/// The mathematical content of a [`Versions`] catalog.
pub ghost struct VersionsView {
    pub latest: LatestVersionsView,
    pub versions: Seq<VersionView>,
}

impl View for Versions {
    type V = VersionsView;

    open spec fn view(&self) -> VersionsView {
        VersionsView { latest: self.latest@, versions: versions_seq_view(self.versions) }
    }
}

/// The catalog entry a JSON document decodes to, if it matches the schema:
/// six required strings and a `complianceLevel` that fits eight bits.
pub open spec fn spec_version(v: JsonView) -> Option<VersionView> {
    match v {
        JsonView::Obj(es) => match (
            spec_str_field(lookup(es, "id"@)),
            spec_str_field(lookup(es, "type"@)),
            spec_str_field(lookup(es, "url"@)),
            spec_str_field(lookup(es, "time"@)),
            spec_str_field(lookup(es, "releaseTime"@)),
            spec_str_field(lookup(es, "sha1"@)),
            spec_u8_field(lookup(es, "complianceLevel"@)),
        ) {
            (
                Some(id),
                Some(version_type),
                Some(url),
                Some(time),
                Some(release_time),
                Some(sha1),
                Some(compliance_level),
            ) => Some(
                VersionView {
                    id,
                    version_type,
                    url,
                    time,
                    release_time,
                    sha1,
                    compliance_level,
                },
            ),
            _ => None,
        },
        _ => None,
    }
}

/// The `latest` object a JSON document decodes to.
pub open spec fn spec_latest(v: JsonView) -> Option<LatestVersionsView> {
    match v {
        JsonView::Obj(es) => match (
            spec_str_field(lookup(es, "release"@)),
            spec_str_field(lookup(es, "snapshot"@)),
        ) {
            (Some(release), Some(snapshot)) => Some(LatestVersionsView { release, snapshot }),
            _ => None,
        },
        _ => None,
    }
}

/// The version list a JSON array decodes to, if every element matches the
/// catalog-entry schema; the source order is kept.
pub open spec fn spec_versions_list(v: JsonView) -> Option<Seq<VersionView>> {
    match v {
        JsonView::Arr(a) => if forall|i: int|
            0 <= i < a.len() ==> spec_version(#[trigger] a[i]) is Some {
            Some(Seq::new(a.len(), |i: int| spec_version(a[i]).unwrap()))
        } else {
            None
        },
        _ => None,
    }
}

/// The catalog a JSON document decodes to: a `latest` object and the
/// ordered `versions` array, both required.
pub open spec fn spec_versions(v: JsonView) -> Option<VersionsView> {
    match v {
        JsonView::Obj(es) => match (lookup(es, "latest"@), lookup(es, "versions"@)) {
            (Some(l), Some(vs)) => match (spec_latest(l), spec_versions_list(vs)) {
                (Some(latest), Some(versions)) => Some(VersionsView { latest, versions }),
                _ => None,
            },
            _ => None,
        },
        _ => None,
    }
}

/// Decodes one catalog entry.
fn decode_version(j: &Json) -> (r: Result<Version, Error>)
    ensures
        match r {
            Ok(v) => spec_version(j@) == Some(v@),
            Err(e) => spec_version(j@) is None && e == Error::Decode,
        },
{
    match j {
        Json::Obj(entries) => {
            let id = match get_str(entries, &"id".to_owned()) {
                Some(s) => s,
                None => return Err(Error::Decode),
            };
            let version_type = match get_str(entries, &"type".to_owned()) {
                Some(s) => s,
                None => return Err(Error::Decode),
            };
            let url = match get_str(entries, &"url".to_owned()) {
                Some(s) => s,
                None => return Err(Error::Decode),
            };
            let time = match get_str(entries, &"time".to_owned()) {
                Some(s) => s,
                None => return Err(Error::Decode),
            };
            let release_time = match get_str(entries, &"releaseTime".to_owned()) {
                Some(s) => s,
                None => return Err(Error::Decode),
            };
            let sha1 = match get_str(entries, &"sha1".to_owned()) {
                Some(s) => s,
                None => return Err(Error::Decode),
            };
            let compliance_level = match get_u8(entries, &"complianceLevel".to_owned()) {
                Some(n) => n,
                None => return Err(Error::Decode),
            };
            Ok(Version { id, version_type, url, time, release_time, sha1, compliance_level })
        },
        _ => Err(Error::Decode),
    }
}

/// Decodes the `latest` object.
fn decode_latest(j: &Json) -> (r: Result<LatestVersions, Error>)
    ensures
        match r {
            Ok(l) => spec_latest(j@) == Some(l@),
            Err(e) => spec_latest(j@) is None && e == Error::Decode,
        },
{
    match j {
        Json::Obj(entries) => {
            let release = match get_str(entries, &"release".to_owned()) {
                Some(s) => s,
                None => return Err(Error::Decode),
            };
            let snapshot = match get_str(entries, &"snapshot".to_owned()) {
                Some(s) => s,
                None => return Err(Error::Decode),
            };
            Ok(LatestVersions { release, snapshot })
        },
        _ => Err(Error::Decode),
    }
}

/// Decodes the whole version list, keeping the source order.
fn decode_versions_list(arr: &Vec<Json>) -> (r: Result<Vec<Version>, Error>)
    ensures
        match r {
            Ok(vs) => spec_versions_list(JsonView::Arr(crate::json::arr_view(*arr))) == Some(
                versions_seq_view(vs),
            ),
            Err(e) => spec_versions_list(JsonView::Arr(crate::json::arr_view(*arr))) is None && e
                == Error::Decode,
        },
{
    let ghost av = crate::json::arr_view(*arr);
    let mut out: Vec<Version> = Vec::new();
    let mut i: usize = 0;
    while i < arr.len()
        invariant
            i <= arr@.len(),
            out@.len() == i,
            av == crate::json::arr_view(*arr),
            forall|k: int|
                0 <= k < i ==> spec_version(#[trigger] av[k]) is Some && out@[k]@ == spec_version(
                    av[k],
                ).unwrap(),
        decreases arr@.len() - i,
    {
        match decode_version(&arr[i]) {
            Ok(v) => out.push(v),
            Err(_) => {
                proof {
                    assert(av[i as int] == arr@[i as int]@);
                    assert(!(spec_version(av[i as int]) is Some));
                }
                return Err(Error::Decode);
            },
        }
        i += 1;
    }
    proof {
        assert(Seq::new(av.len(), |k: int| spec_version(av[k]).unwrap()) =~= versions_seq_view(
            out,
        ));
    }
    Ok(out)
}

/// Decodes a version-catalog document.
fn decode_versions(j: &Json) -> (r: Result<Versions, Error>)
    ensures
        match r {
            Ok(c) => spec_versions(j@) == Some(c@),
            Err(e) => spec_versions(j@) is None && e == Error::Decode,
        },
{
    match j {
        Json::Obj(entries) => {
            let latest = match obj_get(entries, &"latest".to_owned()) {
                Some(v) => match decode_latest(v) {
                    Ok(l) => l,
                    Err(e) => return Err(e),
                },
                None => return Err(Error::Decode),
            };
            let versions = match obj_get(entries, &"versions".to_owned()) {
                Some(v) => match v {
                    Json::Arr(a) => match decode_versions_list(a) {
                        Ok(vs) => vs,
                        Err(e) => return Err(e),
                    },
                    _ => return Err(Error::Decode),
                },
                None => return Err(Error::Decode),
            };
            Ok(Versions { latest, versions })
        },
        _ => Err(Error::Decode),
    }
}

/// How a decoded catalog relates to the transport's outcome.
pub open spec fn catalog_outcome_matches(
    outcome: Result<String, TransportError>,
    r: Result<Versions, Error>,
) -> bool {
    match outcome {
        Ok(body) => match json_of(body@) {
            Some(doc) => match r {
                Ok(c) => spec_versions(doc) == Some(c@),
                Err(e) => spec_versions(doc) is None && e == Error::Decode,
            },
            None => r == Err::<Versions, Error>(Error::Decode),
        },
        Err(t) => r == Err::<Versions, Error>(Error::Transport(t)),
    }
}

/// Fetch the enumeration of available game versions from the metadata
/// service.
pub struct VersionManifest;

impl VersionManifest {
    /// The fixed endpoint of the version manifest.
    pub fn get_endpoint() -> (r: String)
        ensures
            r@ == "https://launchermeta.mojang.com/mc/game/version_manifest_v2.json"@,
    {
        "https://launchermeta.mojang.com/mc/game/version_manifest_v2.json".to_owned()
    }

    pub fn new() -> VersionManifest {
        VersionManifest
    }

    /// Turns the transport's outcome for the manifest fetch into the
    /// decoded catalog.
    pub fn process_response(outcome: Result<String, TransportError>) -> (r: Result<
        Versions,
        Error,
    >)
        ensures
            catalog_outcome_matches(outcome, r),
    {
        match outcome {
            Ok(body) => match parse_json(body.as_str()) {
                Some(doc) => decode_versions(&doc),
                None => Err(Error::Decode),
            },
            Err(t) => Err(Error::Transport(t)),
        }
    }
}

/// Decoding a catalog preserves the source order of `versions`, entry by
/// entry, and exposes `latest`'s two distinguished version ids.
pub proof fn lemma_catalog_order(es: Seq<(Seq<char>, JsonView)>, l: JsonView, arr: Seq<JsonView>)
    requires
        lookup(es, "latest"@) == Some(l),
        lookup(es, "versions"@) == Some(JsonView::Arr(arr)),
        spec_latest(l) is Some,
        forall|i: int| 0 <= i < arr.len() ==> spec_version(#[trigger] arr[i]) is Some,
    ensures
        spec_versions(JsonView::Obj(es)) matches Some(c) && c.versions.len() == arr.len() && (
        forall|i: int|
            0 <= i < arr.len() ==> #[trigger] c.versions[i] == spec_version(arr[i]).unwrap())
            && c.latest == spec_latest(l).unwrap(),
{
}

/// The path a version's raw descriptor document is cached under:
/// `<base>/versions/<id>/<id>.json`, with the platform's separator.
pub open spec fn spec_cache_path(base: Seq<char>, id: Seq<char>, windows: bool) -> Seq<char> {
    let sep = if windows {
        "\\"@
    } else {
        "/"@
    };
    base + sep + "versions"@ + sep + id + sep + id + ".json"@
}

/// One downloadable artifact of a version: its checksum, size and URL, and
/// an optional relative path.
#[derive(Debug, Clone)]
pub struct Download {
    pub path: Option<String>,
    pub sha1: String,
    pub size: u64,
    pub url: String,
}

/// The mathematical content of a [`Download`].
pub ghost struct DownloadView {
    pub path: Option<Seq<char>>,
    pub sha1: Seq<char>,
    pub size: u64,
    pub url: Seq<char>,
}

impl View for Download {
    type V = DownloadView;

    open spec fn view(&self) -> DownloadView {
        DownloadView {
            path: match self.path {
                Some(p) => Some(p@),
                None => None,
            },
            sha1: self.sha1@,
            size: self.size,
            url: self.url@,
        }
    }
}

/// The view of an optional artifact.
pub open spec fn opt_download_view(d: Option<Download>) -> Option<DownloadView> {
    match d {
        Some(x) => Some(x@),
        None => None,
    }
}

/// The per-artifact downloads of a version.  The server artifact and the
/// two mappings artifacts were added to the wire format later and may be
/// absent.
#[derive(Debug)]
pub struct VersionDownloads {
    pub client: Download,
    pub server: Option<Download>,
    pub client_mappings: Option<Download>,
    pub server_mappings: Option<Download>,
}

/// The mathematical content of a [`VersionDownloads`].
pub ghost struct VersionDownloadsView {
    pub client: DownloadView,
    pub server: Option<DownloadView>,
    pub client_mappings: Option<DownloadView>,
    pub server_mappings: Option<DownloadView>,
}

impl View for VersionDownloads {
    type V = VersionDownloadsView;

    open spec fn view(&self) -> VersionDownloadsView {
        VersionDownloadsView {
            client: self.client@,
            server: opt_download_view(self.server),
            client_mappings: opt_download_view(self.client_mappings),
            server_mappings: opt_download_view(self.server_mappings),
        }
    }
}

/// The asset-index reference of a version.
#[derive(Debug, Clone)]
pub struct AssetIndex {
    pub id: String,
    pub sha1: String,
    pub size: u64,
    pub total_size: u64,
    pub url: String,
}

/// The mathematical content of an [`AssetIndex`].
pub ghost struct AssetIndexView {
    pub id: Seq<char>,
    pub sha1: Seq<char>,
    pub size: u64,
    pub total_size: u64,
    pub url: Seq<char>,
}

impl View for AssetIndex {
    type V = AssetIndexView;

    open spec fn view(&self) -> AssetIndexView {
        AssetIndexView {
            id: self.id@,
            sha1: self.sha1@,
            size: self.size,
            total_size: self.total_size,
            url: self.url@,
        }
    }
}

/// A version's detailed descriptor.  The launch-argument templates, the
/// library list and the logging configuration of the wire format are
/// deliberately not modeled: they are ignored on decode.
#[derive(Debug)]
pub struct VersionJson {
    pub asset_index: AssetIndex,
    pub assets: String,
    pub compliance_level: Option<u8>,
    pub downloads: VersionDownloads,
    pub id: String,
    pub main_class: String,
    pub minecraft_arguments: Option<String>,
    pub minimum_launcher_version: u8,
    pub version_type: String,
}

/// The mathematical content of a [`VersionJson`].
pub ghost struct VersionJsonView {
    pub asset_index: AssetIndexView,
    pub assets: Seq<char>,
    pub compliance_level: Option<u8>,
    pub downloads: VersionDownloadsView,
    pub id: Seq<char>,
    pub main_class: Seq<char>,
    pub minecraft_arguments: Option<Seq<char>>,
    pub minimum_launcher_version: u8,
    pub version_type: Seq<char>,
}

impl View for VersionJson {
    type V = VersionJsonView;

    open spec fn view(&self) -> VersionJsonView {
        VersionJsonView {
            asset_index: self.asset_index@,
            assets: self.assets@,
            compliance_level: self.compliance_level,
            downloads: self.downloads@,
            id: self.id@,
            main_class: self.main_class@,
            minecraft_arguments: match self.minecraft_arguments {
                Some(a) => Some(a@),
                None => None,
            },
            minimum_launcher_version: self.minimum_launcher_version,
            version_type: self.version_type@,
        }
    }
}

/// The artifact a JSON document decodes to: `sha1`, `size` and `url` are
/// required, `path` may be absent.
pub open spec fn spec_download(v: JsonView) -> Option<DownloadView> {
    match v {
        JsonView::Obj(es) => match (
            spec_opt_str_field(lookup(es, "path"@)),
            spec_str_field(lookup(es, "sha1"@)),
            spec_u64_field(lookup(es, "size"@)),
            spec_str_field(lookup(es, "url"@)),
        ) {
            (Some(path), Some(sha1), Some(size), Some(url)) => Some(
                DownloadView { path, sha1, size, url },
            ),
            _ => None,
        },
        _ => None,
    }
}

/// An optional artifact field: absent or null means none.
pub open spec fn spec_opt_download_field(f: Option<JsonView>) -> Option<Option<DownloadView>> {
    match f {
        None => Some(None),
        Some(JsonView::Null) => Some(None),
        Some(v) => match spec_download(v) {
            Some(d) => Some(Some(d)),
            None => None,
        },
    }
}

/// The downloads block a JSON document decodes to: `client` is required.
pub open spec fn spec_downloads(v: JsonView) -> Option<VersionDownloadsView> {
    match v {
        JsonView::Obj(es) => match (
            lookup(es, "client"@),
            spec_opt_download_field(lookup(es, "server"@)),
            spec_opt_download_field(lookup(es, "client_mappings"@)),
            spec_opt_download_field(lookup(es, "server_mappings"@)),
        ) {
            (Some(c), Some(server), Some(client_mappings), Some(server_mappings)) => match
                spec_download(c) {
                Some(client) => Some(
                    VersionDownloadsView { client, server, client_mappings, server_mappings },
                ),
                None => None,
            },
            _ => None,
        },
        _ => None,
    }
}

/// The asset-index reference a JSON document decodes to.
pub open spec fn spec_asset_index(v: JsonView) -> Option<AssetIndexView> {
    match v {
        JsonView::Obj(es) => match (
            spec_str_field(lookup(es, "id"@)),
            spec_str_field(lookup(es, "sha1"@)),
            spec_u64_field(lookup(es, "size"@)),
            spec_u64_field(lookup(es, "totalSize"@)),
            spec_str_field(lookup(es, "url"@)),
        ) {
            (Some(id), Some(sha1), Some(size), Some(total_size), Some(url)) => Some(
                AssetIndexView { id, sha1, size, total_size, url },
            ),
            _ => None,
        },
        _ => None,
    }
}

/// The descriptor a JSON document decodes to, if it matches the schema.
pub open spec fn spec_version_json(v: JsonView) -> Option<VersionJsonView> {
    match v {
        JsonView::Obj(es) => match (
            lookup(es, "assetIndex"@),
            spec_str_field(lookup(es, "assets"@)),
            spec_opt_u8_field(lookup(es, "complianceLevel"@)),
            lookup(es, "downloads"@),
            spec_str_field(lookup(es, "id"@)),
            spec_str_field(lookup(es, "mainClass"@)),
            spec_opt_str_field(lookup(es, "minecraftArguments"@)),
            spec_u8_field(lookup(es, "minimumLauncherVersion"@)),
            spec_str_field(lookup(es, "type"@)),
        ) {
            (
                Some(ai),
                Some(assets),
                Some(compliance_level),
                Some(dl),
                Some(id),
                Some(main_class),
                Some(minecraft_arguments),
                Some(minimum_launcher_version),
                Some(version_type),
            ) => match (spec_asset_index(ai), spec_downloads(dl)) {
                (Some(asset_index), Some(downloads)) => Some(
                    VersionJsonView {
                        asset_index,
                        assets,
                        compliance_level,
                        downloads,
                        id,
                        main_class,
                        minecraft_arguments,
                        minimum_launcher_version,
                        version_type,
                    },
                ),
                _ => None,
            },
            _ => None,
        },
        _ => None,
    }
}

/// Decodes one artifact object.
fn decode_download(j: &Json) -> (r: Result<Download, Error>)
    ensures
        match r {
            Ok(d) => spec_download(j@) == Some(d@),
            Err(e) => spec_download(j@) is None && e == Error::Decode,
        },
{
    match j {
        Json::Obj(entries) => {
            let path = match obj_get(entries, &"path".to_owned()) {
                Some(v) => match v {
                    Json::Null => None,
                    Json::Str(s) => Some(s.clone()),
                    _ => return Err(Error::Decode),
                },
                None => None,
            };
            let sha1 = match get_str(entries, &"sha1".to_owned()) {
                Some(s) => s,
                None => return Err(Error::Decode),
            };
            let size = match get_u64(entries, &"size".to_owned()) {
                Some(n) => n,
                None => return Err(Error::Decode),
            };
            let url = match get_str(entries, &"url".to_owned()) {
                Some(s) => s,
                None => return Err(Error::Decode),
            };
            Ok(Download { path, sha1, size, url })
        },
        _ => Err(Error::Decode),
    }
}

/// Reads an optional artifact field.
fn get_opt_download(entries: &Vec<(String, Json)>, key: &String) -> (r: Result<
    Option<Download>,
    Error,
>)
    ensures
        match r {
            Ok(d) => spec_opt_download_field(lookup(entries_view(*entries), key@)) == Some(
                opt_download_view(d),
            ),
            Err(e) => spec_opt_download_field(lookup(entries_view(*entries), key@)) is None && e
                == Error::Decode,
        },
{
    match obj_get(entries, key) {
        Some(v) => match v {
            Json::Null => Ok(None),
            _ => match decode_download(v) {
                Ok(d) => Ok(Some(d)),
                Err(e) => Err(e),
            },
        },
        None => Ok(None),
    }
}

/// Decodes the downloads block.
fn decode_downloads(j: &Json) -> (r: Result<VersionDownloads, Error>)
    ensures
        match r {
            Ok(d) => spec_downloads(j@) == Some(d@),
            Err(e) => spec_downloads(j@) is None && e == Error::Decode,
        },
{
    match j {
        Json::Obj(entries) => {
            let client = match obj_get(entries, &"client".to_owned()) {
                Some(v) => match decode_download(v) {
                    Ok(d) => d,
                    Err(e) => return Err(e),
                },
                None => return Err(Error::Decode),
            };
            let server = match get_opt_download(entries, &"server".to_owned()) {
                Ok(d) => d,
                Err(e) => return Err(e),
            };
            let client_mappings = match get_opt_download(entries, &"client_mappings".to_owned()) {
                Ok(d) => d,
                Err(e) => return Err(e),
            };
            let server_mappings = match get_opt_download(entries, &"server_mappings".to_owned()) {
                Ok(d) => d,
                Err(e) => return Err(e),
            };
            Ok(VersionDownloads { client, server, client_mappings, server_mappings })
        },
        _ => Err(Error::Decode),
    }
}

/// Decodes the asset-index reference.
fn decode_asset_index(j: &Json) -> (r: Result<AssetIndex, Error>)
    ensures
        match r {
            Ok(a) => spec_asset_index(j@) == Some(a@),
            Err(e) => spec_asset_index(j@) is None && e == Error::Decode,
        },
{
    match j {
        Json::Obj(entries) => {
            let id = match get_str(entries, &"id".to_owned()) {
                Some(s) => s,
                None => return Err(Error::Decode),
            };
            let sha1 = match get_str(entries, &"sha1".to_owned()) {
                Some(s) => s,
                None => return Err(Error::Decode),
            };
            let size = match get_u64(entries, &"size".to_owned()) {
                Some(n) => n,
                None => return Err(Error::Decode),
            };
            let total_size = match get_u64(entries, &"totalSize".to_owned()) {
                Some(n) => n,
                None => return Err(Error::Decode),
            };
            let url = match get_str(entries, &"url".to_owned()) {
                Some(s) => s,
                None => return Err(Error::Decode),
            };
            Ok(AssetIndex { id, sha1, size, total_size, url })
        },
        _ => Err(Error::Decode),
    }
}

/// Decodes a version-descriptor document.
fn decode_version_json(j: &Json) -> (r: Result<VersionJson, Error>)
    ensures
        match r {
            Ok(d) => spec_version_json(j@) == Some(d@),
            Err(e) => spec_version_json(j@) is None && e == Error::Decode,
        },
{
    match j {
        Json::Obj(entries) => {
            let asset_index = match obj_get(entries, &"assetIndex".to_owned()) {
                Some(v) => match decode_asset_index(v) {
                    Ok(a) => a,
                    Err(e) => return Err(e),
                },
                None => return Err(Error::Decode),
            };
            let assets = match get_str(entries, &"assets".to_owned()) {
                Some(s) => s,
                None => return Err(Error::Decode),
            };
            let compliance_level = match obj_get(entries, &"complianceLevel".to_owned()) {
                Some(v) => match v {
                    Json::Null => None,
                    Json::UInt(n) => if *n <= 255 {
                        Some(*n as u8)
                    } else {
                        return Err(Error::Decode);
                    },
                    _ => return Err(Error::Decode),
                },
                None => None,
            };
            let downloads = match obj_get(entries, &"downloads".to_owned()) {
                Some(v) => match decode_downloads(v) {
                    Ok(d) => d,
                    Err(e) => return Err(e),
                },
                None => return Err(Error::Decode),
            };
            let id = match get_str(entries, &"id".to_owned()) {
                Some(s) => s,
                None => return Err(Error::Decode),
            };
            let main_class = match get_str(entries, &"mainClass".to_owned()) {
                Some(s) => s,
                None => return Err(Error::Decode),
            };
            let minecraft_arguments = match obj_get(entries, &"minecraftArguments".to_owned()) {
                Some(v) => match v {
                    Json::Null => None,
                    Json::Str(s) => Some(s.clone()),
                    _ => return Err(Error::Decode),
                },
                None => None,
            };
            let minimum_launcher_version = match get_u8(
                entries,
                &"minimumLauncherVersion".to_owned(),
            ) {
                Some(n) => n,
                None => return Err(Error::Decode),
            };
            let version_type = match get_str(entries, &"type".to_owned()) {
                Some(s) => s,
                None => return Err(Error::Decode),
            };
            Ok(
                VersionJson {
                    asset_index,
                    assets,
                    compliance_level,
                    downloads,
                    id,
                    main_class,
                    minecraft_arguments,
                    minimum_launcher_version,
                    version_type,
                },
            )
        },
        _ => Err(Error::Decode),
    }
}

/// How a decoded descriptor relates to the transport's outcome.
pub open spec fn descriptor_outcome_matches(
    outcome: Result<String, TransportError>,
    r: Result<VersionJson, Error>,
) -> bool {
    match outcome {
        Ok(body) => match json_of(body@) {
            Some(doc) => match r {
                Ok(d) => spec_version_json(doc) == Some(d@),
                Err(e) => spec_version_json(doc) is None && e == Error::Decode,
            },
            None => r == Err::<VersionJson, Error>(Error::Decode),
        },
        Err(t) => r == Err::<VersionJson, Error>(Error::Transport(t)),
    }
}

impl VersionJson {
    /// Turns the transport's outcome for a descriptor fetch into the
    /// decoded descriptor.  Persisting the raw document to the cache path
    /// is a separate, caller-driven step and cannot corrupt this result.
    pub fn process_response(outcome: Result<String, TransportError>) -> (r: Result<
        VersionJson,
        Error,
    >)
        ensures
            descriptor_outcome_matches(outcome, r),
    {
        match outcome {
            Ok(body) => match parse_json(body.as_str()) {
                Some(doc) => decode_version_json(&doc),
                None => Err(Error::Decode),
            },
            Err(t) => Err(Error::Transport(t)),
        }
    }
}

impl Version {
    /// Where this version's raw descriptor document is cached under the
    /// given base directory.
    pub fn cache_path(&self, launcher_path: &str, platform: &Platform) -> (r: String)
        ensures
            r@ == spec_cache_path(launcher_path@, self.id@, *platform is Windows),
    {
        let sep: &str = match platform {
            Platform::Windows => "\\",
            _ => "/",
        };
        let mut r = launcher_path.to_owned();
        r.append(sep);
        r.append("versions");
        r.append(sep);
        r.append(self.id.as_str());
        r.append(sep);
        r.append(self.id.as_str());
        r.append(".json");
        proof {
            assert(r@ =~= spec_cache_path(launcher_path@, self.id@, *platform is Windows));
        }
        r
    }
}

} // verus!
