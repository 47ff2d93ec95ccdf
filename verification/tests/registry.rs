use registry_core::errors::FetchError;
use registry_core::models::{Catalog, ConfigBlobInfo, ConfigDescriptor, LayerDescriptor, ManifestV2, TagList};
use registry_core::registry_client::RegistryClient;
use registry_core::summary::{build_summary, date_candidate, tag_count, RepoFetch};
use registry_core::tags::{build_tag_detail, manifest_size_bytes, tags_to_enrich, TagFetch};

fn client() -> RegistryClient {
    RegistryClient::new("http://registry.local".to_string(), "dXNlcjpwYXNz".to_string())
}

fn manifest(layer_sizes: &[u64], config_size: u64, digest: &str) -> ManifestV2 {
    ManifestV2 {
        schema_version: 2,
        media_type: "application/vnd.docker.distribution.manifest.v2+json".to_string(),
        config: ConfigDescriptor {
            media_type: "application/vnd.docker.container.image.v1+json".to_string(),
            size: config_size,
            digest: digest.to_string(),
        },
        layers: layer_sizes
            .iter()
            .map(|s| LayerDescriptor {
                media_type: "application/vnd.docker.image.rootfs.diff.tar.gzip".to_string(),
                size: *s,
                digest: "sha256:layer".to_string(),
            })
            .collect(),
    }
}

fn tag_list(name: &str, tags: Option<&[&str]>) -> TagList {
    TagList {
        name: name.to_string(),
        tags: tags.map(|ts| ts.iter().map(|t| t.to_string()).collect()),
    }
}

#[test]
fn catalog_returns_one_summary_per_name_in_order() {
    let mut c = client();
    let catalog = Catalog { repositories: vec!["alpha".to_string(), "beta".to_string()] };
    let work = vec![
        RepoFetch::Miss {
            tags: Some(tag_list("alpha", Some(&["v1", "v2"]))),
            last_date: Some("2024-01-02T03:04:05Z".to_string()),
        },
        RepoFetch::Miss { tags: None, last_date: None },
    ];
    let out = c.list_repositories(Ok(catalog), &work).unwrap();
    assert_eq!(out.len(), 2);
    assert_eq!(out[0].name, "alpha");
    assert_eq!(out[0].tag_count, 2);
    assert_eq!(out[0].last_push.as_deref(), Some("2024-01-02T03:04:05Z"));
    assert_eq!(out[1].name, "beta");
}

#[test]
fn warm_cache_serves_identical_summaries_without_fetching() {
    let mut c = client();
    let names = vec!["alpha".to_string(), "beta".to_string()];
    let catalog1 = Catalog { repositories: names.clone() };
    let work1 = vec![
        RepoFetch::Miss {
            tags: Some(tag_list("alpha", Some(&["v1"]))),
            last_date: Some("2023-12-31T00:00:00Z".to_string()),
        },
        RepoFetch::Miss { tags: Some(tag_list("beta", Some(&["a", "b", "c"]))), last_date: None },
    ];
    let first = c.list_repositories(Ok(catalog1), &work1).unwrap();

    // Both names are cached now; a second pass records no fetch at all.
    assert!(c.cached_summary("alpha").is_some());
    assert!(c.cached_summary("beta").is_some());
    let catalog2 = Catalog { repositories: names };
    let work2 = vec![RepoFetch::Hit, RepoFetch::Hit];
    let second = c.list_repositories(Ok(catalog2), &work2).unwrap();

    assert_eq!(first.len(), second.len());
    for (a, b) in first.iter().zip(second.iter()) {
        assert_eq!(a.name, b.name);
        assert_eq!(a.last_push, b.last_push);
        assert_eq!(a.tag_count, b.tag_count);
    }
}

#[test]
fn failed_tag_list_degrades_to_zero_tags() {
    let mut c = client();
    let catalog = Catalog { repositories: vec!["flaky".to_string()] };
    let work = vec![RepoFetch::Miss { tags: None, last_date: None }];
    let out = c.list_repositories(Ok(catalog), &work).unwrap();
    assert_eq!(out.len(), 1);
    assert_eq!(out[0].tag_count, 0);
    assert_eq!(out[0].last_push, None);
}

#[test]
fn failing_catalog_fetch_is_fatal_and_reflects_status() {
    let mut c = client();
    let work: Vec<RepoFetch> = Vec::new();
    let err = c.list_repositories(Err(FetchError::Upstream(401)), &work).unwrap_err();
    assert_eq!(err.status(), 401);
    assert_eq!(err.message(), "upstream registry returned status 401");
    // No partial enrichment was attempted: nothing got cached.
    assert!(c.cached_summary("anything").is_none());
}

#[test]
fn tag_detail_degradation_tiers() {
    let m = manifest(&[10, 20], 5, "sha256:cfg");
    let blob = ConfigBlobInfo {
        created: Some("2024-05-06T07:08:09Z".to_string()),
        architecture: Some("amd64".to_string()),
        os: Some("linux".to_string()),
    };

    let empty = build_tag_detail("v1".to_string(), &TagFetch::ManifestFailed);
    assert_eq!(empty.digest, "n/a");
    assert_eq!(empty.size_bytes, 0);
    assert_eq!(empty.created_at, None);
    assert_eq!(empty.architecture, None);
    assert_eq!(empty.os, None);

    let basic = build_tag_detail("v1".to_string(), &TagFetch::BlobFailed { manifest: m.clone() });
    assert_eq!(basic.digest, "sha256:cfg");
    assert_eq!(basic.size_bytes, 35);
    assert_eq!(basic.created_at, None);

    let full = build_tag_detail("v1".to_string(), &TagFetch::Resolved { manifest: m, blob });
    assert_eq!(full.digest, "sha256:cfg");
    assert_eq!(full.size_bytes, 35);
    assert_eq!(full.created_at.as_deref(), Some("2024-05-06T07:08:09Z"));
    assert_eq!(full.architecture.as_deref(), Some("amd64"));
    assert_eq!(full.os.as_deref(), Some("linux"));
}

#[test]
fn size_is_layer_sum_plus_config_size() {
    let m = manifest(&[10, 20], 5, "sha256:cfg");
    assert_eq!(manifest_size_bytes(&m), 35);
    let none = manifest(&[], 0, "sha256:cfg");
    assert_eq!(manifest_size_bytes(&none), 0);
    let saturated = manifest(&[u64::MAX, 7], 5, "sha256:cfg");
    assert_eq!(manifest_size_bytes(&saturated), u64::MAX);
}

#[test]
fn absent_tags_field_means_zero_tag_details() {
    let c = client();
    let list = tag_list("repo", None);
    assert_eq!(tags_to_enrich(&list).len(), 0);
    let work: Vec<TagFetch> = Vec::new();
    let out = c.list_tag_details(Ok(list), &work).unwrap();
    assert_eq!(out.len(), 0);
}

#[test]
fn tag_details_keep_listed_order_and_shape() {
    let c = client();
    let list = tag_list("repo", Some(&["old", "mid", "new"]));
    let m = manifest(&[1, 2], 3, "sha256:abc");
    let blob = ConfigBlobInfo { created: None, architecture: Some("arm64".to_string()), os: None };
    let work = vec![
        TagFetch::ManifestFailed,
        TagFetch::BlobFailed { manifest: m.clone() },
        TagFetch::Resolved { manifest: m, blob },
    ];
    let out = c.list_tag_details(Ok(list), &work).unwrap();
    assert_eq!(out.len(), 3);
    assert_eq!(out[0].name, "old");
    assert_eq!(out[0].digest, "n/a");
    assert_eq!(out[1].name, "mid");
    assert_eq!(out[1].digest, "sha256:abc");
    assert_eq!(out[1].size_bytes, 6);
    assert_eq!(out[2].name, "new");
    assert_eq!(out[2].architecture.as_deref(), Some("arm64"));
    assert_eq!(out[2].created_at, None);
}

#[test]
fn failing_tag_list_fetch_is_fatal() {
    let c = client();
    let work: Vec<TagFetch> = Vec::new();
    let err = c.list_tag_details(Err(FetchError::Upstream(404)), &work).unwrap_err();
    assert_eq!(err.status(), 404);
}

#[test]
fn empty_catalog_yields_empty_listing() {
    let mut c = client();
    let catalog = Catalog { repositories: Vec::new() };
    let work: Vec<RepoFetch> = Vec::new();
    let out = c.list_repositories(Ok(catalog), &work).unwrap();
    assert_eq!(out.len(), 0);
}

#[test]
fn duplicate_catalog_names_each_get_a_summary() {
    let mut c = client();
    let catalog = Catalog { repositories: vec!["dup".to_string(), "dup".to_string()] };
    let work = vec![
        RepoFetch::Miss { tags: Some(tag_list("dup", Some(&["v1"]))), last_date: None },
        RepoFetch::Miss { tags: Some(tag_list("dup", Some(&["v1"]))), last_date: None },
    ];
    let out = c.list_repositories(Ok(catalog), &work).unwrap();
    assert_eq!(out.len(), 2);
    assert_eq!(out[0].name, "dup");
    assert_eq!(out[1].name, "dup");
    assert_eq!(c.cached_summary("dup").unwrap().tag_count, 1);
}

#[test]
fn fatal_catalog_failure_keeps_warm_cache_intact() {
    let mut c = client();
    let catalog = Catalog { repositories: vec!["kept".to_string()] };
    let work = vec![RepoFetch::Miss {
        tags: Some(tag_list("kept", Some(&["v1", "v2"]))),
        last_date: None,
    }];
    c.list_repositories(Ok(catalog), &work).unwrap();

    let none: Vec<RepoFetch> = Vec::new();
    let err = c.list_repositories(Err(FetchError::Network("down".to_string())), &none).unwrap_err();
    assert_eq!(err.status(), 500);
    let kept = c.cached_summary("kept").unwrap();
    assert_eq!(kept.tag_count, 2);
}

#[test]
fn summary_counts_and_date_candidate() {
    let some = Some(tag_list("r", Some(&["a", "b", "c"])));
    assert_eq!(tag_count(&some), 3);
    assert_eq!(date_candidate(&some).map(|s| s.as_str()), Some("c"));

    let absent = Some(tag_list("r", None));
    assert_eq!(tag_count(&absent), 0);
    assert_eq!(date_candidate(&absent), None);

    let failed: Option<TagList> = None;
    assert_eq!(tag_count(&failed), 0);
    assert_eq!(date_candidate(&failed), None);

    let empty = Some(tag_list("r", Some(&[])));
    assert_eq!(tag_count(&empty), 0);
    assert_eq!(date_candidate(&empty), None);

    let s = build_summary("r".to_string(), &some, Some("2020-01-01T00:00:00Z".to_string()));
    assert_eq!(s.name, "r");
    assert_eq!(s.tag_count, 3);
    assert_eq!(s.last_push.as_deref(), Some("2020-01-01T00:00:00Z"));
}
