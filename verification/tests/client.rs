use registry_core::decimal::u32_to_decimal;
use registry_core::errors::{decode_failure, FetchError};
use registry_core::models::ConfigBlobInfo;
use registry_core::registry_client::{
    classify_transport, creation_date_from_blob, digest_from_header, is_success_status,
    manifest_v2_media_type, RegistryClient,
};

#[test]
fn urls_follow_the_distribution_api() {
    let c = RegistryClient::new("http://reg:5000".to_string(), "Zm9v".to_string());
    assert_eq!(c.catalog_url(), "http://reg:5000/v2/_catalog");
    assert_eq!(c.tags_url("lib/app"), "http://reg:5000/v2/lib/app/tags/list");
    assert_eq!(c.manifest_url("lib/app", "v1"), "http://reg:5000/v2/lib/app/manifests/v1");
    assert_eq!(
        c.blob_url("lib/app", "sha256:abc"),
        "http://reg:5000/v2/lib/app/blobs/sha256:abc"
    );
    assert_eq!(c.basic_auth, "Basic Zm9v");
    assert_eq!(
        manifest_v2_media_type(),
        "application/vnd.docker.distribution.manifest.v2+json"
    );
}

#[test]
fn transport_outcomes_are_classified() {
    assert_eq!(classify_transport(Ok(200)), Ok(200));
    assert_eq!(classify_transport(Ok(204)), Ok(204));
    assert_eq!(classify_transport(Ok(401)), Err(FetchError::Upstream(401)));
    assert_eq!(classify_transport(Ok(199)), Err(FetchError::Upstream(199)));
    assert_eq!(classify_transport(Ok(300)), Err(FetchError::Upstream(300)));
    assert_eq!(
        classify_transport(Err("connection refused".to_string())),
        Err(FetchError::Network("connection refused".to_string()))
    );
    assert!(is_success_status(299));
    assert!(!is_success_status(500));
}

#[test]
fn error_statuses_and_messages() {
    assert_eq!(FetchError::Network("timed out".to_string()).status(), 500);
    assert_eq!(FetchError::Network("timed out".to_string()).message(), "network error: timed out");
    assert_eq!(FetchError::Upstream(429).status(), 429);
    assert_eq!(FetchError::Upstream(429).message(), "upstream registry returned status 429");
    assert_eq!(FetchError::MetadataMissing.status(), 400);
    assert_eq!(FetchError::MetadataMissing.message(), "creation date not found in the config blob");
    assert_eq!(FetchError::MissingDigestHeader.status(), 500);
    assert_eq!(FetchError::MissingDigestHeader.message(), "Docker-Content-Digest header absent");
}

#[test]
fn decode_failure_embeds_request_and_body() {
    let e = decode_failure("http://reg/v2/_catalog", "missing field", "{\"oops\":1}");
    assert_eq!(e.status(), 400);
    assert_eq!(
        e.message(),
        "decode error at http://reg/v2/_catalog: missing field; body: {\"oops\":1}"
    );
}

#[test]
fn creation_date_requires_created_field() {
    let with = ConfigBlobInfo {
        created: Some("2021-07-08T09:10:11Z".to_string()),
        architecture: None,
        os: None,
    };
    assert_eq!(creation_date_from_blob(&with), Ok("2021-07-08T09:10:11Z".to_string()));
    let without = ConfigBlobInfo { created: None, architecture: Some("amd64".to_string()), os: None };
    assert_eq!(creation_date_from_blob(&without), Err(FetchError::MetadataMissing));
}

#[test]
fn head_digest_requires_the_header() {
    assert_eq!(
        digest_from_header(Some("sha256:abc".to_string())),
        Ok("sha256:abc".to_string())
    );
    assert_eq!(digest_from_header(None), Err(FetchError::MissingDigestHeader));
}

#[test]
fn decimal_rendering() {
    assert_eq!(u32_to_decimal(0), "0");
    assert_eq!(u32_to_decimal(7), "7");
    assert_eq!(u32_to_decimal(10), "10");
    assert_eq!(u32_to_decimal(401), "401");
    assert_eq!(u32_to_decimal(u32::MAX), "4294967295");
}
