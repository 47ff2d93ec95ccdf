//! The registry client: it owns the upstream base URL, the pre-shared
//! authorization value and the summary cache, builds every URL the pipelines
//! request, normalizes transport outcomes into the uniform error shape, and
//! runs the two enrichment passes over fetch outcomes.
//!
//! The network itself lives outside the library: the surrounding application
//! performs each GET/HEAD/DELETE exactly once per logical need and hands the
//! outcome back as plain values (a status or a transport failure, a decoded
//! body or a decode failure).

use vstd::prelude::*;

use crate::cache::SummaryCache;
use crate::errors::FetchError;
use crate::models::{Catalog, ConfigBlobInfo, RepositoryInfo, TagList};
use crate::summary::{cache_wf, collect_summaries, pass_consistent, spec_cache_after,
    spec_pass_result, RepoFetch};
use crate::tags::{collect_tag_details, spec_tag_detail, spec_tags_of, tags_to_enrich, TagFetch};

verus! {

/// Whether an HTTP status is a success.
pub open spec fn spec_is_success(status: u16) -> bool {
    200 <= status < 300
}

/// Whether an HTTP status is a success.
pub fn is_success_status(status: u16) -> (r: bool)
    ensures
        r == spec_is_success(status),
{
    200 <= status && status < 300
}

/// The media type pinned in the `Accept` header of every manifest request:
/// without it a registry may fall back to the legacy schema and corrupt the
/// size and digest data.
pub fn manifest_v2_media_type() -> (r: &'static str)
    ensures
        r@ == "application/vnd.docker.distribution.manifest.v2+json"@,
{
    "application/vnd.docker.distribution.manifest.v2+json"
}

/// Normalizes the outcome of sending one request: a transport failure
/// becomes a network error with the underlying cause's description, a
/// non-success status becomes an upstream error carrying that status
/// verbatim, and a success status passes through.
pub fn classify_transport(outcome: Result<u16, String>) -> (r: Result<u16, FetchError>)
    ensures
        match outcome {
            Ok(status) => r == (if spec_is_success(status) {
                Ok::<u16, FetchError>(status)
            } else {
                Err::<u16, FetchError>(FetchError::Upstream(status))
            }),
            Err(detail) => r == (Err::<u16, FetchError>(FetchError::Network(detail))),
        },
{
    match outcome {
        Ok(status) => if is_success_status(status) {
            Ok(status)
        } else {
            Err(FetchError::Upstream(status))
        },
        Err(detail) => Err(FetchError::Network(detail)),
    }
}

/// Extracts the creation date a config blob carries; its absence is an
/// explicit metadata-missing failure, distinct from a transport error, for
/// the caller to decide how to degrade.
pub fn creation_date_from_blob(blob: &ConfigBlobInfo) -> (r: Result<String, FetchError>)
    ensures
        blob.created matches Some(c) ==> (r matches Ok(d) && d@ == c@),
        blob.created is None ==> r == (Err::<String, FetchError>(FetchError::MetadataMissing)),
{
    match &blob.created {
        Some(c) => Ok(c.clone()),
        None => Err(FetchError::MetadataMissing),
    }
}

/// Reads the digest out of the content-digest response header of a manifest
/// HEAD; an absent header means the registry did not honor the v2 content
/// negotiation and is an explicit failure.
pub fn digest_from_header(header: Option<String>) -> (r: Result<String, FetchError>)
    ensures
        header matches Some(d) ==> r == (Ok::<String, FetchError>(d)),
        header is None ==> r == (Err::<String, FetchError>(FetchError::MissingDigestHeader)),
{
    match header {
        Some(d) => Ok(d),
        None => Err(FetchError::MissingDigestHeader),
    }
}

/// The client over one registry: base URL, pre-shared authorization value,
/// and the process-wide summary cache, created empty at startup.
pub struct RegistryClient {
    pub base_url: String,
    pub basic_auth: String,
    pub cache: SummaryCache,
}

impl RegistryClient {
    /// A fresh client: the authorization value is the pre-encoded credential
    /// under the `Basic` scheme, and the cache starts empty.
    pub fn new(base_url: String, encoded: String) -> (c: RegistryClient)
        ensures
            c.base_url == base_url,
            c.basic_auth@ == "Basic "@ + encoded@,
            c.cache@ == (Map::<Seq<char>, crate::models::RepositoryInfoV>::empty()),
            cache_wf(c.cache@),
    {
        RegistryClient {
            base_url,
            basic_auth: String::from_str("Basic ").concat(encoded.as_str()),
            cache: SummaryCache::new(),
        }
    }

    /// The catalog endpoint.
    pub fn catalog_url(&self) -> (r: String)
        ensures
            r@ == self.base_url@ + "/v2/_catalog"@,
    {
        self.base_url.clone().concat("/v2/_catalog")
    }

    /// The tag list endpoint of one repository.
    pub fn tags_url(&self, repo: &str) -> (r: String)
        ensures
            r@ == self.base_url@ + "/v2/"@ + repo@ + "/tags/list"@,
    {
        self.base_url.clone().concat("/v2/").concat(repo).concat("/tags/list")
    }

    /// The manifest endpoint of one tag (or digest), for GET, HEAD and
    /// DELETE alike.
    pub fn manifest_url(&self, repo: &str, reference: &str) -> (r: String)
        ensures
            r@ == self.base_url@ + "/v2/"@ + repo@ + "/manifests/"@ + reference@,
    {
        self.base_url.clone().concat("/v2/").concat(repo).concat("/manifests/").concat(reference)
    }

    /// The blob endpoint of one content digest.
    pub fn blob_url(&self, repo: &str, digest: &str) -> (r: String)
        ensures
            r@ == self.base_url@ + "/v2/"@ + repo@ + "/blobs/"@ + digest@,
    {
        self.base_url.clone().concat("/v2/").concat(repo).concat("/blobs/").concat(digest)
    }

    /// The cached summary of one repository, if it was ever computed.
    pub fn cached_summary(&self, name: &str) -> (r: Option<RepositoryInfo>)
        ensures
            match r {
                Some(info) => self.cache@.contains_key(name@) && info.deep_view()
                    == self.cache@[name@],
                None => !self.cache@.contains_key(name@),
            },
    {
        self.cache.get(name)
    }

    /// The whole catalog call over the outcomes the application fetched:
    /// a failed catalog fetch is fatal and is the single error returned,
    /// with the cache untouched and no enrichment attempted; a fetched
    /// catalog always succeeds, with exactly one summary per catalog name,
    /// in catalog order, each served from the cache or computed fresh and
    /// inserted. Per-repository sub-failures degrade the entry, never the
    /// call.
    pub fn list_repositories(
        &mut self,
        catalog: Result<Catalog, FetchError>,
        work: &Vec<RepoFetch>,
    ) -> (r: Result<Vec<RepositoryInfo>, FetchError>)
        requires
            cache_wf(old(self).cache@),
            catalog matches Ok(c) ==> pass_consistent(old(self).cache@, c.repositories@, work@),
        ensures
            r is Ok <==> catalog is Ok,
            final(self).base_url == old(self).base_url,
            final(self).basic_auth == old(self).basic_auth,
            cache_wf(final(self).cache@),
            catalog matches Err(e) ==> r == (Err::<Vec<RepositoryInfo>, FetchError>(e))
                && final(self).cache@ == old(self).cache@,
            catalog matches Ok(c) ==> (r matches Ok(v) && {
                &&& v.deep_view() == spec_pass_result(old(self).cache@, c.repositories@, work@)
                &&& v@.len() == c.repositories@.len()
                &&& forall|j: int|
                    0 <= j < c.repositories@.len() ==> v.deep_view()[j].name
                        == c.repositories@[j]@
                &&& final(self).cache@ == spec_cache_after(
                    old(self).cache@,
                    c.repositories@,
                    work@,
                )
            }),
    {
        match catalog {
            Err(e) => Err(e),
            Ok(c) => Ok(collect_summaries(&mut self.cache, &c.repositories, work)),
        }
    }

    /// The whole tags call for one repository over the outcomes the
    /// application fetched: a failed tag-list fetch is fatal and is the
    /// single error returned; a fetched tag list always succeeds, with
    /// exactly one detail per listed tag, in listed order, each degraded per
    /// its own fetch outcomes. An absent `tags` field yields zero details,
    /// not an error.
    pub fn list_tag_details(
        &self,
        tag_list: Result<TagList, FetchError>,
        work: &Vec<TagFetch>,
    ) -> (r: Result<Vec<crate::models::TagDetail>, FetchError>)
        requires
            tag_list matches Ok(t) ==> work@.len() == spec_tags_of(t).len(),
        ensures
            r is Ok <==> tag_list is Ok,
            tag_list matches Err(e) ==> r == (Err::<Vec<crate::models::TagDetail>, FetchError>(e)),
            tag_list matches Ok(t) ==> (r matches Ok(v) && {
                &&& v@.len() == spec_tags_of(t).len()
                &&& forall|i: int|
                    0 <= i < spec_tags_of(t).len() ==> v.deep_view()[i] == spec_tag_detail(
                        spec_tags_of(t)[i],
                        work@[i],
                    )
            }),
    {
        match tag_list {
            Err(e) => Err(e),
            Ok(t) => {
                let names = tags_to_enrich(&t);
                Ok(collect_tag_details(&names, work))
            },
        }
    }
}

} // verus!
