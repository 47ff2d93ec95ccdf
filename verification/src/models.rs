//! The data model of the aggregator: the transient shapes fetched from the
//! registry (catalog, tag list, manifest, config-blob metadata) and the two
//! enriched shapes served to callers (repository summary, tag detail).

use vstd::prelude::*;

verus! {

/// The repository name list as the registry's catalog endpoint returns it.
#[derive(Debug, Clone)]
pub struct Catalog {
    pub repositories: Vec<String>,
}

/// The tag list of one repository. `tags` absent is distinct from empty at
/// the wire level but is treated as zero tags downstream.
#[derive(Debug, Clone)]
pub struct TagList {
    pub name: String,
    pub tags: Option<Vec<String>>,
}

/// A reference to the image configuration blob inside a manifest.
#[derive(Debug, Clone)]
pub struct ConfigDescriptor {
    pub media_type: String,
    pub size: u64,
    pub digest: String,
}

/// A reference to one layer blob inside a manifest.
#[derive(Debug, Clone)]
pub struct LayerDescriptor {
    pub media_type: String,
    pub size: u64,
    pub digest: String,
}

/// A v2 image manifest: the configuration descriptor and the layer
/// descriptors of one tag.
#[derive(Debug, Clone)]
pub struct ManifestV2 {
    pub schema_version: i32,
    pub media_type: String,
    pub config: ConfigDescriptor,
    pub layers: Vec<LayerDescriptor>,
}

/// A (repository, tag, digest) triple naming one manifest.
#[derive(Debug, Clone)]
pub struct ManifestInfo {
    pub name: String,
    pub tag: String,
    pub digest: String,
}

/// What the pipelines read out of an image configuration blob. The blob
/// itself is opaque JSON; only these three optional fields are consumed, and
/// absence of any of them is a normal, non-error condition.
#[derive(Debug, Clone)]
pub struct ConfigBlobInfo {
    pub created: Option<String>,
    pub architecture: Option<String>,
    pub os: Option<String>,
}

/// The single account the surrounding application authenticates against.
#[derive(Debug, Clone)]
pub struct User {
    pub username: String,
    pub hashed_password: String,
}

/// The cached per-repository summary: tag count and last-push time at the
/// moment it was computed, frozen for the life of the process.
#[derive(Debug)]
pub struct RepositoryInfo {
    pub name: String,
    pub last_push: Option<String>,
    pub tag_count: usize,
}

impl Clone for RepositoryInfo {
    fn clone(&self) -> (r: RepositoryInfo)
        ensures
            r.deep_view() == self.deep_view(),
    {
        let r = RepositoryInfo {
            name: self.name.clone(),
            last_push: clone_optional_string(&self.last_push),
            tag_count: self.tag_count,
        };
        proof {
            assert(r.deep_view() =~= self.deep_view());
        }
        r
    }
}

/// A copy of an optional string with the same characters.
pub fn clone_optional_string(o: &Option<String>) -> (r: Option<String>)
    ensures
        r.deep_view() == o.deep_view(),
{
    match o {
        Some(s) => Some(s.clone()),
        None => None,
    }
}

/// The mathematical value of a `RepositoryInfo`.
#[verifier::ext_equal]
pub ghost struct RepositoryInfoV {
    pub name: Seq<char>,
    pub last_push: Option<Seq<char>>,
    pub tag_count: nat,
}

impl DeepView for RepositoryInfo {
    type V = RepositoryInfoV;

    open spec fn deep_view(&self) -> RepositoryInfoV {
        RepositoryInfoV {
            name: self.name@,
            last_push: self.last_push.deep_view(),
            tag_count: self.tag_count as nat,
        }
    }
}

/// Per-tag detail served to callers. Three degraded lifecycle variants of a
/// single tag are all valid results: *full* (manifest and config blob both
/// resolved), *basic* (manifest resolved, blob failed: digest and size known,
/// metadata absent) and *empty* (manifest failed: sentinel digest, zero size,
/// no metadata).
#[derive(Debug, Clone)]
pub struct TagDetail {
    pub name: String,
    pub digest: String,
    pub size_bytes: u64,
    pub created_at: Option<String>,
    pub architecture: Option<String>,
    pub os: Option<String>,
}

/// The mathematical value of a `TagDetail`.
#[verifier::ext_equal]
pub ghost struct TagDetailV {
    pub name: Seq<char>,
    pub digest: Seq<char>,
    pub size_bytes: nat,
    pub created_at: Option<Seq<char>>,
    pub architecture: Option<Seq<char>>,
    pub os: Option<Seq<char>>,
}

impl DeepView for TagDetail {
    type V = TagDetailV;

    open spec fn deep_view(&self) -> TagDetailV {
        TagDetailV {
            name: self.name@,
            digest: self.digest@,
            size_bytes: self.size_bytes as nat,
            created_at: self.created_at.deep_view(),
            architecture: self.architecture.deep_view(),
            os: self.os.deep_view(),
        }
    }
}

/// The *empty* form of a tag detail, for a tag whose manifest could not be
/// fetched: sentinel digest, zero size, no metadata.
pub open spec fn spec_empty_detail(name: Seq<char>) -> TagDetailV {
    TagDetailV {
        name,
        digest: "n/a"@,
        size_bytes: 0,
        created_at: None,
        architecture: None,
        os: None,
    }
}

/// The *basic* form of a tag detail, for a tag whose manifest resolved but
/// whose config blob did not: digest and size known, no metadata.
pub open spec fn spec_basic_detail(name: Seq<char>, digest: Seq<char>, size_bytes: nat) -> TagDetailV {
    TagDetailV { name, digest, size_bytes, created_at: None, architecture: None, os: None }
}

impl TagDetail {
    /// The *empty* degraded result for a tag whose manifest fetch failed.
    pub fn empty(name: String) -> (r: TagDetail)
        ensures
            r.deep_view() == spec_empty_detail(name@),
    {
        let r = TagDetail {
            name,
            digest: String::from_str("n/a"),
            size_bytes: 0,
            created_at: None,
            architecture: None,
            os: None,
        };
        proof {
            assert(r.deep_view() =~= spec_empty_detail(r.name@));
        }
        r
    }

    /// The *basic* degraded result for a tag whose manifest resolved but
    /// whose config blob fetch failed.
    pub fn basic(name: String, digest: String, size_bytes: u64) -> (r: TagDetail)
        ensures
            r.deep_view() == spec_basic_detail(name@, digest@, size_bytes as nat),
    {
        let r = TagDetail { name, digest, size_bytes, created_at: None, architecture: None, os: None };
        proof {
            assert(r.deep_view() =~= spec_basic_detail(r.name@, r.digest@, size_bytes as nat));
        }
        r
    }
}

} // verus!
