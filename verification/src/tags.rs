//! The tag enrichment pipeline's decisions: how a tag's byte size is
//! computed from its manifest, and which degraded detail a tag yields when
//! its manifest or its config blob could not be fetched. The surrounding
//! application performs the fetches (concurrently, one task per tag) and
//! records their outcomes as a `TagFetch` per tag name; building and
//! collecting the details is verified here.

use vstd::prelude::*;

use crate::models::{
    clone_optional_string, spec_basic_detail, spec_empty_detail, ConfigBlobInfo, LayerDescriptor,
    ManifestV2, TagDetail, TagDetailV, TagList,
};

verus! {

/// What the pipeline's fetches produced for one tag: no manifest, a manifest
/// but no config blob, or both.
pub enum TagFetch {
    ManifestFailed,
    BlobFailed { manifest: ManifestV2 },
    Resolved { manifest: ManifestV2, blob: ConfigBlobInfo },
}

/// The sum of the layer sizes of a manifest.
pub open spec fn spec_layer_sum(layers: Seq<LayerDescriptor>) -> int
    decreases layers.len(),
{
    if layers.len() == 0 {
        0
    } else {
        spec_layer_sum(layers.drop_last()) + layers.last().size
    }
}

/// The byte size reported for a tag: the sum of all layer sizes plus the
/// config descriptor size.
pub open spec fn spec_manifest_size(m: ManifestV2) -> int {
    spec_layer_sum(m.layers@) + m.config.size
}

/// The reported byte size clamped into `u64`: the computation saturates
/// rather than overflow.
pub open spec fn spec_size_bytes(m: ManifestV2) -> nat {
    if spec_manifest_size(m) <= u64::MAX {
        spec_manifest_size(m) as nat
    } else {
        u64::MAX as nat
    }
}

proof fn lemma_layer_sum_nonneg(layers: Seq<LayerDescriptor>)
    ensures
        spec_layer_sum(layers) >= 0,
    decreases layers.len(),
{
    if layers.len() > 0 {
        lemma_layer_sum_nonneg(layers.drop_last());
    }
}

/// Computes a tag's byte size from its manifest: the sum of all layer sizes
/// plus the config descriptor size, saturating at `u64::MAX`.
pub fn manifest_size_bytes(m: &ManifestV2) -> (s: u64)
    ensures
        s as nat == spec_size_bytes(*m),
{
    let n = m.layers.len();
    let mut s: u64 = 0;
    let mut i: usize = 0;
    while i < n
        invariant
            n == m.layers@.len(),
            i <= n,
            s as int == (if spec_layer_sum(m.layers@.take(i as int)) <= u64::MAX {
                spec_layer_sum(m.layers@.take(i as int))
            } else {
                u64::MAX as int
            }),
        decreases n - i,
    {
        proof {
            lemma_layer_sum_nonneg(m.layers@.take(i as int));
            assert(m.layers@.take(i + 1).drop_last() =~= m.layers@.take(i as int));
            assert(m.layers@.take(i + 1).last() == m.layers@[i as int]);
        }
        let sz = m.layers[i].size;
        s = if s <= u64::MAX - sz {
            s + sz
        } else {
            u64::MAX
        };
        i = i + 1;
    }
    proof {
        assert(m.layers@.take(n as int) =~= m.layers@);
        lemma_layer_sum_nonneg(m.layers@);
    }
    let c = m.config.size;
    if s <= u64::MAX - c {
        s + c
    } else {
        u64::MAX
    }
}

/// The *full* detail for a tag whose manifest and config blob both resolved:
/// digest and size from the manifest, metadata from the blob, each field
/// independently optional.
pub open spec fn spec_full_detail(name: Seq<char>, m: ManifestV2, blob: ConfigBlobInfo) -> TagDetailV {
    TagDetailV {
        name,
        digest: m.config.digest@,
        size_bytes: spec_size_bytes(m),
        created_at: blob.created.deep_view(),
        architecture: blob.architecture.deep_view(),
        os: blob.os.deep_view(),
    }
}

/// The detail the pipeline yields for one tag, by degradation tier: *empty*
/// when the manifest fetch failed, *basic* when only the config blob fetch
/// failed, *full* when both resolved.
pub open spec fn spec_tag_detail(name: Seq<char>, f: TagFetch) -> TagDetailV {
    match f {
        TagFetch::ManifestFailed => spec_empty_detail(name),
        TagFetch::BlobFailed { manifest } => spec_basic_detail(
            name,
            manifest.config.digest@,
            spec_size_bytes(manifest),
        ),
        TagFetch::Resolved { manifest, blob } => spec_full_detail(name, manifest, blob),
    }
}

/// Builds the detail for one tag from its fetch outcome. This never fails:
/// fetch failures degrade the detail, they do not abort the batch.
pub fn build_tag_detail(name: String, f: &TagFetch) -> (d: TagDetail)
    ensures
        d.deep_view() == spec_tag_detail(name@, *f),
{
    match f {
        TagFetch::ManifestFailed => TagDetail::empty(name),
        TagFetch::BlobFailed { manifest } => {
            let size = manifest_size_bytes(manifest);
            TagDetail::basic(name, manifest.config.digest.clone(), size)
        },
        TagFetch::Resolved { manifest, blob } => {
            let size = manifest_size_bytes(manifest);
            let d = TagDetail {
                name,
                digest: manifest.config.digest.clone(),
                size_bytes: size,
                created_at: clone_optional_string(&blob.created),
                architecture: clone_optional_string(&blob.architecture),
                os: clone_optional_string(&blob.os),
            };
            proof {
                assert(d.deep_view() =~= spec_full_detail(d.name@, *manifest, *blob));
            }
            d
        },
    }
}

/// The tags a fetched tag list asks the pipeline to enrich: an absent `tags`
/// field means zero tags, exactly as an empty one does.
pub open spec fn spec_tags_of(t: TagList) -> Seq<Seq<char>> {
    match t.tags {
        None => Seq::empty(),
        Some(v) => v.deep_view(),
    }
}

/// The tag names to enrich, copied out of a fetched tag list.
pub fn tags_to_enrich(t: &TagList) -> (r: Vec<String>)
    ensures
        r.deep_view() == spec_tags_of(*t),
{
    let mut out: Vec<String> = Vec::new();
    match &t.tags {
        None => {
            proof {
                assert(out.deep_view() =~= spec_tags_of(*t));
            }
            out
        },
        Some(v) => {
            let n = v.len();
            let mut i: usize = 0;
            while i < n
                invariant
                    n == v@.len(),
                    i <= n,
                    out.deep_view() == v.deep_view().take(i as int),
                decreases n - i,
            {
                let ghost pre = out.deep_view();
                let name = v[i].clone();
                let ghost nv = name@;
                out.push(name);
                proof {
                    assert(out.deep_view() =~~= pre.push(nv));
                    assert(pre.push(nv) =~~= v.deep_view().take(i + 1));
                }
                i = i + 1;
            }
            proof {
                assert(v.deep_view().take(n as int) =~~= v.deep_view());
            }
            out
        },
    }
}

/// Law: a tag list without a `tags` field is equivalent to one with an empty
/// tag sequence; downstream, both yield zero tags to enrich.
pub proof fn lemma_absent_tags_equal_empty(without: TagList, with_empty: TagList)
    requires
        without.tags is None,
        with_empty.tags matches Some(v) && v@.len() == 0,
    ensures
        spec_tags_of(without) == spec_tags_of(with_empty),
        spec_tags_of(without).len() == 0,
{
    assert(spec_tags_of(without) =~= spec_tags_of(with_empty));
}

/// Law (degradation tiers): the detail for a tag is the *empty* form exactly
/// when its manifest fetch failed, the *basic* form exactly when only its
/// config blob fetch failed, and the *full* form, with every populated field
/// taken from the blob, when both resolved.
pub proof fn lemma_tag_degradation_tiers(name: Seq<char>, m: ManifestV2, blob: ConfigBlobInfo)
    ensures
        spec_tag_detail(name, TagFetch::ManifestFailed) == spec_empty_detail(name),
        spec_tag_detail(name, TagFetch::ManifestFailed).digest == "n/a"@,
        spec_tag_detail(name, TagFetch::ManifestFailed).size_bytes == 0,
        spec_tag_detail(name, TagFetch::ManifestFailed).created_at is None,
        spec_tag_detail(name, (TagFetch::BlobFailed { manifest: m })) == spec_basic_detail(
            name,
            m.config.digest@,
            spec_size_bytes(m),
        ),
        spec_tag_detail(name, (TagFetch::BlobFailed { manifest: m })).created_at is None,
        spec_tag_detail(name, (TagFetch::Resolved { manifest: m, blob })) == spec_full_detail(
            name,
            m,
            blob,
        ),
        spec_tag_detail(name, (TagFetch::Resolved { manifest: m, blob })).created_at
            == blob.created.deep_view(),
        spec_tag_detail(name, (TagFetch::Resolved { manifest: m, blob })).os
            == blob.os.deep_view(),
{
}

/// Collects one pass over a repository's tags: for every tag name, in listed
/// order, the detail built from that tag's fetch outcomes. The response has
/// the same shape and length whatever failed upstream.
pub fn collect_tag_details(names: &Vec<String>, work: &Vec<TagFetch>) -> (r: Vec<TagDetail>)
    requires
        names@.len() == work@.len(),
    ensures
        r@.len() == names@.len(),
        forall|i: int|
            0 <= i < names@.len() ==> r.deep_view()[i] == spec_tag_detail(names@[i]@, work@[i]),
{
    let n = names.len();
    let mut out: Vec<TagDetail> = Vec::new();
    let mut i: usize = 0;
    while i < n
        invariant
            n == names@.len(),
            names@.len() == work@.len(),
            i <= n,
            out@.len() == i,
            forall|j: int|
                0 <= j < i ==> out.deep_view()[j] == spec_tag_detail(names@[j]@, work@[j]),
        decreases n - i,
    {
        let ghost pre = out.deep_view();
        let d = build_tag_detail(names[i].clone(), &work[i]);
        out.push(d);
        proof {
            assert(out.deep_view() =~= pre.push(spec_tag_detail(names@[i as int]@, work@[i as int])));
        }
        i = i + 1;
    }
    out
}

} // verus!
