//! The catalog enrichment pipeline's decisions: which repositories are
//! served from the cache, how a fresh summary is computed from the outcomes
//! of the tag-list and creation-date fetches, and what one whole pass over a
//! catalog returns and leaves in the cache.
//!
//! The surrounding application performs the fetches (concurrently, one task
//! per repository) and records their outcomes as a `RepoFetch` per name; the
//! collection of the results and every update of the cache is verified here.

use vstd::prelude::*;

use crate::cache::SummaryCache;
use crate::models::{clone_optional_string, RepositoryInfo, RepositoryInfoV, TagList};

verus! {

/// What the pipeline did for one repository of the catalog: nothing, because
/// the name was cached, or a fresh fetch with its outcomes. `tags` is `None`
/// when the tag-list fetch failed; `last_date` is `None` when no creation
/// date was fetched or the fetch failed.
pub enum RepoFetch {
    Hit,
    Miss { tags: Option<TagList>, last_date: Option<String> },
}

/// How many tags a tag-list fetch outcome carries: a failed fetch and an
/// absent `tags` field both count as zero.
pub open spec fn spec_tag_count(tags: Option<TagList>) -> nat {
    match tags {
        None => 0,
        Some(t) => match t.tags {
            None => 0,
            Some(v) => v@.len(),
        },
    }
}

/// A fresh fetch outcome is well-formed when it carries a creation date only
/// for a repository with at least one tag: the pipeline asks for the date of
/// the last tag, so there is none to ask for otherwise.
pub open spec fn repo_fetch_wf(f: RepoFetch) -> bool {
    match f {
        RepoFetch::Hit => true,
        RepoFetch::Miss { tags, last_date } => last_date is Some ==> spec_tag_count(tags) > 0,
    }
}

/// The summary computed for one repository from fresh fetch outcomes.
pub open spec fn spec_summary(
    name: Seq<char>,
    tags: Option<TagList>,
    last_date: Option<String>,
) -> RepositoryInfoV {
    RepositoryInfoV { name, last_push: last_date.deep_view(), tag_count: spec_tag_count(tags) }
}

/// Cache well-formedness: every entry is stored under its own name.
pub open spec fn cache_wf(m: Map<Seq<char>, RepositoryInfoV>) -> bool {
    forall|k: Seq<char>| #[trigger] m.contains_key(k) ==> m[k].name == k
}

/// One pass's bookkeeping is consistent with the cache it started from:
/// exactly the cached names were served from the cache, and every fresh
/// outcome is well-formed.
pub open spec fn pass_consistent(
    m: Map<Seq<char>, RepositoryInfoV>,
    names: Seq<String>,
    work: Seq<RepoFetch>,
) -> bool {
    &&& work.len() == names.len()
    &&& forall|i: int|
        0 <= i < names.len() ==> ((#[trigger] work[i]) is Hit <==> m.contains_key(names[i]@))
    &&& forall|i: int| 0 <= i < names.len() ==> repo_fetch_wf(#[trigger] work[i])
}

/// The summary one pass yields at position `i`: the cached entry for a hit,
/// the freshly computed summary for a miss.
pub open spec fn spec_entry(
    m: Map<Seq<char>, RepositoryInfoV>,
    names: Seq<String>,
    work: Seq<RepoFetch>,
    i: int,
) -> RepositoryInfoV {
    match work[i] {
        RepoFetch::Hit => m[names[i]@],
        RepoFetch::Miss { tags, last_date } => spec_summary(names[i]@, tags, last_date),
    }
}

/// The summaries one pass over a catalog returns, in catalog order.
pub open spec fn spec_pass_result(
    m: Map<Seq<char>, RepositoryInfoV>,
    names: Seq<String>,
    work: Seq<RepoFetch>,
) -> Seq<RepositoryInfoV>
    recommends
        work.len() == names.len(),
    decreases names.len(),
{
    if names.len() == 0 {
        Seq::empty()
    } else {
        let i = names.len() - 1;
        spec_pass_result(m, names.drop_last(), work.drop_last()).push(
            spec_entry(m, names, work, i as int),
        )
    }
}

/// The cache one pass over a catalog leaves behind: every miss's fresh
/// summary inserted under its name, later entries winning.
pub open spec fn spec_cache_after(
    m: Map<Seq<char>, RepositoryInfoV>,
    names: Seq<String>,
    work: Seq<RepoFetch>,
) -> Map<Seq<char>, RepositoryInfoV>
    recommends
        work.len() == names.len(),
    decreases names.len(),
{
    if names.len() == 0 {
        m
    } else {
        let i = names.len() - 1;
        let prev = spec_cache_after(m, names.drop_last(), work.drop_last());
        match work[i] {
            RepoFetch::Hit => prev,
            RepoFetch::Miss { tags, last_date } => prev.insert(
                names[i]@,
                spec_summary(names[i]@, tags, last_date),
            ),
        }
    }
}

/// How many tags a tag-list fetch outcome carries.
pub fn tag_count(tags: &Option<TagList>) -> (c: usize)
    ensures
        c == spec_tag_count(*tags),
{
    match tags {
        None => 0,
        Some(t) => match &t.tags {
            None => 0,
            Some(v) => v.len(),
        },
    }
}

/// The tag whose creation date determines a repository's last push: the last
/// tag of the fetched list, in upstream order, if there is one.
pub fn date_candidate(tags: &Option<TagList>) -> (r: Option<&String>)
    ensures
        r is Some <==> spec_tag_count(*tags) > 0,
        r matches Some(t) ==> (tags matches Some(tl) && tl.tags matches Some(v) && v@.len() > 0
            && t@ == v@[v@.len() - 1]@),
{
    match tags {
        None => None,
        Some(tl) => match &tl.tags {
            None => None,
            Some(v) => if v.len() > 0 {
                Some(&v[v.len() - 1])
            } else {
                None
            },
        },
    }
}

/// Builds the summary for one repository that was not cached, from the
/// outcome of its tag-list fetch and of its creation-date fetch.
pub fn build_summary(name: String, tags: &Option<TagList>, last_date: Option<String>) -> (r:
    RepositoryInfo)
    ensures
        r.deep_view() == spec_summary(name@, *tags, last_date),
{
    let count = tag_count(tags);
    let r = RepositoryInfo { name, last_push: last_date, tag_count: count };
    proof {
        assert(r.deep_view() =~= spec_summary(r.name@, *tags, r.last_push));
    }
    r
}

/// Law: a repository whose tag-list fetch failed degrades to a summary with
/// zero tags and no last-push date; the pass as a whole still succeeds, the
/// entry is merely partial.
pub proof fn lemma_tag_fetch_failure_degrades(
    name: Seq<char>,
    tags: Option<TagList>,
    last_date: Option<String>,
)
    requires
        tags is None,
        last_date is Some ==> spec_tag_count(tags) > 0,
    ensures
        spec_summary(name, tags, last_date) == (RepositoryInfoV {
            name,
            last_push: None,
            tag_count: 0,
        }),
{
    assert(spec_summary(name, tags, last_date) =~= (RepositoryInfoV {
        name,
        last_push: None,
        tag_count: 0,
    }));
}

/// Collects one pass over a catalog: for every name, in catalog order, the
/// cached summary where the name was cached, otherwise the summary freshly
/// computed from that name's fetch outcomes, which is also inserted into the
/// cache. Sub-failures never fail the pass.
pub fn collect_summaries(cache: &mut SummaryCache, names: &Vec<String>, work: &Vec<RepoFetch>) -> (r:
    Vec<RepositoryInfo>)
    requires
        cache_wf(old(cache)@),
        pass_consistent(old(cache)@, names@, work@),
    ensures
        r.deep_view() == spec_pass_result(old(cache)@, names@, work@),
        r@.len() == names@.len(),
        forall|j: int| 0 <= j < names@.len() ==> r.deep_view()[j].name == names@[j]@,
        final(cache)@ == spec_cache_after(old(cache)@, names@, work@),
        cache_wf(final(cache)@),
        forall|k: Seq<char>|
            old(cache)@.contains_key(k) ==> final(cache)@.contains_key(k) && final(cache)@[k]
                == old(cache)@[k],
{
    let ghost m0 = cache@;
    let mut out: Vec<RepositoryInfo> = Vec::new();
    let n = names.len();
    let mut i: usize = 0;
    while i < n
        invariant
            n == names@.len(),
            names@.len() == work@.len(),
            i <= n,
            m0 == old(cache)@,
            cache_wf(m0),
            pass_consistent(m0, names@, work@),
            out@.len() == i,
            out.deep_view() == spec_pass_result(m0, names@.take(i as int), work@.take(i as int)),
            cache@ == spec_cache_after(m0, names@.take(i as int), work@.take(i as int)),
            cache_wf(cache@),
            forall|k: Seq<char>| m0.contains_key(k) ==> cache@.contains_key(k) && cache@[k]
                == m0[k],
            forall|j: int| 0 <= j < i ==> out.deep_view()[j].name == names@[j]@,
        decreases n - i,
    {
        let ghost out_pre = out.deep_view();
        let ghost cache_pre = cache@;
        let name = &names[i];
        match &work[i] {
            RepoFetch::Hit => {
                let cached = cache.get(name.as_str());
                let info = cached.unwrap();
                proof {
                    assert(info.deep_view() == m0[names@[i as int]@]);
                }
                out.push(info);
            },
            RepoFetch::Miss { tags, last_date } => {
                let info = build_summary(name.clone(), tags, clone_optional_string(last_date));
                cache.put(name.clone(), info.clone());
                out.push(info);
            },
        }
        proof {
            assert(names@.take(i + 1).drop_last() =~= names@.take(i as int));
            assert(work@.take(i + 1).drop_last() =~= work@.take(i as int));
            assert(names@.take(i + 1)[i as int] == names@[i as int]);
            assert(work@.take(i + 1)[i as int] == work@[i as int]);
            assert(out.deep_view() =~= spec_pass_result(
                m0,
                names@.take(i + 1),
                work@.take(i + 1),
            ));
            assert(cache@ =~= spec_cache_after(m0, names@.take(i + 1), work@.take(i + 1)));
        }
        i = i + 1;
    }
    proof {
        assert(names@.take(n as int) =~= names@);
        assert(work@.take(n as int) =~= work@);
    }
    out
}

/// An unchanged upstream: two fetches for the same repository name within a
/// pass record the same outcome.
pub open spec fn upstream_deterministic(names: Seq<String>, work: Seq<RepoFetch>) -> bool {
    forall|i: int, j: int|
        0 <= i < names.len() && 0 <= j < names.len() && names[i]@ == names[j]@ ==> work[i]
            == work[j]
}

/// A pass that serves every repository from the cache.
pub open spec fn spec_all_hits(len: nat) -> Seq<RepoFetch> {
    Seq::new(len, |i: int| RepoFetch::Hit)
}

/// A name that was cached before a consistent pass keeps its entry: a miss
/// only ever inserts names that were not cached.
proof fn lemma_pass_preserves_cached(
    m: Map<Seq<char>, RepositoryInfoV>,
    names: Seq<String>,
    work: Seq<RepoFetch>,
    k: Seq<char>,
)
    requires
        pass_consistent(m, names, work),
        m.contains_key(k),
    ensures
        spec_cache_after(m, names, work).contains_key(k),
        spec_cache_after(m, names, work)[k] == m[k],
    decreases names.len(),
{
    if names.len() > 0 {
        lemma_pass_preserves_cached(m, names.drop_last(), work.drop_last(), k);
        let i = names.len() - 1;
        if !(work[i as int] is Hit) {
            assert(!m.contains_key(names[i as int]@));
            assert(names[i as int]@ != k);
        }
    }
}

/// After a consistent pass, every name of the catalog is cached.
proof fn lemma_pass_covers_names(
    m: Map<Seq<char>, RepositoryInfoV>,
    names: Seq<String>,
    work: Seq<RepoFetch>,
    i: int,
)
    requires
        pass_consistent(m, names, work),
        0 <= i < names.len(),
    ensures
        spec_cache_after(m, names, work).contains_key(names[i]@),
    decreases names.len(),
{
    let last = names.len() - 1;
    if i == last {
        if work[i] is Hit {
            lemma_pass_preserves_cached(m, names, work, names[i]@);
        }
    } else {
        lemma_pass_covers_names(m, names.drop_last(), work.drop_last(), i);
    }
}

/// The entry a consistent, deterministic pass leaves for a missed name is
/// that name's freshly computed summary.
proof fn lemma_pass_miss_value(
    m: Map<Seq<char>, RepositoryInfoV>,
    names: Seq<String>,
    work: Seq<RepoFetch>,
    i: int,
)
    requires
        pass_consistent(m, names, work),
        upstream_deterministic(names, work),
        0 <= i < names.len(),
        !(work[i] is Hit),
    ensures
        spec_cache_after(m, names, work).contains_key(names[i]@),
        spec_cache_after(m, names, work)[names[i]@] == spec_entry(m, names, work, i),
    decreases names.len(),
{
    let last = names.len() - 1;
    if i == last as int {
    } else {
        if names[last as int]@ == names[i]@ {
            assert(work[last as int] == work[i]);
            assert(spec_entry(m, names, work, last as int) == spec_entry(m, names, work, i));
        } else {
            lemma_pass_miss_value(m, names.drop_last(), work.drop_last(), i);
            assert(spec_entry(m, names.drop_last(), work.drop_last(), i) == spec_entry(
                m,
                names,
                work,
                i,
            ));
        }
    }
}

/// The length and the entries of a pass's result sequence.
proof fn lemma_pass_result_index(
    m: Map<Seq<char>, RepositoryInfoV>,
    names: Seq<String>,
    work: Seq<RepoFetch>,
)
    requires
        work.len() == names.len(),
    ensures
        spec_pass_result(m, names, work).len() == names.len(),
        forall|i: int|
            0 <= i < names.len() ==> #[trigger] spec_pass_result(m, names, work)[i] == spec_entry(
                m,
                names,
                work,
                i,
            ),
    decreases names.len(),
{
    if names.len() > 0 {
        lemma_pass_result_index(m, names.drop_last(), work.drop_last());
        assert forall|i: int| 0 <= i < names.len() - 1 implies #[trigger] spec_pass_result(
            m,
            names,
            work,
        )[i] == spec_entry(m, names, work, i) by {
            assert(spec_pass_result(m, names, work)[i] == spec_pass_result(
                m,
                names.drop_last(),
                work.drop_last(),
            )[i]);
            assert(spec_entry(m, names.drop_last(), work.drop_last(), i) == spec_entry(
                m,
                names,
                work,
                i,
            ));
        }
    }
}

/// A pass that hits the cache on every name leaves the cache unchanged.
proof fn lemma_all_hits_pass_leaves_cache(m: Map<Seq<char>, RepositoryInfoV>, names: Seq<String>)
    ensures
        spec_cache_after(m, names, spec_all_hits(names.len())) == m,
    decreases names.len(),
{
    if names.len() > 0 {
        assert(spec_all_hits(names.len()).drop_last() =~= spec_all_hits(
            names.drop_last().len(),
        ));
        lemma_all_hits_pass_leaves_cache(m, names.drop_last());
    }
}

/// Law (cache idempotence): after one pass over a catalog, a second pass
/// over the same catalog against an unchanged upstream finds every name
/// cached, may therefore serve every summary from the cache without fetching
/// anything, returns exactly the summaries of the first pass, and leaves the
/// cache unchanged.
pub proof fn lemma_warm_cache_pass_idempotent(
    m: Map<Seq<char>, RepositoryInfoV>,
    names: Seq<String>,
    work: Seq<RepoFetch>,
)
    requires
        pass_consistent(m, names, work),
        upstream_deterministic(names, work),
    ensures
        pass_consistent(spec_cache_after(m, names, work), names, spec_all_hits(names.len())),
        spec_pass_result(spec_cache_after(m, names, work), names, spec_all_hits(names.len()))
            == spec_pass_result(m, names, work),
        spec_cache_after(
            spec_cache_after(m, names, work),
            names,
            spec_all_hits(names.len()),
        ) == spec_cache_after(m, names, work),
{
    let m2 = spec_cache_after(m, names, work);
    let hits = spec_all_hits(names.len());
    assert forall|i: int| 0 <= i < names.len() implies m2.contains_key(names[i]@) by {
        lemma_pass_covers_names(m, names, work, i);
    }
    assert(pass_consistent(m2, names, hits));
    lemma_pass_result_index(m2, names, hits);
    lemma_pass_result_index(m, names, work);
    assert forall|i: int| 0 <= i < names.len() implies spec_pass_result(m2, names, hits)[i]
        == spec_pass_result(m, names, work)[i] by {
        if work[i] is Hit {
            lemma_pass_preserves_cached(m, names, work, names[i]@);
        } else {
            lemma_pass_miss_value(m, names, work, i);
        }
    }
    assert(spec_pass_result(m2, names, hits) =~= spec_pass_result(m, names, work));
    lemma_all_hits_pass_leaves_cache(m2, names);
}

} // verus!
