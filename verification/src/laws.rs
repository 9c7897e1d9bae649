//! The guarantees of the resolution engine, stated and proved once for all
//! stores and all contexts: the default is always applicable, selection
//! yields exactly one profile, overrides beat the default, higher
//! specificity wins, and load order breaks ties.

use vstd::prelude::*;

use crate::model::{AppProperties, Config};
use crate::store::{is_selected, lemma_selected_unique, seq_has_path, some_match, ConfigStore};

verus! {

/// Like [`is_selected`], restricted to the overrides from position `k` on.
spec fn selected_in_suffix(cs: Seq<Config>, app: AppProperties, k: int, i: int) -> bool {
    &&& k <= i < cs.len()
    &&& cs[i].spec_is_match(app)
    &&& forall|j: int|
        k <= j < cs.len() && (#[trigger] cs[j]).spec_is_match(app)
            ==> cs[j].spec_specificity() <= cs[i].spec_specificity()
    &&& forall|j: int|
        k <= j < i && (#[trigger] cs[j]).spec_is_match(app)
            ==> cs[j].spec_specificity() < cs[i].spec_specificity()
}

proof fn lemma_selected_exists_from(cs: Seq<Config>, app: AppProperties, k: int)
    requires
        0 <= k,
        exists|i: int| k <= i < cs.len() && (#[trigger] cs[i]).spec_is_match(app),
    ensures
        exists|i: int| #[trigger] selected_in_suffix(cs, app, k, i),
    decreases cs.len() - k,
{
    let w = choose|i: int| k <= i < cs.len() && (#[trigger] cs[i]).spec_is_match(app);
    if cs[k].spec_is_match(app) {
        if exists|i: int| k + 1 <= i < cs.len() && (#[trigger] cs[i]).spec_is_match(app) {
            lemma_selected_exists_from(cs, app, k + 1);
            let m = choose|i: int| #[trigger] selected_in_suffix(cs, app, k + 1, i);
            if cs[m].spec_specificity() > cs[k].spec_specificity() {
                assert(selected_in_suffix(cs, app, k, m));
            } else {
                assert(selected_in_suffix(cs, app, k, k));
            }
        } else {
            assert(selected_in_suffix(cs, app, k, k));
        }
    } else {
        assert(k + 1 <= w);
        lemma_selected_exists_from(cs, app, k + 1);
        let m = choose|i: int| #[trigger] selected_in_suffix(cs, app, k + 1, i);
        assert(selected_in_suffix(cs, app, k, m));
    }
}

/// Whenever some override matches, a selected index exists — selection is
/// total, and by [`lemma_selected_unique`] it is unambiguous.
pub proof fn lemma_selected_exists(cs: Seq<Config>, app: AppProperties)
    requires
        some_match(cs, app),
    ensures
        exists|i: int| is_selected(cs, app, i),
{
    lemma_selected_exists_from(cs, app, 0);
    let i = choose|i: int| #[trigger] selected_in_suffix(cs, app, 0, i);
    assert(is_selected(cs, app, i));
}

/// The default profile carries no filter, so it applies to every context.
pub proof fn lemma_default_matches_all(s: ConfigStore, app: AppProperties)
    requires
        s.wf(),
    ensures
        s.default.spec_is_match(app),
{
}

/// Every match path of the default profile is among the store's aggregated
/// match paths, whether or not any override ever matches.
pub proof fn lemma_all_paths_include_default(s: ConfigStore, k: int)
    requires
        0 <= k < s.default.match_paths@.len(),
    ensures
        s.store_has_path(s.default.match_paths@[k]@),
{
    assert(seq_has_path(s.default.match_paths@, s.default.match_paths@[k]@));
}

/// Selection always yields a result: the profile `spec_active` names
/// satisfies the selection outcome predicate for every context.
pub proof fn lemma_active_exactly_one(s: ConfigStore, app: AppProperties)
    requires
        s.wf(),
    ensures
        s.is_active_result(app, s.spec_active(app)),
{
    if some_match(s.customs@, app) {
        lemma_selected_exists(s.customs@, app);
    }
}

/// If any override matches the context, the selected profile is one of the
/// overrides, never the default.
pub proof fn lemma_active_not_default_when_match(s: ConfigStore, app: AppProperties)
    requires
        s.wf(),
        some_match(s.customs@, app),
    ensures
        exists|i: int|
            0 <= i < s.customs@.len() && s.spec_active(app) == (#[trigger] s.customs@[i]),
        s.spec_active(app).id != s.default.id,
{
    lemma_selected_exists(s.customs@, app);
    let i = choose|i: int| is_selected(s.customs@, app, i);
    assert(0 <= i < s.customs@.len() && s.spec_active(app) == s.customs@[i]);
}

/// Repeated queries with an unchanged context on an unchanged store agree:
/// any two profiles meeting the selection outcome predicate are the same
/// profile.
pub proof fn lemma_active_idempotent(s: ConfigStore, app: AppProperties, p1: Config, p2: Config)
    requires
        s.wf(),
        s.is_active_result(app, p1),
        s.is_active_result(app, p2),
    ensures
        p1 == p2,
{
    if some_match(s.customs@, app) {
        let i1 = choose|i: int| is_selected(s.customs@, app, i) && p1 == s.customs@[i];
        let i2 = choose|i: int| is_selected(s.customs@, app, i) && p2 == s.customs@[i];
        lemma_selected_unique(s.customs@, app, i1, i2);
    }
}

/// Specificity monotonicity: if overrides at `a` and `b` both match and
/// `a`'s filter is strictly more specific, selection never yields `b`'s
/// profile, and the selected profile is at least as specific as `a`'s.
pub proof fn lemma_active_prefers_specificity(
    s: ConfigStore,
    app: AppProperties,
    a: int,
    b: int,
)
    requires
        s.wf(),
        0 <= a < s.customs@.len(),
        0 <= b < s.customs@.len(),
        s.customs@[a].spec_is_match(app),
        s.customs@[b].spec_is_match(app),
        s.customs@[a].spec_specificity() > s.customs@[b].spec_specificity(),
    ensures
        s.spec_active(app).spec_specificity() >= s.customs@[a].spec_specificity(),
        s.spec_active(app) != s.customs@[b],
{
    assert(some_match(s.customs@, app));
    lemma_selected_exists(s.customs@, app);
    let i = choose|i: int| is_selected(s.customs@, app, i);
    assert(s.customs@[a].spec_specificity() <= s.customs@[i].spec_specificity());
    assert(s.spec_active(app) == s.customs@[i]);
}

/// Tie-break determinism: if overrides at `a` and `b` both match with equal
/// specificity and `a` comes earlier in load order, selection never yields
/// `b`'s profile.
pub proof fn lemma_active_tie_breaks_earliest(
    s: ConfigStore,
    app: AppProperties,
    a: int,
    b: int,
)
    requires
        s.wf(),
        0 <= a < b < s.customs@.len(),
        s.customs@[a].spec_is_match(app),
        s.customs@[b].spec_is_match(app),
        s.customs@[a].spec_specificity() == s.customs@[b].spec_specificity(),
    ensures
        s.spec_active(app) != s.customs@[b],
{
    assert(some_match(s.customs@, app));
    lemma_selected_exists(s.customs@, app);
    let i = choose|i: int| is_selected(s.customs@, app, i);
    assert(s.spec_active(app) == s.customs@[i]);
    if i == b {
        assert(s.customs@[a].spec_specificity() < s.customs@[b].spec_specificity());
    }
    assert(s.customs@[i].id != s.customs@[b].id || i == b);
}

} // verus!
