//! The store: owns the resolved default profile and the ordered override
//! profiles, and answers every query — active-profile selection, profile
//! enumeration, and match-path aggregation.

use vstd::prelude::*;

use crate::model::{AppProperties, Config};

verus! {

/// The reserved id of the default profile; every override id differs from it.
pub const DEFAULT_CONFIG_ID: i32 = 0;

/// Whether some override in `cs` applies to `app`.
pub open spec fn some_match(cs: Seq<Config>, app: AppProperties) -> bool {
    exists|i: int| 0 <= i < cs.len() && (#[trigger] cs[i]).spec_is_match(app)
}

/// Whether index `i` is the override that selection picks for `app`:
/// it matches, no matching override is strictly more specific, and every
/// equally specific matching override comes no earlier in load order.
pub open spec fn is_selected(cs: Seq<Config>, app: AppProperties, i: int) -> bool {
    &&& 0 <= i < cs.len()
    &&& cs[i].spec_is_match(app)
    &&& forall|j: int|
        0 <= j < cs.len() && (#[trigger] cs[j]).spec_is_match(app)
            ==> cs[j].spec_specificity() <= cs[i].spec_specificity()
    &&& forall|j: int|
        0 <= j < i && (#[trigger] cs[j]).spec_is_match(app)
            ==> cs[j].spec_specificity() < cs[i].spec_specificity()
}

/// At most one index is selected for a given context.
pub proof fn lemma_selected_unique(cs: Seq<Config>, app: AppProperties, i: int, j: int)
    requires
        is_selected(cs, app, i),
        is_selected(cs, app, j),
    ensures
        i == j,
{
    if i < j {
        assert(cs[i].spec_specificity() < cs[j].spec_specificity());
        assert(cs[j].spec_specificity() <= cs[i].spec_specificity());
    }
    if j < i {
        assert(cs[j].spec_specificity() < cs[i].spec_specificity());
        assert(cs[i].spec_specificity() <= cs[j].spec_specificity());
    }
}

/// Whether some element of `v` reads as the path `p`.
pub open spec fn seq_has_path(v: Seq<String>, p: Seq<char>) -> bool {
    exists|k: int| 0 <= k < v.len() && (#[trigger] v[k])@ == p
}

/// Whether no two elements of `v` read as the same path.
pub open spec fn distinct_views(v: Seq<String>) -> bool {
    forall|i: int, j: int| 0 <= i < j < v.len() ==> (#[trigger] v[i])@ != (#[trigger] v[j])@
}

/// The read-only collection of one default profile and the overrides in
/// load order. Built once by resolution; never mutated afterwards.
#[derive(Debug)]
pub struct ConfigStore {
    /// The always-applicable fallback profile.
    pub default: Config,
    /// The override profiles, in load order.
    pub customs: Vec<Config>,
}

impl ConfigStore {
    /// Internal consistency, established by resolution: the default has no
    /// filter and the reserved id, every override has a non-empty filter,
    /// and ids and labels are unique across the whole store.
    pub open spec fn wf(self) -> bool {
        &&& self.default.wf()
        &&& self.default.filter is None
        &&& self.default.id == DEFAULT_CONFIG_ID
        &&& forall|i: int| 0 <= i < self.customs@.len() ==> (#[trigger] self.customs@[i]).wf()
        &&& forall|i: int|
            0 <= i < self.customs@.len() ==> (#[trigger] self.customs@[i]).filter is Some
        &&& forall|i: int|
            0 <= i < self.customs@.len() ==> (#[trigger] self.customs@[i]).id != DEFAULT_CONFIG_ID
        &&& forall|i: int, j: int|
            0 <= i < j < self.customs@.len()
                ==> (#[trigger] self.customs@[i]).id != (#[trigger] self.customs@[j]).id
        &&& forall|i: int|
            0 <= i < self.customs@.len()
                ==> (#[trigger] self.customs@[i]).label@ != self.default.label@
        &&& forall|i: int, j: int|
            0 <= i < j < self.customs@.len()
                ==> (#[trigger] self.customs@[i]).label@ != (#[trigger] self.customs@[j]).label@
    }

    /// The profile that selection yields for `app`: the selected override
    /// when one matches, the default otherwise. A function of the store and
    /// the context alone, so repeated queries agree.
    pub open spec fn spec_active(self, app: AppProperties) -> Config {
        if some_match(self.customs@, app) {
            self.customs@[choose|i: int| is_selected(self.customs@, app, i)]
        } else {
            self.default
        }
    }

    /// Whether `p` is a possible outcome of selection for `app`: the
    /// selected override when one matches, the default otherwise.
    pub open spec fn is_active_result(self, app: AppProperties, p: Config) -> bool {
        if some_match(self.customs@, app) {
            exists|i: int| is_selected(self.customs@, app, i) && p == self.customs@[i]
        } else {
            p == self.default
        }
    }

    /// Whether the store holds `p` among any profile's match paths.
    pub open spec fn store_has_path(self, p: Seq<char>) -> bool {
        ||| seq_has_path(self.default.match_paths@, p)
        ||| exists|i: int|
            0 <= i < self.customs@.len()
                && seq_has_path((#[trigger] self.customs@[i]).match_paths@, p)
    }

    /// The default profile, always present and always applicable.
    pub fn default(&self) -> (r: &Config)
        ensures
            *r == self.default,
    {
        &self.default
    }

    /// Select the one profile governing behavior under `app`: evaluate every
    /// override's filter in load order, keep the match with the highest
    /// specificity (earliest wins ties), and fall back to the default when
    /// nothing matches. Never fails.
    pub fn active(&self, app: &AppProperties) -> (r: &Config)
        requires
            self.wf(),
        ensures
            *r == self.spec_active(*app),
            self.is_active_result(*app, *r),
            some_match(self.customs@, *app) ==> is_selected(
                self.customs@,
                *app,
                choose|i: int| is_selected(self.customs@, *app, i),
            ),
            !some_match(self.customs@, *app) ==> *r == self.default,
    {
        let ghost cs = self.customs@;
        let mut best: Option<usize> = None;
        let mut best_spec: u32 = 0;
        let mut i: usize = 0;
        while i < self.customs.len()
            invariant
                cs == self.customs@,
                0 <= i <= cs.len(),
                match best {
                    None => forall|j: int|
                        0 <= j < i ==> !(#[trigger] cs[j]).spec_is_match(*app),
                    Some(b) => {
                        &&& 0 <= b < i
                        &&& cs[b as int].spec_is_match(*app)
                        &&& best_spec as int == cs[b as int].spec_specificity()
                        &&& forall|j: int|
                            0 <= j < i && (#[trigger] cs[j]).spec_is_match(*app)
                                ==> cs[j].spec_specificity() <= best_spec as int
                        &&& forall|j: int|
                            0 <= j < b && (#[trigger] cs[j]).spec_is_match(*app)
                                ==> cs[j].spec_specificity() < best_spec as int
                    },
                },
            decreases cs.len() - i,
        {
            let c = &self.customs[i];
            if c.is_match(app) {
                let s = c.specificity();
                match best {
                    None => {
                        best = Some(i);
                        best_spec = s;
                    },
                    Some(_) => {
                        if s > best_spec {
                            best = Some(i);
                            best_spec = s;
                        }
                    },
                }
            }
            i = i + 1;
        }
        match best {
            Some(b) => {
                proof {
                    assert(is_selected(cs, *app, b as int));
                    let ch = choose|k: int| is_selected(cs, *app, k);
                    lemma_selected_unique(cs, *app, ch, b as int);
                }
                &self.customs[b]
            },
            None => {
                proof {
                    assert(!some_match(cs, *app));
                }
                &self.default
            },
        }
    }

    /// Every profile — the default first, then the overrides in load order.
    /// Stable across repeated calls on the same store.
    pub fn configs(&self) -> (r: Vec<&Config>)
        ensures
            r@.len() == self.customs@.len() + 1,
            *r@[0] == self.default,
            forall|i: int| 1 <= i < r@.len() ==> *(#[trigger] r@[i]) == self.customs@[i - 1],
    {
        let mut v: Vec<&Config> = Vec::new();
        v.push(&self.default);
        let mut i: usize = 0;
        while i < self.customs.len()
            invariant
                v@.len() == i + 1,
                0 <= i <= self.customs@.len(),
                *v@[0] == self.default,
                forall|k: int| 1 <= k < v@.len() ==> *(#[trigger] v@[k]) == self.customs@[k - 1],
            decreases self.customs@.len() - i,
        {
            v.push(&self.customs[i]);
            i = i + 1;
        }
        v
    }

    /// The union, with duplicates removed, of every profile's match paths —
    /// default and overrides alike, whether or not an override is ever
    /// selected. Callers treat the result as a set.
    pub fn get_all_match_paths(&self) -> (r: Vec<String>)
        ensures
            distinct_views(r@),
            forall|k: int| 0 <= k < r@.len() ==> self.store_has_path((#[trigger] r@[k])@),
            forall|p: Seq<char>| self.store_has_path(p) ==> seq_has_path(r@, p),
    {
        let ghost cs = self.customs@;
        let mut out: Vec<String> = Vec::new();
        add_unique_paths(&mut out, &self.default.match_paths);
        let mut i: usize = 0;
        while i < self.customs.len()
            invariant
                cs == self.customs@,
                0 <= i <= cs.len(),
                distinct_views(out@),
                forall|p: Seq<char>|
                    #[trigger] seq_has_path(out@, p) <==> seq_has_path(
                        self.default.match_paths@,
                        p,
                    ) || exists|j: int|
                        0 <= j < i && seq_has_path((#[trigger] cs[j]).match_paths@, p),
            decreases cs.len() - i,
        {
            add_unique_paths(&mut out, &self.customs[i].match_paths);
            proof {
                assert forall|p: Seq<char>|
                    #[trigger] seq_has_path(out@, p) <==> seq_has_path(
                        self.default.match_paths@,
                        p,
                    ) || exists|j: int|
                        0 <= j < i + 1 && seq_has_path((#[trigger] cs[j]).match_paths@, p) by {
                    if seq_has_path(out@, p) {
                        if !seq_has_path(self.default.match_paths@, p) {
                            if seq_has_path(cs[i as int].match_paths@, p) {
                                assert(0 <= i < i + 1 && seq_has_path(
                                    cs[i as int].match_paths@,
                                    p,
                                ));
                            } else {
                                let j = choose|j: int|
                                    0 <= j < i && seq_has_path(
                                        (#[trigger] cs[j]).match_paths@,
                                        p,
                                    );
                                assert(0 <= j < i + 1 && seq_has_path(cs[j].match_paths@, p));
                            }
                        }
                    }
                    if exists|j: int|
                        0 <= j < i + 1 && seq_has_path((#[trigger] cs[j]).match_paths@, p) {
                        let j = choose|j: int|
                            0 <= j < i + 1 && seq_has_path((#[trigger] cs[j]).match_paths@, p);
                        if j < i {
                            assert(0 <= j < i && seq_has_path(cs[j].match_paths@, p));
                        }
                    }
                }
            }
            i = i + 1;
        }
        proof {
            assert forall|k: int| 0 <= k < out@.len() implies self.store_has_path(
                (#[trigger] out@[k])@,
            ) by {
                assert(seq_has_path(out@, out@[k]@));
            }
        }
        out
    }
}

/// Whether `v` holds an element reading as the string `s`.
fn vec_has_string(v: &Vec<String>, s: &String) -> (r: bool)
    ensures
        r == seq_has_path(v@, s@),
{
    let mut i: usize = 0;
    while i < v.len()
        invariant
            0 <= i <= v@.len(),
            forall|k: int| 0 <= k < i ==> (#[trigger] v@[k])@ != s@,
        decreases v@.len() - i,
    {
        if (&v[i]).eq(s) {
            return true;
        }
        i = i + 1;
    }
    false
}

/// Append to `out` every path of `src` that `out` does not already hold,
/// preserving distinctness; afterwards `out` holds exactly its old paths
/// united with those of `src`.
fn add_unique_paths(out: &mut Vec<String>, src: &Vec<String>)
    requires
        distinct_views(old(out)@),
    ensures
        distinct_views(final(out)@),
        forall|p: Seq<char>|
            #[trigger] seq_has_path(final(out)@, p) <==> seq_has_path(old(out)@, p)
                || seq_has_path(src@, p),
{
    let mut j: usize = 0;
    while j < src.len()
        invariant
            0 <= j <= src@.len(),
            distinct_views(out@),
            forall|p: Seq<char>|
                #[trigger] seq_has_path(out@, p) <==> seq_has_path(old(out)@, p) || seq_has_path(
                    src@.take(j as int),
                    p,
                ),
        decreases src@.len() - j,
    {
        let ghost prev = out@;
        if !vec_has_string(out, &src[j]) {
            out.push(src[j].clone());
            proof {
                lemma_has_path_push(prev, out@[out@.len() - 1], src@[j as int]@);
            }
        }
        proof {
            assert(src@.take(j + 1) == src@.take(j as int).push(src@[j as int]));
            lemma_has_path_take_push(src@, j as int);
        }
        j = j + 1;
    }
    proof {
        assert(src@.take(src@.len() as int) == src@);
    }
}

/// Pushing `x` onto `v` adds exactly the path `x` reads as.
proof fn lemma_has_path_push(v: Seq<String>, x: String, xp: Seq<char>)
    requires
        x@ == xp,
    ensures
        forall|p: Seq<char>|
            #[trigger] seq_has_path(v.push(x), p) <==> seq_has_path(v, p) || p == xp,
{
    assert forall|p: Seq<char>|
        #[trigger] seq_has_path(v.push(x), p) <==> seq_has_path(v, p) || p == xp by {
        if seq_has_path(v.push(x), p) {
            let k = choose|k: int| 0 <= k < v.push(x).len() && (#[trigger] v.push(x)[k])@ == p;
            if k < v.len() {
                assert(v[k]@ == p);
            } else {
                assert(v.push(x)[k] == x);
            }
        }
        if seq_has_path(v, p) {
            let k = choose|k: int| 0 <= k < v.len() && (#[trigger] v[k])@ == p;
            assert(v.push(x)[k]@ == p);
        }
        if p == xp {
            assert(v.push(x)[v.len() as int]@ == p);
        }
    }
}

/// Extending a prefix of `src` by one element adds exactly that element's
/// path to what the prefix holds.
proof fn lemma_has_path_take_push(src: Seq<String>, j: int)
    requires
        0 <= j < src.len(),
    ensures
        forall|p: Seq<char>|
            #[trigger] seq_has_path(src.take(j + 1), p) <==> seq_has_path(src.take(j), p)
                || p == src[j]@,
{
    assert(src.take(j + 1) =~= src.take(j).push(src[j]));
    lemma_has_path_push(src.take(j), src[j], src[j]@);
}

} // verus!
