//! Resolution: turn raw, partially specified profile definitions into a
//! validated store, inheriting unset override fields from the default and
//! failing fast on the first violation. All-or-nothing: no partial store is
//! ever produced.

use vstd::prelude::*;

use crate::error::ConfigStoreError;
use crate::model::{Backend, Config, Filter, ToggleKey};
use crate::store::{ConfigStore, DEFAULT_CONFIG_ID};

verus! {

/// Baseline character count forcing clipboard delivery, used when the
/// default definition leaves the field unset.
pub const DEFAULT_CLIPBOARD_THRESHOLD: usize = 100;

/// Baseline paste delay in milliseconds, used when the default definition
/// leaves the field unset.
pub const DEFAULT_PRE_PASTE_DELAY: usize = 0;

/// One profile definition as the external loader supplies it: a partial
/// record in which every field but `id` and `label` may be unset. For the
/// default definition the `id` field is ignored — the default always takes
/// the reserved id.
#[derive(Debug)]
pub struct RawProfile {
    pub id: i32,
    pub label: String,
    pub match_paths: Option<Vec<String>>,
    pub backend: Option<Backend>,
    pub clipboard_threshold: Option<i64>,
    pub pre_paste_delay: Option<i64>,
    pub toggle_key: Option<Option<ToggleKey>>,
    pub filter_title: Option<String>,
    pub filter_class: Option<String>,
    pub filter_exec: Option<String>,
}

/// Whether a raw numeric field is acceptable: unset, or set to a
/// non-negative value that fits the machine word.
pub open spec fn num_ok(v: Option<i64>) -> bool {
    match v {
        None => true,
        Some(x) => 0 <= x && x as int <= usize::MAX as int,
    }
}

/// The resolved value of a raw numeric field: the set value, or the
/// baseline when unset.
pub open spec fn num_val(v: Option<i64>, baseline: int) -> int {
    match v {
        None => baseline,
        Some(x) => x as int,
    }
}

/// The first violation in the raw default definition, if any: an empty
/// label or a bad numeric field (`InvalidField`), then any present filter
/// component (`InvalidFilter` — the default must be unfiltered), in that
/// order.
pub open spec fn raw_default_err(raw: RawProfile) -> Option<ConfigStoreError> {
    if raw.label@.len() == 0 {
        Some(ConfigStoreError::InvalidField { label: raw.label })
    } else if !num_ok(raw.clipboard_threshold) {
        Some(ConfigStoreError::InvalidField { label: raw.label })
    } else if !num_ok(raw.pre_paste_delay) {
        Some(ConfigStoreError::InvalidField { label: raw.label })
    } else if raw.filter_title is Some || raw.filter_class is Some || raw.filter_exec is Some {
        Some(ConfigStoreError::InvalidFilter { label: raw.label })
    } else {
        None
    }
}

/// The first violation within one raw override definition, if any: an empty
/// label, a negative id, or a bad numeric field (`InvalidField`), then a
/// filter with no present component (`InvalidFilter`), in that order.
pub open spec fn raw_override_err(raw: RawProfile) -> Option<ConfigStoreError> {
    if raw.label@.len() == 0 {
        Some(ConfigStoreError::InvalidField { label: raw.label })
    } else if raw.id < 0 {
        Some(ConfigStoreError::InvalidField { label: raw.label })
    } else if !num_ok(raw.clipboard_threshold) {
        Some(ConfigStoreError::InvalidField { label: raw.label })
    } else if !num_ok(raw.pre_paste_delay) {
        Some(ConfigStoreError::InvalidField { label: raw.label })
    } else if raw.filter_title is None && raw.filter_class is None && raw.filter_exec is None {
        Some(ConfigStoreError::InvalidFilter { label: raw.label })
    } else {
        None
    }
}

/// The first violation among the raw overrides from position `k` on,
/// processed in load order: each override's own field violations first, then
/// an id already taken by the default or an earlier override
/// (`DuplicateId`), then a label already taken (`InvalidField`).
pub open spec fn overrides_err_from(
    rs: Seq<RawProfile>,
    dlabel: Seq<char>,
    k: int,
) -> Option<ConfigStoreError>
    decreases rs.len() - k,
{
    if k < 0 || k >= rs.len() {
        None
    } else if raw_override_err(rs[k]) is Some {
        raw_override_err(rs[k])
    } else if rs[k].id == DEFAULT_CONFIG_ID || exists|j: int|
        0 <= j < k && (#[trigger] rs[j]).id == rs[k].id {
        Some(ConfigStoreError::DuplicateId { id: rs[k].id })
    } else if rs[k].label@ == dlabel || exists|j: int|
        0 <= j < k && (#[trigger] rs[j]).label@ == rs[k].label@ {
        Some(ConfigStoreError::InvalidField { label: rs[k].label })
    } else {
        overrides_err_from(rs, dlabel, k + 1)
    }
}

/// The first violation in the whole raw-definition set, if any: a missing
/// default, then the default's own violations, then the overrides' in load
/// order. `None` means resolution succeeds.
pub open spec fn spec_resolve_err(
    d: Option<RawProfile>,
    rs: Seq<RawProfile>,
) -> Option<ConfigStoreError> {
    match d {
        None => Some(ConfigStoreError::MissingDefault),
        Some(draw) => match raw_default_err(draw) {
            Some(e) => Some(e),
            None => overrides_err_from(rs, draw.label@, 0),
        },
    }
}

/// How the resolved default relates to its raw definition: the reserved id,
/// the raw label, and each unset field replaced by its baseline.
pub open spec fn resolved_default(raw: RawProfile, c: Config) -> bool {
    &&& c.id == DEFAULT_CONFIG_ID
    &&& c.label == raw.label
    &&& c.match_paths@ == (match raw.match_paths {
        Some(v) => v@,
        None => Seq::<String>::empty(),
    })
    &&& c.backend == (match raw.backend {
        Some(b) => b,
        None => Backend::Auto,
    })
    &&& c.clipboard_threshold as int == num_val(
        raw.clipboard_threshold,
        DEFAULT_CLIPBOARD_THRESHOLD as int,
    )
    &&& c.pre_paste_delay as int == num_val(raw.pre_paste_delay, DEFAULT_PRE_PASTE_DELAY as int)
    &&& c.toggle_key == (match raw.toggle_key {
        Some(t) => t,
        None => None::<ToggleKey>,
    })
    &&& c.filter is None
}

/// How a resolved override relates to its raw definition and the resolved
/// default it inherits from: each unset field copies the default's resolved
/// value, and the filter carries exactly the raw components.
pub open spec fn resolved_override(raw: RawProfile, parent: Config, c: Config) -> bool {
    &&& c.id == raw.id
    &&& c.label == raw.label
    &&& c.match_paths@ == (match raw.match_paths {
        Some(v) => v@,
        None => parent.match_paths@,
    })
    &&& c.backend == (match raw.backend {
        Some(b) => b,
        None => parent.backend,
    })
    &&& c.clipboard_threshold as int == num_val(
        raw.clipboard_threshold,
        parent.clipboard_threshold as int,
    )
    &&& c.pre_paste_delay as int == num_val(raw.pre_paste_delay, parent.pre_paste_delay as int)
    &&& c.toggle_key == (match raw.toggle_key {
        Some(t) => t,
        None => parent.toggle_key,
    })
    &&& c.filter == Some(
        Filter {
            title: raw.filter_title,
            class: raw.filter_class,
            exec_path: raw.filter_exec,
        },
    )
}

/// How a successful resolution relates the store to the raw definitions:
/// the default resolves the raw default, and the overrides resolve the raw
/// overrides pointwise, in load order.
pub open spec fn store_resolves(draw: RawProfile, rs: Seq<RawProfile>, s: ConfigStore) -> bool {
    &&& resolved_default(draw, s.default)
    &&& s.customs@.len() == rs.len()
    &&& forall|i: int|
        0 <= i < rs.len() ==> resolved_override(rs[i], s.default, #[trigger] s.customs@[i])
}

fn clone_opt_string(o: &Option<String>) -> (r: Option<String>)
    ensures
        r == *o,
{
    match o {
        None => None,
        Some(s) => Some(s.clone()),
    }
}

fn clone_string_vec(v: &Vec<String>) -> (r: Vec<String>)
    ensures
        r@ == v@,
{
    let mut r: Vec<String> = Vec::new();
    let mut i: usize = 0;
    while i < v.len()
        invariant
            0 <= i <= v@.len(),
            r@.len() == i,
            forall|k: int| 0 <= k < i ==> #[trigger] r@[k] == v@[k],
        decreases v@.len() - i,
    {
        r.push(v[i].clone());
        i = i + 1;
    }
    proof {
        assert(r@ =~= v@);
    }
    r
}

/// Validate and resolve one raw numeric field against its baseline.
fn num_field(v: Option<i64>, baseline: usize) -> (r: Option<usize>)
    ensures
        match r {
            Some(u) => num_ok(v) && u as int == num_val(v, baseline as int),
            None => !num_ok(v),
        },
{
    match v {
        None => Some(baseline),
        Some(x) => {
            if x < 0 {
                None
            } else if (x as u64) > (usize::MAX as u64) {
                None
            } else {
                Some(x as usize)
            }
        },
    }
}

/// Resolve the raw default definition to the default profile, applying
/// baselines to unset fields and rejecting any present filter component.
fn build_default(raw: &RawProfile) -> (r: Result<Config, ConfigStoreError>)
    ensures
        match r {
            Ok(c) => raw_default_err(*raw) is None && resolved_default(*raw, c) && c.wf(),
            Err(e) => raw_default_err(*raw) == Some(e),
        },
{
    if raw.label.as_str().is_empty() {
        return Err(ConfigStoreError::InvalidField { label: raw.label.clone() });
    }
    let clipboard_threshold = match num_field(
        raw.clipboard_threshold,
        DEFAULT_CLIPBOARD_THRESHOLD,
    ) {
        Some(u) => u,
        None => {
            return Err(ConfigStoreError::InvalidField { label: raw.label.clone() });
        },
    };
    let pre_paste_delay = match num_field(raw.pre_paste_delay, DEFAULT_PRE_PASTE_DELAY) {
        Some(u) => u,
        None => {
            return Err(ConfigStoreError::InvalidField { label: raw.label.clone() });
        },
    };
    if raw.filter_title.is_some() || raw.filter_class.is_some() || raw.filter_exec.is_some() {
        return Err(ConfigStoreError::InvalidFilter { label: raw.label.clone() });
    }
    Ok(
        Config {
            id: DEFAULT_CONFIG_ID,
            label: raw.label.clone(),
            match_paths: match &raw.match_paths {
                Some(v) => clone_string_vec(v),
                None => Vec::new(),
            },
            backend: match raw.backend {
                Some(b) => b,
                None => Backend::Auto,
            },
            clipboard_threshold,
            pre_paste_delay,
            toggle_key: match raw.toggle_key {
                Some(t) => t,
                None => None,
            },
            filter: None,
        },
    )
}

/// Resolve one raw override against the resolved default, inheriting every
/// unset field and rejecting an absent filter.
fn build_override(raw: &RawProfile, parent: &Config) -> (r: Result<Config, ConfigStoreError>)
    ensures
        match r {
            Ok(c) => raw_override_err(*raw) is None && resolved_override(*raw, *parent, c)
                && c.wf() && c.filter is Some,
            Err(e) => raw_override_err(*raw) == Some(e),
        },
{
    if raw.label.as_str().is_empty() {
        return Err(ConfigStoreError::InvalidField { label: raw.label.clone() });
    }
    if raw.id < 0 {
        return Err(ConfigStoreError::InvalidField { label: raw.label.clone() });
    }
    let clipboard_threshold = match num_field(raw.clipboard_threshold, parent.clipboard_threshold) {
        Some(u) => u,
        None => {
            return Err(ConfigStoreError::InvalidField { label: raw.label.clone() });
        },
    };
    let pre_paste_delay = match num_field(raw.pre_paste_delay, parent.pre_paste_delay) {
        Some(u) => u,
        None => {
            return Err(ConfigStoreError::InvalidField { label: raw.label.clone() });
        },
    };
    if raw.filter_title.is_none() && raw.filter_class.is_none() && raw.filter_exec.is_none() {
        return Err(ConfigStoreError::InvalidFilter { label: raw.label.clone() });
    }
    let filter = Filter {
        title: clone_opt_string(&raw.filter_title),
        class: clone_opt_string(&raw.filter_class),
        exec_path: clone_opt_string(&raw.filter_exec),
    };
    Ok(
        Config {
            id: raw.id,
            label: raw.label.clone(),
            match_paths: match &raw.match_paths {
                Some(v) => clone_string_vec(v),
                None => clone_string_vec(&parent.match_paths),
            },
            backend: match raw.backend {
                Some(b) => b,
                None => parent.backend,
            },
            clipboard_threshold,
            pre_paste_delay,
            toggle_key: match raw.toggle_key {
                Some(t) => t,
                None => parent.toggle_key,
            },
            filter: Some(filter),
        },
    )
}

/// Build a store from one raw default definition and the raw overrides in
/// load order. Unset override fields inherit the default's resolved value;
/// validation fails fast with the first violation, and no partial store is
/// ever returned. On success the store is internally consistent and every
/// later query on it is total.
pub fn resolve(default_raw: Option<RawProfile>, override_raws: Vec<RawProfile>) -> (r: Result<
    ConfigStore,
    ConfigStoreError,
>)
    ensures
        match r {
            Ok(s) => {
                &&& spec_resolve_err(default_raw, override_raws@) is None
                &&& (default_raw matches Some(draw) && store_resolves(draw, override_raws@, s))
                &&& s.wf()
            },
            Err(e) => spec_resolve_err(default_raw, override_raws@) == Some(e),
        },
{
    let draw = match &default_raw {
        Some(d) => d,
        None => {
            return Err(ConfigStoreError::MissingDefault);
        },
    };
    let default_cfg = match build_default(draw) {
        Ok(c) => c,
        Err(e) => {
            return Err(e);
        },
    };
    let ghost rs = override_raws@;
    let ghost dlabel = draw.label@;
    let mut customs: Vec<Config> = Vec::new();
    let mut k: usize = 0;
    while k < override_raws.len()
        invariant
            rs == override_raws@,
            (default_raw matches Some(dr) && dr == *draw),
            dlabel == draw.label@,
            0 <= k <= rs.len(),
            customs@.len() == k,
            raw_default_err(*draw) is None,
            resolved_default(*draw, default_cfg),
            default_cfg.wf(),
            default_cfg.filter is None,
            default_cfg.id == DEFAULT_CONFIG_ID,
            default_cfg.label == draw.label,
            forall|i: int|
                0 <= i < k ==> resolved_override(rs[i], default_cfg, #[trigger] customs@[i]),
            forall|i: int| 0 <= i < k ==> (#[trigger] customs@[i]).wf(),
            forall|i: int| 0 <= i < k ==> (#[trigger] customs@[i]).filter is Some,
            forall|i: int| 0 <= i < k ==> (#[trigger] rs[i]).id == customs@[i].id,
            forall|i: int| 0 <= i < k ==> (#[trigger] rs[i]).label@ == customs@[i].label@,
            forall|i: int| 0 <= i < k ==> (#[trigger] rs[i]).id != DEFAULT_CONFIG_ID,
            forall|i: int, j: int|
                0 <= i < j < k ==> (#[trigger] rs[i]).id != (#[trigger] rs[j]).id,
            forall|i: int| 0 <= i < k ==> (#[trigger] rs[i]).label@ != dlabel,
            forall|i: int, j: int|
                0 <= i < j < k ==> (#[trigger] rs[i]).label@ != (#[trigger] rs[j]).label@,
            overrides_err_from(rs, dlabel, 0) == overrides_err_from(rs, dlabel, k as int),
        decreases rs.len() - k,
    {
        let raw = &override_raws[k];
        let c = match build_override(raw, &default_cfg) {
            Ok(c) => c,
            Err(e) => {
                proof {
                    assert(overrides_err_from(rs, dlabel, k as int) == Some(e));
                }
                return Err(e);
            },
        };
        if raw.id == DEFAULT_CONFIG_ID {
            proof {
                assert(overrides_err_from(rs, dlabel, k as int) == Some(
                    ConfigStoreError::DuplicateId { id: rs[k as int].id },
                ));
            }
            return Err(ConfigStoreError::DuplicateId { id: raw.id });
        }
        let mut t: usize = 0;
        while t < customs.len()
            invariant
                rs == override_raws@,
                (default_raw matches Some(dr) && dr == *draw),
                dlabel == draw.label@,
                raw_default_err(*draw) is None,
                0 <= t <= customs@.len(),
                customs@.len() == k,
                k < rs.len(),
                *raw == rs[k as int],
                raw_override_err(rs[k as int]) is None,
                rs[k as int].id != DEFAULT_CONFIG_ID,
                overrides_err_from(rs, dlabel, 0) == overrides_err_from(rs, dlabel, k as int),
                forall|i: int| 0 <= i < k ==> (#[trigger] rs[i]).id == customs@[i].id,
                forall|i: int| 0 <= i < t ==> (#[trigger] customs@[i]).id != rs[k as int].id,
            decreases customs@.len() - t,
        {
            if customs[t].id == raw.id {
                proof {
                    assert(rs[t as int].id == rs[k as int].id);
                    assert(0 <= t < k && rs[t as int].id == rs[k as int].id);
                    assert(overrides_err_from(rs, dlabel, k as int) == Some(
                        ConfigStoreError::DuplicateId { id: rs[k as int].id },
                    ));
                }
                return Err(ConfigStoreError::DuplicateId { id: raw.id });
            }
            t = t + 1;
        }
        proof {
            assert(forall|j: int| 0 <= j < k ==> (#[trigger] rs[j]).id != rs[k as int].id);
        }
        if (&raw.label).eq(&draw.label) {
            proof {
                assert(overrides_err_from(rs, dlabel, k as int) == Some(
                    ConfigStoreError::InvalidField { label: rs[k as int].label },
                ));
            }
            return Err(ConfigStoreError::InvalidField { label: raw.label.clone() });
        }
        let mut t: usize = 0;
        while t < customs.len()
            invariant
                rs == override_raws@,
                (default_raw matches Some(dr) && dr == *draw),
                dlabel == draw.label@,
                raw_default_err(*draw) is None,
                0 <= t <= customs@.len(),
                customs@.len() == k,
                k < rs.len(),
                *raw == rs[k as int],
                raw_override_err(rs[k as int]) is None,
                rs[k as int].id != DEFAULT_CONFIG_ID,
                forall|j: int| 0 <= j < k ==> (#[trigger] rs[j]).id != rs[k as int].id,
                overrides_err_from(rs, dlabel, 0) == overrides_err_from(rs, dlabel, k as int),
                forall|i: int| 0 <= i < k ==> (#[trigger] rs[i]).label@ == customs@[i].label@,
                forall|i: int| 0 <= i < t ==> (#[trigger] customs@[i]).label@ != rs[k as int].label@,
            decreases customs@.len() - t,
        {
            if (&customs[t].label).eq(&raw.label) {
                proof {
                    assert(rs[t as int].label@ == rs[k as int].label@);
                    assert(0 <= t < k && rs[t as int].label@ == rs[k as int].label@);
                    assert(overrides_err_from(rs, dlabel, k as int) == Some(
                        ConfigStoreError::InvalidField { label: rs[k as int].label },
                    ));
                }
                return Err(ConfigStoreError::InvalidField { label: raw.label.clone() });
            }
            t = t + 1;
        }
        proof {
            assert(forall|j: int| 0 <= j < k ==> (#[trigger] rs[j]).label@ != rs[k as int].label@);
            assert(overrides_err_from(rs, dlabel, k as int) == overrides_err_from(
                rs,
                dlabel,
                k as int + 1,
            ));
        }
        customs.push(c);
        k = k + 1;
    }
    proof {
        assert(overrides_err_from(rs, dlabel, rs.len() as int) is None);
    }
    let s = ConfigStore { default: default_cfg, customs };
    proof {
        assert(s.wf());
        assert(store_resolves(*draw, rs, s));
    }
    Ok(s)
}

} // verus!
