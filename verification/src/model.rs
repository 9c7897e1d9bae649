//! The configuration data model: delivery backends, toggle keys, activation
//! filters, application snapshots, and fully resolved profiles.

use vstd::prelude::*;

verus! {

/// How expanded text is delivered to the focused application.
#[derive(Debug, Clone, Copy, PartialEq, Eq, Structural)]
pub enum Backend {
    Inject,
    Clipboard,
    Auto,
}

/// A modifier key that, double-pressed, toggles the tool on and off.
#[derive(Debug, Clone, Copy, PartialEq, Eq, Structural)]
pub enum ToggleKey {
    Ctrl,
    Meta,
    Alt,
    Shift,
    RightCtrl,
    RightAlt,
    RightShift,
    RightMeta,
    LeftCtrl,
    LeftAlt,
    LeftShift,
    LeftMeta,
}

/// A snapshot of the currently focused application, supplied by the caller
/// on every query. Each component may be unavailable on a given platform.
#[derive(Debug)]
pub struct AppProperties {
    pub title: Option<String>,
    pub class: Option<String>,
    pub exec_path: Option<String>,
}

/// An activation predicate over an [`AppProperties`] snapshot. A present
/// component must equal the corresponding snapshot component literally; an
/// absent component is "don't care". Present components are ANDed together.
#[derive(Debug)]
pub struct Filter {
    pub title: Option<String>,
    pub class: Option<String>,
    pub exec_path: Option<String>,
}

impl Filter {
    /// One filter component against one snapshot component: an absent filter
    /// component accepts anything; a present one requires a present, equal
    /// snapshot component.
    pub open spec fn spec_component_matches(f: Option<String>, c: Option<String>) -> bool {
        match f {
            None => true,
            Some(fs) => match c {
                None => false,
                Some(cs) => fs@ == cs@,
            },
        }
    }

    /// Whether this filter accepts the snapshot: every present component
    /// matches its snapshot counterpart.
    pub open spec fn spec_matches(self, app: AppProperties) -> bool {
        &&& Self::spec_component_matches(self.title, app.title)
        &&& Self::spec_component_matches(self.class, app.class)
        &&& Self::spec_component_matches(self.exec_path, app.exec_path)
    }

    /// The number of present components, 0 through 3. Used to rank matching
    /// overrides: more constrained filters win.
    pub open spec fn spec_specificity(self) -> int {
        (if self.title is Some { 1int } else { 0int })
        + (if self.class is Some { 1int } else { 0int })
        + (if self.exec_path is Some { 1int } else { 0int })
    }

    fn component_matches(f: &Option<String>, c: &Option<String>) -> (r: bool)
        ensures
            r == Self::spec_component_matches(*f, *c),
    {
        match f {
            None => true,
            Some(fs) => match c {
                None => false,
                Some(cs) => fs.eq(cs),
            },
        }
    }

    /// Evaluate this filter against an application snapshot.
    pub fn is_match(&self, app: &AppProperties) -> (r: bool)
        ensures
            r == self.spec_matches(*app),
    {
        Self::component_matches(&self.title, &app.title)
            && Self::component_matches(&self.class, &app.class)
            && Self::component_matches(&self.exec_path, &app.exec_path)
    }

    /// The number of present components of this filter.
    pub fn specificity(&self) -> (r: u32)
        ensures
            r as int == self.spec_specificity(),
            0 <= r <= 3,
    {
        let mut count: u32 = 0;
        if self.title.is_some() {
            count = count + 1;
        }
        if self.class.is_some() {
            count = count + 1;
        }
        if self.exec_path.is_some() {
            count = count + 1;
        }
        count
    }
}

/// One fully resolved configuration profile. Immutable once constructed by
/// resolution; owned by the store for its whole lifetime.
#[derive(Debug)]
pub struct Config {
    /// Unique within a store; the default profile holds the reserved id.
    pub id: i32,
    /// Human-readable name, non-empty and unique within a store.
    pub label: String,
    /// File paths contributing expansion rules for this profile.
    pub match_paths: Vec<String>,
    /// How expanded text is delivered.
    pub backend: Backend,
    /// Character count above which clipboard delivery is forced.
    pub clipboard_threshold: usize,
    /// Milliseconds to wait after a clipboard write before pasting.
    pub pre_paste_delay: usize,
    /// Optional key that toggles the tool when double-pressed.
    pub toggle_key: Option<ToggleKey>,
    /// Activation predicate; `None` marks the always-applicable default.
    pub filter: Option<Filter>,
}

impl Config {
    /// Whether this profile applies to the snapshot: a profile without a
    /// filter applies everywhere.
    pub open spec fn spec_is_match(self, app: AppProperties) -> bool {
        match self.filter {
            None => true,
            Some(f) => f.spec_matches(app),
        }
    }

    /// Specificity of this profile's filter; 0 for the default.
    pub open spec fn spec_specificity(self) -> int {
        match self.filter {
            None => 0int,
            Some(f) => f.spec_specificity(),
        }
    }

    /// Internal validity: a non-empty label, a non-negative id, and, where a
    /// filter is present, at least one present filter component.
    pub open spec fn wf(self) -> bool {
        &&& self.label@.len() > 0
        &&& self.id >= 0
        &&& match self.filter {
            None => true,
            Some(f) => f.spec_specificity() >= 1,
        }
    }

    /// Whether this profile applies to the given application snapshot.
    pub fn is_match(&self, app: &AppProperties) -> (r: bool)
        ensures
            r == self.spec_is_match(*app),
    {
        match &self.filter {
            None => true,
            Some(f) => f.is_match(app),
        }
    }

    /// The specificity of this profile's filter; 0 when there is none.
    pub fn specificity(&self) -> (r: u32)
        ensures
            r as int == self.spec_specificity(),
            0 <= r <= 3,
    {
        match &self.filter {
            None => 0,
            Some(f) => f.specificity(),
        }
    }

    /// The profile's identifier.
    pub fn id(&self) -> (r: i32)
        ensures
            r == self.id,
    {
        self.id
    }

    /// The profile's human-readable name.
    pub fn label(&self) -> (r: &str)
        ensures
            r@ == self.label@,
    {
        self.label.as_str()
    }

    /// The file paths contributing expansion rules for this profile.
    pub fn match_paths(&self) -> (r: &Vec<String>)
        ensures
            r@ == self.match_paths@,
    {
        &self.match_paths
    }

    /// The delivery backend.
    pub fn backend(&self) -> (r: Backend)
        ensures
            r == self.backend,
    {
        self.backend
    }

    /// Character count above which clipboard delivery is forced.
    pub fn clipboard_threshold(&self) -> (r: usize)
        ensures
            r == self.clipboard_threshold,
    {
        self.clipboard_threshold
    }

    /// Milliseconds to wait between clipboard write and paste.
    pub fn pre_paste_delay(&self) -> (r: usize)
        ensures
            r == self.pre_paste_delay,
    {
        self.pre_paste_delay
    }

    /// The key that toggles the tool when double-pressed, if any.
    pub fn toggle_key(&self) -> (r: Option<ToggleKey>)
        ensures
            r == self.toggle_key,
    {
        self.toggle_key
    }
}

} // verus!
