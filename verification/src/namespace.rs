//! Namespace resolution for the cluster backend.
//!
//! The namespace is resolved once, at backend construction, by precedence:
//! the current context's namespace from a local cluster-config file when
//! present and non-empty, then the downward-API environment variable, then
//! the downward-API mounted file, then the fixed default namespace.

use vstd::prelude::*;

verus! {

/// One named context of a local cluster-config file: its name and the
/// namespace it selects, if any.
pub struct ConfigContext {
    pub name: String,
    pub namespace: Option<String>,
}

/// The abstract value of a [`ConfigContext`].
#[verifier::ext_equal]
pub struct ContextView {
    pub name: Seq<char>,
    pub namespace: Option<Seq<char>>,
}

impl View for ConfigContext {
    type V = ContextView;

    open spec fn view(&self) -> ContextView {
        ContextView {
            name: self.name@,
            namespace: match self.namespace {
                Some(ref ns) => Some(ns@),
                None => None,
            },
        }
    }
}

/// What a local cluster-config file contributes: the name of the current
/// context, if one is set, and the named contexts it declares.
pub struct ClusterConfig {
    pub current_context: Option<String>,
    pub contexts: Vec<ConfigContext>,
}

/// The abstract value of a [`ClusterConfig`].
#[verifier::ext_equal]
pub struct ClusterConfigView {
    pub current_context: Option<Seq<char>>,
    pub contexts: Seq<ContextView>,
}

impl View for ClusterConfig {
    type V = ClusterConfigView;

    open spec fn view(&self) -> ClusterConfigView {
        ClusterConfigView {
            current_context: match self.current_context {
                Some(ref c) => Some(c@),
                None => None,
            },
            contexts: self.contexts.deep_view(),
        }
    }
}

impl DeepView for ConfigContext {
    type V = ContextView;

    open spec fn deep_view(&self) -> ContextView {
        self@
    }
}

/// The namespace of the first context named `current`, if any context of
/// that name exists, scanning from position `i`.
pub open spec fn first_context_from(
    contexts: Seq<ContextView>,
    current: Seq<char>,
    i: int,
) -> Option<Option<Seq<char>>>
    decreases contexts.len() - i when 0 <= i <= contexts.len()
{
    if i >= contexts.len() {
        None
    } else if contexts[i].name == current {
        Some(contexts[i].namespace)
    } else {
        first_context_from(contexts, current, i + 1)
    }
}

/// What the cluster-config file contributes to resolution: the namespace of
/// the current context, when that context exists and names a non-empty
/// namespace.
pub open spec fn spec_config_namespace(config: ClusterConfigView) -> Option<Seq<char>> {
    let current = match config.current_context {
        Some(c) => c,
        None => Seq::empty(),
    };
    match first_context_from(config.contexts, current, 0) {
        Some(Some(ns)) => if ns.len() > 0 {
            Some(ns)
        } else {
            None
        },
        Some(None) => None,
        None => None,
    }
}

/// The stated precedence: a non-empty cluster-config namespace first, then
/// the downward-API environment variable, then the downward-API file, then
/// the fixed default namespace.
pub open spec fn spec_resolve_namespace(
    config_ns: Option<Seq<char>>,
    env_ns: Option<Seq<char>>,
    file_ns: Option<Seq<char>>,
) -> Seq<char> {
    if config_ns matches Some(c) && c.len() > 0 {
        config_ns->Some_0
    } else if env_ns is Some {
        env_ns->Some_0
    } else if file_ns is Some {
        file_ns->Some_0
    } else {
        "default"@
    }
}

/// Looks up the namespace of the first context carrying the given name.
/// Returns `None` when no context of that name exists.
fn find_context_namespace(contexts: &Vec<ConfigContext>, current: &String) -> (r: Option<
    Option<String>,
>)
    ensures
        r.deep_view() == first_context_from(contexts.deep_view(), current@, 0),
{
    let ghost all = contexts.deep_view();
    let mut i: usize = 0;
    while i < contexts.len()
        invariant
            i <= contexts.len(),
            all == contexts.deep_view(),
            all.len() == contexts@.len(),
            first_context_from(all, current@, 0) == first_context_from(all, current@, i as int),
        decreases contexts.len() - i,
    {
        if contexts[i].name == *current {
            return Some(contexts[i].namespace.clone());
        }
        i = i + 1;
    }
    None
}

/// Resolves the namespace from the values the surrounding process read:
/// the parsed cluster-config file if one was readable, the downward-API
/// environment variable if set, and the downward-API file content if the
/// file exists. Follows the stated precedence, falling back to the fixed
/// default namespace.
pub fn current_namespace(
    config: &Option<ClusterConfig>,
    env_namespace: &Option<String>,
    file_namespace: &Option<String>,
) -> (r: String)
    ensures
        r@ == spec_resolve_namespace(
            match *config {
                Some(ref c) => spec_config_namespace(c@),
                None => None,
            },
            env_namespace.deep_view(),
            file_namespace.deep_view(),
        ),
{
    let config_ns: Option<String> = match config {
        Some(c) => {
            let empty_name = String::new();
            let current: &String = match &c.current_context {
                Some(name) => name,
                None => &empty_name,
            };
            match find_context_namespace(&c.contexts, current) {
                Some(Some(ns)) => if ns.as_str().is_empty() {
                    None
                } else {
                    Some(ns)
                },
                Some(None) => None,
                None => None,
            }
        },
        None => None,
    };
    match config_ns {
        Some(ns) => ns,
        None => match env_namespace {
            Some(ns) => ns.clone(),
            None => match file_namespace {
                Some(ns) => ns.clone(),
                None => String::from_str("default"),
            },
        },
    }
}

} // verus!
