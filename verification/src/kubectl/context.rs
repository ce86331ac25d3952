//! Kubernetes contexts and the environment they point at.
use vstd::prelude::*;
use crate::text::{ascii_lower, ascii_upper, ascii_upper_char, contains, is_ascii, lowercase, occurs_at, opt_view, owned, str_contains, str_eq, to_lowercase};

verus! {

/// Kubernetes environment type detected from a context name.
#[derive(Debug, Clone, Copy, PartialEq, Eq, Structural)]
pub enum EnvironmentType {
    Development,
    Staging,
    Production,
    Unknown,
}

/// Environment of a context whose name is given in lower case.
pub open spec fn environment_of(l: Seq<char>) -> EnvironmentType {
    if contains(l, "prod"@) || contains(l, "production"@) {
        EnvironmentType::Production
    } else if contains(l, "stag"@) || contains(l, "staging"@) {
        EnvironmentType::Staging
    } else if contains(l, "dev"@) || contains(l, "development"@) {
        EnvironmentType::Development
    } else {
        EnvironmentType::Unknown
    }
}

/// The label of an environment type.
pub open spec fn environment_label(e: EnvironmentType) -> Seq<char> {
    match e {
        EnvironmentType::Development => "development"@,
        EnvironmentType::Staging => "staging"@,
        EnvironmentType::Production => "production"@,
        EnvironmentType::Unknown => "unknown"@,
    }
}

impl EnvironmentType {
    /// Detects the environment from a context name given in lower case.
    pub fn from_lowered_name(name_lower: &str) -> (r: Self)
        ensures
            r == environment_of(name_lower@),
    {
        let l = name_lower;
        if str_contains(l, "prod") || str_contains(l, "production") {
            EnvironmentType::Production
        } else if str_contains(l, "stag") || str_contains(l, "staging") {
            EnvironmentType::Staging
        } else if str_contains(l, "dev") || str_contains(l, "development") {
            EnvironmentType::Development
        } else {
            EnvironmentType::Unknown
        }
    }

    /// Detects the environment from a context name, ignoring case.
    pub fn from_context_name(name: &str) -> (r: Self)
        ensures
            r == environment_of(lowercase(name@)),
            is_ascii(name@) ==> r == environment_of(ascii_lower(name@)),
    {
        let l = to_lowercase(name);
        Self::from_lowered_name(l.as_str())
    }

    /// Label for display.
    pub fn as_str(&self) -> (r: &'static str)
        ensures
            r@ == environment_label(*self),
    {
        match self {
            EnvironmentType::Development => "development",
            EnvironmentType::Staging => "staging",
            EnvironmentType::Production => "production",
            EnvironmentType::Unknown => "unknown",
        }
    }
}

/// Lower-casing an ASCII name's upper-case form gives its lower-case form.
pub proof fn lemma_ascii_lower_of_upper(s: Seq<char>)
    requires
        is_ascii(s),
    ensures
        is_ascii(ascii_upper(s)),
        ascii_lower(ascii_upper(s)) == ascii_lower(s),
{
    assert forall|i: int| 0 <= i < s.len() implies (#[trigger] ascii_upper(s)[i] as u32) < 128 by {
        let c = s[i];
        assert((c as u32) < 128);
    }
    assert forall|i: int| 0 <= i < s.len() implies #[trigger] ascii_lower(ascii_upper(s))[i] == ascii_lower(s)[i] by {
        let c = s[i];
        assert(ascii_upper(s)[i] == ascii_upper_char(c));
    }
    assert(ascii_lower(ascii_upper(s)) =~= ascii_lower(s));
}

/// Environment detection ignores case: an ASCII context name and the same
/// name in upper case point at the same environment; and a name holding
/// `prod` in any case is production, whatever else it holds.
pub proof fn law_environment_ignores_case(name: Seq<char>)
    requires
        is_ascii(name),
    ensures
        is_ascii(ascii_upper(name)),
        environment_of(ascii_lower(ascii_upper(name))) == environment_of(ascii_lower(name)),
        contains(ascii_lower(name), "prod"@) ==> environment_of(ascii_lower(name)) == EnvironmentType::Production,
{
    lemma_ascii_lower_of_upper(name);
}

/// A word of lower-case letters is ASCII and its own lower-case form.
proof fn lemma_lower_word(s: Seq<char>)
    requires
        forall|i: int| 0 <= i < s.len() ==> 'a' <= #[trigger] s[i] <= 'z',
    ensures
        is_ascii(s),
        ascii_lower(s) == s,
{
    assert(ascii_lower(s) =~= s);
}

/// `needle` does not occur in `hay` when no two neighbouring characters of
/// `hay` match its first two.
proof fn lemma_absent(hay: Seq<char>, needle: Seq<char>)
    requires
        needle.len() >= 2,
        forall|i: int| 0 <= i < hay.len() - 1 ==> !(#[trigger] hay[i] == needle[0] && hay[i + 1] == needle[1]),
    ensures
        !contains(hay, needle),
{
    assert forall|i: int| !occurs_at(hay, needle, i) by {
        if occurs_at(hay, needle, i) {
            assert(hay.subrange(i, i + needle.len())[0] == hay[i]);
            assert(hay.subrange(i, i + needle.len())[1] == hay[i + 1]);
        }
    }
}

/// Each label is detected as its own environment.
pub proof fn law_label_round_trip(e: EnvironmentType)
    ensures
        is_ascii(environment_label(e)),
        environment_of(ascii_lower(environment_label(e))) == e,
{
    reveal_strlit("development");
    reveal_strlit("staging");
    reveal_strlit("production");
    reveal_strlit("unknown");
    reveal_strlit("prod");
    reveal_strlit("stag");
    reveal_strlit("dev");
    reveal_strlit("production");
    reveal_strlit("staging");
    reveal_strlit("development");
    let l = environment_label(e);
    assert forall|i: int| 0 <= i < l.len() implies 'a' <= #[trigger] l[i] <= 'z' by {
        assert(i == 0 || i == 1 || i == 2 || i == 3 || i == 4 || i == 5 || i == 6 || i == 7 || i == 8 || i == 9
            || i == 10);
    }
    lemma_lower_word(l);
    match e {
        EnvironmentType::Production => {
            assert(l.subrange(0, 4) =~= "prod"@);
            assert(occurs_at(l, "prod"@, 0));
        },
        EnvironmentType::Staging => {
            assert forall|i: int| 0 <= i < l.len() - 1 implies !(#[trigger] l[i] == 'p' && l[i + 1] == 'r') by {
                assert(i == 0 || i == 1 || i == 2 || i == 3 || i == 4 || i == 5);
            }
            lemma_absent(l, "prod"@);
            lemma_absent(l, "production"@);
            assert(l.subrange(0, 4) =~= "stag"@);
            assert(occurs_at(l, "stag"@, 0));
        },
        EnvironmentType::Development => {
            assert forall|i: int| 0 <= i < l.len() - 1 implies !(#[trigger] l[i] == 'p' && l[i + 1] == 'r') by {
                assert(i == 0 || i == 1 || i == 2 || i == 3 || i == 4 || i == 5 || i == 6 || i == 7 || i == 8 || i == 9);
            }
            assert forall|i: int| 0 <= i < l.len() - 1 implies !(#[trigger] l[i] == 's' && l[i + 1] == 't') by {
                assert(i == 0 || i == 1 || i == 2 || i == 3 || i == 4 || i == 5 || i == 6 || i == 7 || i == 8 || i == 9);
            }
            lemma_absent(l, "prod"@);
            lemma_absent(l, "production"@);
            lemma_absent(l, "stag"@);
            lemma_absent(l, "staging"@);
            assert(l.subrange(0, 3) =~= "dev"@);
            assert(occurs_at(l, "dev"@, 0));
        },
        EnvironmentType::Unknown => {
            assert forall|i: int| 0 <= i < l.len() - 1 implies !(#[trigger] l[i] == 'p' && l[i + 1] == 'r') by {
                assert(i == 0 || i == 1 || i == 2 || i == 3 || i == 4 || i == 5);
            }
            assert forall|i: int| 0 <= i < l.len() - 1 implies !(#[trigger] l[i] == 's' && l[i + 1] == 't') by {
                assert(i == 0 || i == 1 || i == 2 || i == 3 || i == 4 || i == 5);
            }
            assert forall|i: int| 0 <= i < l.len() - 1 implies !(#[trigger] l[i] == 'd' && l[i + 1] == 'e') by {
                assert(i == 0 || i == 1 || i == 2 || i == 3 || i == 4 || i == 5);
            }
            lemma_absent(l, "prod"@);
            lemma_absent(l, "production"@);
            lemma_absent(l, "stag"@);
            lemma_absent(l, "staging"@);
            lemma_absent(l, "dev"@);
            lemma_absent(l, "development"@);
        },
    }
}

/// A kubectl context read from a kubeconfig.
#[derive(Debug, Clone)]
pub struct KubectlContext {
    pub name: String,
    pub cluster: String,
    pub namespace: Option<String>,
    pub user: String,
    pub environment_type: EnvironmentType,
}

/// The namespace a context works in: its own, else `default`.
pub open spec fn effective_namespace_of(ns: Option<String>) -> Seq<char> {
    match ns {
        Some(n) => n@,
        None => "default"@,
    }
}

impl KubectlContext {
    /// A new context; the environment type is detected from the name.
    pub fn new(name: String, cluster: String, namespace: Option<String>, user: String) -> (r: Self)
        ensures
            r.name == name,
            r.cluster == cluster,
            r.namespace == namespace,
            r.user == user,
            r.environment_type == environment_of(lowercase(name@)),
    {
        let environment_type = EnvironmentType::from_context_name(name.as_str());
        KubectlContext { name, cluster, namespace, user, environment_type }
    }

    /// The namespace commands run in (`default` when none is set).
    pub fn effective_namespace(&self) -> (r: &str)
        ensures
            r@ == effective_namespace_of(self.namespace),
    {
        match &self.namespace {
            Some(ns) => ns.as_str(),
            None => "default",
        }
    }
}

/// The settings of a context entry of a kubeconfig file.
#[derive(Debug, Clone)]
pub struct KubeContextEntry {
    pub cluster: Option<String>,
    pub user: Option<String>,
    pub namespace: Option<String>,
}

/// A named context of a kubeconfig file.
#[derive(Debug, Clone)]
pub struct NamedKubeContext {
    pub name: Option<String>,
    pub context: Option<KubeContextEntry>,
}

/// What a kubeconfig file says about contexts: the current one and the
/// list (absent when the file has none).
#[derive(Debug, Clone)]
pub struct Kubeconfig {
    pub current_context: Option<String>,
    pub contexts: Option<Vec<NamedKubeContext>>,
}

/// Why a kubeconfig file gives no usable current context.
#[derive(Debug, Clone, PartialEq, Eq)]
pub enum KubeconfigError {
    /// No `current-context` is set.
    NoCurrentContext,
    /// The file lists no contexts.
    NoContexts,
    /// The current context is not among the contexts.
    ContextNotFound(String),
    /// The current context names no cluster.
    NoCluster,
    /// The current context names no user.
    NoUser,
}

/// The first context named `name`.
pub open spec fn context_named(cs: Seq<NamedKubeContext>, name: Seq<char>) -> Option<NamedKubeContext>
    decreases cs.len(),
{
    if cs.len() == 0 {
        None
    } else if opt_view(cs[0].name) == Some(name) {
        Some(cs[0])
    } else {
        context_named(cs.drop_first(), name)
    }
}

/// The current context's entry as (cluster, user, namespace), or the
/// reason there is none, as plain values.
pub open spec fn current_entry(k: Kubeconfig) -> Result<(Seq<char>, Option<Seq<char>>, Option<Seq<char>>, Option<Seq<char>>), KubeconfigError> {
    match k.current_context {
        None => Err(KubeconfigError::NoCurrentContext),
        Some(name) => match k.contexts {
            None => Err(KubeconfigError::NoContexts),
            Some(cs) => match context_named(cs@, name@) {
                None => Err(KubeconfigError::ContextNotFound(name)),
                Some(c) => match c.context {
                    None => Err(KubeconfigError::NoCluster),
                    Some(e) => Ok((name@, opt_view(e.cluster), opt_view(e.user), opt_view(e.namespace))),
                },
            },
        },
    }
}

impl KubeconfigError {
    /// The message shown for this error.
    pub fn message(&self) -> (r: String)
        ensures
            r@ == (match self {
                KubeconfigError::NoCurrentContext => "No current-context set in kubeconfig"@,
                KubeconfigError::NoContexts => "No contexts found in kubeconfig"@,
                KubeconfigError::ContextNotFound(n) => "Current context '"@ + n@ + "' not found in contexts list"@,
                KubeconfigError::NoCluster => "No cluster specified in context"@,
                KubeconfigError::NoUser => "No user specified in context"@,
            }),
    {
        match self {
            KubeconfigError::NoCurrentContext => owned("No current-context set in kubeconfig"),
            KubeconfigError::NoContexts => owned("No contexts found in kubeconfig"),
            KubeconfigError::ContextNotFound(n) => {
                let mut m = owned("Current context '");
                m.append(n.as_str());
                m.append("' not found in contexts list");
                m
            },
            KubeconfigError::NoCluster => owned("No cluster specified in context"),
            KubeconfigError::NoUser => owned("No user specified in context"),
        }
    }
}

/// The first context of `cs` named `name`.
fn find_context<'a>(cs: &'a Vec<NamedKubeContext>, name: &str) -> (r: Option<&'a NamedKubeContext>)
    ensures
        match r {
            Some(c) => context_named(cs@, name@) == Some(*c),
            None => context_named(cs@, name@) is None,
        },
{
    let ghost all = cs@;
    let mut i: usize = 0;
    assert(all.skip(0) =~= all);
    while i < cs.len()
        invariant
            i <= cs@.len(),
            all == cs@,
            context_named(all, name@) == context_named(all.skip(i as int), name@),
        decreases cs.len() - i,
    {
        assert(all.skip(i as int)[0] == cs@[i as int]);
        assert(all.skip(i as int).drop_first() =~= all.skip(i + 1));
        let matches = match &cs[i].name {
            Some(n) => str_eq(n.as_str(), name),
            None => false,
        };
        if matches {
            return Some(&cs[i]);
        }
        i = i + 1;
    }
    assert(all.skip(i as int).len() == 0);
    None
}

impl KubectlContext {
    /// The current context of a kubeconfig file: its name, cluster, user
    /// and namespace, with the environment read from its name; an error
    /// when no current context is set, no contexts are listed, the current
    /// one is not among them, or it names no cluster or no user.
    pub fn from_kubeconfig(k: &Kubeconfig) -> (r: Result<Self, KubeconfigError>)
        ensures
            match current_entry(*k) {
                Err(e) => r == Err::<Self, KubeconfigError>(e),
                Ok((name, cluster, user, ns)) => match (cluster, user) {
                    (None, _) => r == Err::<Self, KubeconfigError>(KubeconfigError::NoCluster),
                    (Some(_), None) => r == Err::<Self, KubeconfigError>(KubeconfigError::NoUser),
                    (Some(c), Some(u)) => r matches Ok(ctx) && ctx.name@ == name && ctx.cluster@ == c
                        && ctx.user@ == u && opt_view(ctx.namespace) == ns
                        && ctx.environment_type == environment_of(lowercase(name)),
                },
            },
    {
        let name = match &k.current_context {
            Some(n) => n,
            None => return Err(KubeconfigError::NoCurrentContext),
        };
        let cs = match &k.contexts {
            Some(cs) => cs,
            None => return Err(KubeconfigError::NoContexts),
        };
        let entry = match find_context(cs, name.as_str()) {
            Some(c) => c,
            None => return Err(KubeconfigError::ContextNotFound(name.clone())),
        };
        let e = match &entry.context {
            Some(e) => e,
            None => return Err(KubeconfigError::NoCluster),
        };
        let cluster = match &e.cluster {
            Some(c) => c.clone(),
            None => return Err(KubeconfigError::NoCluster),
        };
        let user = match &e.user {
            Some(u) => u.clone(),
            None => return Err(KubeconfigError::NoUser),
        };
        Ok(KubectlContext::new(name.clone(), cluster, e.namespace.clone(), user))
    }
}

/// The environment of a context follows the first word its lower-case
/// name holds: `prod` (or `production`) is production, `stag` (or
/// `staging`) staging, `dev` (or `development`) development; anything
/// else is unknown.
pub proof fn law_environment_words(l: Seq<char>)
    ensures
        contains(l, "prod"@) || contains(l, "production"@) ==> environment_of(l) == EnvironmentType::Production,
        !(contains(l, "prod"@) || contains(l, "production"@)) && (contains(l, "stag"@) || contains(l, "staging"@))
            ==> environment_of(l) == EnvironmentType::Staging,
        !(contains(l, "prod"@) || contains(l, "production"@) || contains(l, "stag"@) || contains(l, "staging"@))
            && (contains(l, "dev"@) || contains(l, "development"@)) ==> environment_of(l) == EnvironmentType::Development,
        !(contains(l, "prod"@) || contains(l, "production"@) || contains(l, "stag"@) || contains(l, "staging"@)
            || contains(l, "dev"@) || contains(l, "development"@)) ==> environment_of(l) == EnvironmentType::Unknown,
{
}

} // verus!
