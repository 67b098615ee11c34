//! Resolution of a node's name, master URI, hostname and namespace.
//!
//! Each value is taken from the first source that provides it: a
//! command-line remapping token, then the environment, then a default.
//! The surrounding process hands the raw command-line tokens and the
//! relevant environment variables in as plain values.

use crate::strutil::str_eq;
use vstd::prelude::*;
use vstd::string::StrSliceExecFns;

verus! {

/// The environment variables that argument resolution consults, each
/// `None` when unset.
pub struct EnvValues {
    pub ros_master_uri: Option<String>,
    pub ros_hostname: Option<String>,
    pub ros_ip: Option<String>,
    pub ros_namespace: Option<String>,
}

/// Whether `s` starts with `prefix`.
pub open spec fn spec_starts_with(s: Seq<char>, prefix: Seq<char>) -> bool {
    s.len() >= prefix.len() && s.subrange(0, prefix.len() as int) == prefix
}

/// Whether `s` starts with `prefix`.
pub fn str_starts_with(s: &str, prefix: &str) -> (r: bool)
    ensures
        r == spec_starts_with(s@, prefix@),
{
    let np = prefix.unicode_len();
    let ns = s.unicode_len();
    if ns < np {
        return false;
    }
    let mut i: usize = 0;
    while i < np
        invariant
            i <= np,
            np == prefix@.len(),
            np <= ns == s@.len(),
            forall|q: int| 0 <= q < i ==> s@[q] == prefix@[q],
        decreases np - i,
    {
        if s.get_char(i) != prefix.get_char(i) {
            return false;
        }
        i = i + 1;
    }
    proof {
        assert(s@.subrange(0, np as int) =~= prefix@);
    }
    true
}

/// The value of the first token that starts with `prefix`, with the
/// prefix stripped.
pub open spec fn spec_find_arg(args: Seq<String>, prefix: Seq<char>) -> Option<Seq<char>>
    decreases args.len(),
{
    if args.len() == 0 {
        None
    } else if spec_starts_with(args[0]@, prefix) {
        Some(args[0]@.subrange(prefix.len() as int, args[0]@.len() as int))
    } else {
        spec_find_arg(args.skip(1), prefix)
    }
}

/// Finds the first command-line token with the given remapping prefix and
/// returns what follows it.
pub fn find_arg_with_prefix(args: &Vec<String>, prefix: &str) -> (r: Option<String>)
    ensures
        match r {
            Some(v) => spec_find_arg(args@, prefix@) == Some(v@),
            None => spec_find_arg(args@, prefix@) is None,
        },
{
    proof {
        assert(args@.skip(0) =~= args@);
    }
    let n = args.len();
    let mut i: usize = 0;
    while i < n
        invariant
            i <= n,
            n == args@.len(),
            spec_find_arg(args@, prefix@) == spec_find_arg(args@.skip(i as int), prefix@),
        decreases n - i,
    {
        proof {
            assert(args@.skip(i as int)[0] == args@[i as int]);
        }
        let arg = &args[i];
        if str_starts_with(arg.as_str(), prefix) {
            let np = prefix.unicode_len();
            let na = arg.as_str().unicode_len();
            let value = arg.as_str().substring_char(np, na);
            return Some(String::from_str(value));
        }
        proof {
            assert(args@.skip(i as int).skip(1) =~= args@.skip(i + 1));
        }
        i = i + 1;
    }
    proof {
        assert(args@.skip(n as int) =~= Seq::<String>::empty());
    }
    None
}

/// Relies on nix::unistd::gethostname: the machine's hostname, an
/// environment-dependent value of which nothing further is promised;
/// `None` when it cannot be read or is not text.
#[verifier::external_body]
fn system_hostname() -> (r: Option<String>) {
    match nix::unistd::gethostname() {
        Ok(name) => name.into_string().ok(),
        Err(_) => None,
    }
}

/// A namespace, normalised to begin with `/`.
pub open spec fn spec_with_leading_slash(ns: Seq<char>) -> Seq<char> {
    if ns.len() > 0 && ns[0] == '/' {
        ns
    } else {
        seq!['/'] + ns
    }
}

/// Ensures that the given namespace starts with a `/`.
pub fn ensure_starts_with_slash(namespace: String) -> (r: String)
    ensures
        r@ == spec_with_leading_slash(namespace@),
{
    let n = namespace.as_str().unicode_len();
    if n > 0 && namespace.as_str().get_char(0) == '/' {
        return namespace;
    }
    proof {
        reveal_strlit("/");
    }
    let slash = String::from_str("/");
    let r = slash.concat(namespace.as_str());
    proof {
        assert(r@ =~= spec_with_leading_slash(namespace@));
    }
    r
}

/// A builder for the identity of a new node.
pub struct NodeArgs {
    pub name: String,
    pub master_uri: String,
    pub hostname: String,
    pub namespace: String,
}

/// The resolved name: the `__name:=` token, or the caller's default.
pub open spec fn spec_resolved_name(args: Seq<String>, default_name: Seq<char>) -> Seq<char> {
    match spec_find_arg(args, "__name:="@) {
        Some(v) => v,
        None => default_name,
    }
}

/// The resolved master URI: `__master:=`, then `ROS_MASTER_URI`, then the
/// well-known default.
pub open spec fn spec_resolved_master_uri(args: Seq<String>, env: Option<String>) -> Seq<char> {
    match spec_find_arg(args, "__master:="@) {
        Some(v) => v,
        None => match env {
            Some(u) => u@,
            None => "http://localhost:11311"@,
        },
    }
}

/// The resolved namespace before normalisation: `__ns:=`, then
/// `ROS_NAMESPACE`, then empty.
pub open spec fn spec_resolved_namespace(args: Seq<String>, env: Option<String>) -> Seq<char> {
    match spec_find_arg(args, "__ns:="@) {
        Some(v) => v,
        None => match env {
            Some(ns) => ns@,
            None => Seq::empty(),
        },
    }
}

/// The hostname sources in order, before the system fallback:
/// `__hostname:=`, `__ip:=`, `ROS_HOSTNAME`, `ROS_IP`.
pub open spec fn spec_configured_hostname(args: Seq<String>, env_hostname: Option<String>, env_ip: Option<String>) -> Option<Seq<char>> {
    match spec_find_arg(args, "__hostname:="@) {
        Some(v) => Some(v),
        None => match spec_find_arg(args, "__ip:="@) {
            Some(v) => Some(v),
            None => match env_hostname {
                Some(h) => Some(h@),
                None => match env_ip {
                    Some(h) => Some(h@),
                    None => None,
                },
            },
        },
    }
}

/// The node name from the command line, if one was remapped there.
pub fn opt_name(args: &Vec<String>) -> (r: Option<String>)
    ensures
        match r {
            Some(v) => spec_find_arg(args@, "__name:="@) == Some(v@),
            None => spec_find_arg(args@, "__name:="@) is None,
        },
{
    find_arg_with_prefix(args, "__name:=")
}

/// The master URI from the command line, the environment, or the
/// well-known default.
pub fn master_uri(args: &Vec<String>, env: &EnvValues) -> (r: String)
    ensures
        r@ == spec_resolved_master_uri(args@, env.ros_master_uri),
{
    match find_arg_with_prefix(args, "__master:=") {
        Some(v) => v,
        None => match &env.ros_master_uri {
            Some(u) => u.clone(),
            None => String::from_str("http://localhost:11311"),
        },
    }
}

/// The hostname from the command line or the environment; when no source
/// configures one, the machine's own hostname, or `localhost` if it
/// cannot be read.
pub fn hostname(args: &Vec<String>, env: &EnvValues) -> (r: String)
    ensures
        spec_configured_hostname(args@, env.ros_hostname, env.ros_ip) matches Some(h) ==> r@ == h,
{
    match find_arg_with_prefix(args, "__hostname:=") {
        Some(v) => v,
        None => match find_arg_with_prefix(args, "__ip:=") {
            Some(v) => v,
            None => match &env.ros_hostname {
                Some(h) => h.clone(),
                None => match &env.ros_ip {
                    Some(h) => h.clone(),
                    None => match system_hostname() {
                        Some(h) => h,
                        None => String::from_str("localhost"),
                    },
                },
            },
        },
    }
}

/// The namespace from the command line or the environment, before
/// normalisation; empty by default.
pub fn namespace(args: &Vec<String>, env: &EnvValues) -> (r: String)
    ensures
        r@ == spec_resolved_namespace(args@, env.ros_namespace),
{
    match find_arg_with_prefix(args, "__ns:=") {
        Some(v) => v,
        None => match &env.ros_namespace {
            Some(ns) => ns.clone(),
            None => String::new(),
        },
    }
}

impl NodeArgs {
    /// Resolves the identity of a new node from the command-line tokens
    /// and environment values of the process.  When no source configures
    /// a hostname, the machine's own hostname is used, or `localhost` if
    /// it cannot be read.
    pub fn new(default_name: &str, args: &Vec<String>, env: &EnvValues) -> (r: NodeArgs)
        ensures
            r.name@ == spec_resolved_name(args@, default_name@),
            r.master_uri@ == spec_resolved_master_uri(args@, env.ros_master_uri),
            r.namespace@ == spec_with_leading_slash(
                spec_resolved_namespace(args@, env.ros_namespace),
            ),
            spec_configured_hostname(args@, env.ros_hostname, env.ros_ip) matches Some(h)
                ==> r.hostname@ == h,
    {
        let name = match opt_name(args) {
            Some(v) => v,
            None => String::from_str(default_name),
        };
        NodeArgs {
            name,
            master_uri: master_uri(args, env),
            hostname: hostname(args, env),
            namespace: ensure_starts_with_slash(namespace(args, env)),
        }
    }

    /// Explicitly set the name of the node to the specified value.
    pub fn set_name(self, name: &str) -> (r: NodeArgs)
        ensures
            r.name@ == name@,
            r.master_uri == self.master_uri,
            r.hostname == self.hostname,
            r.namespace == self.namespace,
    {
        NodeArgs { name: String::from_str(name), ..self }
    }

    /// Explicitly set the master URI of the node to the specified value.
    pub fn set_master_uri(self, uri: &str) -> (r: NodeArgs)
        ensures
            r.master_uri@ == uri@,
            r.name == self.name,
            r.hostname == self.hostname,
            r.namespace == self.namespace,
    {
        NodeArgs { master_uri: String::from_str(uri), ..self }
    }

    /// Explicitly set the hostname of the node to the specified value.
    pub fn set_hostname(self, hostname: &str) -> (r: NodeArgs)
        ensures
            r.hostname@ == hostname@,
            r.name == self.name,
            r.master_uri == self.master_uri,
            r.namespace == self.namespace,
    {
        NodeArgs { hostname: String::from_str(hostname), ..self }
    }

    /// Explicitly set the namespace of the node to the specified value,
    /// normalised to begin with `/`.
    pub fn set_namespace(self, namespace: &str) -> (r: NodeArgs)
        ensures
            r.namespace@ == spec_with_leading_slash(namespace@),
            r.name == self.name,
            r.master_uri == self.master_uri,
            r.hostname == self.hostname,
    {
        NodeArgs { namespace: ensure_starts_with_slash(String::from_str(namespace)), ..self }
    }
}

} // verus!
