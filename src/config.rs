//! Server records, the environment they are resolved against, and
//! placeholder resolution.

use crate::text::{parse_u16, parse_u16_decimal};
use vstd::prelude::*;

verus! {

/// One configured remote target.
#[derive(Debug)]
pub struct ServerConfig {
    pub key: String,
    pub name: String,
    pub ip: String,
    pub port: String,
    pub conn_type: String,
    pub user: String,
    pub comment: String,
    pub pswd: Option<String>,
    pub gcp_project: Option<String>,
    pub gcp_zone: Option<String>,
    pub gcp_vm_name: Option<String>,
}

/// The ordered list of configured servers.
#[derive(Debug)]
pub struct Config {
    pub servers: Vec<ServerConfig>,
}

/// A snapshot of environment variables, as (name, value) pairs; where a name
/// occurs more than once the later pair wins.
#[derive(Debug)]
pub struct EnvVars {
    pub vars: Vec<(String, String)>,
}

/// The value of variable `name` in `vars`: the last pair with that name.
pub open spec fn lookup(vars: Seq<(String, String)>, name: Seq<char>) -> Option<Seq<char>>
    decreases vars.len(),
{
    if vars.len() == 0 {
        None
    } else if vars.last().0@ == name {
        Some(vars.last().1@)
    } else {
        lookup(vars.drop_last(), name)
    }
}

/// A placeholder is a value that starts with `$`.
pub open spec fn is_placeholder(v: Seq<char>) -> bool {
    v.len() > 0 && v[0] == '$'
}

/// The resolved form of `v`: a placeholder is replaced by the variable it
/// names, or kept literally when that variable is not set; any other value
/// stays as it is.
pub open spec fn resolve_value(v: Seq<char>, env: Seq<(String, String)>) -> Seq<char> {
    if is_placeholder(v) {
        match lookup(env, v.drop_first()) {
            Some(x) => x,
            None => v,
        }
    } else {
        v
    }
}

/// The port a text gives: its number when it parses as one, else 22.
pub open spec fn port_from(s: Seq<char>) -> u16 {
    match parse_u16(s) {
        Some(p) => p,
        None => 22,
    }
}

/// An optional field read as text, absent meaning empty.
pub open spec fn text_or_empty(o: Option<String>) -> Seq<char> {
    match o {
        Some(s) => s@,
        None => Seq::empty(),
    }
}

/// Whether two texts hold the same characters.
pub fn same_text(a: &str, b: &str) -> (r: bool)
    ensures
        r == (a@ == b@),
{
    let n = a.unicode_len();
    if n != b.unicode_len() {
        return false;
    }
    let mut i: usize = 0;
    while i < n
        invariant
            i <= n,
            n == a@.len(),
            n == b@.len(),
            a@.subrange(0, i as int) =~= b@.subrange(0, i as int),
        decreases n - i,
    {
        if a.get_char(i) != b.get_char(i) {
            return false;
        }
        i = i + 1;
        assert(a@.subrange(0, i as int) =~= b@.subrange(0, i as int)) by {
            assert forall|j: int| 0 <= j < i implies a@.subrange(0, i as int)[j] == b@.subrange(
                0,
                i as int,
            )[j] by {
                if j < i - 1 {
                    assert(a@.subrange(0, i - 1)[j] == b@.subrange(0, i - 1)[j]);
                }
            }
        }
    }
    assert(a@ =~= a@.subrange(0, n as int));
    assert(b@ =~= b@.subrange(0, n as int));
    true
}

impl EnvVars {
    /// An environment with no variables.
    pub fn new() -> (r: EnvVars)
        ensures
            r.vars@.len() == 0,
    {
        EnvVars { vars: Vec::new() }
    }

    /// Sets `name` to `value`, overriding any earlier value of it.
    pub fn set(&mut self, name: String, value: String)
        ensures
            final(self).vars@ == old(self).vars@.push((name, value)),
            lookup(final(self).vars@, name@) == Some(value@),
    {
        self.vars.push((name, value));
        assert(final(self).vars@.drop_last() =~= old(self).vars@);
    }

    /// The value of `name`, if it is set.
    pub fn get(&self, name: &str) -> (r: Option<String>)
        ensures
            match r {
                Some(v) => lookup(self.vars@, name@) == Some(v@),
                None => lookup(self.vars@, name@) is None,
            },
    {
        let mut i: usize = self.vars.len();
        assert(self.vars@.subrange(0, i as int) =~= self.vars@);
        while i > 0
            invariant
                i <= self.vars@.len(),
                lookup(self.vars@, name@) == lookup(self.vars@.subrange(0, i as int), name@),
            decreases i,
        {
            let ghost pre = self.vars@.subrange(0, i as int);
            assert(pre.drop_last() =~= self.vars@.subrange(0, i - 1));
            if same_text(self.vars[i - 1].0.as_str(), name) {
                return Some(self.vars[i - 1].1.clone());
            }
            i = i - 1;
        }
        None
    }
}

/// The name of the variable that placeholder `value` refers to, when that
/// variable is not set; `None` for a value that resolves.
pub fn missing_variable(value: &str, env: &EnvVars) -> (r: Option<String>)
    ensures
        match r {
            Some(n) => is_placeholder(value@) && n@ == value@.drop_first() && lookup(
                env.vars@,
                n@,
            ) is None,
            None => !is_placeholder(value@) || lookup(env.vars@, value@.drop_first()) is Some,
        },
{
    let n = value.unicode_len();
    if n > 0 && value.get_char(0) == '$' {
        let name = value.substring_char(1, n);
        assert(name@ =~= value@.drop_first());
        match env.get(name) {
            Some(_) => None,
            None => Some(String::from_str(name)),
        }
    } else {
        None
    }
}

impl ServerConfig {
    /// Resolves `value`: a `$NAME` placeholder becomes the value of `NAME`
    /// in `env`, or stays literal when `NAME` is not set; any other value is
    /// returned unchanged.
    pub fn resolve(&self, value: &str, env: &EnvVars) -> (r: String)
        ensures
            r@ == resolve_value(value@, env.vars@),
    {
        let n = value.unicode_len();
        if n > 0 && value.get_char(0) == '$' {
            let name = value.substring_char(1, n);
            assert(name@ =~= value@.drop_first());
            match env.get(name) {
                Some(v) => v,
                None => String::from_str(value),
            }
        } else {
            String::from_str(value)
        }
    }

    /// The resolved port, or 22 when it does not parse as a port number.
    pub fn resolved_port(&self, env: &EnvVars) -> (r: u16)
        ensures
            r == port_from(resolve_value(self.port@, env.vars@)),
    {
        let p = self.resolve(self.port.as_str(), env);
        match parse_u16_decimal(p.as_str()) {
            Some(v) => v,
            None => 22,
        }
    }

    /// Resolves an optional field, an absent one reading as empty.
    pub fn resolve_optional(&self, value: &Option<String>, env: &EnvVars) -> (r: String)
        ensures
            r@ == resolve_value(text_or_empty(*value), env.vars@),
    {
        match value {
            Some(v) => self.resolve(v.as_str(), env),
            None => {
                let e = String::new();
                self.resolve(e.as_str(), env)
            },
        }
    }
}

/// Resolution leaves every value that is not a placeholder as it is; in
/// particular, resolving a resolved value that does not start with `$` again
/// changes nothing.
pub proof fn lemma_resolve_plain(v: Seq<char>, env: Seq<(String, String)>)
    requires
        !is_placeholder(v),
    ensures
        resolve_value(v, env) == v,
        resolve_value(resolve_value(v, env), env) == resolve_value(v, env),
{
}

/// A port text that does not parse as a number, including the empty text of
/// a missing port, gives the default port 22.
pub proof fn lemma_port_default(s: Seq<char>)
    requires
        parse_u16(s) is None,
    ensures
        port_from(s) == 22,
{
}

} // verus!
