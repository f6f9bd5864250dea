//! Typed lookups in a snapshot of the environment, with defaults and minimums.
use vstd::prelude::*;
use crate::text;
use crate::text::{chars_of, parse_u64_spec, parse_usize_spec, str_eq};

verus! {

/// A snapshot of the process environment: names and values, in order.
///
/// A lookup finds the first entry with the name asked for.
pub struct EnvVars {
    pub vars: Vec<(String, String)>,
}

impl View for EnvVars {
    type V = Seq<(Seq<char>, Seq<char>)>;

    open spec fn view(&self) -> Seq<(Seq<char>, Seq<char>)> {
        self.vars@.map_values(|p: (String, String)| (p.0@, p.1@))
    }
}

/// The value of the first entry at or after `i` whose name is `key`.
pub open spec fn lookup_from(vars: Seq<(Seq<char>, Seq<char>)>, key: Seq<char>, i: int) -> Option<
    Seq<char>,
>
    decreases vars.len() - i,
{
    if i < 0 || i >= vars.len() {
        None
    } else if vars[i].0 == key {
        Some(vars[i].1)
    } else {
        lookup_from(vars, key, i + 1)
    }
}

/// The value of the variable `key`, if it is set.
pub open spec fn env_lookup(vars: Seq<(Seq<char>, Seq<char>)>, key: Seq<char>) -> Option<Seq<char>> {
    lookup_from(vars, key, 0)
}

/// The variable `key` read as a `usize`: its value when it is set, parses and
/// is at least `min`, else `default`.
pub open spec fn env_usize(
    vars: Seq<(Seq<char>, Seq<char>)>,
    key: Seq<char>,
    default: usize,
    min: usize,
) -> usize {
    match env_lookup(vars, key) {
        Some(v) => match parse_usize_spec(v) {
            Some(n) => if n >= min {
                n as usize
            } else {
                default
            },
            None => default,
        },
        None => default,
    }
}

/// The variable `key` read as a `u64`: its value when it is set, parses and
/// is at least `min`, else `default`.
pub open spec fn env_u64(vars: Seq<(Seq<char>, Seq<char>)>, key: Seq<char>, default: u64, min: u64) -> u64 {
    match env_lookup(vars, key) {
        Some(v) => match parse_u64_spec(v) {
            Some(n) => if n >= min {
                n as u64
            } else {
                default
            },
            None => default,
        },
        None => default,
    }
}

impl EnvVars {
    /// The value of the variable `key`, if it is set.
    pub fn get(&self, key: &str) -> (res: Option<&String>)
        ensures
            match res {
                Some(v) => env_lookup(self@, key@) == Some(v@),
                None => env_lookup(self@, key@) is None,
            },
    {
        let mut i: usize = 0;
        while i < self.vars.len()
            invariant
                i <= self.vars@.len(),
                env_lookup(self@, key@) == lookup_from(self@, key@, i as int),
            decreases self.vars@.len() - i,
        {
            let entry = &self.vars[i];
            if str_eq(entry.0.as_str(), key) {
                return Some(&entry.1);
            }
            i = i + 1;
        }
        None
    }
}

/// Reads the variable `key` as a `usize`, with a default and a minimum.
pub fn parse_usize(env: &EnvVars, key: &str, default: usize, min: usize) -> (v: usize)
    ensures
        v == env_usize(env@, key@, default, min),
{
    match env.get(key) {
        Some(s) => {
            let chars = chars_of(s.as_str());
            match text::parse_usize(chars.as_slice()) {
                Some(n) => if n >= min {
                    n
                } else {
                    default
                },
                None => default,
            }
        },
        None => default,
    }
}

/// Reads the variable `key` as a `u64`, with a default and a minimum.
pub fn parse_u64(env: &EnvVars, key: &str, default: u64, min: u64) -> (v: u64)
    ensures
        v == env_u64(env@, key@, default, min),
{
    match env.get(key) {
        Some(s) => {
            let chars = chars_of(s.as_str());
            match text::parse_u64(chars.as_slice()) {
                Some(n) => if n >= min {
                    n
                } else {
                    default
                },
                None => default,
            }
        },
        None => default,
    }
}

} // verus!
