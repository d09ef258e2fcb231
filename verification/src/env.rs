//! A snapshot of the process environment, taken once by the caller and
//! handed to the configuration readers, which look variables up in it.
use vstd::prelude::*;

use crate::text::copy_str;

verus! {

/// Environment variables as name/value pairs, in the order they were read.
pub struct EnvVars {
    pub vars: Vec<(String, String)>,
}

/// The value of the first variable called `name`, if any.
pub open spec fn lookup(vars: Seq<(String, String)>, name: Seq<char>) -> Option<Seq<char>>
    decreases vars.len(),
{
    if vars.len() == 0 {
        None
    } else if vars[0].0@ == name {
        Some(vars[0].1@)
    } else {
        lookup(vars.drop_first(), name)
    }
}

impl EnvVars {
    /// The value of variable `name` in this snapshot.
    pub open spec fn var(&self, name: Seq<char>) -> Option<Seq<char>> {
        lookup(self.vars@, name)
    }

    /// Whether variable `name` is set.
    pub open spec fn has(&self, name: Seq<char>) -> bool {
        self.var(name) is Some
    }

    /// An empty environment.
    pub fn new() -> (env: EnvVars)
        ensures
            env.vars@.len() == 0,
            forall|name: Seq<char>| #[trigger] env.var(name) is None,
    {
        EnvVars { vars: Vec::new() }
    }

    /// Adds a variable after those already present.
    pub fn push(&mut self, name: &str, value: &str)
        ensures
            final(self).vars@.len() == old(self).vars@.len() + 1,
            final(self).vars@.drop_last() == old(self).vars@,
            final(self).vars@.last().0@ == name@,
            final(self).vars@.last().1@ == value@,
    {
        self.vars.push((copy_str(name), copy_str(value)));
    }

    /// The value of variable `name`: `std::env::var(name).ok()`.
    pub fn get(&self, name: &str) -> (res: Option<String>)
        ensures
            match res {
                Some(v) => self.var(name@) == Some(v@),
                None => self.var(name@) is None,
            },
    {
        let key = copy_str(name);
        let n = self.vars.len();
        let mut i: usize = 0;
        assert(self.vars@.subrange(0, n as int) =~= self.vars@);
        while i < n
            invariant
                key@ == name@,
                n == self.vars@.len(),
                i <= n,
                lookup(self.vars@, name@) == lookup(self.vars@.subrange(i as int, n as int), name@),
            decreases n - i,
        {
            let ghost rest = self.vars@.subrange(i as int, n as int);
            assert(rest.drop_first() =~= self.vars@.subrange(i + 1, n as int));
            assert(rest[0] == self.vars@[i as int]);
            if self.vars[i].0 == key {
                return Some(self.vars[i].1.clone());
            }
            i = i + 1;
        }
        None
    }
}

} // verus!
