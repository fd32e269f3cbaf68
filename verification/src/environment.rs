//! A snapshot of the process environment, read by the add-ons' settings.
use vstd::prelude::*;
use crate::text::{chars_eq, chars_of, owned};

verus! {

/// The environment variables of the process, as name-value pairs (those
/// whose name and value are valid Unicode).
pub struct Environment {
    pub vars: Vec<(String, String)>,
}

/// The value of the first variable called `name`.
pub open spec fn env_value(vars: Seq<(String, String)>, name: Seq<char>) -> Option<Seq<char>>
    decreases vars.len(),
{
    if vars.len() == 0 {
        None
    } else if vars[0].0@ == name {
        Some(vars[0].1@)
    } else {
        env_value(vars.drop_first(), name)
    }
}

/// The value of `primary`, else of `fallback`, else the empty text.
pub open spec fn env_setting(vars: Seq<(String, String)>, primary: Seq<char>, fallback: Seq<char>) -> Seq<
    char,
> {
    match env_value(vars, primary) {
        Some(v) => v,
        None => match env_value(vars, fallback) {
            Some(v) => v,
            None => Seq::empty(),
        },
    }
}

impl Environment {
    /// The value of the variable `name` (std `env::var`, its error dropped).
    pub fn var(&self, name: &str) -> (r: Option<String>)
        ensures
            match env_value(self.vars@, name@) {
                Some(v) => (r matches Some(s) && s@ == v),
                None => r is None,
            },
    {
        let n = chars_of(name);
        let mut i: usize = 0;
        assert(self.vars@.subrange(0, self.vars@.len() as int) =~= self.vars@);
        while i < self.vars.len()
            invariant
                i <= self.vars@.len(),
                n@ == name@,
                env_value(self.vars@, name@) == env_value(self.vars@.subrange(i as int, self.vars@.len() as int), name@),
            decreases self.vars@.len() - i,
        {
            let ghost rest = self.vars@.subrange(i as int, self.vars@.len() as int);
            assert(rest.drop_first() =~= self.vars@.subrange(i + 1, self.vars@.len() as int));
            let k = chars_of(self.vars[i].0.as_str());
            if chars_eq(&k, &n) {
                return Some(owned(self.vars[i].1.as_str()));
            }
            i = i + 1;
        }
        None
    }

    /// The value of `primary`, else of `fallback`, else the empty string.
    pub fn setting(&self, primary: &str, fallback: &str) -> (r: String)
        ensures
            r@ == env_setting(self.vars@, primary@, fallback@),
    {
        match self.var(primary) {
            Some(v) => v,
            None => match self.var(fallback) {
                Some(v) => v,
                None => String::new(),
            },
        }
    }
}

} // verus!
