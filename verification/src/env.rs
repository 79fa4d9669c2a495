//! A snapshot of the process environment, handed in by the caller.
//!
//! The library never reads the environment itself: whoever calls it takes the
//! variables once and passes them on, so that every decision is a function of
//! its arguments.

use crate::text::same_text;
use vstd::prelude::*;

verus! {

/// One variable of the environment.
#[derive(Clone, Debug, PartialEq, Eq)]
pub struct EnvVar {
    pub name: String,
    pub value: String,
}

/// The value of the first variable named `name`, if there is one.
pub open spec fn env_value(vars: Seq<EnvVar>, name: Seq<char>) -> Option<Seq<char>>
    decreases vars.len(),
{
    if vars.len() == 0 {
        None
    } else if vars[0].name@ == name {
        Some(vars[0].value@)
    } else {
        env_value(vars.drop_first(), name)
    }
}

/// Looks a variable up by its name.
pub fn lookup<'a>(vars: &'a Vec<EnvVar>, name: &str) -> (r: Option<&'a str>)
    ensures
        match r {
            Some(v) => env_value(vars@, name@) == Some(v@),
            None => env_value(vars@, name@) is None,
        },
{
    let mut i: usize = 0;
    proof {
        assert(vars@.skip(0) =~= vars@);
    }
    while i < vars.len()
        invariant
            i <= vars.len(),
            env_value(vars@, name@) == env_value(vars@.skip(i as int), name@),
        decreases vars.len() - i,
    {
        proof {
            assert(vars@.skip(i as int)[0] == vars@[i as int]);
            assert(vars@.skip(i as int).drop_first() =~= vars@.skip(i + 1));
        }
        if same_text(vars[i].name.as_str(), name) {
            return Some(vars[i].value.as_str());
        }
        i += 1;
    }
    None
}

} // verus!
