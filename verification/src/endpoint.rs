//! Which registry to address.

use crate::env::{env_value, lookup, EnvVar};
use vstd::prelude::*;

verus! {

/// The registry that is addressed when the environment names no other.
pub const DEFAULT_ENDPOINT: &'static str = "https://huggingface.co";

/// The variable that overrides the registry for models.
pub const MODEL_ENDPOINT: &'static str = "MODEL_ENDPOINT";

/// The variable that names a mirror of the registry.
pub const HF_ENDPOINT: &'static str = "HF_ENDPOINT";

/// The base address of the registry: the model override where it is set,
/// else the mirror where that is set, else the default.
pub open spec fn endpoint_spec(vars: Seq<EnvVar>) -> Seq<char> {
    match env_value(vars, MODEL_ENDPOINT@) {
        Some(e) => e,
        None => match env_value(vars, HF_ENDPOINT@) {
            Some(e) => e,
            None => DEFAULT_ENDPOINT@,
        },
    }
}

/// The base address of the registry for this environment.
pub fn get_model_endpoint(vars: &Vec<EnvVar>) -> (r: String)
    ensures
        r@ == endpoint_spec(vars@),
{
    match lookup(vars, MODEL_ENDPOINT) {
        Some(e) => String::from_str(e),
        None => match lookup(vars, HF_ENDPOINT) {
            Some(e) => String::from_str(e),
            None => String::from_str(DEFAULT_ENDPOINT),
        },
    }
}

} // verus!
