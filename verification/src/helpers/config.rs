//! The settings of a run.

use vstd::prelude::*;

verus! {

/// The persisted settings: where the completion service is, how to
/// authenticate, which model to ask and when to give up.
#[derive(Debug, PartialEq, Eq)]
pub struct Config {
    pub version: String,
    pub openai_api_url: String,
    pub openai_api_key: String,
    pub model: String,
    pub max_iterations: usize,
}

impl Clone for Config {
    fn clone(&self) -> (copy: Self)
        ensures
            copy == *self,
    {
        Config {
            version: self.version.clone(),
            openai_api_url: self.openai_api_url.clone(),
            openai_api_key: self.openai_api_key.clone(),
            model: self.model.clone(),
            max_iterations: self.max_iterations,
        }
    }
}

} // verus!
