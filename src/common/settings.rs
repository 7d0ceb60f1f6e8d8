use vstd::prelude::*;

verus! {

/// Process settings that the log search reads at start-up.
#[derive(Clone, Debug, Default)]
pub struct Settings {
    pub elasticsearch_url: Option<String>,
}

} // verus!
