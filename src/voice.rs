use vstd::prelude::*;

verus! {

/// Speech output; speaking itself is the host's work.
pub struct TtsManager;

impl TtsManager {
    pub fn new() -> (r: Result<TtsManager, String>)
        ensures
            r is Ok,
    {
        Ok(TtsManager)
    }
}

} // verus!
