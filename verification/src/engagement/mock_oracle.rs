use vstd::prelude::*;

verus! {

/// A stand-in oracle that reports a condition result set by hand: its
/// storage slot holds the result once one was stored.
pub struct MockOracle {
    pub result: Option<Option<bool>>,
}

impl MockOracle {
    /// What the oracle reports: the stored result, none where nothing is stored.
    pub open spec fn reported(self) -> Option<bool> {
        match self.result {
            Some(v) => v,
            None => None,
        }
    }

    /// A mock oracle with nothing stored yet.
    pub fn new() -> (r: Self)
        ensures
            r.result is None,
    {
        MockOracle { result: None }
    }

    /// Stores `result` as the condition result.
    pub fn initialize(&mut self, result: Option<bool>)
        ensures
            final(self).result == Some(result),
    {
        self.result = Some(result);
    }

    /// The stored condition result; none where nothing was stored.
    pub fn get_result(&self) -> (r: Option<bool>)
        ensures
            r == self.reported(),
    {
        match self.result {
            Some(v) => v,
            None => None,
        }
    }

    /// Replaces the stored condition result with `result`.
    pub fn set_result(&mut self, result: Option<bool>)
        ensures
            final(self).result == Some(result),
    {
        self.result = Some(result);
    }
}

} // verus!
