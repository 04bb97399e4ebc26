use vstd::prelude::*;

use crate::quota::{SessionLimits, MAX_CAP_SATS};

verus! {

/// Process settings: where the keys live, which relay to use, the spending
/// caps in satoshis (zero disables a cap) and the payment backend's data
/// directory.
pub struct Config {
    pub keys_file: String,
    pub relay: String,
    pub max_amount: u64,
    pub daily_limit: u64,
    pub data_dir: String,
}

impl Config {
    /// The session's caps, or `None` when one is too large to be counted in
    /// millisatoshis.
    pub fn limits(&self) -> (r: Option<SessionLimits>)
        ensures
            r is Some <==> (self.max_amount <= MAX_CAP_SATS && self.daily_limit <= MAX_CAP_SATS),
            r matches Some(l) ==> l.wf() && l.max_amount == self.max_amount && l.daily_limit
                == self.daily_limit,
    {
        SessionLimits::new(self.max_amount, self.daily_limit)
    }
}

/// A directory path without its trailing `/`, so that file names can be
/// joined with one.
pub fn strip_trailing_slash(s: &str) -> (r: String)
    ensures
        s@.len() > 0 && s@.last() == '/' ==> r@ == s@.drop_last(),
        !(s@.len() > 0 && s@.last() == '/') ==> r@ == s@,
{
    let n = s.unicode_len();
    if n > 0 && s.get_char(n - 1) == '/' {
        s.substring_char(0, n - 1).to_owned()
    } else {
        s.to_owned()
    }
}

} // verus!
