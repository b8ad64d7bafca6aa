use vstd::prelude::*;
use vstd::string::*;
use crate::text::{chars_of, string_of};

verus! {

/// `s` without its trailing slashes (`str::trim_end_matches('/')`).
pub open spec fn without_trailing_slashes(s: Seq<char>) -> Seq<char>
    decreases s.len(),
{
    if s.len() > 0 && s.last() == '/' {
        without_trailing_slashes(s.drop_last())
    } else {
        s
    }
}

/// The Irodori-TTS service at `base_url`.
#[derive(Debug, Clone)]
pub struct IrodoriTtsClient {
    pub base_url: String,
}

impl IrodoriTtsClient {
    pub fn new(base_url: &str) -> (res: Self)
        ensures
            res.base_url@ == without_trailing_slashes(base_url@),
    {
        let cs = chars_of(base_url);
        let mut n = cs.len();
        assert(cs@.take(n as int) =~= cs@);
        while n > 0 && cs[n - 1] == '/'
            invariant
                n <= cs.len(),
                without_trailing_slashes(cs@) == without_trailing_slashes(cs@.take(n as int)),
            decreases n,
        {
            assert(cs@.take(n as int).drop_last() =~= cs@.take(n - 1));
            n = n - 1;
        }
        proof {
            if n > 0 {
                assert(cs@.take(n as int).last() == cs@[n - 1]);
            }
        }
        IrodoriTtsClient { base_url: string_of(&cs, 0, n) }
    }

    /// Where speech is synthesized.
    pub fn synthesize_url(&self) -> (res: String)
        ensures
            res@ == self.base_url@ + "/synthesize"@,
    {
        let mut s = self.base_url.clone();
        s.append("/synthesize");
        s
    }
}

} // verus!
