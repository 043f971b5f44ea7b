//! Counters of the tokens that the requests of a session took, by estimate.

use vstd::prelude::*;
use crate::text::{byte_len, utf8_len};

verus! {

/// The estimate for a text of `len` bytes: one token for every four bytes,
/// rounded up.
pub open spec fn tokens_for(len: nat) -> nat {
    (len + 3) / 4
}

/// `a + b`, or the largest number there is where the sum is larger.
pub open spec fn capped_sum(a: nat, b: nat) -> nat {
    if a + b > usize::MAX {
        usize::MAX as nat
    } else {
        a + b
    }
}

fn capped_add(a: usize, b: usize) -> (r: usize)
    ensures
        r == capped_sum(a as nat, b as nat),
{
    if a > usize::MAX - b {
        usize::MAX
    } else {
        a + b
    }
}

/// What the requests so far took. No counter ever goes down: a counter
/// that has reached the largest number stays there.
#[derive(Debug, Clone, Copy, PartialEq, Eq)]
pub struct TokenUsage {
    pub prompt_tokens: usize,
    pub completion_tokens: usize,
    pub total_tokens: usize,
    pub request_count: usize,
}

impl Default for TokenUsage {
    fn default() -> (u: Self)
        ensures
            u == (TokenUsage {
                prompt_tokens: 0,
                completion_tokens: 0,
                total_tokens: 0,
                request_count: 0,
            }),
    {
        TokenUsage { prompt_tokens: 0, completion_tokens: 0, total_tokens: 0, request_count: 0 }
    }
}

impl TokenUsage {
    /// The counters after one more request with the given texts.
    pub open spec fn after(self, prompt: Seq<char>, completion: Seq<char>) -> TokenUsage {
        let p = tokens_for(utf8_len(prompt));
        let c = tokens_for(utf8_len(completion));
        TokenUsage {
            prompt_tokens: capped_sum(self.prompt_tokens as nat, p) as usize,
            completion_tokens: capped_sum(self.completion_tokens as nat, c) as usize,
            total_tokens: capped_sum(self.total_tokens as nat, capped_sum(p, c)) as usize,
            request_count: capped_sum(self.request_count as nat, 1) as usize,
        }
    }

    /// The estimated number of tokens of a text: a quarter of its length in
    /// bytes, rounded up.
    pub fn estimate_tokens(text: &str) -> (n: usize)
        ensures
            n == tokens_for(utf8_len(text@)),
    {
        let len = byte_len(text);
        if len % 4 == 0 {
            len / 4
        } else {
            len / 4 + 1
        }
    }

    /// Counts one more request, with the estimates for its prompt and for
    /// the answer to it.
    pub fn add_estimated(&mut self, prompt: &str, completion: &str)
        ensures
            *final(self) == old(self).after(prompt@, completion@),
    {
        let prompt_est = Self::estimate_tokens(prompt);
        let completion_est = Self::estimate_tokens(completion);
        self.prompt_tokens = capped_add(self.prompt_tokens, prompt_est);
        self.completion_tokens = capped_add(self.completion_tokens, completion_est);
        self.total_tokens = capped_add(self.total_tokens, capped_add(prompt_est, completion_est));
        self.request_count = capped_add(self.request_count, 1);
    }
}

/// A request never lowers a counter, and it raises the number of requests
/// by exactly one as long as that number can grow.
pub proof fn law_usage_grows(u: TokenUsage, prompt: Seq<char>, completion: Seq<char>)
    ensures
        u.after(prompt, completion).prompt_tokens >= u.prompt_tokens,
        u.after(prompt, completion).completion_tokens >= u.completion_tokens,
        u.after(prompt, completion).total_tokens >= u.total_tokens,
        u.after(prompt, completion).request_count >= u.request_count,
        u.request_count < usize::MAX ==> u.after(prompt, completion).request_count
            == u.request_count + 1,
{
}

} // verus!
