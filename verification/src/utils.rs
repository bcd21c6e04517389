//! String helpers shared by the frame generators.

use vstd::prelude::*;

verus! {

/// `s` written `n` times in a row.
pub open spec fn repeated(s: Seq<char>, n: nat) -> Seq<char>
    decreases n,
{
    if n == 0 {
        Seq::empty()
    } else {
        repeated(s, (n - 1) as nat) + s
    }
}

/// The length of a repetition is the product of the count and the length of
/// the repeated piece.
pub proof fn lemma_repeated_len(s: Seq<char>, n: nat)
    ensures
        repeated(s, n).len() == n * s.len(),
    decreases n,
{
    let len = s.len() as int;
    if n > 0 {
        lemma_repeated_len(s, (n - 1) as nat);
        assert(n * len == (n - 1) * len + len) by (nonlinear_arith);
    } else {
        assert(0 * len == 0) by (nonlinear_arith);
    }
}

/// Repeat the string `s` `n` times by concatenating.
pub fn repeat_str(s: &str, n: usize) -> (out: String)
    ensures
        out@ == repeated(s@, n as nat),
{
    let mut out = String::new();
    let mut i: usize = 0;
    while i < n
        invariant
            i <= n,
            out@ == repeated(s@, i as nat),
        decreases n - i,
    {
        out.append(s);
        i += 1;
    }
    out
}

} // verus!
