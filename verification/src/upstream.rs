//! A model of the demo upstream origin's response body: one fixed greeting
//! line repeated without bound. The origin streams it chunk by chunk; here
//! are the line itself and the finite prefixes of that stream, which is how
//! a client that reads `n` chunks and then closes the connection sees it.

use vstd::prelude::*;
use vstd::string::*;

verus! {

/// `s` repeated `n` times.
pub open spec fn repeat_spec(s: Seq<char>, n: nat) -> Seq<char>
    decreases n,
{
    if n == 0 {
        Seq::empty()
    } else {
        s + repeat_spec(s, (n - 1) as nat)
    }
}

/// One more repetition appends one copy on the right.
pub proof fn lemma_repeat_snoc(s: Seq<char>, n: nat)
    ensures
        repeat_spec(s, n + 1) == repeat_spec(s, n) + s,
    decreases n,
{
    if n == 0 {
        assert(repeat_spec(s, 1) =~= repeat_spec(s, 0) + s);
    } else {
        lemma_repeat_snoc(s, (n - 1) as nat);
        assert(repeat_spec(s, n + 1) =~= repeat_spec(s, n) + s);
    }
}

/// However much of the stream has been read, as long as that is anything at
/// all, it begins with one whole chunk.
pub proof fn lemma_repeat_begins_with_chunk(s: Seq<char>, n: nat)
    requires
        n > 0,
    ensures
        repeat_spec(s, n).take(s.len() as int) == s,
{
    assert(repeat_spec(s, n).take(s.len() as int) =~= s);
}

/// The fixed line the demo upstream origin emits.
pub fn greeting_line() -> (s: String)
    ensures
        s@ == "Hello, world!\n"@,
{
    String::from_str("Hello, world!\n")
}

/// The first `n` chunks of the origin's unbounded body: the greeting line
/// repeated `n` times.
pub fn repeated_greeting(n: usize) -> (s: String)
    ensures
        s@ == repeat_spec("Hello, world!\n"@, n as nat),
{
    let mut s = String::new();
    let mut i: usize = 0;
    while i < n
        invariant
            i <= n,
            s@ == repeat_spec("Hello, world!\n"@, i as nat),
        decreases n - i,
    {
        s.append("Hello, world!\n");
        proof {
            lemma_repeat_snoc("Hello, world!\n"@, i as nat);
        }
        i = i + 1;
    }
    s
}

} // verus!
