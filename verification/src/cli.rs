//! Decisions of the `gforce-node` command-line tool.

use vstd::prelude::*;

verus! {

/// Where the last `n` of `len` lines start.
pub open spec fn tail_start(len: nat, n: nat) -> nat {
    if len > n {
        (len - n) as nat
    } else {
        0
    }
}

/// The last `n` lines (all of them where there are fewer), in order.
pub fn last_lines(lines: Vec<String>, n: usize) -> (r: Vec<String>)
    ensures
        r@ == lines@.subrange(tail_start(lines@.len(), n as nat) as int, lines@.len() as int),
{
    let len: usize = lines.len();
    let start: usize = if len > n {
        len - n
    } else {
        0
    };
    let mut r: Vec<String> = Vec::new();
    let mut i: usize = start;
    while i < len
        invariant
            len == lines@.len(),
            start <= i <= len,
            start == tail_start(len as nat, n as nat),
            r@ == lines@.subrange(start as int, i as int),
        decreases len - i,
    {
        r.push(lines[i].clone());
        proof {
            assert(r@ =~= lines@.subrange(start as int, i + 1));
        }
        i = i + 1;
    }
    r
}

} // verus!

verus! {

/// The lines shown are the last `n` lines, or all lines where there are
/// fewer: a suffix of the log of length `min(n, len)`.
pub proof fn law_last_lines_suffix(lines: Seq<String>, n: nat)
    ensures
        ({
            let r = lines.subrange(tail_start(lines.len(), n) as int, lines.len() as int);
            &&& r.len() == if n < lines.len() {
                n
            } else {
                lines.len()
            }
            &&& r.is_suffix_of(lines)
        }),
{
    let r = lines.subrange(tail_start(lines.len(), n) as int, lines.len() as int);
    assert(r =~= lines.subrange((lines.len() - r.len()) as int, lines.len() as int));
}

} // verus!
