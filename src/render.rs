//! The textual dump of a buffer: each byte written in binary without leading
//! zeros, the bytes concatenated in order.
use vstd::prelude::*;

verus! {

/// The digit character for `d`, which is zero or one.
pub open spec fn binary_digit(d: nat) -> char {
    if d == 0 {
        '0'
    } else {
        '1'
    }
}

/// `n` in base two with no leading zeros; zero is written "0".
pub open spec fn binary_digits(n: nat) -> Seq<char>
    decreases n,
{
    if n < 2 {
        seq![binary_digit(n)]
    } else {
        binary_digits(n / 2).push(binary_digit(n % 2))
    }
}

/// The dump of `bytes`: the binary form of each byte, one after another.
pub open spec fn rendered(bytes: Seq<u8>) -> Seq<char>
    decreases bytes.len(),
{
    if bytes.len() == 0 {
        Seq::empty()
    } else {
        rendered(bytes.drop_last()) + binary_digits(bytes.last() as nat)
    }
}

/// Appends the binary form of `b` to `out`.
pub fn push_binary(out: &mut String, b: u8)
    ensures
        final(out)@ == old(out)@ + binary_digits(b as nat),
    decreases b,
{
    if b >= 2 {
        push_binary(out, b / 2);
    }
    if b % 2 == 1 {
        out.append("1");
        proof {
            reveal_strlit("1");
        }
    } else {
        out.append("0");
        proof {
            reveal_strlit("0");
        }
    }
    assert(out@ =~= old(out)@ + binary_digits(b as nat));
}

} // verus!
