//! Wire encoding of snapshots.
//!
//! Each snapshot goes to a viewer as one JSON array of per-core
//! percentages, e.g. `[10.00,20.00]`: the percent integer part of
//! each load followed by exactly two fraction digits.

use crate::snapshot::MAX_CORE_LOAD;
use crate::snapshot::Snapshot;
use vstd::prelude::*;

verus! {

/// The ASCII digit for `d` (taken modulo ten).
pub open spec fn ascii_digit(d: nat) -> u8 {
    (48 + d % 10) as u8
}

/// The decimal digits of `n`, most significant first.
pub open spec fn dec_digits(n: nat) -> Seq<u8>
    decreases n,
{
    if n < 10 {
        seq![ascii_digit(n)]
    } else {
        dec_digits(n / 10).push(ascii_digit(n % 10))
    }
}

/// The JSON number for one load in hundredths of a percent: the
/// percent integer part, a dot, and two fraction digits.
pub open spec fn json_number(c: u32) -> Seq<u8> {
    dec_digits((c / 100) as nat) + seq![
        46u8,
        ascii_digit((c / 10 % 10) as nat),
        ascii_digit((c % 10) as nat),
    ]
}

/// The comma-separated JSON numbers of a measurement.
pub open spec fn json_items(s: Seq<u32>) -> Seq<u8>
    decreases s.len(),
{
    if s.len() == 0 {
        Seq::empty()
    } else if s.len() == 1 {
        json_number(s[0])
    } else {
        json_items(s.drop_last()) + seq![44u8] + json_number(s.last())
    }
}

/// The JSON array encoding a whole measurement.
pub open spec fn json_of(s: Seq<u32>) -> Seq<u8> {
    seq![91u8] + json_items(s) + seq![93u8]
}

/// Appends the decimal digits of a percent integer part.
fn push_digits(out: &mut Vec<u8>, n: u32)
    requires
        n <= 100,
    ensures
        final(out)@ == old(out)@ + dec_digits(n as nat),
{
    if n >= 100 {
        out.push(49);
        out.push(48);
        out.push(48);
        proof {
            assert(dec_digits(100) =~= seq![49u8, 48u8, 48u8]) by {
                reveal_with_fuel(dec_digits, 4);
            }
            assert(final(out)@ =~= old(out)@ + dec_digits(n as nat));
        }
    } else if n >= 10 {
        out.push((48 + n / 10) as u8);
        out.push((48 + n % 10) as u8);
        proof {
            assert(dec_digits(n as nat) =~= seq![
                ascii_digit((n / 10) as nat),
                ascii_digit((n % 10) as nat),
            ]) by {
                reveal_with_fuel(dec_digits, 3);
            }
            assert(final(out)@ =~= old(out)@ + dec_digits(n as nat));
        }
    } else {
        out.push((48 + n) as u8);
        proof {
            assert(final(out)@ =~= old(out)@ + dec_digits(n as nat));
        }
    }
}

/// Appends the JSON number for one load.
fn push_number(out: &mut Vec<u8>, c: u32)
    requires
        c <= MAX_CORE_LOAD,
    ensures
        final(out)@ == old(out)@ + json_number(c),
{
    push_digits(out, c / 100);
    out.push(46);
    out.push((48 + c / 10 % 10) as u8);
    out.push((48 + c % 10) as u8);
    proof {
        assert(final(out)@ =~= old(out)@ + json_number(c));
    }
}

/// Encodes a snapshot as the JSON array its viewers are sent.
pub fn encode_snapshot(snapshot: &Snapshot) -> (out: Vec<u8>)
    requires
        snapshot.wf(),
    ensures
        out@ == json_of(snapshot@),
{
    let mut out: Vec<u8> = Vec::new();
    out.push(91);
    let n: usize = snapshot.core_count();
    let mut i: usize = 0;
    while i < n
        invariant
            n == snapshot@.len(),
            snapshot.wf(),
            i <= n,
            out@ == seq![91u8] + json_items(snapshot@.take(i as int)),
        decreases n - i,
    {
        if i > 0 {
            out.push(44);
        }
        let c: u32 = snapshot.load_of(i);
        push_number(&mut out, c);
        proof {
            let taken = snapshot@.take(i + 1 as int);
            assert(taken.last() == snapshot@[i as int]);
            if i == 0 {
                assert(out@ =~= seq![91u8] + json_items(taken));
            } else {
                assert(taken.drop_last() =~= snapshot@.take(i as int));
                assert(out@ =~= seq![91u8] + json_items(taken));
            }
        }
        i = i + 1;
    }
    out.push(93);
    proof {
        assert(snapshot@.take(n as int) =~= snapshot@);
        assert(out@ =~= json_of(snapshot@));
    }
    out
}

} // verus!
