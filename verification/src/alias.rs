//! Email alias derivation.
//!
//! Each batch index gets its own alias built from the mailbox user name by
//! plus-addressing: `user` `+` `postfix` `NNN` `@gmail.com`, where `NNN` is
//! the index in decimal, left-padded with zeros to at least three digits
//! (wider indices keep all their digits).

use vstd::prelude::*;

use crate::bytes::appended;

verus! {

/// Decimal representation of `n`, most significant digit first, with no
/// leading zeros (a single `0` for zero).
pub open spec fn dec_rep(n: nat) -> Seq<u8>
    decreases n,
{
    if n < 10 {
        seq![(48 + n) as u8]
    } else {
        dec_rep(n / 10).push((48 + n % 10) as u8)
    }
}

/// Numeric value of a digit string, most significant digit first.
pub open spec fn dec_value(s: Seq<u8>) -> int
    decreases s.len(),
{
    if s.len() == 0 {
        0
    } else {
        dec_value(s.drop_last()) * 10 + (s.last() - 48)
    }
}

/// Law: the decimal digits of `n` denote `n` itself, each a digit byte.
pub proof fn lemma_dec_rep_value(n: nat)
    ensures
        dec_value(dec_rep(n)) == n,
        dec_rep(n).len() >= 1,
        forall|k: int| 0 <= k < dec_rep(n).len() ==> 48 <= #[trigger] dec_rep(n)[k] <= 57,
    decreases n,
{
    if n < 10 {
        assert(dec_rep(n).drop_last() =~= Seq::<u8>::empty());
        assert(dec_value(Seq::<u8>::empty()) == 0);
        assert(dec_rep(n).last() == (48 + n) as u8);
    } else {
        lemma_dec_rep_value(n / 10);
        assert(dec_rep(n).drop_last() =~= dec_rep(n / 10));
        assert(dec_rep(n).last() == (48 + n % 10) as u8);
        assert(dec_value(dec_rep(n)) == dec_value(dec_rep(n / 10)) * 10 + (dec_rep(n).last()
            - 48));
        assert(n / 10 * 10 + n % 10 == n);
        assert forall|k: int| 0 <= k < dec_rep(n).len() implies 48 <= #[trigger] dec_rep(n)[k]
            <= 57 by {
            if k < dec_rep(n / 10).len() {
                assert(dec_rep(n)[k] == dec_rep(n / 10)[k]);
            }
        }
    }
}

/// `n` in decimal, left-padded with `0` to at least three digits.
pub open spec fn padded_rep(n: nat) -> Seq<u8> {
    if dec_rep(n).len() >= 3 {
        dec_rep(n)
    } else {
        Seq::new((3 - dec_rep(n).len()) as nat, |i: int| 48u8) + dec_rep(n)
    }
}

/// The fixed domain every alias ends with.
pub open spec fn domain_suffix() -> Seq<u8> {
    seq![64u8, 103u8, 109u8, 97u8, 105u8, 108u8, 46u8, 99u8, 111u8, 109u8]
}

/// The alias for one batch index.
pub open spec fn alias_spec(user: Seq<u8>, postfix: Seq<u8>, num: u32) -> Seq<u8> {
    user + seq![43u8] + postfix + padded_rep(num as nat) + domain_suffix()
}

/// Decimal digits of `n`, most significant first.
pub fn dec_digits(n: u32) -> (r: Vec<u8>)
    ensures
        r@ == dec_rep(n as nat),
    decreases n,
{
    if n < 10 {
        let mut v: Vec<u8> = Vec::new();
        v.push(48 + (n as u8));
        proof {
            assert(v@ =~= dec_rep(n as nat));
        }
        v
    } else {
        let mut v = dec_digits(n / 10);
        v.push(48 + ((n % 10) as u8));
        proof {
            assert(v@ =~= dec_rep(n as nat));
        }
        v
    }
}

/// `n` in decimal, left-padded with zeros to at least three digits.
pub fn padded_index(n: u32) -> (r: Vec<u8>)
    ensures
        r@ == padded_rep(n as nat),
{
    let d = dec_digits(n);
    if d.len() >= 3 {
        d
    } else {
        let target: usize = 3 - d.len();
        let mut v: Vec<u8> = Vec::new();
        while v.len() < target
            invariant
                v@.len() <= target,
                forall|k: int| 0 <= k < v@.len() ==> v@[k] == 48u8,
            decreases target - v.len(),
        {
            v.push(48);
        }
        let v = appended(v, &d);
        proof {
            assert(v@ =~= padded_rep(n as nat));
        }
        v
    }
}

/// Builds the alias `user+postfixNNN@gmail.com` for one batch index.
pub fn derive_alias(user: &Vec<u8>, postfix: &Vec<u8>, num: u32) -> (r: Vec<u8>)
    ensures
        r@ == alias_spec(user@, postfix@, num),
{
    let mut v: Vec<u8> = Vec::new();
    let v = appended(v, user);
    let mut v = v;
    v.push(43);
    let v = appended(v, postfix);
    let p = padded_index(num);
    let mut v = appended(v, &p);
    v.push(64);
    v.push(103);
    v.push(109);
    v.push(97);
    v.push(105);
    v.push(108);
    v.push(46);
    v.push(99);
    v.push(111);
    v.push(109);
    proof {
        assert(v@ =~= alias_spec(user@, postfix@, num));
    }
    v
}

} // verus!
