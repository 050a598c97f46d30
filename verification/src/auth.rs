//! The XOAUTH2 initial client response.
//!
//! The mailbox authenticates with a bearer token over a SASL-style
//! exchange. The client's one response line has a fixed shape:
//! `user=` *user* `^A` `auth=Bearer ` *token* `^A^A`, where `^A` is the
//! byte 0x01. This module builds that line from the identity and the token.

use vstd::prelude::*;

use crate::bytes::appended;

verus! {

/// `user=`
pub open spec fn user_tag() -> Seq<u8> {
    seq![117u8, 115u8, 101u8, 114u8, 61u8]
}

/// `auth=Bearer `
pub open spec fn bearer_tag() -> Seq<u8> {
    seq![97u8, 117u8, 116u8, 104u8, 61u8, 66u8, 101u8, 97u8, 114u8, 101u8, 114u8, 32u8]
}

/// The whole response line for a given identity and token.
pub open spec fn xoauth2_spec(user: Seq<u8>, token: Seq<u8>) -> Seq<u8> {
    user_tag() + user + seq![1u8] + bearer_tag() + token + seq![1u8, 1u8]
}

/// Builds the XOAUTH2 response line.
pub fn xoauth2_response(user: &Vec<u8>, token: &Vec<u8>) -> (r: Vec<u8>)
    ensures
        r@ == xoauth2_spec(user@, token@),
{
    let mut v: Vec<u8> = Vec::new();
    v.push(117);
    v.push(115);
    v.push(101);
    v.push(114);
    v.push(61);
    let mut v = appended(v, user);
    v.push(1);
    v.push(97);
    v.push(117);
    v.push(116);
    v.push(104);
    v.push(61);
    v.push(66);
    v.push(101);
    v.push(97);
    v.push(114);
    v.push(101);
    v.push(114);
    v.push(32);
    let mut v = appended(v, token);
    v.push(1);
    v.push(1);
    proof {
        assert(v@ =~= xoauth2_spec(user@, token@));
    }
    v
}

} // verus!
