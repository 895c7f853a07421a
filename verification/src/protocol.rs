//! Protocol version negotiation with MCP clients.

use vstd::prelude::*;

use crate::text::{chars_of, owned};

verus! {

/// `a` sorts after `b` in the lexicographic order of character codes (the
/// order of `str` comparison).
pub open spec fn sorts_after(a: Seq<char>, b: Seq<char>) -> bool
    decreases a.len(),
{
    if a.len() == 0 {
        false
    } else if b.len() == 0 {
        true
    } else if a[0] != b[0] {
        (a[0] as u32) > (b[0] as u32)
    } else {
        sorts_after(a.drop_first(), b.drop_first())
    }
}

/// Whether `a[i..]` sorts after `b[i..]`.
fn sorts_after_from(a: &Vec<char>, b: &Vec<char>, i: usize) -> (r: bool)
    requires
        i <= a@.len(),
        i <= b@.len(),
    ensures
        r == sorts_after(a@.skip(i as int), b@.skip(i as int)),
    decreases a@.len() - i,
{
    if i == a.len() {
        return false;
    }
    if i == b.len() {
        return true;
    }
    proof {
        assert(a@.skip(i as int)[0] == a@[i as int]);
        assert(b@.skip(i as int)[0] == b@[i as int]);
        assert(a@.skip(i as int).drop_first() == a@.skip(i + 1));
        assert(b@.skip(i as int).drop_first() == b@.skip(i + 1));
    }
    if a[i] != b[i] {
        return (a[i] as u32) > (b[i] as u32);
    }
    sorts_after_from(a, b, i + 1)
}

/// The protocol version to answer a client with: ours when the client's
/// sorts after it (the client is newer), else the client's.
pub fn negotiate_protocol_version(client_version: &str, our_max: &str) -> (r: String)
    ensures
        r@ == if sorts_after(client_version@, our_max@) {
            our_max@
        } else {
            client_version@
        },
{
    let a = chars_of(client_version);
    let b = chars_of(our_max);
    proof {
        assert(a@.skip(0) == a@);
        assert(b@.skip(0) == b@);
    }
    if sorts_after_from(&a, &b, 0) {
        owned(our_max)
    } else {
        owned(client_version)
    }
}

} // verus!
