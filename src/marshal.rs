use vstd::prelude::*;
use vstd::slice::slice_subrange;
use vstd::string::StringSliceAdditionalSpecFns;
use vstd::utf8::{decode_utf8, encode_utf8, is_scalar, valid_utf8};

use crate::metrics::Position;

verus! {

/// A callback that terminated abnormally while answering a query.
#[derive(Clone, Copy, Debug, PartialEq, Eq, Structural)]
pub struct Fault;

/// What a query answers at the engine boundary, given how its callback
/// ended: the answer itself, or no data where the callback faulted.
pub open spec fn settled<R>(outcome: Result<Option<R>, Fault>) -> Option<R> {
    match outcome {
        Ok(answer) => answer,
        Err(_) => None,
    }
}

/// The fault barrier for queries that answer with an optional value: a
/// fault becomes "no data", and is never handed on.
pub fn contain<R>(outcome: Result<Option<R>, Fault>) -> (r: Option<R>)
    ensures
        r == settled(outcome),
{
    match outcome {
        Ok(answer) => answer,
        Err(_) => None,
    }
}

/// The fault barrier for advance queries, which answer with a bare
/// distance: a fault becomes zero.
pub fn contain_advance(outcome: Result<Position, Fault>) -> (r: Position)
    ensures
        r == match outcome {
            Ok(v) => v,
            Err(_) => 0,
        },
{
    match outcome {
        Ok(v) => v,
        Err(_) => 0,
    }
}

/// The engine's boolean: 1 where the query has an answer to store, else 0.
pub fn success_flag<R>(answer: &Option<R>) -> (r: i32)
    ensures
        r == (if answer is Some { 1i32 } else { 0i32 }),
{
    match answer {
        Some(_) => 1,
        None => 0,
    }
}

/// Relies on `char::from_u32`: `Some` exactly for a Unicode scalar value,
/// holding the character with that value.
#[verifier::external_body]
fn char_from_u32(u: u32) -> (r: Option<char>)
    ensures
        r is Some <==> is_scalar(u),
        r matches Some(c) ==> c as u32 == u,
{
    char::from_u32(u)
}

/// Decodes a code point handed over by the engine. A value that is no
/// Unicode scalar value is no character: the query then has no data, and the
/// callback is not called.
pub fn decode_codepoint(u: u32) -> (r: Option<char>)
    ensures
        r is Some <==> is_scalar(u),
        r matches Some(c) ==> c as u32 == u,
{
    char_from_u32(u)
}

/// Relies on `std::str::from_utf8`: the bytes as text exactly where they are
/// valid UTF-8.
#[verifier::external_body]
fn utf8_str<'a>(b: &'a [u8]) -> (r: Option<&'a str>)
    ensures
        r is Some <==> valid_utf8(b@),
        r matches Some(s) ==> s@ == decode_utf8(b@),
{
    std::str::from_utf8(b).ok()
}

/// `k` is the index of the first zero byte of `b`.
pub open spec fn is_first_nul(b: Seq<u8>, k: int) -> bool {
    &&& 0 <= k < b.len()
    &&& b[k] == 0
    &&& forall|j: int| 0 <= j < k ==> b[j] != 0
}

/// Index of the first zero byte of `b`, if any.
pub open spec fn first_nul(b: Seq<u8>) -> Option<int> {
    if exists|k: int| is_first_nul(b, k) {
        Some(choose|k: int| is_first_nul(b, k))
    } else {
        None
    }
}

/// The bytes that make a name handed over by the engine, read from `region`
/// with the engine's length `size`: up to the first zero byte where `size`
/// is -1, the first `size` bytes where it is positive, none otherwise.
pub open spec fn name_bytes(region: Seq<u8>, size: int) -> Option<Seq<u8>> {
    if size == -1 {
        match first_nul(region) {
            Some(k) => Some(region.subrange(0, k)),
            None => None,
        }
    } else if 1 <= size <= region.len() {
        Some(region.subrange(0, size))
    } else {
        None
    }
}

/// Decodes a glyph name handed over by the engine: the bytes that
/// `name_bytes` picks, read as UTF-8. Where there are none, or they are no
/// valid UTF-8, the query has no data and the callback is not called.
pub fn decode_name<'a>(region: &'a [u8], size: i32) -> (r: Option<&'a str>)
    ensures
        r is Some <==> (name_bytes(region@, size as int) matches Some(b) && valid_utf8(b)),
        r matches Some(s) ==> s@ == decode_utf8(name_bytes(region@, size as int)->Some_0),
{
    if size == -1 {
        let mut k: usize = 0;
        while k < region.len()
            invariant
                size == -1,
                k <= region@.len(),
                forall|j: int| 0 <= j < k ==> region@[j] != 0,
            decreases region@.len() - k,
        {
            if region[k] == 0 {
                let bytes = slice_subrange(region, 0, k);
                proof {
                    let b = region@;
                    assert(is_first_nul(b, k as int));
                    let c = first_nul(b)->Some_0;
                    assert(c == k) by {
                        if c < k {
                            assert(b[c] != 0);
                        } else if c > k {
                            assert(b[k as int] != 0);
                        }
                    }
                    assert(bytes@ == b.subrange(0, k as int));
                }
                return utf8_str(bytes);
            }
            k = k + 1;
        }
        None
    } else if size >= 1 && (size as usize) <= region.len() {
        let bytes = slice_subrange(region, 0, size as usize);
        utf8_str(bytes)
    } else {
        None
    }
}

/// What a name query writes into the engine's buffer, and whether it
/// succeeded.
#[derive(Debug, PartialEq, Eq)]
pub struct NameReply {
    pub ok: bool,
    pub bytes: Vec<u8>,
}

/// The buffer contents for a name query, given how its callback ended and the
/// buffer's capacity: the name's UTF-8 bytes and a closing zero where the
/// name holds no zero byte and fits; otherwise a lone zero byte, the empty
/// string, where the buffer has room for it, and nothing where it has none.
pub open spec fn name_reply(
    outcome: Result<Option<String>, Fault>,
    capacity: int,
) -> (bool, Seq<u8>) {
    match settled(outcome) {
        Some(s) => if name_fits(s@, capacity) {
            (true, encode_utf8(s@).push(0u8))
        } else {
            (false, empty_name(capacity))
        },
        None => (false, empty_name(capacity)),
    }
}

/// A name can be handed over where its UTF-8 bytes hold no zero byte and
/// leave room for the closing zero in a buffer of `capacity` bytes.
pub open spec fn name_fits(name: Seq<char>, capacity: int) -> bool {
    !encode_utf8(name).contains(0u8) && encode_utf8(name).len() + 1 <= capacity
}

/// The empty string in a buffer of `capacity` bytes: one zero byte, or
/// nothing where the buffer has no room at all.
pub open spec fn empty_name(capacity: int) -> Seq<u8> {
    if capacity >= 1 {
        seq![0u8]
    } else {
        Seq::empty()
    }
}

/// Encodes the answer of a name query for a buffer of `capacity` bytes.
pub fn encode_name(outcome: Result<Option<String>, Fault>, capacity: u32) -> (r: NameReply)
    ensures
        (r.ok, r.bytes@) == name_reply(outcome, capacity as int),
{
    let ghost spec_outcome = outcome;
    let answer = contain(outcome);
    let failed = NameReply {
        ok: false,
        bytes: if capacity >= 1 {
            vec![0u8]
        } else {
            Vec::new()
        },
    };
    proof {
        if capacity >= 1 {
            assert(failed.bytes@ =~= seq![0u8]);
        } else {
            assert(failed.bytes@ =~= Seq::<u8>::empty());
        }
        assert(failed.bytes@ == empty_name(capacity as int));
    }
    match answer {
        None => failed,
        Some(name) => {
            let b: &[u8] = name.as_str().as_bytes();
            if b.len() >= capacity as usize {
                return failed;
            }
            match nul_terminated(b) {
                Some(out) => NameReply { ok: true, bytes: out },
                None => failed,
            }
        },
    }
}

/// `b` followed by a closing zero byte, or `None` where `b` holds a zero
/// byte already.
fn nul_terminated(b: &[u8]) -> (r: Option<Vec<u8>>)
    ensures
        r is Some <==> !b@.contains(0u8),
        r matches Some(v) ==> v@ == b@.push(0u8),
{
    let mut out: Vec<u8> = Vec::new();
    let mut i: usize = 0;
    while i < b.len()
        invariant
            i <= b@.len(),
            out@ == b@.subrange(0, i as int),
            forall|j: int| 0 <= j < i ==> b@[j] != 0,
        decreases b@.len() - i,
    {
        if b[i] == 0 {
            assert(b@[i as int] == 0u8);
            return None;
        }
        out.push(b[i]);
        i = i + 1;
    }
    out.push(0u8);
    assert(out@ =~= b@.push(0u8));
    assert(!b@.contains(0u8)) by {
        if b@.contains(0u8) {
            let j = choose|j: int| 0 <= j < b@.len() && b@[j] == 0u8;
            assert(b@[j] != 0);
        }
    }
    Some(out)
}

} // verus!
