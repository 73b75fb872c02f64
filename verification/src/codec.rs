//! Wire format of the cross-chain recovery message.
//!
//! A message is 73 bytes: the target vault identity (32 bytes), the proposed
//! new owner (32 bytes), the fencing token (8 bytes, little-endian), and one
//! action tag byte (0 = initiate, 1 = approve).  Encoding and decoding are
//! exact inverses, so a message round-trips through the transport unchanged.

use vstd::prelude::*;
use crate::ids::AccountId;

verus! {

/// What an inbound or outbound recovery message asks for.
#[derive(Clone, Copy, PartialEq, Eq, Structural, Debug)]
pub enum RecoveryAction {
    Initiate,
    Approve,
}

/// The cross-chain payload: which vault, which proposed owner, which
/// recovery round, and what to do.
#[derive(Clone, Copy, PartialEq, Eq, Structural, Debug)]
pub struct RecoveryMessage {
    pub vault_id: AccountId,
    pub new_owner: AccountId,
    pub recovery_id: u64,
    pub action: RecoveryAction,
}

/// Encoded length of every recovery message.
pub const MESSAGE_LEN: usize = 73;

/// The eight little-endian bytes of `x`.
pub open spec fn u64_le(x: u64) -> Seq<u8> {
    seq![
        (x & 0xff) as u8,
        ((x >> 8) & 0xff) as u8,
        ((x >> 16) & 0xff) as u8,
        ((x >> 24) & 0xff) as u8,
        ((x >> 32) & 0xff) as u8,
        ((x >> 40) & 0xff) as u8,
        ((x >> 48) & 0xff) as u8,
        ((x >> 56) & 0xff) as u8,
    ]
}

/// The 64-bit word read little-endian from the first eight bytes of `s`.
pub open spec fn dec_u64(s: Seq<u8>) -> u64
    recommends
        s.len() >= 8,
{
    ((s[0] as u64) | ((s[1] as u64) << 8) | ((s[2] as u64) << 16) | ((s[3] as u64) << 24)
        | ((s[4] as u64) << 32) | ((s[5] as u64) << 40) | ((s[6] as u64) << 48) | ((
    s[7] as u64) << 56)) as u64
}

/// The 32 bytes of an identity, word by word.
pub open spec fn id_le(a: AccountId) -> Seq<u8> {
    u64_le(a.w0) + u64_le(a.w1) + u64_le(a.w2) + u64_le(a.w3)
}

/// The identity read from the first 32 bytes of `s`.
pub open spec fn dec_id(s: Seq<u8>) -> AccountId
    recommends
        s.len() >= 32,
{
    AccountId {
        w0: dec_u64(s.subrange(0, 8)),
        w1: dec_u64(s.subrange(8, 16)),
        w2: dec_u64(s.subrange(16, 24)),
        w3: dec_u64(s.subrange(24, 32)),
    }
}

/// The tag byte of an action.
pub open spec fn action_tag(a: RecoveryAction) -> u8 {
    if a is Initiate {
        0u8
    } else {
        1u8
    }
}

/// The encoded form of a message.
pub open spec fn message_bytes(m: RecoveryMessage) -> Seq<u8> {
    id_le(m.vault_id) + id_le(m.new_owner) + u64_le(m.recovery_id) + seq![action_tag(m.action)]
}

/// The message a byte string decodes to, if any: exactly the 73-byte strings
/// with a valid tag byte decode, and to a unique message.
pub open spec fn message_of(b: Seq<u8>) -> Option<RecoveryMessage> {
    if b.len() == MESSAGE_LEN && (b[72] == 0u8 || b[72] == 1u8) {
        Some(
            RecoveryMessage {
                vault_id: dec_id(b.subrange(0, 32)),
                new_owner: dec_id(b.subrange(32, 64)),
                recovery_id: dec_u64(b.subrange(64, 72)),
                action: if b[72] == 0u8 {
                    RecoveryAction::Initiate
                } else {
                    RecoveryAction::Approve
                },
            },
        )
    } else {
        Option::None
    }
}

/// Appends the little-endian bytes of `x`.
fn push_u64_le(out: &mut Vec<u8>, x: u64)
    ensures
        final(out)@ == old(out)@ + u64_le(x),
{
    out.push((x & 0xff) as u8);
    out.push(((x >> 8) & 0xff) as u8);
    out.push(((x >> 16) & 0xff) as u8);
    out.push(((x >> 24) & 0xff) as u8);
    out.push(((x >> 32) & 0xff) as u8);
    out.push(((x >> 40) & 0xff) as u8);
    out.push(((x >> 48) & 0xff) as u8);
    out.push(((x >> 56) & 0xff) as u8);
    proof {
        assert(out@ =~= old(out)@ + u64_le(x));
    }
}

/// Reads the 64-bit word stored little-endian at `off`.
fn read_u64_le(b: &Vec<u8>, off: usize) -> (r: u64)
    requires
        off + 8 <= b@.len(),
    ensures
        r == dec_u64(b@.subrange(off as int, off as int + 8)),
{
    let n: usize = b.len();
    let r = (b[off] as u64) | ((b[off + 1] as u64) << 8u64) | ((b[off + 2] as u64) << 16u64) | ((
    b[off + 3] as u64) << 24u64) | ((b[off + 4] as u64) << 32u64) | ((b[off + 5] as u64) << 40u64)
        | ((b[off + 6] as u64) << 48u64) | ((b[off + 7] as u64) << 56u64);
    proof {
        let s = b@.subrange(off as int, off as int + 8);
        assert(s[0] == b@[off as int] && s[1] == b@[off as int + 1] && s[2] == b@[off as int + 2]
            && s[3] == b@[off as int + 3] && s[4] == b@[off as int + 4] && s[5] == b@[off as int
            + 5] && s[6] == b@[off as int + 6] && s[7] == b@[off as int + 7]);
    }
    r
}

/// Reads the identity stored at `off`.
fn read_id(b: &Vec<u8>, off: usize) -> (r: AccountId)
    requires
        off + 32 <= b@.len(),
    ensures
        r == dec_id(b@.subrange(off as int, off as int + 32)),
{
    let n: usize = b.len();
    let w0 = read_u64_le(b, off);
    let w1 = read_u64_le(b, off + 8);
    let w2 = read_u64_le(b, off + 16);
    let w3 = read_u64_le(b, off + 24);
    proof {
        let s = b@.subrange(off as int, off as int + 32);
        assert(s.subrange(0, 8) =~= b@.subrange(off as int, off as int + 8));
        assert(s.subrange(8, 16) =~= b@.subrange(off as int + 8, off as int + 16));
        assert(s.subrange(16, 24) =~= b@.subrange(off as int + 16, off as int + 24));
        assert(s.subrange(24, 32) =~= b@.subrange(off as int + 24, off as int + 32));
    }
    AccountId { w0, w1, w2, w3 }
}

/// Serializes a message into its 73-byte wire form.
pub fn encode_message(m: &RecoveryMessage) -> (r: Vec<u8>)
    ensures
        r@ == message_bytes(*m),
{
    let mut out: Vec<u8> = Vec::new();
    push_u64_le(&mut out, m.vault_id.w0);
    push_u64_le(&mut out, m.vault_id.w1);
    push_u64_le(&mut out, m.vault_id.w2);
    push_u64_le(&mut out, m.vault_id.w3);
    push_u64_le(&mut out, m.new_owner.w0);
    push_u64_le(&mut out, m.new_owner.w1);
    push_u64_le(&mut out, m.new_owner.w2);
    push_u64_le(&mut out, m.new_owner.w3);
    push_u64_le(&mut out, m.recovery_id);
    let tag: u8 = match m.action {
        RecoveryAction::Initiate => 0u8,
        RecoveryAction::Approve => 1u8,
    };
    out.push(tag);
    proof {
        assert(out@ =~= message_bytes(*m));
    }
    out
}

/// Parses a wire payload; `Option::None` exactly on malformed input (wrong
/// length or unknown tag byte).
pub fn decode_message(b: &Vec<u8>) -> (r: Option<RecoveryMessage>)
    ensures
        r == message_of(b@),
{
    if b.len() != MESSAGE_LEN {
        return Option::None;
    }
    let tag = b[72];
    if tag != 0u8 && tag != 1u8 {
        return Option::None;
    }
    let vault_id = read_id(b, 0);
    let new_owner = read_id(b, 32);
    let recovery_id = read_u64_le(b, 64);
    proof {
        assert(b@.subrange(0, 32) =~= b@.subrange(0int, 0int + 32));
        assert(b@.subrange(32, 64) =~= b@.subrange(32int, 32int + 32));
        assert(b@.subrange(64, 72) =~= b@.subrange(64int, 64int + 8));
    }
    Some(
        RecoveryMessage {
            vault_id,
            new_owner,
            recovery_id,
            action: if tag == 0u8 {
                RecoveryAction::Initiate
            } else {
                RecoveryAction::Approve
            },
        },
    )
}

/// Little-endian byte extraction and reassembly are inverses.
proof fn lemma_u64_round(x: u64)
    ensures
        dec_u64(u64_le(x)) == x,
{
    assert(((((x & 0xff) as u8) as u64) | (((((x >> 8) & 0xff) as u8) as u64) << 8) | (((((x >> 16)
        & 0xff) as u8) as u64) << 16) | (((((x >> 24) & 0xff) as u8) as u64) << 24) | (((((x >> 32)
        & 0xff) as u8) as u64) << 32) | (((((x >> 40) & 0xff) as u8) as u64) << 40) | (((((x >> 48)
        & 0xff) as u8) as u64) << 48) | (((((x >> 56) & 0xff) as u8) as u64) << 56)) == x)
        by (bit_vector);
}

/// Identity encoding and decoding are inverses.
proof fn lemma_id_round(a: AccountId)
    ensures
        dec_id(id_le(a)) == a,
{
    let s = id_le(a);
    assert(s.subrange(0, 8) =~= u64_le(a.w0));
    assert(s.subrange(8, 16) =~= u64_le(a.w1));
    assert(s.subrange(16, 24) =~= u64_le(a.w2));
    assert(s.subrange(24, 32) =~= u64_le(a.w3));
    lemma_u64_round(a.w0);
    lemma_u64_round(a.w1);
    lemma_u64_round(a.w2);
    lemma_u64_round(a.w3);
}

/// Every message round-trips through the wire format unchanged.
#[verifier::rlimit(50)]
pub proof fn lemma_message_round_trip(m: RecoveryMessage)
    ensures
        message_of(message_bytes(m)) == Some(m),
{
    let b = message_bytes(m);
    assert(b.len() == 73);
    assert(b[72] == action_tag(m.action));
    assert(b.subrange(0, 32) =~= id_le(m.vault_id));
    assert(b.subrange(32, 64) =~= id_le(m.new_owner));
    assert(b.subrange(64, 72) =~= u64_le(m.recovery_id));
    lemma_id_round(m.vault_id);
    lemma_id_round(m.new_owner);
    lemma_u64_round(m.recovery_id);
}

/// Reassembling eight bytes and extracting them again gives the bytes back.
proof fn lemma_u64_complete(s: Seq<u8>)
    requires
        s.len() == 8,
    ensures
        u64_le(dec_u64(s)) =~= s,
{
    let b0 = s[0];
    let b1 = s[1];
    let b2 = s[2];
    let b3 = s[3];
    let b4 = s[4];
    let b5 = s[5];
    let b6 = s[6];
    let b7 = s[7];
    let x = dec_u64(s);
    assert(x == (b0 as u64) | ((b1 as u64) << 8) | ((b2 as u64) << 16) | ((b3 as u64) << 24) | ((
    b4 as u64) << 32) | ((b5 as u64) << 40) | ((b6 as u64) << 48) | ((b7 as u64) << 56));
    assert({
        let y = (b0 as u64) | ((b1 as u64) << 8) | ((b2 as u64) << 16) | ((b3 as u64) << 24) | ((
        b4 as u64) << 32) | ((b5 as u64) << 40) | ((b6 as u64) << 48) | ((b7 as u64) << 56);
        &&& (y & 0xff) as u8 == b0
        &&& ((y >> 8) & 0xff) as u8 == b1
        &&& ((y >> 16) & 0xff) as u8 == b2
        &&& ((y >> 24) & 0xff) as u8 == b3
        &&& ((y >> 32) & 0xff) as u8 == b4
        &&& ((y >> 40) & 0xff) as u8 == b5
        &&& ((y >> 48) & 0xff) as u8 == b6
        &&& ((y >> 56) & 0xff) as u8 == b7
    }) by (bit_vector);
}

/// The 32-byte form of the identity read from `s` is `s` itself.
proof fn lemma_id_complete(s: Seq<u8>)
    requires
        s.len() == 32,
    ensures
        id_le(dec_id(s)) =~= s,
{
    lemma_u64_complete(s.subrange(0, 8));
    lemma_u64_complete(s.subrange(8, 16));
    lemma_u64_complete(s.subrange(16, 24));
    lemma_u64_complete(s.subrange(24, 32));
}

/// The decoder accepts only canonical encodings: whatever byte string it
/// accepts is exactly the wire form of the message it returns, so distinct
/// accepted payloads decode to distinct messages.
#[verifier::rlimit(50)]
pub proof fn lemma_decode_exact(b: Seq<u8>, m: RecoveryMessage)
    requires
        message_of(b) == Some(m),
    ensures
        message_bytes(m) == b,
{
    lemma_id_complete(b.subrange(0, 32));
    lemma_id_complete(b.subrange(32, 64));
    lemma_u64_complete(b.subrange(64, 72));
    assert(message_bytes(m) =~= b);
}

} // verus!
