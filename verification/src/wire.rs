//! Byte strings on the wire: a length in four bytes, lowest first, then
//! that many bytes.

use borsh::BorshDeserialize;
use vstd::arithmetic::div_mod::lemma_fundamental_div_mod_converse;
use vstd::prelude::*;

verus! {

/// The length that the first four bytes of `input` announce.
pub open spec fn announced_len(input: Seq<u8>) -> int
    recommends
        input.len() >= 4,
{
    input[0] as int + 0x100 * (input[1] as int) + 0x1_0000 * (input[2] as int) + 0x100_0000 * (
    input[3] as int)
}

/// The four bytes that announce the length `len`.
pub open spec fn length_bytes(len: int) -> Seq<u8>
    recommends
        0 <= len <= u32::MAX,
{
    seq![
        (len % 0x100) as u8,
        (len / 0x100 % 0x100) as u8,
        (len / 0x1_0000 % 0x100) as u8,
        (len / 0x100_0000 % 0x100) as u8,
    ]
}

/// One byte string taken off the front of `input`, and what follows it.
/// `None` where the length is cut short or announces more than is there.
pub open spec fn take_bytes(input: Seq<u8>) -> Option<(Seq<u8>, Seq<u8>)> {
    if input.len() >= 4 && 4 + announced_len(input) <= input.len() {
        Some(
            (
                input.subrange(4, 4 + announced_len(input)),
                input.skip(4 + announced_len(input)),
            ),
        )
    } else {
        None
    }
}

/// Whether a byte string is short enough for its length to be announced.
pub open spec fn fits(bytes: Seq<u8>) -> bool {
    bytes.len() <= u32::MAX
}

/// A byte string as it stands on the wire.
pub open spec fn put_bytes(bytes: Seq<u8>) -> Seq<u8>
    recommends
        fits(bytes),
{
    length_bytes(bytes.len() as int) + bytes
}

/// The four length bytes of a length announce that length.
pub proof fn lemma_length_is_announced(len: int)
    requires
        0 <= len <= u32::MAX,
    ensures
        announced_len(length_bytes(len)) == len,
{
    let q1 = len / 0x100;
    let q2 = q1 / 0x100;
    let q3 = q2 / 0x100;
    let (b0, b1, b2) = (len % 0x100, q1 % 0x100, q2 % 0x100);
    assert(len == q1 * 0x100 + b0 && q1 == q2 * 0x100 + b1 && q2 == q3 * 0x100 + b2);
    assert(0 <= q3 < 0x100);
    lemma_fundamental_div_mod_converse(len, 0x1_0000, q2, b1 * 0x100 + b0);
    lemma_fundamental_div_mod_converse(len, 0x100_0000, q3, b2 * 0x1_0000 + b1 * 0x100 + b0);
    lemma_fundamental_div_mod_converse(q3, 0x100, 0, q3);
    let bytes = length_bytes(len);
    assert(bytes[0] == b0 && bytes[1] == b1 && bytes[2] == b2 && bytes[3] == q3);
}

/// Four bytes are the length bytes of the length that they announce.
pub proof fn lemma_announced_is_length(prefix: Seq<u8>)
    requires
        prefix.len() == 4,
    ensures
        0 <= announced_len(prefix) <= u32::MAX,
        length_bytes(announced_len(prefix)) == prefix,
{
    let (b0, b1, b2, b3) = (prefix[0] as int, prefix[1] as int, prefix[2] as int, prefix[3] as int);
    let len = announced_len(prefix);
    assert(len == b0 + 0x100 * b1 + 0x1_0000 * b2 + 0x100_0000 * b3);
    lemma_fundamental_div_mod_converse(len, 0x100, b1 + 0x100 * b2 + 0x1_0000 * b3, b0);
    lemma_fundamental_div_mod_converse(b1 + 0x100 * b2 + 0x1_0000 * b3, 0x100, b2 + 0x100 * b3, b1);
    lemma_fundamental_div_mod_converse(len, 0x1_0000, b2 + 0x100 * b3, b0 + 0x100 * b1);
    lemma_fundamental_div_mod_converse(b2 + 0x100 * b3, 0x100, b3, b2);
    lemma_fundamental_div_mod_converse(len, 0x100_0000, b3, b0 + 0x100 * b1 + 0x1_0000 * b2);
    lemma_fundamental_div_mod_converse(b3, 0x100, 0, b3);
    let bytes = length_bytes(len);
    assert(bytes[0] == prefix[0] && bytes[1] == prefix[1] && bytes[2] == prefix[2] && bytes[3]
        == prefix[3]);
    assert(bytes =~= prefix);
}

/// What was put on the wire is taken off it again, whatever follows.
pub proof fn lemma_take_put(bytes: Seq<u8>, rest: Seq<u8>)
    requires
        fits(bytes),
    ensures
        take_bytes(put_bytes(bytes) + rest) == Some((bytes, rest)),
{
    let input = put_bytes(bytes) + rest;
    lemma_length_is_announced(bytes.len() as int);
    assert(announced_len(input) == announced_len(length_bytes(bytes.len() as int)));
    assert(input.subrange(4, 4 + bytes.len() as int) =~= bytes);
    assert(input.skip(4 + bytes.len() as int) =~= rest);
}

/// What is taken off the wire is what was put there, followed by the rest.
pub proof fn lemma_put_take(input: Seq<u8>)
    ensures
        take_bytes(input) matches Some((bytes, rest)) ==> fits(bytes) && input == put_bytes(bytes)
            + rest,
{
    if let Some((bytes, rest)) = take_bytes(input) {
        let prefix = input.subrange(0, 4);
        lemma_announced_is_length(prefix);
        assert(announced_len(prefix) == announced_len(input));
        assert(input =~= prefix + bytes + rest);
    }
}

/// `<Vec<u8> as borsh::BorshDeserialize>::deserialize`, on a slice: it reads
/// a `u32` length, lowest byte first, and then that many bytes, and moves the
/// slice past what it read. It fails where the slice ends before the length
/// or before the last announced byte. The second part of the result is the
/// number of bytes left unread.
#[verifier::external_body]
pub(crate) fn borsh_take_bytes(input: &[u8]) -> (taken: Option<(Vec<u8>, usize)>)
    ensures
        taken is Some <==> take_bytes(input@) is Some,
        taken matches Some((bytes, left)) ==> left <= input@.len() && take_bytes(input@) == Some(
            (bytes@, input@.skip(input@.len() - left)),
        ),
{
    let mut rest: &[u8] = input;
    match Vec::<u8>::deserialize(&mut rest) {
        Ok(bytes) => Some((bytes, rest.len())),
        Err(_) => None,
    }
}

} // verus!
