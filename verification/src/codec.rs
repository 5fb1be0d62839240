//! The binary wire protocol: opcode-tagged frames with big-endian 16-bit
//! light values. Strip levels travel inverted (`65535 - level`): on the
//! wire 0 is full brightness, a device quirk with no logical meaning.

use vstd::prelude::*;
use vstd::arithmetic::div_mod::lemma_fundamental_div_mod;
use crate::state::Strip;

verus! {

/// Opcode: push a static snapshot of all strip levels.
pub const OP_IMMEDIATE: u8 = 0x1;

/// Opcode: animate toward endpoint levels over a given start/length.
pub const OP_INTERPOLATE_FRAME: u8 = 0x2;

/// Opcode: cancel any pending interpolation.
pub const OP_NO_INTERPOLATE: u8 = 0x4;

/// Opcode: drive the relay; one payload byte, 255 for on, 0 for off.
pub const OP_RELAY_CONTROL: u8 = 0x5;

/// Opcode: ask the device for its one-byte animation status.
pub const OP_READ_STATUS: u8 = 0x6;

/// Big-endian bytes of a 16-bit word.
pub open spec fn be16(v: u16) -> Seq<u8> {
    seq![(v / 256) as u8, (v % 256) as u8]
}

/// Big-endian bytes of a 32-bit word.
pub open spec fn be32(v: u32) -> Seq<u8> {
    seq![
        (v / 0x1000000) as u8,
        ((v / 0x10000) % 256) as u8,
        ((v / 256) % 256) as u8,
        (v % 256) as u8,
    ]
}

/// Wire image of one strip group: the inverted cold level, then the
/// inverted warm level, each big-endian.
pub open spec fn strip_wire_bytes(s: Strip) -> Seq<u8> {
    be16((65535 - s.cold) as u16) + be16((65535 - s.warm) as u16)
}

/// Wire image of a strip list: each group's image in order.
pub open spec fn strips_wire_bytes(strips: Seq<Strip>) -> Seq<u8>
    decreases strips.len(),
{
    if strips.len() == 0 {
        Seq::empty()
    } else {
        strip_wire_bytes(strips[0]) + strips_wire_bytes(strips.drop_first())
    }
}

/// Levels read back off the wire: consecutive big-endian 16-bit pairs,
/// taken as they stand (no re-inversion), one [`Strip`] per 4 bytes.
pub open spec fn wire_strips_of(bytes: Seq<u8>) -> Seq<Strip>
    decreases bytes.len(),
{
    if bytes.len() < 4 {
        Seq::empty()
    } else {
        seq![
            Strip {
                cold: (bytes[0] * 256 + bytes[1]) as u16,
                warm: (bytes[2] * 256 + bytes[3]) as u16,
            },
        ] + wire_strips_of(bytes.skip(4))
    }
}

pub proof fn lemma_strips_wire_bytes_len(strips: Seq<Strip>)
    ensures
        strips_wire_bytes(strips).len() == 4 * strips.len(),
    decreases strips.len(),
{
    if strips.len() > 0 {
        lemma_strips_wire_bytes_len(strips.drop_first());
    }
}

/// The wire image of a concatenation is the concatenation of the images.
pub proof fn lemma_strips_wire_bytes_append(a: Seq<Strip>, b: Seq<Strip>)
    ensures
        strips_wire_bytes(a + b) == strips_wire_bytes(a) + strips_wire_bytes(b),
    decreases a.len(),
{
    if a.len() == 0 {
        assert(a + b =~= b);
        assert(strips_wire_bytes(a) + strips_wire_bytes(b) =~= strips_wire_bytes(b));
    } else {
        assert((a + b).drop_first() =~= a.drop_first() + b);
        lemma_strips_wire_bytes_append(a.drop_first(), b);
        assert(strip_wire_bytes(a[0]) + (strips_wire_bytes(a.drop_first()) + strips_wire_bytes(b))
            =~= (strip_wire_bytes(a[0]) + strips_wire_bytes(a.drop_first()))
            + strips_wire_bytes(b));
    }
}

/// Round trip through the Immediate payload: reading back the wire image
/// of a strip list recovers, for every group, exactly the inverted levels
/// `65535 - cold` and `65535 - warm` — the inversion, not the original.
pub proof fn lemma_immediate_round_trip(strips: Seq<Strip>)
    ensures
        wire_strips_of(strips_wire_bytes(strips)) =~= strips.map_values(
            |s: Strip| Strip {
                cold: (65535 - s.cold) as u16,
                warm: (65535 - s.warm) as u16,
            },
        ),
    decreases strips.len(),
{
    let bytes = strips_wire_bytes(strips);
    lemma_strips_wire_bytes_len(strips);
    if strips.len() > 0 {
        let ic = (65535 - strips[0].cold) as u16;
        let iw = (65535 - strips[0].warm) as u16;
        lemma_fundamental_div_mod(ic as int, 256);
        lemma_fundamental_div_mod(iw as int, 256);
        assert(bytes[0] * 256 + bytes[1] == ic);
        assert(bytes[2] * 256 + bytes[3] == iw);
        lemma_immediate_round_trip(strips.drop_first());
        assert(bytes.skip(4) =~= strips_wire_bytes(strips.drop_first()));
        assert(strips.map_values(
            |s: Strip| Strip {
                cold: (65535 - s.cold) as u16,
                warm: (65535 - s.warm) as u16,
            },
        ).drop_first() =~= strips.drop_first().map_values(
            |s: Strip| Strip {
                cold: (65535 - s.cold) as u16,
                warm: (65535 - s.warm) as u16,
            },
        ));
    }
}

/// Append the big-endian image of a 16-bit word.
pub fn push_be16(out: &mut Vec<u8>, v: u16)
    ensures
        final(out)@ == old(out)@ + be16(v),
{
    out.push((v / 256) as u8);
    out.push((v % 256) as u8);
    assert(out@ =~= old(out)@ + be16(v));
}

/// Append the big-endian image of a 32-bit word.
pub fn push_be32(out: &mut Vec<u8>, v: u32)
    ensures
        final(out)@ == old(out)@ + be32(v),
{
    out.push((v / 0x1000000) as u8);
    out.push(((v / 0x10000) % 256) as u8);
    out.push(((v / 256) % 256) as u8);
    out.push((v % 256) as u8);
    assert(out@ =~= old(out)@ + be32(v));
}

/// Append the inverted wire image of every strip group.
pub fn push_strips(out: &mut Vec<u8>, strips: &Vec<Strip>)
    ensures
        final(out)@ == old(out)@ + strips_wire_bytes(strips@),
{
    let n: usize = strips.len();
    let mut i: usize = 0;
    while i < n
        invariant
            i <= n,
            n == strips@.len(),
            out@ == old(out)@ + strips_wire_bytes(strips@.take(i as int)),
        decreases n - i,
    {
        let s = strips[i];
        proof {
            let single = seq![strips@[i as int]];
            assert(strips@.take(i + 1) =~= strips@.take(i as int) + single);
            lemma_strips_wire_bytes_append(strips@.take(i as int), single);
            assert(single.drop_first() =~= Seq::<Strip>::empty());
            assert(strips_wire_bytes(Seq::<Strip>::empty()) =~= Seq::<u8>::empty());
            assert(strips_wire_bytes(single) =~= strip_wire_bytes(strips@[i as int]));
        }
        push_be16(out, 65535 - s.cold);
        push_be16(out, 65535 - s.warm);
        proof {
            assert(out@ =~= old(out)@ + strips_wire_bytes(strips@.take(i + 1)));
        }
        i = i + 1;
    }
    proof {
        assert(strips@.take(n as int) =~= strips@);
    }
}

/// Build a whole Immediate frame: the opcode, then the wire image of the
/// strips.
pub fn encode_immediate(strips: &Vec<Strip>) -> (out: Vec<u8>)
    ensures
        out@ == seq![OP_IMMEDIATE] + strips_wire_bytes(strips@),
{
    let mut out: Vec<u8> = Vec::new();
    out.push(OP_IMMEDIATE);
    assert(out@ =~= seq![OP_IMMEDIATE]);
    push_strips(&mut out, strips);
    out
}

/// Read an Immediate frame back: the opcode byte followed by a whole
/// number of 4-byte groups. Returns the wire-level strips (still
/// inverted), or `None` when the opcode or the framing is wrong.
pub fn decode_immediate(bytes: &Vec<u8>) -> (r: Option<Vec<Strip>>)
    ensures
        ({
            if bytes@.len() >= 1 && bytes@[0] == OP_IMMEDIATE && (bytes@.len() - 1) % 4 == 0 {
                match r {
                    Some(v) => v@ == wire_strips_of(bytes@.skip(1)),
                    None => false,
                }
            } else {
                r is None
            }
        }),
{
    if bytes.len() < 1 || bytes[0] != OP_IMMEDIATE || (bytes.len() - 1) % 4 != 0 {
        return None;
    }
    let n: usize = bytes.len();
    let mut result: Vec<Strip> = Vec::new();
    let mut i: usize = 1;
    let ghost payload = bytes@.skip(1);
    while n - i >= 4
        invariant
            1 <= i <= n,
            (i - 1) % 4 == 0,
            (n - 1) % 4 == 0,
            n == bytes@.len(),
            payload == bytes@.skip(1),
            wire_strips_of(payload) == result@ + wire_strips_of(bytes@.skip(i as int)),
        decreases n - i,
    {
        let cold: u16 = (bytes[i] as u16) * 256 + (bytes[i + 1] as u16);
        let warm: u16 = (bytes[i + 2] as u16) * 256 + (bytes[i + 3] as u16);
        proof {
            let rest = bytes@.skip(i as int);
            assert(rest.len() >= 4);
            assert(rest[0] == bytes@[i as int]);
            assert(rest[1] == bytes@[i + 1]);
            assert(rest[2] == bytes@[i + 2]);
            assert(rest[3] == bytes@[i + 3]);
            assert(rest.skip(4) =~= bytes@.skip(i + 4));
            assert(result@ + wire_strips_of(rest) =~= (result@ + seq![
                Strip { cold, warm },
            ]) + wire_strips_of(bytes@.skip(i + 4)));
        }
        result.push(Strip { cold, warm });
        i = i + 4;
    }
    proof {
        assert(bytes@.skip(i as int).len() < 4);
        assert(wire_strips_of(payload) =~= result@);
    }
    Some(result)
}

} // verus!
