//! Byte stuffing of the wire protocol: inside the parameter region the
//! header-looking triple `FF FF FD` is escaped to `FF FF FD FD` before
//! the checksum is computed, and the escape is removed again after a
//! received frame has passed the checksum.
use vstd::prelude::*;

use crate::packet_buf::{
    buf_append, buf_bytes, buf_get, buf_len, buf_new, buf_push, buf_read_region, PacketBuf,
    MAX_PACKET_LEN,
};
use crate::wire::{make_u16, u16_hi, u16_high, u16_lo, u16_low, u16_of_le};

verus! {

/// The parameter bytes with one `FD` inserted after every `FF FF FD`.
pub open spec fn stuffed(s: Seq<u8>) -> Seq<u8>
    decreases s.len(),
{
    if s.len() == 0 {
        Seq::<u8>::empty()
    } else if s.len() >= 3 && s[0] == 0xFF && s[1] == 0xFF && s[2] == 0xFD {
        seq![0xFFu8, 0xFFu8, 0xFDu8, 0xFDu8] + stuffed(s.skip(3))
    } else {
        seq![s[0]] + stuffed(s.skip(1))
    }
}

/// The parameter bytes with the second `FD` of every `FF FF FD FD`
/// dropped.
pub open spec fn unstuffed(s: Seq<u8>) -> Seq<u8>
    decreases s.len(),
{
    if s.len() == 0 {
        Seq::<u8>::empty()
    } else if s.len() >= 4 && s[0] == 0xFF && s[1] == 0xFF && s[2] == 0xFD && s[3] == 0xFD {
        seq![0xFFu8, 0xFFu8, 0xFDu8] + unstuffed(s.skip(4))
    } else {
        seq![s[0]] + unstuffed(s.skip(1))
    }
}

/// Whether the escape pattern occurs anywhere in `s`.
pub open spec fn has_escape(s: Seq<u8>) -> bool {
    exists|k: int|
        0 <= k && k + 4 <= s.len() && #[trigger] s[k] == 0xFF && s[k + 1] == 0xFF && s[k + 2]
            == 0xFD && s[k + 3] == 0xFD
}

/// Stuffing never shrinks the parameter region.
pub proof fn lemma_stuffed_len(s: Seq<u8>)
    ensures
        stuffed(s).len() >= s.len(),
    decreases s.len(),
{
    if s.len() == 0 {
    } else if s.len() >= 3 && s[0] == 0xFF && s[1] == 0xFF && s[2] == 0xFD {
        lemma_stuffed_len(s.skip(3));
    } else {
        lemma_stuffed_len(s.skip(1));
    }
}

/// Destuffing never grows the parameter region.
pub proof fn lemma_unstuffed_len(s: Seq<u8>)
    ensures
        unstuffed(s).len() <= s.len(),
    decreases s.len(),
{
    if s.len() == 0 {
    } else if s.len() >= 4 && s[0] == 0xFF && s[1] == 0xFF && s[2] == 0xFD && s[3] == 0xFD {
        lemma_unstuffed_len(s.skip(4));
    } else {
        lemma_unstuffed_len(s.skip(1));
    }
}

/// A region without the escape pattern destuffs to itself.
pub proof fn lemma_unstuffed_no_escape(s: Seq<u8>)
    requires
        !has_escape(s),
    ensures
        unstuffed(s) == s,
    decreases s.len(),
{
    if s.len() == 0 {
        assert(unstuffed(s) =~= s);
    } else if s.len() >= 4 && s[0] == 0xFF && s[1] == 0xFF && s[2] == 0xFD && s[3] == 0xFD {
        assert(has_escape(s)) by {
            assert(0 <= 0 && 0 + 4 <= s.len() && s[0] == 0xFF && s[1] == 0xFF && s[2] == 0xFD
                && s[3] == 0xFD);
        }
    } else {
        assert(!has_escape(s.skip(1))) by {
            if has_escape(s.skip(1)) {
                let k = choose|k: int|
                    0 <= k && k + 4 <= s.skip(1).len() && #[trigger] s.skip(1)[k] == 0xFF && s.skip(
                        1,
                    )[k + 1] == 0xFF && s.skip(1)[k + 2] == 0xFD && s.skip(1)[k + 3] == 0xFD;
                assert(0 <= k + 1 && k + 1 + 4 <= s.len() && s[k + 1] == 0xFF && s[k + 2] == 0xFF
                    && s[k + 3] == 0xFD && s[k + 4] == 0xFD);
            }
        }
        lemma_unstuffed_no_escape(s.skip(1));
        assert(unstuffed(s) =~= s);
    }
}

/// Destuffing undoes stuffing on any parameter region.
pub proof fn lemma_unstuffed_stuffed(s: Seq<u8>)
    ensures
        unstuffed(stuffed(s)) == s,
    decreases s.len(),
{
    if s.len() == 0 {
        assert(unstuffed(stuffed(s)) =~= s);
    } else if s.len() >= 3 && s[0] == 0xFF && s[1] == 0xFF && s[2] == 0xFD {
        lemma_unstuffed_stuffed(s.skip(3));
        let g = stuffed(s);
        assert(g == seq![0xFFu8, 0xFFu8, 0xFDu8, 0xFDu8] + stuffed(s.skip(3)));
        assert(g.len() >= 4 && g[0] == 0xFF && g[1] == 0xFF && g[2] == 0xFD && g[3] == 0xFD);
        assert(g.skip(4) =~= stuffed(s.skip(3)));
        assert(unstuffed(g) == seq![0xFFu8, 0xFFu8, 0xFDu8] + unstuffed(g.skip(4)));
        assert(unstuffed(g) =~= s);
    } else {
        lemma_unstuffed_stuffed(s.skip(1));
        let g = stuffed(s);
        let t = stuffed(s.skip(1));
        assert(g == seq![s[0]] + t);
        if g.len() >= 4 && g[0] == 0xFF && g[1] == 0xFF && g[2] == 0xFD && g[3] == 0xFD {
            // The escape pattern cannot begin one byte before a
            // stuffed region: the region would have to start FF FD FD,
            // which no stuffed output does.
            assert(s[0] == 0xFF);
            assert(t.len() >= 3 && t[0] == 0xFF && t[1] == 0xFD && t[2] == 0xFD);
            let r1 = s.skip(1);
            assert(r1.len() > 0);
            if r1.len() >= 3 && r1[0] == 0xFF && r1[1] == 0xFF && r1[2] == 0xFD {
                assert(t == seq![0xFFu8, 0xFFu8, 0xFDu8, 0xFDu8] + stuffed(r1.skip(3)));
                assert(t[1] == 0xFF);
                assert(false);
            } else {
                assert(t == seq![r1[0]] + stuffed(r1.skip(1)));
                let t2 = stuffed(r1.skip(1));
                assert(t[1] == t2[0] && t[2] == t2[1]);
                let r2 = s.skip(2);
                assert(r1.skip(1) =~= r2);
                if r2.len() == 0 {
                    assert(t2.len() == 0);
                    assert(false);
                } else if r2.len() >= 3 && r2[0] == 0xFF && r2[1] == 0xFF && r2[2] == 0xFD {
                    assert(t2 == seq![0xFFu8, 0xFFu8, 0xFDu8, 0xFDu8] + stuffed(r2.skip(3)));
                    assert(t2[0] == 0xFF);
                    assert(false);
                } else {
                    assert(t2 == seq![r2[0]] + stuffed(r2.skip(1)));
                    assert(t2[0] == r2[0]);
                    assert(r2[0] == s[2]);
                    // s starts FF FF and is at least 3 long, yet was not
                    // the triple case, so s[2] is not FD.
                    assert(s[1] == r1[0] && r1[0] == 0xFF);
                    assert(s.len() >= 3);
                    assert(s[2] != 0xFD);
                    assert(false);
                }
            }
        }
        assert(g.len() > 0 && !(g.len() >= 4 && g[0] == 0xFF && g[1] == 0xFF && g[2] == 0xFD
            && g[3] == 0xFD));
        assert(unstuffed(g) == seq![g[0]] + unstuffed(g.skip(1)));
        assert(g.skip(1) =~= t);
        assert(unstuffed(g) =~= s);
    }
}

/// Stuffed form of the parameter bytes, computed front to back.
pub fn stuff_bytes(s: &Vec<u8>) -> (r: Vec<u8>)
    ensures
        r@ == stuffed(s@),
{
    let mut out: Vec<u8> = Vec::new();
    let mut i: usize = 0;
    proof {
        assert(s@.skip(0) =~= s@);
        assert(out@ + stuffed(s@) =~= stuffed(s@));
    }
    while i < s.len()
        invariant
            i <= s@.len(),
            stuffed(s@) == out@ + stuffed(s@.skip(i as int)),
        decreases s@.len() - i,
    {
        if s.len() - i > 2 && s[i] == 0xFF && s[i + 1] == 0xFF && s[i + 2] == 0xFD {
            out.push(0xFF);
            out.push(0xFF);
            out.push(0xFD);
            out.push(0xFD);
            proof {
                let t = s@.skip(i as int);
                assert(t.len() >= 3 && t[0] == 0xFF && t[1] == 0xFF && t[2] == 0xFD);
                assert(t.skip(3) =~= s@.skip(i + 3));
                assert(out@ + stuffed(s@.skip(i + 3)) =~= stuffed(s@));
            }
            i = i + 3;
        } else {
            out.push(s[i]);
            proof {
                let t = s@.skip(i as int);
                assert(t.len() > 0 && !(t.len() >= 3 && t[0] == 0xFF && t[1] == 0xFF && t[2]
                    == 0xFD));
                assert(t.skip(1) =~= s@.skip(i + 1));
                assert(out@ + stuffed(s@.skip(i + 1)) =~= stuffed(s@));
            }
            i = i + 1;
        }
    }
    proof {
        assert(stuffed(s@.skip(s@.len() as int)) =~= Seq::<u8>::empty());
        assert(out@ =~= stuffed(s@));
    }
    out
}

/// Destuffed form of the parameter bytes, computed front to back.
pub fn unstuff_bytes(s: &Vec<u8>) -> (r: Vec<u8>)
    ensures
        r@ == unstuffed(s@),
{
    let mut out: Vec<u8> = Vec::new();
    let mut i: usize = 0;
    proof {
        assert(s@.skip(0) =~= s@);
        assert(out@ + unstuffed(s@) =~= unstuffed(s@));
    }
    while i < s.len()
        invariant
            i <= s@.len(),
            unstuffed(s@) == out@ + unstuffed(s@.skip(i as int)),
        decreases s@.len() - i,
    {
        if s.len() - i > 3 && s[i] == 0xFF && s[i + 1] == 0xFF && s[i + 2] == 0xFD && s[i + 3]
            == 0xFD {
            out.push(0xFF);
            out.push(0xFF);
            out.push(0xFD);
            proof {
                let t = s@.skip(i as int);
                assert(t.len() >= 4 && t[0] == 0xFF && t[1] == 0xFF && t[2] == 0xFD && t[3]
                    == 0xFD);
                assert(t.skip(4) =~= s@.skip(i + 4));
                assert(out@ + unstuffed(s@.skip(i + 4)) =~= unstuffed(s@));
            }
            i = i + 4;
        } else {
            out.push(s[i]);
            proof {
                let t = s@.skip(i as int);
                assert(t.len() > 0 && !(t.len() >= 4 && t[0] == 0xFF && t[1] == 0xFF && t[2]
                    == 0xFD && t[3] == 0xFD));
                assert(t.skip(1) =~= s@.skip(i + 1));
                assert(out@ + unstuffed(s@.skip(i + 1)) =~= unstuffed(s@));
            }
            i = i + 1;
        }
    }
    proof {
        assert(unstuffed(s@.skip(s@.len() as int)) =~= Seq::<u8>::empty());
        assert(out@ =~= unstuffed(s@));
    }
    out
}

/// A byte sequence shaped like a frame: four header bytes, the device
/// ID, the two length bytes whose value counts everything from the
/// instruction byte on, and that many further bytes.
pub open spec fn frame_shaped(f: Seq<u8>) -> bool {
    f.len() >= 7 && f.len() == 7 + u16_of_le(f[5], f[6])
}

/// The whole frame after stuffing: the parameter region is stuffed and
/// the length field patched; a frame whose length field is under 8 is
/// left alone.
pub open spec fn stuff_frame(f: Seq<u8>) -> Seq<u8> {
    let len_in = u16_of_le(f[5], f[6]) as int;
    if len_in < 8 {
        f
    } else {
        let sp = stuffed(f.subrange(8, 5 + len_in));
        let len_out = (3 + sp.len()) as u16;
        f.take(5) + seq![u16_lo(len_out), u16_hi(len_out)] + seq![f[7]] + sp + f.subrange(
            5 + len_in,
            7 + len_in,
        )
    }
}

/// The whole frame after destuffing: the parameter region is destuffed
/// and the length field patched; a frame whose length field is under 3
/// is left alone.
pub open spec fn unstuff_frame(f: Seq<u8>) -> Seq<u8> {
    let len_in = u16_of_le(f[5], f[6]) as int;
    if len_in < 3 {
        f
    } else {
        let up = unstuffed(f.subrange(8, 5 + len_in));
        let len_out = (3 + up.len()) as u16;
        f.take(5) + seq![u16_lo(len_out), u16_hi(len_out)] + seq![f[7]] + up + f.subrange(
            5 + len_in,
            7 + len_in,
        )
    }
}

/// Escape the parameter region of the frame held in `buf` and patch the
/// length field; the stuffed frame must still fit the buffer.
pub fn add_stuffing(buf: &mut PacketBuf)
    requires
        frame_shaped(buf_bytes(*old(buf))),
        stuff_frame(buf_bytes(*old(buf))).len() <= MAX_PACKET_LEN,
    ensures
        buf_bytes(*final(buf)) == stuff_frame(buf_bytes(*old(buf))),
{
    let ghost f = buf_bytes(*old(buf));
    let len0 = buf_len(buf);
    let b5 = buf_get(buf, 5);
    let b6 = buf_get(buf, 6);
    let len_in = make_u16(b5, b6) as usize;
    if len_in < 8 {
        return ;
    }
    let prefix5 = buf_read_region(buf, 0, 5);
    let inst = buf_get(buf, 7);
    let params = buf_read_region(buf, 8, 5 + len_in);
    let crc = buf_read_region(buf, 5 + len_in, len0);
    let sp = stuff_bytes(&params);
    proof {
        assert(params@ =~= f.subrange(8, 5 + len_in as int));
        assert(stuff_frame(f).len() == 10 + sp@.len());
    }
    let len_out = (3 + sp.len()) as u16;
    let mut nb = buf_new();
    nb = buf_append(nb, &prefix5);
    buf_push(&mut nb, u16_low(len_out));
    buf_push(&mut nb, u16_high(len_out));
    buf_push(&mut nb, inst);
    nb = buf_append(nb, &sp);
    nb = buf_append(nb, &crc);
    proof {
        assert(prefix5@ =~= f.take(5));
        assert(crc@ =~= f.subrange(5 + len_in as int, 7 + len_in as int));
        assert(buf_bytes(nb) =~= stuff_frame(f));
    }
    *buf = nb;
}

/// Remove the escapes from the parameter region of the frame held in
/// `buf` and patch the length field.
pub fn remove_stuffing(buf: &mut PacketBuf)
    requires
        frame_shaped(buf_bytes(*old(buf))),
    ensures
        buf_bytes(*final(buf)) == unstuff_frame(buf_bytes(*old(buf))),
{
    let ghost f = buf_bytes(*old(buf));
    let len0 = buf_len(buf);
    let b5 = buf_get(buf, 5);
    let b6 = buf_get(buf, 6);
    let len_in = make_u16(b5, b6) as usize;
    if len_in < 3 {
        return ;
    }
    let prefix5 = buf_read_region(buf, 0, 5);
    let inst = buf_get(buf, 7);
    let params = buf_read_region(buf, 8, 5 + len_in);
    let crc = buf_read_region(buf, 5 + len_in, len0);
    let up = unstuff_bytes(&params);
    proof {
        assert(params@ =~= f.subrange(8, 5 + len_in as int));
        lemma_unstuffed_len(params@);
        assert(unstuff_frame(f).len() == 10 + up@.len());
    }
    let len_out = (3 + up.len()) as u16;
    let mut nb = buf_new();
    nb = buf_append(nb, &prefix5);
    buf_push(&mut nb, u16_low(len_out));
    buf_push(&mut nb, u16_high(len_out));
    buf_push(&mut nb, inst);
    nb = buf_append(nb, &up);
    nb = buf_append(nb, &crc);
    proof {
        assert(prefix5@ =~= f.take(5));
        assert(crc@ =~= f.subrange(5 + len_in as int, 7 + len_in as int));
        assert(buf_bytes(nb) =~= unstuff_frame(f));
    }
    *buf = nb;
}

/// The frames on which stuffing and destuffing are mutually inverse: a
/// frame whose length field is under 8 is not stuffed, so its parameter
/// region must not already hold the escape pattern.
pub open spec fn round_trip_safe(f: Seq<u8>) -> bool {
    let len_in = u16_of_le(f[5], f[6]) as int;
    len_in >= 8 || len_in < 3 || !has_escape(f.subrange(8, 5 + len_in))
}

/// Destuffing a stuffed frame gives the frame back, for every frame
/// that fits the packet buffer once stuffed.
pub proof fn lemma_frame_round_trip(f: Seq<u8>)
    requires
        frame_shaped(f),
        round_trip_safe(f),
        stuff_frame(f).len() <= MAX_PACKET_LEN,
    ensures
        unstuff_frame(stuff_frame(f)) == f,
{
    let len_in = u16_of_le(f[5], f[6]) as int;
    if len_in < 3 {
        assert(unstuff_frame(stuff_frame(f)) == f);
    } else if len_in < 8 {
        let params = f.subrange(8, 5 + len_in);
        lemma_unstuffed_no_escape(params);
        lemma_le_u16_round_trip_frame(f);
        assert(3 + unstuffed(params).len() == len_in);
        assert(unstuff_frame(f) =~= f);
    } else {
        let params = f.subrange(8, 5 + len_in);
        let sp = stuffed(params);
        let g = stuff_frame(f);
        lemma_stuffed_len(params);
        assert(g.len() == 10 + sp.len());
        let len_out = (3 + sp.len()) as u16;
        assert(g[5] == u16_lo(len_out) && g[6] == u16_hi(len_out));
        crate::wire::lemma_u16_le_round_trip(len_out);
        assert(u16_of_le(g[5], g[6]) == len_out);
        assert(len_out >= 8);
        assert(g.subrange(8, 5 + len_out as int) =~= sp);
        lemma_unstuffed_stuffed(params);
        lemma_le_u16_round_trip_frame(f);
        assert(3 + unstuffed(sp).len() == len_in);
        assert(g.take(5) =~= f.take(5));
        assert(g.subrange(5 + len_out as int, 7 + len_out as int) =~= f.subrange(
            5 + len_in,
            7 + len_in,
        ));
        assert(unstuff_frame(g) =~= f);
    }
}

/// Reading the length field back from its own bytes gives the field.
proof fn lemma_le_u16_round_trip_frame(f: Seq<u8>)
    requires
        f.len() >= 7,
    ensures
        u16_lo(u16_of_le(f[5], f[6])) == f[5],
        u16_hi(u16_of_le(f[5], f[6])) == f[6],
{
    crate::wire::lemma_le_u16_round_trip(f[5], f[6]);
}

} // verus!
