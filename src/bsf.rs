//! H.264/H.265 NAL unit framing: Annex-B start codes and AVCC length prefixes.

use vstd::prelude::*;

verus! {

/// Whether `s` holds a 4-byte start code `00 00 00 01` at position `i`.
pub open spec fn start_code4_at(s: Seq<u8>, i: int) -> bool {
    0 <= i && i + 4 <= s.len() && s[i] == 0 && s[i + 1] == 0 && s[i + 2] == 0 && s[i + 3] == 1
}

/// Whether `s` begins with an Annex-B start code (`00 00 00 01` or `00 00 01`).
/// Data shorter than four bytes is never taken for Annex-B.
pub open spec fn is_annexb_spec(s: Seq<u8>) -> bool {
    s.len() >= 4 && (start_code4_at(s, 0) || (s[0] == 0 && s[1] == 0 && s[2] == 1))
}

/// Checks whether packet data is in Annex-B form by looking at its leading start code.
pub fn is_annexb_packet(data: &[u8]) -> (r: bool)
    ensures
        r == is_annexb_spec(data@),
{
    if data.len() < 4 {
        return false;
    }
    if data[0] == 0 && data[1] == 0 && data[2] == 0 && data[3] == 1 {
        return true;
    }
    data[0] == 0 && data[1] == 0 && data[2] == 1
}


/// Whether codec extradata announces AVCC/HVCC framing (a configuration record
/// starting with version byte 1, at least 7 bytes long) rather than Annex-B.
pub open spec fn needs_annexb_conversion_spec(extradata: Seq<u8>) -> bool {
    extradata.len() >= 7 && extradata[0] == 1
}

/// Decides from a stream's codec extradata whether its packets are AVCC/HVCC
/// and must be converted to Annex-B. Missing or short extradata, extradata that
/// already starts with a start code, or an unrecognised record all mean "do not
/// convert".
pub fn needs_annexb_conversion(extradata: &[u8]) -> (r: bool)
    ensures
        r == needs_annexb_conversion_spec(extradata@),
{
    if extradata.len() < 4 {
        return false;
    }
    if (extradata[0] == 0 && extradata[1] == 0 && extradata[2] == 0 && extradata[3] == 1) || (
    extradata[0] == 0 && extradata[1] == 0 && extradata[2] == 1) {
        return false;
    }
    extradata[0] == 1 && extradata.len() >= 7
}

/// The big-endian 32-bit integer stored at `s[i..i + 4]`.
pub open spec fn be32_at(s: Seq<u8>, i: int) -> int {
    s[i] as int * 16777216 + s[i + 1] as int * 65536 + s[i + 2] as int * 256 + s[i + 3] as int
}

/// The NAL units of an AVCC buffer: a run of `[4-byte length | NAL]` records,
/// read up to the first record whose length is zero or overruns the buffer, or
/// up to a tail too short to hold a length.
pub open spec fn avcc_nalus(s: Seq<u8>) -> Seq<Seq<u8>>
    decreases s.len(),
{
    if s.len() < 4 {
        seq![]
    } else {
        let n = be32_at(s, 0);
        if n == 0 || 4 + n > s.len() {
            seq![]
        } else {
            seq![s.subrange(4, 4 + n)] + avcc_nalus(s.subrange(4 + n, s.len() as int))
        }
    }
}

/// The 4-byte Annex-B start code.
pub open spec fn start_code() -> Seq<u8> {
    seq![0u8, 0u8, 0u8, 1u8]
}

/// Annex-B framing of a NAL sequence: each unit preceded by `00 00 00 01`.
pub open spec fn annexb_join(nalus: Seq<Seq<u8>>) -> Seq<u8>
    decreases nalus.len(),
{
    if nalus.len() == 0 {
        seq![]
    } else {
        start_code() + nalus[0] + annexb_join(nalus.drop_first())
    }
}

/// The first position at or after `i` where a 4-byte start code begins, or
/// `s.len()` when there is none.
pub open spec fn next_start_code(s: Seq<u8>, i: int) -> int
    decreases s.len() - i,
{
    if i >= s.len() {
        s.len() as int
    } else if start_code4_at(s, i) {
        i
    } else {
        next_start_code(s, i + 1)
    }
}

/// The units of an Annex-B buffer framed with 4-byte start codes: each unit
/// runs from after its start code to the next start code or the end.
pub open spec fn annexb_units(s: Seq<u8>) -> Seq<Seq<u8>>
    decreases s.len(),
{
    if !start_code4_at(s, 0) {
        seq![]
    } else {
        let rest = s.subrange(4, s.len() as int);
        let j = next_start_code(rest, 0);
        if 0 <= j <= rest.len() {
            seq![rest.subrange(0, j)] + annexb_units(rest.subrange(j, rest.len() as int))
        } else {
            seq![]
        }
    }
}

/// A NAL unit that holds no start code, not even one that runs into the start
/// code that follows it. Emulation prevention makes this true of every H.264 NAL
/// unit whose last byte is not zero.
pub open spec fn nal_clean(nal: Seq<u8>) -> bool {
    forall|i: int| 0 <= i < nal.len() ==> !#[trigger] start_code4_at(nal + start_code(), i)
}

/// Converts an AVCC buffer (length-prefixed NAL units) to Annex-B by replacing
/// each 4-byte length with a `00 00 00 01` start code. Conversion stops at the
/// first malformed record (length zero or overrunning the buffer).
pub fn convert_avcc_to_annexb(data: &[u8]) -> (r: Vec<u8>)
    ensures
        r@ == annexb_join(avcc_nalus(data@)),
{
    let len = data.len();
    let mut out: Vec<u8> = Vec::new();
    let mut pos: usize = 0;
    assert(data@.subrange(0, len as int) == data@);
    assert(out@ + annexb_join(avcc_nalus(data@)) == annexb_join(avcc_nalus(data@)));
    loop
        invariant
            pos <= len,
            len == data@.len(),
            out@ + annexb_join(avcc_nalus(data@.subrange(pos as int, len as int))) == annexb_join(
                avcc_nalus(data@),
            ),
        ensures
            out@ == annexb_join(avcc_nalus(data@)),
        decreases len - pos,
    {
        let ghost s = data@.subrange(pos as int, len as int);
        if len - pos < 4 {
            assert(avcc_nalus(s) == Seq::<Seq<u8>>::empty());
            assert(out@ + annexb_join(avcc_nalus(s)) == out@);
            break ;
        }
        let n: u32 = (data[pos] as u32) * 16777216 + (data[pos + 1] as u32) * 65536 + (data[pos
            + 2] as u32) * 256 + (data[pos + 3] as u32);
        assert(n as int == be32_at(s, 0));
        let n_len = n as usize;
        if n_len == 0 || n_len > len - pos - 4 {
            assert(avcc_nalus(s) == Seq::<Seq<u8>>::empty());
            assert(out@ + annexb_join(avcc_nalus(s)) == out@);
            break ;
        }
        let ghost out_before = out@;
        out.push(0);
        out.push(0);
        out.push(0);
        out.push(1);
        let start = pos + 4;
        let end = start + n_len;
        let mut k: usize = start;
        while k < end
            invariant
                start <= k <= end,
                end <= len,
                len == data@.len(),
                out@ == out_before + start_code() + data@.subrange(start as int, k as int),
            decreases end - k,
        {
            out.push(data[k]);
            assert(data@.subrange(start as int, k + 1) == data@.subrange(start as int, k as int)
                + seq![data@[k as int]]);
            k = k + 1;
        }
        proof {
            let nal = s.subrange(4, 4 + n as int);
            let rest = s.subrange(4 + n as int, s.len() as int);
            assert(nal == data@.subrange(start as int, end as int));
            assert(rest == data@.subrange(end as int, len as int));
            assert(avcc_nalus(s) == seq![nal] + avcc_nalus(rest));
            let ns = seq![nal] + avcc_nalus(rest);
            assert(ns.drop_first() == avcc_nalus(rest));
            assert(annexb_join(ns) == start_code() + nal + annexb_join(avcc_nalus(rest)));
            assert(out@ + annexb_join(avcc_nalus(rest)) == out_before + annexb_join(ns));
        }
        pos = end;
    }
    out
}

proof fn lemma_next_start_code(s: Seq<u8>, i: int, k: int)
    requires
        0 <= i <= k <= s.len(),
        forall|m: int| i <= m < k ==> !#[trigger] start_code4_at(s, m),
        k == s.len() || start_code4_at(s, k),
    ensures
        next_start_code(s, i) == k,
    decreases k - i,
{
    if i < k {
        lemma_next_start_code(s, i + 1, k);
    }
}

proof fn lemma_annexb_join_starts(nalus: Seq<Seq<u8>>)
    requires
        nalus.len() > 0,
    ensures
        annexb_join(nalus) == start_code() + nalus[0] + annexb_join(nalus.drop_first()),
        start_code4_at(annexb_join(nalus), 0),
{
    let j = annexb_join(nalus);
    assert(j[0] == 0 && j[1] == 0 && j[2] == 0 && j[3] == 1);
}

/// Annex-B framing is undone by Annex-B parsing: when no NAL unit holds a start
/// code, splitting the framed bytes at their start codes gives back exactly the
/// NAL units that were framed.
pub proof fn lemma_annexb_units_of_join(nalus: Seq<Seq<u8>>)
    requires
        forall|k: int| 0 <= k < nalus.len() ==> nal_clean(#[trigger] nalus[k]),
    ensures
        annexb_units(annexb_join(nalus)) == nalus,
    decreases nalus.len(),
{
    if nalus.len() == 0 {
        assert(annexb_units(annexb_join(nalus)) == Seq::<Seq<u8>>::empty());
        assert(nalus == Seq::<Seq<u8>>::empty());
    } else {
        let s = annexb_join(nalus);
        let n0 = nalus[0];
        let tail = nalus.drop_first();
        let tj = annexb_join(tail);
        lemma_annexb_join_starts(nalus);
        assert forall|k: int| 0 <= k < tail.len() implies nal_clean(#[trigger] tail[k]) by {
            assert(tail[k] == nalus[k + 1]);
        }
        lemma_annexb_units_of_join(tail);
        let rest = s.subrange(4, s.len() as int);
        assert(rest == n0 + tj);
        assert(nal_clean(nalus[0]));
        if tail.len() > 0 {
            lemma_annexb_join_starts(tail);
        }
        assert forall|m: int| 0 <= m < n0.len() implies !#[trigger] start_code4_at(rest, m) by {
            if start_code4_at(rest, m) {
                let w = n0 + start_code();
                if tail.len() == 0 {
                    assert(rest == n0);
                }
                assert(tail.len() > 0 ==> (tj[0] == 0 && tj[1] == 0 && tj[2] == 0 && tj[3] == 1));
                assert(rest[m] == w[m]);
                assert(rest[m + 1] == w[m + 1]);
                assert(rest[m + 2] == w[m + 2]);
                assert(rest[m + 3] == w[m + 3]);
                assert(start_code4_at(w, m));
            }
        }
        if tail.len() > 0 {
            assert(rest[n0.len() as int] == tj[0]);
            assert(rest[n0.len() as int + 1] == tj[1]);
            assert(rest[n0.len() as int + 2] == tj[2]);
            assert(rest[n0.len() as int + 3] == tj[3]);
            assert(start_code4_at(rest, n0.len() as int));
        } else {
            assert(tj == Seq::<u8>::empty());
            assert(rest.len() == n0.len());
        }
        lemma_next_start_code(rest, 0, n0.len() as int);
        assert(rest.subrange(0, n0.len() as int) == n0);
        assert(rest.subrange(n0.len() as int, rest.len() as int) == tj);
        assert(annexb_units(s) == seq![n0] + annexb_units(tj));
        assert(seq![n0] + tail == nalus);
    }
}

/// AVCC to Annex-B conversion keeps the NAL sequence: the Annex-B parse of what
/// [`convert_avcc_to_annexb`] returns for `data` is the NAL sequence that the
/// AVCC records of `data` hold, whenever none of those units holds a start code.
pub proof fn lemma_avcc_conversion_keeps_nalus(data: Seq<u8>)
    requires
        forall|k: int|
            0 <= k < avcc_nalus(data).len() ==> nal_clean(#[trigger] avcc_nalus(data)[k]),
    ensures
        annexb_units(annexb_join(avcc_nalus(data))) == avcc_nalus(data),
        avcc_nalus(data).len() > 0 ==> is_annexb_spec(annexb_join(avcc_nalus(data))),
{
    lemma_annexb_units_of_join(avcc_nalus(data));
    if avcc_nalus(data).len() > 0 {
        lemma_annexb_join_starts(avcc_nalus(data));
    }
}

/// What is left of an AVCC buffer after its last well-formed record: empty
/// when the records fill the buffer exactly.
pub open spec fn avcc_tail(s: Seq<u8>) -> Seq<u8>
    decreases s.len(),
{
    if s.len() < 4 {
        s
    } else {
        let n = be32_at(s, 0);
        if n == 0 || 4 + n > s.len() {
            s
        } else {
            avcc_tail(s.subrange(4 + n, s.len() as int))
        }
    }
}

/// Conversion keeps the size of what it converts: each 4-byte length becomes
/// a 4-byte start code, so the Annex-B bytes and the unconverted tail add up
/// to the AVCC buffer's length; when the records fill the buffer, the
/// converted buffer is exactly as long as the input.
pub proof fn lemma_avcc_conversion_length(s: Seq<u8>)
    ensures
        annexb_join(avcc_nalus(s)).len() + avcc_tail(s).len() == s.len(),
        avcc_tail(s).len() == 0 ==> annexb_join(avcc_nalus(s)).len() == s.len(),
    decreases s.len(),
{
    if s.len() >= 4 {
        let n = be32_at(s, 0);
        if !(n == 0 || 4 + n > s.len()) {
            let nal = s.subrange(4, 4 + n);
            let rest = s.subrange(4 + n, s.len() as int);
            lemma_avcc_conversion_length(rest);
            let ns = avcc_nalus(s);
            assert(ns == seq![nal] + avcc_nalus(rest));
            assert(ns.drop_first() == avcc_nalus(rest));
            lemma_annexb_join_starts(ns);
        } else {
            assert(avcc_nalus(s) == Seq::<Seq<u8>>::empty());
        }
    } else {
        assert(avcc_nalus(s) == Seq::<Seq<u8>>::empty());
    }
}

} // verus!
