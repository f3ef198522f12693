//! The attribute-value pair extractor: decodes the target-information
//! bytes of a challenge into an ordered sequence of typed pairs, stops
//! at the end marker, and can re-encode a sequence byte for byte.

use vstd::prelude::*;

use crate::bytes::{
    copy_range, le16_of, le16_v, le32_of, le32_v, le64_of, le64_v, lemma_le16_of_v, lemma_le32_of_v,
    lemma_le64_of_v, read_u16_le, read_u32_le, read_u64_le,
};
use crate::error::Error;

verus! {

/// End-marker tag; consumed during decoding, never retained as a pair.
pub const AV_EOL: u16 = 0x0000;

/// NetBIOS computer name, UTF-16 text.
pub const AV_NB_COMPUTER_NAME: u16 = 0x0001;

/// NetBIOS domain name, UTF-16 text.
pub const AV_NB_DOMAIN_NAME: u16 = 0x0002;

/// DNS computer name, UTF-16 text.
pub const AV_DNS_COMPUTER_NAME: u16 = 0x0003;

/// DNS domain name, UTF-16 text.
pub const AV_DNS_DOMAIN_NAME: u16 = 0x0004;

/// DNS tree name, UTF-16 text.
pub const AV_DNS_TREE_NAME: u16 = 0x0005;

/// 32-bit flags value.
pub const AV_FLAGS: u16 = 0x0006;

/// 64-bit timestamp value.
pub const AV_TIMESTAMP: u16 = 0x0007;

/// Single-host data, opaque bytes.
pub const AV_SINGLE_HOST: u16 = 0x0008;

/// Channel bindings, opaque bytes.
pub const AV_CHANNEL_BINDINGS: u16 = 0x000A;

/// The tags whose values are decoded as UTF-16 text.
pub open spec fn is_text_tag(id: u16) -> bool {
    id == AV_NB_COMPUTER_NAME || id == AV_NB_DOMAIN_NAME || id == AV_DNS_COMPUTER_NAME || id
        == AV_DNS_DOMAIN_NAME || id == AV_DNS_TREE_NAME
}

/// One decoded attribute value.
pub enum AvValue {
    /// UTF-16 code units of a textual attribute.
    Text(Vec<u16>),
    /// A 32-bit flags field.
    Flags(u32),
    /// A 64-bit timestamp.
    Timestamp(u64),
    /// An opaque byte block (including every unknown tag's value).
    Bytes(Vec<u8>),
}

/// One decoded attribute-value pair: the raw numeric tag and its value.
/// Unknown tags are retained, not dropped.
pub struct AvPair {
    pub id: u16,
    pub value: AvValue,
}

/// Mathematical model of an attribute value.
#[verifier::ext_equal]
pub enum AvValueView {
    Text(Seq<u16>),
    Flags(u32),
    Timestamp(u64),
    Bytes(Seq<u8>),
}

/// Mathematical model of a pair.
#[verifier::ext_equal]
pub struct AvPairView {
    pub id: u16,
    pub value: AvValueView,
}

impl View for AvValue {
    type V = AvValueView;

    open spec fn view(&self) -> AvValueView {
        match self {
            AvValue::Text(u) => AvValueView::Text(u@),
            AvValue::Flags(f) => AvValueView::Flags(*f),
            AvValue::Timestamp(t) => AvValueView::Timestamp(*t),
            AvValue::Bytes(b) => AvValueView::Bytes(b@),
        }
    }
}

impl View for AvPair {
    type V = AvPairView;

    open spec fn view(&self) -> AvPairView {
        AvPairView { id: self.id, value: self.value@ }
    }
}

/// The models of a sequence of pairs.
pub open spec fn pairs_vw(s: Seq<AvPair>) -> Seq<AvPairView> {
    s.map_values(|p: AvPair| p@)
}

/// The UTF-16 code units stored little-endian in an even-length byte
/// sequence.
pub open spec fn units_of(b: Seq<u8>) -> Seq<u16>
    recommends
        b.len() % 2 == 0,
    decreases b.len(),
{
    if b.len() < 2 {
        Seq::empty()
    } else {
        seq![le16_v(b.subrange(0, 2))] + units_of(b.skip(2))
    }
}

/// The little-endian bytes of a sequence of UTF-16 code units.
pub open spec fn bytes_of_units(u: Seq<u16>) -> Seq<u8>
    decreases u.len(),
{
    if u.len() == 0 {
        Seq::empty()
    } else {
        le16_of(u[0]) + bytes_of_units(u.skip(1))
    }
}

/// Re-encoding decoded code units gives back the same bytes.
pub proof fn lemma_units_bytes(b: Seq<u8>)
    requires
        b.len() % 2 == 0,
    ensures
        bytes_of_units(units_of(b)) == b,
    decreases b.len(),
{
    if b.len() < 2 {
        assert(bytes_of_units(units_of(b)) =~= b);
    } else {
        let u = units_of(b);
        assert(u == seq![le16_v(b.subrange(0, 2))] + units_of(b.skip(2)));
        assert(u.skip(1) =~= units_of(b.skip(2)));
        lemma_le16_of_v(b.subrange(0, 2));
        lemma_units_bytes(b.skip(2));
        assert(bytes_of_units(u) =~= b);
    }
}

/// How a value with tag `id` and raw bytes `vb` is decoded: text tags of
/// even length become code units, well-sized flags and timestamps become
/// integers, everything else is kept opaque.
pub open spec fn value_view_of(id: u16, vb: Seq<u8>) -> AvValueView {
    if is_text_tag(id) && vb.len() % 2 == 0 {
        AvValueView::Text(units_of(vb))
    } else if id == AV_FLAGS && vb.len() == 4 {
        AvValueView::Flags(le32_v(vb))
    } else if id == AV_TIMESTAMP && vb.len() == 8 {
        AvValueView::Timestamp(le64_v(vb))
    } else {
        AvValueView::Bytes(vb)
    }
}

/// The raw value bytes a decoded value stands for.
pub open spec fn value_bytes(v: AvValueView) -> Seq<u8> {
    match v {
        AvValueView::Text(u) => bytes_of_units(u),
        AvValueView::Flags(f) => le32_of(f),
        AvValueView::Timestamp(t) => le64_of(t),
        AvValueView::Bytes(b) => b,
    }
}

/// Decoding never loses the raw value bytes.
pub proof fn lemma_value_bytes_of_view(id: u16, vb: Seq<u8>)
    ensures
        value_bytes(value_view_of(id, vb)) == vb,
{
    if is_text_tag(id) && vb.len() % 2 == 0 {
        lemma_units_bytes(vb);
    } else if id == AV_FLAGS && vb.len() == 4 {
        lemma_le32_of_v(vb);
    } else if id == AV_TIMESTAMP && vb.len() == 8 {
        lemma_le64_of_v(vb);
    }
}

/// Outcome of scanning an attribute-value byte sequence: the decoded
/// pairs together with how many bytes the scan consumed, or the way it
/// failed.
#[verifier::ext_equal]
pub enum AvParse {
    /// The pairs in wire order (end marker excluded) and the number of
    /// bytes consumed up to and including the end marker.
    Pairs(Seq<AvPairView>, int),
    /// The end-marker tag carried a nonzero declared length.
    BadEnd,
    /// A declared length ran past the end, or the bytes ended before an
    /// end marker was seen.
    Truncated,
}

/// The scan itself: read a 2-byte tag and a 2-byte length, then that
/// many value bytes; stop at a zero-length end marker.
pub open spec fn av_parse(b: Seq<u8>) -> AvParse
    decreases b.len(),
{
    if b.len() < 4 {
        AvParse::Truncated
    } else {
        let id = le16_v(b.subrange(0, 2));
        let len = le16_v(b.subrange(2, 4));
        if id == AV_EOL {
            if len == 0 {
                AvParse::Pairs(Seq::empty(), 4)
            } else {
                AvParse::BadEnd
            }
        } else if b.len() < 4 + len {
            AvParse::Truncated
        } else {
            match av_parse(b.skip(4 + len as int)) {
                AvParse::Pairs(rest, used) => AvParse::Pairs(
                    seq![AvPairView { id, value: value_view_of(id, b.subrange(4, 4 + len as int)) }]
                        + rest,
                    4 + len + used,
                ),
                AvParse::BadEnd => AvParse::BadEnd,
                AvParse::Truncated => AvParse::Truncated,
            }
        }
    }
}

/// The wire encoding of one pair: tag, declared length, value bytes.
pub open spec fn encode_pair(p: AvPairView) -> Seq<u8> {
    le16_of(p.id) + le16_of(value_bytes(p.value).len() as u16) + value_bytes(p.value)
}

/// The wire encoding of a pair sequence, terminated by the end marker.
pub open spec fn encode_pairs(ps: Seq<AvPairView>) -> Seq<u8>
    decreases ps.len(),
{
    if ps.len() == 0 {
        seq![0u8, 0u8, 0u8, 0u8]
    } else {
        encode_pair(ps[0]) + encode_pairs(ps.skip(1))
    }
}

/// A pair that the wire format can carry: not the end-marker tag, and a
/// value whose byte length fits the 2-byte length field.
pub open spec fn pair_wf(p: AvPairView) -> bool {
    p.id != AV_EOL && value_bytes(p.value).len() <= 0xFFFF
}

/// Round trip: decoding a well-formed attribute-value byte sequence that
/// ends exactly at its end marker, then re-encoding the decoded pairs,
/// reproduces the original bytes — for known and unknown tags alike.
pub proof fn lemma_av_round_trip(b: Seq<u8>)
    requires
        av_parse(b) is Pairs,
        av_parse(b)->Pairs_1 == b.len(),
    ensures
        encode_pairs(av_parse(b)->Pairs_0) == b,
    decreases b.len(),
{
    let id = le16_v(b.subrange(0, 2));
    let len = le16_v(b.subrange(2, 4));
    if id == AV_EOL {
        assert(b.len() == 4);
        let b0 = b[0];
        let b1 = b[1];
        let b2 = b[2];
        let b3 = b[3];
        assert(b0 == 0 && b1 == 0 && b2 == 0 && b3 == 0) by (bit_vector)
            requires
                (b0 + b1 * 0x100) as u16 == 0 && (b2 + b3 * 0x100) as u16 == 0,
        ;
        assert(encode_pairs(av_parse(b)->Pairs_0) =~= b);
    } else {
        let vb = b.subrange(4, 4 + len as int);
        let rest = b.skip(4 + len as int);
        let p0 = AvPairView { id, value: value_view_of(id, vb) };
        lemma_value_bytes_of_view(id, vb);
        assert(av_parse(rest) is Pairs && av_parse(rest)->Pairs_1 == rest.len());
        lemma_av_round_trip(rest);
        lemma_le16_of_v(b.subrange(0, 2));
        lemma_le16_of_v(b.subrange(2, 4));
        assert(value_bytes(p0.value).len() == len);
        assert(encode_pair(p0) =~= b.subrange(0, 4 + len as int));
        let ps = av_parse(b)->Pairs_0;
        assert(ps == seq![p0] + av_parse(rest)->Pairs_0);
        assert(ps.skip(1) =~= av_parse(rest)->Pairs_0);
        assert(encode_pairs(ps) == encode_pair(p0) + encode_pairs(ps.skip(1)));
        assert(encode_pairs(ps) =~= b);
    }
}

/// Splices a finished prefix of pairs in front of the scan of the bytes
/// that remain.
pub open spec fn parse_prepend(acc: Seq<AvPairView>, base: int, p: AvParse) -> AvParse {
    match p {
        AvParse::Pairs(ps, used) => AvParse::Pairs(acc + ps, base + used),
        AvParse::BadEnd => AvParse::BadEnd,
        AvParse::Truncated => AvParse::Truncated,
    }
}

/// Decodes the UTF-16 code units stored in `b[start..end]`.
fn units_from(b: &Vec<u8>, start: usize, end: usize) -> (r: Vec<u16>)
    requires
        start <= end <= b@.len(),
        (end - start) % 2 == 0,
    ensures
        r@ == units_of(b@.subrange(start as int, end as int)),
{
    let ghost vb = b@.subrange(start as int, end as int);
    let mut r: Vec<u16> = Vec::new();
    let mut i = start;
    while i < end
        invariant
            start <= i <= end <= b@.len(),
            (end - i) % 2 == 0,
            vb == b@.subrange(start as int, end as int),
            units_of(vb) == r@ + units_of(b@.subrange(i as int, end as int)),
        decreases end - i,
    {
        let ghost pre = b@.subrange(i as int, end as int);
        let u = read_u16_le(b, i);
        r.push(u);
        i = i + 2;
        proof {
            let post = b@.subrange(i as int, end as int);
            assert(pre.subrange(0, 2) =~= b@.subrange(i - 2, i as int));
            assert(pre.skip(2) =~= post);
            assert(units_of(pre) == seq![le16_v(pre.subrange(0, 2))] + units_of(pre.skip(2)));
            assert(r@ + units_of(post) =~= units_of(vb));
        }
    }
    assert(b@.subrange(i as int, end as int) =~= Seq::<u8>::empty());
    assert(units_of(vb) =~= r@);
    r
}

/// Decodes an attribute-value byte sequence into its pairs in wire
/// order. Exactly the sequences the scan accepts are decoded; a nonzero
/// length on the end marker is a malformed challenge, and a declared
/// length past the end — or no end marker at all — is a truncated list.
/// Bytes after the end marker are ignored, as the scan ignores them.
pub fn decode_av_pairs(b: &Vec<u8>) -> (r: Result<Vec<AvPair>, Error>)
    ensures
        r is Ok <==> av_parse(b@) is Pairs,
        r matches Ok(v) ==> pairs_vw(v@) == av_parse(b@)->Pairs_0,
        av_parse(b@) is BadEnd ==> r == Err::<Vec<AvPair>, Error>(Error::MalformedChallenge),
        av_parse(b@) is Truncated ==> r == Err::<Vec<AvPair>, Error>(Error::TruncatedAvList),
{
    let n = b.len();
    let mut pos: usize = 0;
    let mut out: Vec<AvPair> = Vec::new();
    proof {
        assert(b@.skip(0) =~= b@);
        assert(pairs_vw(out@) =~= Seq::<AvPairView>::empty());
        if av_parse(b@) is Pairs {
            assert(pairs_vw(out@) + av_parse(b@)->Pairs_0 =~= av_parse(b@)->Pairs_0);
        }
        assert(av_parse(b@) =~= parse_prepend(pairs_vw(out@), 0, av_parse(b@.skip(0))));
    }
    loop
        invariant
            pos <= n == b@.len(),
            av_parse(b@) == parse_prepend(pairs_vw(out@), pos as int, av_parse(b@.skip(pos as int))),
        decreases n - pos,
    {
        let ghost s = b@.skip(pos as int);
        if n - pos < 4 {
            assert(av_parse(s) is Truncated);
            return Err(Error::TruncatedAvList);
        }
        let id = read_u16_le(b, pos);
        let len = read_u16_le(b, pos + 2);
        proof {
            assert(s.subrange(0, 2) =~= b@.subrange(pos as int, pos + 2));
            assert(s.subrange(2, 4) =~= b@.subrange(pos + 2, pos + 4));
        }
        if id == AV_EOL {
            if len == 0 {
                assert(av_parse(s) == AvParse::Pairs(Seq::<AvPairView>::empty(), 4));
                assert(pairs_vw(out@) + Seq::<AvPairView>::empty() =~= pairs_vw(out@));
                return Ok(out);
            } else {
                assert(av_parse(s) is BadEnd);
                return Err(Error::MalformedChallenge);
            }
        }
        let lenz = len as usize;
        if n - pos - 4 < lenz {
            assert(av_parse(s) is Truncated);
            return Err(Error::TruncatedAvList);
        }
        let vstart = pos + 4;
        let vend = pos + 4 + lenz;
        let ghost vb = b@.subrange(vstart as int, vend as int);
        proof {
            assert(s.subrange(4, 4 + len as int) =~= vb);
        }
        let value: AvValue = if (id >= AV_NB_COMPUTER_NAME && id <= AV_DNS_TREE_NAME) && lenz % 2
            == 0 {
            AvValue::Text(units_from(b, vstart, vend))
        } else if id == AV_FLAGS && lenz == 4 {
            AvValue::Flags(read_u32_le(b, vstart))
        } else if id == AV_TIMESTAMP && lenz == 8 {
            AvValue::Timestamp(read_u64_le(b, vstart))
        } else {
            AvValue::Bytes(copy_range(b, vstart, vend))
        };
        assert(value@ == value_view_of(id, vb));
        let pair = AvPair { id, value };
        let ghost pv = AvPairView { id, value: value_view_of(id, vb) };
        let ghost old_out = out@;
        out.push(pair);
        proof {
            assert(pairs_vw(out@) =~= pairs_vw(old_out) + seq![pv]);
            let rest = b@.skip(pos + 4 + len as int);
            assert(s.skip(4 + len as int) =~= rest);
            assert(av_parse(s) == parse_prepend(seq![pv], 4 + len as int, av_parse(rest)));
            if av_parse(rest) is Pairs {
                assert((pairs_vw(old_out) + (seq![pv] + av_parse(rest)->Pairs_0)) =~= (pairs_vw(
                    out@,
                ) + av_parse(rest)->Pairs_0));
            }
            assert(av_parse(b@) == parse_prepend(
                pairs_vw(out@),
                pos + 4 + len as int,
                av_parse(rest),
            ));
        }
        pos = pos + 4 + lenz;
    }
}

/// Re-encodes pairs into wire form, ending with the end marker. The
/// callers' pairs must be carryable: no end-marker tag, and each value
/// short enough for the 2-byte length field.
pub fn encode_av_pairs(pairs: &Vec<AvPair>) -> (r: Vec<u8>)
    requires
        forall|i: int| 0 <= i < pairs@.len() ==> pair_wf(#[trigger] pairs@[i]@),
    ensures
        r@ == encode_pairs(pairs_vw(pairs@)),
{
    let mut out: Vec<u8> = Vec::new();
    let mut i: usize = 0;
    let n = pairs.len();
    proof {
        assert(pairs_vw(pairs@).skip(0) =~= pairs_vw(pairs@));
        assert(out@ + encode_pairs(pairs_vw(pairs@)) =~= encode_pairs(pairs_vw(pairs@)));
    }
    while i < n
        invariant
            i <= n == pairs@.len(),
            forall|j: int| 0 <= j < pairs@.len() ==> pair_wf(#[trigger] pairs@[j]@),
            out@ + encode_pairs(pairs_vw(pairs@).skip(i as int)) == encode_pairs(pairs_vw(pairs@)),
        decreases n - i,
    {
        let ghost all = pairs_vw(pairs@);
        let ghost pre = all.skip(i as int);
        let ghost out0 = out@;
        let p = &pairs[i];
        proof {
            assert(pre[0] == pairs@[i as int]@);
            assert(pair_wf(pre[0]));
        }
        let vb_len: usize = match &p.value {
            AvValue::Text(u) => {
                proof {
                    lemma_bytes_of_units_len(u@);
                }
                u.len() * 2
            },
            AvValue::Flags(_) => 4,
            AvValue::Timestamp(_) => 8,
            AvValue::Bytes(bs) => bs.len(),
        };
        assert(vb_len == value_bytes(pre[0].value).len() && vb_len <= 0xFFFF);
        crate::bytes::push_u16_le(&mut out, p.id);
        crate::bytes::push_u16_le(&mut out, vb_len as u16);
        push_value_bytes(&mut out, &p.value);
        i = i + 1;
        proof {
            assert(out@ =~= out0 + encode_pair(pre[0]));
            assert(pre.skip(1) =~= all.skip(i as int));
            assert(encode_pairs(pre) == encode_pair(pre[0]) + encode_pairs(pre.skip(1)));
            assert(out@ + encode_pairs(all.skip(i as int)) =~= out0 + encode_pairs(pre));
        }
    }
    out.push(0u8);
    out.push(0u8);
    out.push(0u8);
    out.push(0u8);
    proof {
        assert(pairs_vw(pairs@).skip(n as int) =~= Seq::<AvPairView>::empty());
        assert(out@ =~= encode_pairs(pairs_vw(pairs@)));
    }
    out
}

/// The byte length of encoded code units is twice the unit count.
pub proof fn lemma_bytes_of_units_len(u: Seq<u16>)
    ensures
        bytes_of_units(u).len() == u.len() * 2,
    decreases u.len(),
{
    if u.len() != 0 {
        lemma_bytes_of_units_len(u.skip(1));
    }
}

/// Appends the raw bytes a value stands for.
fn push_value_bytes(out: &mut Vec<u8>, v: &AvValue)
    ensures
        final(out)@ == old(out)@ + value_bytes(v@),
{
    match v {
        AvValue::Text(u) => {
            let m = u.len();
            let mut i: usize = 0;
            while i < m
                invariant
                    i <= m == u@.len(),
                    out@ == old(out)@ + bytes_of_units(u@.take(i as int)),
                decreases m - i,
            {
                let ghost done = u@.take(i as int);
                crate::bytes::push_u16_le(out, u[i]);
                i = i + 1;
                proof {
                    lemma_bytes_of_units_snoc(u@.take(i as int));
                    assert(u@.take(i as int).drop_last() =~= done);
                    assert(u@.take(i as int).last() == u@[i - 1]);
                }
            }
            assert(u@.take(m as int) =~= u@);
        },
        AvValue::Flags(f) => {
            crate::bytes::push_u32_le(out, *f);
        },
        AvValue::Timestamp(t) => {
            crate::bytes::push_u64_le(out, *t);
        },
        AvValue::Bytes(bs) => {
            let m = bs.len();
            let mut i: usize = 0;
            while i < m
                invariant
                    i <= m == bs@.len(),
                    out@ == old(out)@ + bs@.take(i as int),
                decreases m - i,
            {
                out.push(bs[i]);
                i = i + 1;
                assert(out@ =~= old(out)@ + bs@.take(i as int));
            }
            assert(bs@.take(m as int) =~= bs@);
        },
    }
}

/// Encoding units one past the end appends that unit's bytes.
pub proof fn lemma_bytes_of_units_snoc(u: Seq<u16>)
    requires
        u.len() > 0,
    ensures
        bytes_of_units(u) == bytes_of_units(u.drop_last()) + le16_of(u.last()),
    decreases u.len(),
{
    if u.len() == 1 {
        assert(u.skip(1) =~= Seq::<u16>::empty());
        assert(u.drop_last() =~= Seq::<u16>::empty());
        assert(bytes_of_units(Seq::<u16>::empty()) == Seq::<u8>::empty());
        assert(bytes_of_units(u) =~= le16_of(u[0]));
        assert(bytes_of_units(u.drop_last()) + le16_of(u.last()) =~= le16_of(u[0]));
    } else {
        lemma_bytes_of_units_snoc(u.skip(1));
        assert(u.skip(1).drop_last() =~= u.drop_last().skip(1));
        assert(u.skip(1).last() == u.last());
        assert(u.drop_last()[0] == u[0]);
        assert(u.drop_last().len() > 0);
        assert(bytes_of_units(u.drop_last()) == le16_of(u.drop_last()[0]) + bytes_of_units(
            u.drop_last().skip(1),
        ));
        assert(bytes_of_units(u) =~= bytes_of_units(u.drop_last()) + le16_of(u.last()));
    }
}

} // verus!
