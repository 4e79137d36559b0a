//! Frame codec for the length-prefixed binary protocol.
//!
//! Every packet starts with a 16-byte header, all integer fields big-endian:
//! total length (4 bytes, header included), header length (2 bytes, always
//! 16), protocol version (2 bytes), operation code (4 bytes) and a sequence
//! number (4 bytes). A protocol version of 2 marks a zlib-compressed body
//! that itself holds one or more concatenated sub-packets.

use vstd::prelude::*;

verus! {

/// Packet kinds distinguished by the header's operation code.
#[derive(Debug, Clone, Copy, PartialEq, Eq, Structural)]
pub enum DataPack {
    Auth,
    AuthResp,
    HeartBeat,
    HeartBeatResp,
    Normal,
}

/// Operation code written into an outbound header for each packet kind.
pub open spec fn op_code_of(kind: DataPack) -> u32 {
    match kind {
        DataPack::Auth => 7,
        DataPack::HeartBeat => 2,
        _ => 0,
    }
}

/// Big-endian byte serialization of a `u16`.
pub open spec fn u16_be(x: u16) -> Seq<u8> {
    seq![(x >> 8) as u8, x as u8]
}

/// Big-endian byte serialization of a `u32`.
pub open spec fn u32_be(x: u32) -> Seq<u8> {
    seq![(x >> 24) as u8, (x >> 16) as u8, (x >> 8) as u8, x as u8]
}

/// The `u16` read big-endian from the first two bytes of `s`.
pub open spec fn be16(s: Seq<u8>) -> u16
    recommends
        s.len() >= 2,
{
    (s[0] as u16) << 8 | (s[1] as u16)
}

/// The `u32` read big-endian from the first four bytes of `s`.
pub open spec fn be32(s: Seq<u8>) -> u32
    recommends
        s.len() >= 4,
{
    (s[0] as u32) << 24 | (s[1] as u32) << 16 | (s[2] as u32) << 8 | (s[3] as u32)
}

pub proof fn lemma_u16_be_roundtrip(x: u16)
    ensures
        be16(u16_be(x)) == x,
{
    let b0: u8 = (x >> 8) as u8;
    let b1: u8 = x as u8;
    assert((b0 as u16) << 8 | (b1 as u16) == x) by (bit_vector)
        requires
            b0 == (x >> 8) as u8,
            b1 == x as u8,
    ;
}

pub proof fn lemma_u32_be_roundtrip(x: u32)
    ensures
        be32(u32_be(x)) == x,
{
    let b0: u8 = (x >> 24) as u8;
    let b1: u8 = (x >> 16) as u8;
    let b2: u8 = (x >> 8) as u8;
    let b3: u8 = x as u8;
    assert((b0 as u32) << 24 | (b1 as u32) << 16 | (b2 as u32) << 8 | (b3 as u32) == x)
        by (bit_vector)
        requires
            b0 == (x >> 24) as u8,
            b1 == (x >> 16) as u8,
            b2 == (x >> 8) as u8,
            b3 == x as u8,
    ;
}

/// The 16 header bytes for a packet of the given kind, total length and
/// sequence number. An outbound header always carries protocol version 0:
/// the bodies this client sends are plain, never compressed.
pub open spec fn header_bytes(kind: DataPack, total_length: u32, sequence: u32) -> Seq<u8> {
    u32_be(total_length) + u16_be(16) + u16_be(0) + u32_be(op_code_of(kind)) + u32_be(sequence)
}

/// The decoded fields of a packet header.
#[derive(Debug, Clone, Copy, PartialEq, Eq, Structural)]
pub struct PacketHeader {
    pub total_length: u32,
    pub header_length: u16,
    pub protocol_version: u16,
    pub operation_code: u32,
    pub sequence: u32,
}

/// The header fields read from the first 16 bytes of `s`.
pub open spec fn header_of(s: Seq<u8>) -> PacketHeader
    recommends
        s.len() >= 16,
{
    PacketHeader {
        total_length: be32(s),
        header_length: be16(s.subrange(4, 6)),
        protocol_version: be16(s.subrange(6, 8)),
        operation_code: be32(s.subrange(8, 12)),
        sequence: be32(s.subrange(12, 16)),
    }
}

/// Decoding the header bytes built for a kind, body length and sequence
/// recovers the total length, the constant header length 16, the plain
/// protocol version 0, the kind's operation code and the sequence number.
pub proof fn lemma_header_roundtrip(kind: DataPack, total_length: u32, sequence: u32)
    ensures
        header_of(header_bytes(kind, total_length, sequence)) == (PacketHeader {
            total_length: total_length,
            header_length: 16,
            protocol_version: 0,
            operation_code: op_code_of(kind),
            sequence: sequence,
        }),
{
    let h = header_bytes(kind, total_length, sequence);
    assert(h.subrange(4, 6) =~= u16_be(16));
    assert(h.subrange(6, 8) =~= u16_be(0));
    assert(h.subrange(8, 12) =~= u32_be(op_code_of(kind)));
    assert(h.subrange(12, 16) =~= u32_be(sequence));
    assert(be32(h) == be32(u32_be(total_length))) by {
        assert(h[0] == u32_be(total_length)[0]);
        assert(h[1] == u32_be(total_length)[1]);
        assert(h[2] == u32_be(total_length)[2]);
        assert(h[3] == u32_be(total_length)[3]);
    }
    lemma_u32_be_roundtrip(total_length);
    lemma_u16_be_roundtrip(16);
    lemma_u16_be_roundtrip(0);
    lemma_u32_be_roundtrip(op_code_of(kind));
    lemma_u32_be_roundtrip(sequence);
}

/// The 16 header bytes for a packet, as a vector.
fn header_to_bytes(kind: DataPack, total_length: u32, sequence: u32) -> (h: Vec<u8>)
    ensures
        h@ == header_bytes(kind, total_length, sequence),
{
    // 0: plain body — this client never sends a compressed payload
    let version: u16 = 0;
    let op_code: u32 = match kind {
        DataPack::Auth => 7,
        DataPack::HeartBeat => 2,
        _ => 0,
    };
    let mut h: Vec<u8> = Vec::new();
    h.push((total_length >> 24) as u8);
    h.push((total_length >> 16) as u8);
    h.push((total_length >> 8) as u8);
    h.push(total_length as u8);
    let header_length: u16 = 16;
    h.push((header_length >> 8) as u8);
    h.push(header_length as u8);
    h.push((version >> 8) as u8);
    h.push(version as u8);
    h.push((op_code >> 24) as u8);
    h.push((op_code >> 16) as u8);
    h.push((op_code >> 8) as u8);
    h.push(op_code as u8);
    h.push((sequence >> 24) as u8);
    h.push((sequence >> 16) as u8);
    h.push((sequence >> 8) as u8);
    h.push(sequence as u8);
    assert(h@ =~= header_bytes(kind, total_length, sequence));
    h
}

/// The 16-byte header for a packet whose body is `body_length` bytes long:
/// the total length field holds `16 + body_length`.
pub fn encode_header(kind: DataPack, body_length: usize, sequence: u32) -> (h: Vec<u8>)
    requires
        body_length + 16 <= u32::MAX,
    ensures
        h@ == header_bytes(kind, (body_length + 16) as u32, sequence),
        h@.len() == 16,
{
    header_to_bytes(kind, (body_length + 16) as u32, sequence)
}

/// Reads the header fields from the first 16 bytes of `data`.
pub fn decode_header(data: &[u8]) -> (h: PacketHeader)
    requires
        data@.len() >= 16,
    ensures
        h == header_of(data@),
{
    let b0 = *vstd::slice::slice_index_get(data, 0);
    let b1 = *vstd::slice::slice_index_get(data, 1);
    let b2 = *vstd::slice::slice_index_get(data, 2);
    let b3 = *vstd::slice::slice_index_get(data, 3);
    let b4 = *vstd::slice::slice_index_get(data, 4);
    let b5 = *vstd::slice::slice_index_get(data, 5);
    let b6 = *vstd::slice::slice_index_get(data, 6);
    let b7 = *vstd::slice::slice_index_get(data, 7);
    let b8 = *vstd::slice::slice_index_get(data, 8);
    let b9 = *vstd::slice::slice_index_get(data, 9);
    let b10 = *vstd::slice::slice_index_get(data, 10);
    let b11 = *vstd::slice::slice_index_get(data, 11);
    let b12 = *vstd::slice::slice_index_get(data, 12);
    let b13 = *vstd::slice::slice_index_get(data, 13);
    let b14 = *vstd::slice::slice_index_get(data, 14);
    let b15 = *vstd::slice::slice_index_get(data, 15);
    let h = PacketHeader {
        total_length: (b0 as u32) << 24 | (b1 as u32) << 16 | (b2 as u32) << 8 | (b3 as u32),
        header_length: (b4 as u16) << 8 | (b5 as u16),
        protocol_version: (b6 as u16) << 8 | (b7 as u16),
        operation_code: (b8 as u32) << 24 | (b9 as u32) << 16 | (b10 as u32) << 8 | (b11 as u32),
        sequence: (b12 as u32) << 24 | (b13 as u32) << 16 | (b14 as u32) << 8 | (b15 as u32),
    };
    assert(data@.subrange(4, 6)[0] == data@[4]);
    assert(data@.subrange(6, 8)[0] == data@[6]);
    assert(data@.subrange(8, 12)[0] == data@[8]);
    assert(data@.subrange(12, 16)[0] == data@[12]);
    h
}

/// Writes the 16-byte header into the front of `data_pack`, with the total
/// length field holding the full buffer length; the bytes after the header
/// are left untouched.
pub fn fill_datapack_header(type_pack: DataPack, data_pack: &mut [u8], sequence: u32)
    requires
        old(data_pack)@.len() >= 16,
        old(data_pack)@.len() <= u32::MAX,
    ensures
        final(data_pack)@ == header_bytes(type_pack, old(data_pack)@.len() as u32, sequence) + old(
            data_pack,
        )@.skip(16),
{
    let pack_len: u32 = data_pack.len() as u32;
    let h = header_to_bytes(type_pack, pack_len, sequence);
    let mut i: usize = 0;
    while i < 16
        invariant
            0 <= i <= 16,
            h@ == header_bytes(type_pack, old(data_pack)@.len() as u32, sequence),
            h@.len() == 16,
            data_pack@.len() == old(data_pack)@.len() >= 16,
            data_pack@ =~= h@.take(i as int) + old(data_pack)@.skip(i as int),
        decreases 16 - i,
    {
        data_pack[i] = h[i];
        i = i + 1;
    }
    assert(data_pack@ =~= header_bytes(type_pack, old(data_pack)@.len() as u32, sequence) + old(
        data_pack,
    )@.skip(16));
}

/// Faults found while splitting a buffer into sub-packets.
#[derive(Debug, Clone, Copy, PartialEq, Eq, Structural)]
pub enum FrameError {
    /// A declared packet length runs past the end of the buffer, or the
    /// buffer ends in the middle of a length prefix.
    Truncated,
    /// A declared packet length of 16 or less, which could never hold a
    /// non-empty body and would keep the splitting loop from advancing.
    ZeroLength,
}

/// The sub-packet bodies contained in a decompressed buffer: each sub-packet
/// declares its own total length in its first four bytes, its body is what
/// follows its 16-byte header, and the next sub-packet starts right after it.
/// The split covers the buffer exactly or fails. The non-advancing guard is
/// checked first: a declared length of 16 or less answers `ZeroLength` even
/// when it also runs past the end of the buffer.
pub open spec fn split_spec(data: Seq<u8>) -> Result<Seq<Seq<u8>>, FrameError>
    decreases data.len(),
{
    if data.len() == 0 {
        Ok(Seq::empty())
    } else if data.len() < 4 {
        Err(FrameError::Truncated)
    } else {
        let len = be32(data) as int;
        if len <= 16 {
            Err(FrameError::ZeroLength)
        } else if len > data.len() {
            Err(FrameError::Truncated)
        } else {
            match split_spec(data.skip(len)) {
                Ok(rest) => Ok(seq![data.subrange(16, len)] + rest),
                Err(e) => Err(e),
            }
        }
    }
}

/// Holds while the splitting loop runs: the split of the whole buffer is the
/// packets already taken followed by the split of what is left.
spec fn split_continues(data: Seq<u8>, start: int, done: Seq<Seq<u8>>) -> bool {
    split_spec(data) == (match split_spec(data.skip(start)) {
        Ok(rest) => Ok::<Seq<Seq<u8>>, FrameError>(done + rest),
        Err(e) => Err::<Seq<Seq<u8>>, FrameError>(e),
    })
}

/// Splits a decompressed buffer into the bodies of its consecutive
/// sub-packets. Each sub-packet's declared length must be greater than 16
/// and must not run past the end of the buffer; the loop advances by exactly
/// the declared length, so the sub-packets cover the buffer with no gap and
/// no overlap.
pub fn split_packs(data: &[u8]) -> (r: Result<Vec<Vec<u8>>, FrameError>)
    ensures
        match r {
            Ok(packs) => split_spec(data@) == Ok::<Seq<Seq<u8>>, FrameError>(packs.deep_view()),
            Err(e) => split_spec(data@) == Err::<Seq<Seq<u8>>, FrameError>(e),
        },
{
    let total_len: usize = data.len();
    let mut packs: Vec<Vec<u8>> = Vec::new();
    let mut start: usize = 0;
    assert(data@.skip(0) =~= data@);
    assert(packs.deep_view() =~= Seq::<Seq<u8>>::empty());
    proof {
        if let Ok(rest) = split_spec(data@) {
            assert(Seq::<Seq<u8>>::empty() + rest =~= rest);
        }
    }
    while start < total_len
        invariant
            0 <= start <= total_len,
            total_len == data@.len(),
            split_continues(data@, start as int, packs.deep_view()),
        decreases total_len - start,
    {
        let ghost remaining = data@.skip(start as int);
        assert(remaining.len() == total_len - start);
        if total_len - start < 4 {
            assert(split_spec(remaining) == Err::<Seq<Seq<u8>>, FrameError>(FrameError::Truncated));
            return Err(FrameError::Truncated);
        }
        let b0 = *vstd::slice::slice_index_get(data, start);
        let b1 = *vstd::slice::slice_index_get(data, start + 1);
        let b2 = *vstd::slice::slice_index_get(data, start + 2);
        let b3 = *vstd::slice::slice_index_get(data, start + 3);
        let len_u32: u32 = (b0 as u32) << 24 | (b1 as u32) << 16 | (b2 as u32) << 8 | (b3 as u32);
        assert(remaining[0] == data@[start as int] && remaining[1] == data@[start as int + 1]
            && remaining[2] == data@[start as int + 2] && remaining[3] == data@[start as int + 3]);
        assert(len_u32 == be32(remaining));
        let len: usize = len_u32 as usize;
        if len <= 16 {
            assert(split_spec(remaining) == Err::<Seq<Seq<u8>>, FrameError>(
                FrameError::ZeroLength,
            ));
            return Err(FrameError::ZeroLength);
        }
        if len > total_len - start {
            assert(split_spec(remaining) == Err::<Seq<Seq<u8>>, FrameError>(FrameError::Truncated));
            return Err(FrameError::Truncated);
        }
        let ghost old_packs = packs.deep_view();
        let body = vstd::slice::slice_to_vec(vstd::slice::slice_subrange(
            data,
            start + 16,
            start + len,
        ));
        packs.push(body);
        assert(body@ =~= remaining.subrange(16, len as int));
        assert(packs.deep_view() =~~= old_packs + seq![body@]);
        assert(remaining.skip(len as int) =~= data@.skip(start as int + len as int));
        proof {
            if let Ok(rest) = split_spec(data@.skip(start as int + len as int)) {
                assert((old_packs + seq![body@]) + rest =~= old_packs + (seq![body@] + rest));
            }
        }
        start = start + len;
    }
    assert(data@.skip(start as int) =~= Seq::<u8>::empty());
    assert(split_spec(data@.skip(start as int)) == Ok::<Seq<Seq<u8>>, FrameError>(Seq::empty()));
    assert(packs.deep_view() + Seq::<Seq<u8>>::empty() =~= packs.deep_view());
    Ok(packs)
}

/// A byte sequence that is one well-formed packet: long enough to hold a
/// header and a non-empty body, with its declared total length equal to its
/// actual length.
pub open spec fn wf_packet(p: Seq<u8>) -> bool {
    p.len() > 16 && be32(p) == p.len()
}

/// The body of a packet: everything after its 16-byte header.
pub open spec fn body_of(p: Seq<u8>) -> Seq<u8> {
    p.skip(16)
}

/// Splitting a buffer formed by concatenating any number of well-formed
/// packets yields exactly their bodies, in order, with no loss and no
/// duplication.
pub proof fn lemma_split_concat(packets: Seq<Seq<u8>>)
    requires
        forall|i: int| 0 <= i < packets.len() ==> wf_packet(#[trigger] packets[i]),
    ensures
        split_spec(packets.flatten()) == Ok::<Seq<Seq<u8>>, FrameError>(
            packets.map_values(|p: Seq<u8>| body_of(p)),
        ),
    decreases packets.len(),
{
    let f = |p: Seq<u8>| body_of(p);
    if packets.len() == 0 {
        assert(packets.flatten() =~= Seq::<u8>::empty());
        assert(packets.map_values(f) =~= Seq::<Seq<u8>>::empty());
    } else {
        let first = packets.first();
        let rest = packets.drop_first();
        assert(forall|i: int| 0 <= i < rest.len() ==> wf_packet(#[trigger] rest[i])) by {
            assert(forall|i: int| 0 <= i < rest.len() ==> rest[i] == packets[i + 1]);
        }
        lemma_split_concat(rest);
        let all = packets.flatten();
        assert(all == first + rest.flatten());
        let len = first.len() as int;
        assert(all[0] == first[0] && all[1] == first[1] && all[2] == first[2] && all[3]
            == first[3]);
        assert(be32(all) == be32(first));
        assert(all.subrange(16, len) =~= body_of(first));
        assert(all.skip(len) =~= rest.flatten());
        assert(packets.map_values(f) =~= seq![body_of(first)] + rest.map_values(f));
    }
}

/// Framing and splitting agree: a packet framed over a non-empty body,
/// with the total length field covering header and body, is exactly the
/// kind of packet the splitter accepts, and its body is the framed body.
pub proof fn lemma_framed_packet_wf(kind: DataPack, body: Seq<u8>, sequence: u32)
    requires
        body.len() > 0,
        body.len() + 16 <= u32::MAX,
    ensures
        wf_packet(header_bytes(kind, (body.len() + 16) as u32, sequence) + body),
        body_of(header_bytes(kind, (body.len() + 16) as u32, sequence) + body) == body,
{
    let total = (body.len() + 16) as u32;
    let p = header_bytes(kind, total, sequence) + body;
    assert(p.len() == 16 + body.len());
    assert(p[0] == u32_be(total)[0] && p[1] == u32_be(total)[1] && p[2] == u32_be(total)[2] && p[3]
        == u32_be(total)[3]);
    assert(be32(p) == be32(u32_be(total)));
    lemma_u32_be_roundtrip(total);
    assert(body_of(p) =~= body);
}

/// A buffer whose first declared length is larger than the whole buffer
/// fails to split with `FrameError::Truncated`.
pub proof fn lemma_split_truncated(data: Seq<u8>)
    requires
        data.len() >= 4,
        be32(data) > 16,
        be32(data) > data.len(),
    ensures
        split_spec(data) == Err::<Seq<Seq<u8>>, FrameError>(FrameError::Truncated),
{
}

/// A complete outbound packet: the 16-byte header for `kind` and `sequence`
/// followed by `body`. The total length field always equals 16 plus the
/// body length.
pub fn frame_packet(kind: DataPack, body: &[u8], sequence: u32) -> (p: Vec<u8>)
    requires
        body@.len() + 16 <= u32::MAX,
    ensures
        p@ == header_bytes(kind, (body@.len() + 16) as u32, sequence) + body@,
        p@.len() == 16 + body@.len(),
{
    let mut p = header_to_bytes(kind, (body.len() + 16) as u32, sequence);
    p.extend_from_slice(body);
    p
}

} // verus!
