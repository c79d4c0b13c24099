//! Frame codec of the hub protocol.
//!
//! A frame is `[packet_len: u32][header_len: u32][header][payload]`, all
//! integers little-endian. `header` is the protocol version byte string and
//! `packet_len` counts every byte after itself.

use vstd::prelude::*;

verus! {

/// The largest value of a `u32`, as an integer.
pub const U32_MAX: u64 = 0xffff_ffff;

/// The four little-endian bytes of `n`.
pub open spec fn le32(n: nat) -> Seq<u8> {
    seq![
        (n % 256) as u8,
        ((n / 256) % 256) as u8,
        ((n / 65536) % 256) as u8,
        ((n / 16777216) % 256) as u8,
    ]
}

/// The number that the first four bytes of `b` encode, little-endian.
pub open spec fn le32_value(b: Seq<u8>) -> nat {
    (b[0] as nat) + (b[1] as nat) * 256 + (b[2] as nat) * 65536 + (b[3] as nat) * 16777216
}

/// The protocol version that every frame carries as its header: `"1.0.0"`.
pub open spec fn protocol_version_spec() -> Seq<u8> {
    seq![49u8, 46u8, 48u8, 46u8, 48u8]
}

/// The frame that carries `payload` under the header `version`.
pub open spec fn frame_of(payload: Seq<u8>, version: Seq<u8>) -> Seq<u8> {
    le32(4 + version.len() + payload.len()) + le32(version.len()) + version + payload
}

/// Whether a frame for `payload` under `version` can state its lengths in 32 bits.
pub open spec fn frame_fits(payload: Seq<u8>, version: Seq<u8>) -> bool {
    4 + version.len() + payload.len() <= U32_MAX
}

/// Why a frame could not be built or read.
#[derive(Clone, Copy, Debug, PartialEq, Eq, Structural)]
pub enum FrameError {
    /// The lengths of the frame do not fit in 32 bits.
    PayloadTooLarge,
    /// The packet is too short to hold the 4-byte header length.
    HeaderLengthMissing,
    /// The packet holds fewer header bytes than it declares.
    HeaderLengthMismatch,
    /// The header differs from the expected protocol version.
    VersionMismatch,
    /// The stream holds fewer packet bytes than the length prefix declares.
    ShortRead,
}

/// The payload that a packet (the bytes after the length prefix) carries, or
/// why it is refused.
pub open spec fn packet_payload(packet: Seq<u8>, version: Seq<u8>) -> Result<Seq<u8>, FrameError> {
    if packet.len() < 4 {
        Err(FrameError::HeaderLengthMissing)
    } else {
        let header_len = le32_value(packet) as int;
        if packet.len() - 4 < header_len {
            Err(FrameError::HeaderLengthMismatch)
        } else if packet.subrange(4, 4 + header_len) != version {
            Err(FrameError::VersionMismatch)
        } else {
            Ok(packet.subrange(4 + header_len, packet.len() as int))
        }
    }
}

/// What reading one frame from the front of `bytes` yields: `Ok(None)` where
/// fewer than four bytes are there for the length prefix.
pub open spec fn frame_payload(bytes: Seq<u8>, version: Seq<u8>) -> Result<Option<Seq<u8>>, FrameError> {
    if bytes.len() < 4 {
        Ok(None)
    } else {
        let packet_len = le32_value(bytes) as int;
        if bytes.len() - 4 < packet_len {
            Err(FrameError::ShortRead)
        } else {
            match packet_payload(bytes.subrange(4, 4 + packet_len), version) {
                Ok(p) => Ok(Some(p)),
                Err(e) => Err(e),
            }
        }
    }
}

/// The view of a decoded frame.
pub open spec fn decoded_view(r: Result<Option<Vec<u8>>, FrameError>) -> Result<Option<Seq<u8>>, FrameError> {
    match r {
        Ok(Some(p)) => Ok(Some(p@)),
        Ok(None) => Ok(None),
        Err(e) => Err(e),
    }
}

/// The four little-endian bytes of a number read back give the number.
pub proof fn lemma_le32_round_trip(n: u32)
    ensures
        le32(n as nat).len() == 4,
        le32_value(le32(n as nat)) == n,
{
    assert((n % 256) + ((n / 256) % 256) * 256 + ((n / 65536) % 256) * 65536
        + ((n / 16777216) % 256) * 16777216 == n) by (bit_vector);
}

/// A frame read back yields the payload it was built from, and its header
/// holds the version byte for byte.
pub proof fn lemma_frame_round_trip(payload: Seq<u8>, version: Seq<u8>)
    requires
        frame_fits(payload, version),
    ensures
        frame_payload(frame_of(payload, version), version) == Ok::<Option<Seq<u8>>, FrameError>(Some(payload)),
        frame_of(payload, version).subrange(8, 8 + version.len() as int) == version,
{
    let f = frame_of(payload, version);
    let packet_len = (4 + version.len() + payload.len()) as u32;
    let header_len = version.len() as u32;
    lemma_le32_round_trip(packet_len);
    lemma_le32_round_trip(header_len);
    assert(f.len() == 4 + packet_len);
    assert(le32_value(f) == le32_value(le32(packet_len as nat)));
    let packet = f.subrange(4, 4 + packet_len as int);
    assert(packet =~= le32(header_len as nat) + version + payload);
    assert(le32_value(packet) == le32_value(le32(header_len as nat)));
    assert(packet.subrange(4, 4 + version.len() as int) =~= version);
    assert(packet.subrange(4 + version.len() as int, packet.len() as int) =~= payload);
    assert(f.subrange(8, 8 + version.len() as int) =~= version);
}

/// Whatever frame is read successfully, its payload is exactly the
/// `packet_len - header_len - 4` bytes that remain after the header, a
/// number that is never negative.
pub proof fn lemma_payload_length(bytes: Seq<u8>, version: Seq<u8>)
    requires
        frame_payload(bytes, version) is Ok,
        frame_payload(bytes, version).unwrap() is Some,
    ensures
        ({
            let packet_len = le32_value(bytes) as int;
            let header_len = le32_value(bytes.subrange(4, bytes.len() as int)) as int;
            let p = frame_payload(bytes, version).unwrap().unwrap();
            &&& packet_len - header_len - 4 >= 0
            &&& p.len() == packet_len - header_len - 4
            &&& p == bytes.subrange(8 + header_len, 4 + packet_len)
        }),
{
    let packet_len = le32_value(bytes) as int;
    let packet = bytes.subrange(4, 4 + packet_len);
    assert(le32_value(packet) == le32_value(bytes.subrange(4, bytes.len() as int)));
    let header_len = le32_value(packet) as int;
    assert(packet.subrange(4 + header_len, packet.len() as int) =~= bytes.subrange(8 + header_len, 4 + packet_len));
}

/// A frame whose declared header is present but differs from the version in
/// any position is refused with `VersionMismatch`, never passed on.
pub proof fn lemma_header_mismatch(bytes: Seq<u8>, version: Seq<u8>, i: int)
    requires
        bytes.len() >= 8,
        le32_value(bytes) + 4 <= bytes.len(),
        le32_value(bytes.subrange(4, bytes.len() as int)) == version.len(),
        version.len() + 4 <= le32_value(bytes),
        0 <= i < version.len(),
        bytes[8 + i] != version[i],
    ensures
        frame_payload(bytes, version) == Err::<Option<Seq<u8>>, FrameError>(FrameError::VersionMismatch),
{
    let packet_len = le32_value(bytes) as int;
    let packet = bytes.subrange(4, 4 + packet_len);
    assert(le32_value(packet) == le32_value(bytes.subrange(4, bytes.len() as int)));
    assert(packet.subrange(4, 4 + version.len() as int)[i] != version[i]);
}

/// The bytes of the protocol version spoken by this library.
pub fn protocol_version() -> (r: Vec<u8>)
    ensures
        r@ == protocol_version_spec(),
{
    let r: Vec<u8> = vec![49u8, 46u8, 48u8, 46u8, 48u8];
    assert(r@ =~= protocol_version_spec());
    r
}

/// Appends `n` to `out` as four little-endian bytes.
pub fn push_u32_le(out: &mut Vec<u8>, n: u32)
    ensures
        final(out)@ == old(out)@ + le32(n as nat),
{
    out.push((n % 256) as u8);
    out.push(((n / 256) % 256) as u8);
    out.push(((n / 65536) % 256) as u8);
    out.push(((n / 16777216) % 256) as u8);
    assert(final(out)@ =~= old(out)@ + le32(n as nat));
}

/// Reads the little-endian number held by the first four bytes of `b`.
pub fn read_u32_le(b: &[u8]) -> (r: u32)
    requires
        b@.len() >= 4,
    ensures
        r as nat == le32_value(b@),
{
    let b0 = b[0] as u32;
    let b1 = b[1] as u32;
    let b2 = b[2] as u32;
    let b3 = b[3] as u32;
    b0 + b1 * 256 + b2 * 65536 + b3 * 16777216
}

/// Appends every byte of `src` to `out`.
fn push_all(out: &mut Vec<u8>, src: &[u8])
    ensures
        final(out)@ == old(out)@ + src@,
{
    let mut i: usize = 0;
    while i < src.len()
        invariant
            i <= src@.len(),
            out@ == old(out)@ + src@.subrange(0, i as int),
        decreases src@.len() - i,
    {
        out.push(src[i]);
        i = i + 1;
        assert(out@ =~= old(out)@ + src@.subrange(0, i as int));
    }
    assert(src@.subrange(0, src@.len() as int) =~= src@);
}

/// Copies the bytes of `src` from `start` up to `end`.
fn copy_range(src: &[u8], start: usize, end: usize) -> (r: Vec<u8>)
    requires
        start <= end <= src@.len(),
    ensures
        r@ == src@.subrange(start as int, end as int),
{
    let mut r: Vec<u8> = Vec::new();
    let mut i: usize = start;
    while i < end
        invariant
            start <= i <= end <= src@.len(),
            r@ == src@.subrange(start as int, i as int),
        decreases end - i,
    {
        r.push(src[i]);
        i = i + 1;
        assert(r@ =~= src@.subrange(start as int, i as int));
    }
    r
}

/// Builds the frame that carries `payload` under the header `version`.
/// Fails with `PayloadTooLarge` exactly when its lengths do not fit in 32 bits.
pub fn encode_frame(payload: &[u8], version: &[u8]) -> (r: Result<Vec<u8>, FrameError>)
    ensures
        frame_fits(payload@, version@) ==> r == Ok::<Vec<u8>, FrameError>(r.unwrap())
            && r.unwrap()@ == frame_of(payload@, version@),
        !frame_fits(payload@, version@) ==> r == Err::<Vec<u8>, FrameError>(FrameError::PayloadTooLarge),
{
    let room: u64 = U32_MAX - 4;
    if version.len() as u64 > room || payload.len() as u64 > room - version.len() as u64 {
        return Err(FrameError::PayloadTooLarge);
    }
    let header_len = version.len() as u32;
    let packet_len = (4 + version.len() + payload.len()) as u32;
    let mut out: Vec<u8> = Vec::new();
    push_u32_le(&mut out, packet_len);
    push_u32_le(&mut out, header_len);
    push_all(&mut out, version);
    push_all(&mut out, payload);
    Ok(out)
}

/// Reads the length prefix of a frame from the bytes `prefix` that one read
/// gave. Fewer than four bytes mean that no message is there.
pub fn read_packet_len(prefix: &[u8]) -> (r: Option<u32>)
    ensures
        prefix@.len() < 4 <==> r is None,
        prefix@.len() >= 4 ==> r == Some(r.unwrap()) && r.unwrap() as nat == le32_value(prefix@),
{
    if prefix.len() < 4 {
        None
    } else {
        Some(read_u32_le(prefix))
    }
}

/// Checks the header of a packet (the `packet_len` bytes that follow the
/// length prefix) against `version` and returns its payload.
pub fn decode_packet(packet: &[u8], version: &[u8]) -> (r: Result<Vec<u8>, FrameError>)
    ensures
        match packet_payload(packet@, version@) {
            Ok(p) => r is Ok && r.unwrap()@ == p,
            Err(e) => r == Err::<Vec<u8>, FrameError>(e),
        },
{
    if packet.len() < 4 {
        return Err(FrameError::HeaderLengthMissing);
    }
    let header_len = read_u32_le(packet);
    if ((packet.len() - 4) as u64) < header_len as u64 {
        return Err(FrameError::HeaderLengthMismatch);
    }
    let header_end = 4 + header_len as usize;
    if header_len as usize != version.len() {
        assert(packet@.subrange(4, header_end as int).len() != version@.len());
        return Err(FrameError::VersionMismatch);
    }
    let mut i: usize = 0;
    while i < version.len()
        invariant
            i <= version@.len(),
            header_end == 4 + version@.len() <= packet@.len(),
            header_end as int == 4 + le32_value(packet@),
            forall|j: int| 0 <= j < i ==> packet@[4 + j] == version@[j],
        decreases version@.len() - i,
    {
        if packet[4 + i] != version[i] {
            assert(packet@.subrange(4, header_end as int)[i as int] != version@[i as int]);
            return Err(FrameError::VersionMismatch);
        }
        i = i + 1;
    }
    assert(packet@.subrange(4, header_end as int) =~= version@);
    Ok(copy_range(packet, header_end, packet.len()))
}

/// Reads one frame from the front of `bytes`: `Ok(None)` when fewer than four
/// bytes are there, else the payload or why the frame is refused.
pub fn decode_frame(bytes: &[u8], version: &[u8]) -> (r: Result<Option<Vec<u8>>, FrameError>)
    ensures
        decoded_view(r) == frame_payload(bytes@, version@),
{
    let packet_len = match read_packet_len(bytes) {
        None => return Ok(None),
        Some(n) => n,
    };
    if ((bytes.len() - 4) as u64) < packet_len as u64 {
        return Err(FrameError::ShortRead);
    }
    let packet = copy_range(bytes, 4, 4 + packet_len as usize);
    match decode_packet(packet.as_slice(), version) {
        Ok(p) => Ok(Some(p)),
        Err(e) => Err(e),
    }
}

/// The frame that carries `payload` under this library's protocol version.
pub fn frame_message(payload: &[u8]) -> (r: Result<Vec<u8>, FrameError>)
    ensures
        frame_fits(payload@, protocol_version_spec()) ==> r is Ok
            && r.unwrap()@ == frame_of(payload@, protocol_version_spec()),
        !frame_fits(payload@, protocol_version_spec()) ==> r == Err::<Vec<u8>, FrameError>(FrameError::PayloadTooLarge),
{
    let version = protocol_version();
    encode_frame(payload, version.as_slice())
}

/// The payload of a packet checked against this library's protocol version.
pub fn open_packet(packet: &[u8]) -> (r: Result<Vec<u8>, FrameError>)
    ensures
        match packet_payload(packet@, protocol_version_spec()) {
            Ok(p) => r is Ok && r.unwrap()@ == p,
            Err(e) => r == Err::<Vec<u8>, FrameError>(e),
        },
{
    let version = protocol_version();
    decode_packet(packet, version.as_slice())
}

} // verus!
