//! Wire protocol shared by the operator console and the sensor node.
//!
//! Two frame shapes travel between the processes:
//!
//! * **Command frames** (operator -> node, TCP): always exactly
//!   [`COMMAND_FRAME_LEN`] (8) bytes, sized to the largest variant and
//!   zero-padded for the smaller ones, because the node reads a fixed number
//!   of bytes before decoding. Byte 0 is the variant tag, the payload
//!   follows, multi-byte values in little-endian order.
//! * **Telemetry frames** (node -> operator, UDP): always exactly
//!   [`TELEMETRY_FRAME_LEN`] (4) bytes, one signed 32-bit angle in
//!   little-endian two's-complement form.
//!
//! Encoding is deterministic and decoding is its exact inverse: a frame
//! decodes to `Ok(c)` precisely when it is the encoding of `c`, and every
//! other input yields a [`DecodeError`] without panicking or reading out of
//! bounds.

use vstd::prelude::*;
use vstd::bytes::*;

verus! {

/// Length in bytes of every encoded command frame.
pub const COMMAND_FRAME_LEN: usize = 8;

/// Length in bytes of every encoded telemetry frame.
pub const TELEMETRY_FRAME_LEN: usize = 4;

/// UDP port on which the operator listens for telemetry; the node always
/// sends there, whatever port the peer announcement carried.
pub const TELEMETRY_PORT: u16 = 1122;

/// TCP port on which the node accepts the operator's command connection.
pub const COMMAND_PORT: u16 = 1111;

/// The angular sweep range selected by the operator.
#[derive(Debug, Clone, Copy, PartialEq, Eq, Structural)]
pub enum ScanFov {
    Narrow,
    Wide,
}

impl ScanFov {
    /// Lower bound of the range, in degrees.
    pub open spec fn lower(self) -> int {
        match self {
            ScanFov::Narrow => -45,
            ScanFov::Wide => -90,
        }
    }

    /// Upper bound of the range, in degrees.
    pub open spec fn upper(self) -> int {
        match self {
            ScanFov::Narrow => 45,
            ScanFov::Wide => 90,
        }
    }

    /// The `(lower, upper)` angular bounds of this field of view, in
    /// degrees. This mapping is authoritative: every bounds check in the
    /// sweep controller derives from it.
    pub fn angle(&self) -> (r: (i32, i32))
        ensures
            r.0 as int == self.lower(),
            r.1 as int == self.upper(),
    {
        match self {
            ScanFov::Narrow => (-45, 45),
            ScanFov::Wide => (-90, 90),
        }
    }
}

/// Whether the node's sweep loop is running.
#[derive(Debug, Clone, Copy, PartialEq, Eq, Structural)]
pub enum Status {
    Start,
    Stop,
}

/// Telemetry destination announced by a peer: an IPv4 address as four
/// octets plus a port, all plain values. The command frame is sized for an
/// IPv4 address; connections arriving over IPv6 have no encodable
/// announcement and are handled at the socket boundary.
#[derive(Debug, Clone, Copy, PartialEq, Eq, Structural)]
pub struct PeerAddress {
    pub ip0: u8,
    pub ip1: u8,
    pub ip2: u8,
    pub ip3: u8,
    pub port: u16,
}

/// An operator command, exactly one variant and its payload per instance.
/// The encoding is self-describing: the tag precedes the payload, so a
/// decoder recovers the variant without external context.
#[derive(Debug, Clone, Copy, PartialEq, Eq, Structural)]
pub enum CmdData {
    /// Select the sweep range.
    FoV(ScanFov),
    /// Start or stop the sweep.
    Operation(Status),
    /// Tell the node where to send telemetry.
    PeerAddr(PeerAddress),
    /// Return the sweep state to its defaults.
    Reset,
}

/// One telemetry reading: the sweep angle in degrees.
#[derive(Debug, Clone, Copy, PartialEq, Eq, Structural)]
pub struct SensorData {
    pub angle: i32,
}

/// Why a frame failed to decode.
#[derive(Debug, Clone, Copy, PartialEq, Eq, Structural)]
pub enum DecodeError {
    /// The input is not exactly one frame long.
    WrongLength,
    /// The tag byte names no command variant.
    BadTag,
    /// The tag is valid but the payload or padding bytes are not.
    BadPayload,
}

/// Payload byte for a field of view.
pub open spec fn spec_fov_byte(f: ScanFov) -> u8 {
    match f {
        ScanFov::Narrow => 0u8,
        ScanFov::Wide => 1u8,
    }
}

/// Payload byte for an operation status.
pub open spec fn spec_status_byte(s: Status) -> u8 {
    match s {
        Status::Start => 0u8,
        Status::Stop => 1u8,
    }
}

/// Low-order byte of a port number (little-endian).
pub open spec fn spec_port_lo(port: u16) -> u8 {
    (port % 256) as u8
}

/// High-order byte of a port number (little-endian).
pub open spec fn spec_port_hi(port: u16) -> u8 {
    (port / 256) as u8
}

/// The 8-byte frame that encodes a command. Byte 0 is the tag; unused
/// payload bytes are zero so that each value has exactly one encoding.
pub open spec fn spec_encode_command(c: CmdData) -> Seq<u8> {
    match c {
        CmdData::FoV(f) => seq![0u8, spec_fov_byte(f), 0u8, 0u8, 0u8, 0u8, 0u8, 0u8],
        CmdData::Operation(s) => seq![1u8, spec_status_byte(s), 0u8, 0u8, 0u8, 0u8, 0u8, 0u8],
        CmdData::PeerAddr(p) => seq![
            2u8,
            p.ip0,
            p.ip1,
            p.ip2,
            p.ip3,
            spec_port_lo(p.port),
            spec_port_hi(p.port),
            0u8,
        ],
        CmdData::Reset => seq![3u8, 0u8, 0u8, 0u8, 0u8, 0u8, 0u8, 0u8],
    }
}

/// Total decoder for command frames: the exact inverse of
/// [`spec_encode_command`] on its image, an error everywhere else.
pub open spec fn spec_decode_command(s: Seq<u8>) -> Result<CmdData, DecodeError> {
    if s.len() != 8 {
        Err(DecodeError::WrongLength)
    } else if s[0] == 0u8 {
        if s[2] == 0u8 && s[3] == 0u8 && s[4] == 0u8 && s[5] == 0u8 && s[6] == 0u8 && s[7] == 0u8 {
            if s[1] == 0u8 {
                Ok(CmdData::FoV(ScanFov::Narrow))
            } else if s[1] == 1u8 {
                Ok(CmdData::FoV(ScanFov::Wide))
            } else {
                Err(DecodeError::BadPayload)
            }
        } else {
            Err(DecodeError::BadPayload)
        }
    } else if s[0] == 1u8 {
        if s[2] == 0u8 && s[3] == 0u8 && s[4] == 0u8 && s[5] == 0u8 && s[6] == 0u8 && s[7] == 0u8 {
            if s[1] == 0u8 {
                Ok(CmdData::Operation(Status::Start))
            } else if s[1] == 1u8 {
                Ok(CmdData::Operation(Status::Stop))
            } else {
                Err(DecodeError::BadPayload)
            }
        } else {
            Err(DecodeError::BadPayload)
        }
    } else if s[0] == 2u8 {
        if s[7] == 0u8 {
            Ok(CmdData::PeerAddr(PeerAddress {
                ip0: s[1],
                ip1: s[2],
                ip2: s[3],
                ip3: s[4],
                port: (s[5] + 256 * s[6]) as u16,
            }))
        } else {
            Err(DecodeError::BadPayload)
        }
    } else if s[0] == 3u8 {
        if s[1] == 0u8 && s[2] == 0u8 && s[3] == 0u8 && s[4] == 0u8 && s[5] == 0u8 && s[6] == 0u8
            && s[7] == 0u8 {
            Ok(CmdData::Reset)
        } else {
            Err(DecodeError::BadPayload)
        }
    } else {
        Err(DecodeError::BadTag)
    }
}

/// Encodes a command into its fixed 8-byte frame.
pub fn encode_command(c: &CmdData) -> (r: Vec<u8>)
    ensures
        r@ == spec_encode_command(*c),
        r@.len() == COMMAND_FRAME_LEN,
{
    let r: Vec<u8> = match c {
        CmdData::FoV(f) => {
            let fb: u8 = match f {
                ScanFov::Narrow => 0,
                ScanFov::Wide => 1,
            };
            vec![0u8, fb, 0u8, 0u8, 0u8, 0u8, 0u8, 0u8]
        },
        CmdData::Operation(s) => {
            let sb: u8 = match s {
                Status::Start => 0,
                Status::Stop => 1,
            };
            vec![1u8, sb, 0u8, 0u8, 0u8, 0u8, 0u8, 0u8]
        },
        CmdData::PeerAddr(p) => {
            let plo: u8 = (p.port % 256) as u8;
            let phi: u8 = (p.port / 256) as u8;
            vec![2u8, p.ip0, p.ip1, p.ip2, p.ip3, plo, phi, 0u8]
        },
        CmdData::Reset => vec![3u8, 0u8, 0u8, 0u8, 0u8, 0u8, 0u8, 0u8],
    };
    proof {
        assert(r@ =~= spec_encode_command(*c));
    }
    r
}

/// Decodes one command frame; total on all inputs, never panics.
pub fn decode_command(frame: &[u8]) -> (r: Result<CmdData, DecodeError>)
    ensures
        r == spec_decode_command(frame@),
{
    if frame.len() != 8 {
        return Err(DecodeError::WrongLength);
    }
    let tag: u8 = frame[0];
    if tag == 0 || tag == 1 {
        if !(frame[2] == 0 && frame[3] == 0 && frame[4] == 0 && frame[5] == 0 && frame[6] == 0
            && frame[7] == 0) {
            return Err(DecodeError::BadPayload);
        }
        let payload: u8 = frame[1];
        if tag == 0 {
            if payload == 0 {
                Ok(CmdData::FoV(ScanFov::Narrow))
            } else if payload == 1 {
                Ok(CmdData::FoV(ScanFov::Wide))
            } else {
                Err(DecodeError::BadPayload)
            }
        } else {
            if payload == 0 {
                Ok(CmdData::Operation(Status::Start))
            } else if payload == 1 {
                Ok(CmdData::Operation(Status::Stop))
            } else {
                Err(DecodeError::BadPayload)
            }
        }
    } else if tag == 2 {
        if frame[7] != 0 {
            return Err(DecodeError::BadPayload);
        }
        let port: u16 = frame[5] as u16 + 256 * (frame[6] as u16);
        Ok(CmdData::PeerAddr(PeerAddress {
            ip0: frame[1],
            ip1: frame[2],
            ip2: frame[3],
            ip3: frame[4],
            port,
        }))
    } else if tag == 3 {
        if frame[1] == 0 && frame[2] == 0 && frame[3] == 0 && frame[4] == 0 && frame[5] == 0
            && frame[6] == 0 && frame[7] == 0 {
            Ok(CmdData::Reset)
        } else {
            Err(DecodeError::BadPayload)
        }
    } else {
        Err(DecodeError::BadTag)
    }
}

/// Decoding a command's own encoding gives the command back: the codec
/// round-trips for every representable command value.
pub proof fn lemma_command_round_trip(c: CmdData)
    ensures
        spec_decode_command(spec_encode_command(c)) == Ok::<CmdData, DecodeError>(c),
{
    match c {
        CmdData::PeerAddr(p) => {
            assert(p.port % 256 + 256 * (p.port / 256) == p.port) by (nonlinear_arith);
        },
        _ => {},
    }
}

/// Decoding succeeds only on exact encodings: if a frame decodes to a
/// command, the frame is that command's encoding. Together with the
/// round-trip lemma this makes the encoding deterministic and the decoder
/// its exact inverse.
pub proof fn lemma_command_decode_sound(s: Seq<u8>, c: CmdData)
    requires
        spec_decode_command(s) == Ok::<CmdData, DecodeError>(c),
    ensures
        s == spec_encode_command(c),
{
    if s[0] == 2u8 {
        let port = (s[5] + 256 * s[6]) as u16;
        assert(s[5] < 256 && s[6] < 256);
        assert(port % 256 == s[5] && port / 256 == s[6]) by (nonlinear_arith)
            requires
                port == s[5] + 256 * s[6],
                s[5] < 256,
                s[6] < 256,
        ;
    }
    assert(s =~= spec_encode_command(c));
}

/// The two's-complement 32-bit pattern of an angle, as an unsigned value.
pub open spec fn spec_angle_bits(a: i32) -> u32 {
    if a >= 0 {
        a as u32
    } else {
        (a + 0x1_0000_0000) as u32
    }
}

/// The angle whose two's-complement 32-bit pattern is `u`.
pub open spec fn spec_bits_angle(u: u32) -> i32 {
    if u < 0x8000_0000 {
        u as i32
    } else {
        (u - 0x1_0000_0000) as i32
    }
}

/// The 4-byte frame that encodes a telemetry reading: the angle in
/// little-endian two's-complement form.
pub open spec fn spec_encode_telemetry(d: SensorData) -> Seq<u8> {
    spec_u32_to_le_bytes(spec_angle_bits(d.angle))
}

/// Total decoder for telemetry frames.
pub open spec fn spec_decode_telemetry(s: Seq<u8>) -> Result<SensorData, DecodeError> {
    if s.len() != 4 {
        Err(DecodeError::WrongLength)
    } else {
        Ok(SensorData { angle: spec_bits_angle(spec_u32_from_le_bytes(s)) })
    }
}

/// Encodes a telemetry reading into its fixed 4-byte frame.
pub fn encode_telemetry(d: &SensorData) -> (r: Vec<u8>)
    ensures
        r@ == spec_encode_telemetry(*d),
        r@.len() == TELEMETRY_FRAME_LEN,
{
    let bits: u32 = if d.angle >= 0 {
        d.angle as u32
    } else {
        ((d.angle as i64) + 0x1_0000_0000i64) as u32
    };
    u32_to_le_bytes(bits)
}

/// Decodes one telemetry frame; total on all inputs, never panics.
pub fn decode_telemetry(frame: &[u8]) -> (r: Result<SensorData, DecodeError>)
    ensures
        r == spec_decode_telemetry(frame@),
{
    if frame.len() != 4 {
        return Err(DecodeError::WrongLength);
    }
    let bits: u32 = u32_from_le_bytes(frame);
    let angle: i32 = if bits < 0x8000_0000 {
        bits as i32
    } else {
        ((bits as i64) - 0x1_0000_0000i64) as i32
    };
    Ok(SensorData { angle })
}

/// Decoding a telemetry frame's own encoding gives the reading back, for
/// every representable 32-bit angle.
pub proof fn lemma_telemetry_round_trip(d: SensorData)
    ensures
        spec_decode_telemetry(spec_encode_telemetry(d)) == Ok::<SensorData, DecodeError>(d),
{
    lemma_auto_spec_u32_to_from_le_bytes();
    assert(spec_bits_angle(spec_angle_bits(d.angle)) == d.angle);
}

/// Telemetry encoding is injective: equal frames mean equal readings.
pub proof fn lemma_telemetry_decode_sound(s: Seq<u8>, d: SensorData)
    requires
        spec_decode_telemetry(s) == Ok::<SensorData, DecodeError>(d),
    ensures
        s == spec_encode_telemetry(d),
{
    lemma_auto_spec_u32_to_from_le_bytes();
    let u = spec_u32_from_le_bytes(s);
    assert(spec_angle_bits(spec_bits_angle(u)) == u);
}

} // verus!
