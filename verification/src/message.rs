use vstd::prelude::*;

use crate::error::Gdl90Error;

verus! {

/// Marker for the decoded GDL-90 record types.
pub trait Message {

}

// ---------------------------------------------------------------------------
// Field codec: numeric interpretations of raw payload bytes.
// ---------------------------------------------------------------------------

/// Unsigned 24-bit big-endian integer packed in three bytes.
pub open spec fn spec_u24(b0: u8, b1: u8, b2: u8) -> u32 {
    ((b0 as u32) << 16) | ((b1 as u32) << 8) | (b2 as u32)
}

/// Signed 24-bit big-endian two's-complement integer: bit 23 is the sign.
pub open spec fn spec_i24(b0: u8, b1: u8, b2: u8) -> i32 {
    if spec_u24(b0, b1, b2) >= 0x800000 {
        (spec_u24(b0, b1, b2) - 0x1000000) as i32
    } else {
        spec_u24(b0, b1, b2) as i32
    }
}

/// Upper 12 bits of a big-endian byte pair: `vv vx` yields `0vvv`.
pub open spec fn spec_upper_u12(b0: u8, b1: u8) -> u16 {
    ((b0 as u16) << 4) | ((b1 as u16) >> 4)
}

/// Lower 12 bits of a big-endian byte pair: `xv vv` yields `0vvv`.
pub open spec fn spec_lower_u12(b0: u8, b1: u8) -> u16 {
    (((b0 & 0x0F) as u16) << 8) | (b1 as u16)
}

/// Lower 12 bits of a big-endian byte pair, sign-extended from bit 11.
pub open spec fn spec_lower_i12(b0: u8, b1: u8) -> i16 {
    if spec_lower_u12(b0, b1) >= 0x800 {
        (spec_lower_u12(b0, b1) - 0x1000) as i16
    } else {
        spec_lower_u12(b0, b1) as i16
    }
}

// ---------------------------------------------------------------------------
// Heartbeat
// ---------------------------------------------------------------------------

/// GDL-90 Heartbeat record: two opaque status bytes, a little-endian
/// timestamp and a little-endian UAT message count.
#[derive(Clone, Copy, Debug, PartialEq, Eq, Structural)]
pub struct Heartbeat {
    pub status1: u8,
    pub status2: u8,
    pub timestamp: u16,
    pub uat_message_count: u16,
}

/// `h` is the Heartbeat read from the six payload bytes `bytes`.
pub open spec fn heartbeat_matches(bytes: Seq<u8>, h: Heartbeat) -> bool {
    &&& h.status1 == bytes[0]
    &&& h.status2 == bytes[1]
    &&& h.timestamp == ((bytes[3] as u16) << 8) | (bytes[2] as u16)
    &&& h.uat_message_count == ((bytes[5] as u16) << 8) | (bytes[4] as u16)
}

impl Heartbeat {
    pub fn new(status1: u8, status2: u8, timestamp: u16, uat_message_count: u16) -> (h: Heartbeat)
        ensures
            h == (Heartbeat { status1, status2, timestamp, uat_message_count }),
    {
        Heartbeat { status1, status2, timestamp, uat_message_count }
    }

    /// Reads a Heartbeat from its six payload bytes (type byte and frame
    /// check bytes already removed by the caller).
    pub fn from_bytes(bytes: &[u8]) -> (h: Heartbeat)
        requires
            bytes@.len() == 6,
        ensures
            heartbeat_matches(bytes@, h),
    {
        Heartbeat {
            status1: bytes[0],
            status2: bytes[1],
            timestamp: ((bytes[3] as u16) << 8) | (bytes[2] as u16),
            uat_message_count: ((bytes[5] as u16) << 8) | (bytes[4] as u16),
        }
    }
}

impl Message for Heartbeat {

}

// ---------------------------------------------------------------------------
// Address type
// ---------------------------------------------------------------------------

/// Kind of address carried by an Ownship or Traffic report. Nibble values
/// 0x6-0xF are reserved by the protocol.
#[derive(Clone, Copy, Debug, PartialEq, Eq, Structural)]
pub enum AddressType {
    AdsBIcao,
    AdsBSelfAssigned,
    TisBIcao,
    TisBTrackFile,
    SurfaceVehicle,
    GroundStationBeacon,
}

/// Meaning of an address-type nibble: 0x0-0x5 are the defined kinds, 0x6-0xF
/// are reserved content, and anything above a nibble cannot come from the
/// wire at all.
pub open spec fn spec_address_type(byte: u8) -> Result<AddressType, Gdl90Error> {
    if byte == 0x0 {
        Ok(AddressType::AdsBIcao)
    } else if byte == 0x1 {
        Ok(AddressType::AdsBSelfAssigned)
    } else if byte == 0x2 {
        Ok(AddressType::TisBIcao)
    } else if byte == 0x3 {
        Ok(AddressType::TisBTrackFile)
    } else if byte == 0x4 {
        Ok(AddressType::SurfaceVehicle)
    } else if byte == 0x5 {
        Ok(AddressType::GroundStationBeacon)
    } else if byte <= 0xF {
        Err(Gdl90Error::ReservedContent)
    } else {
        Err(Gdl90Error::LogicError)
    }
}

impl AddressType {
    pub fn from_byte(byte: u8) -> (r: Result<AddressType, Gdl90Error>)
        ensures
            r == spec_address_type(byte),
    {
        if byte == 0x0 {
            Ok(AddressType::AdsBIcao)
        } else if byte == 0x1 {
            Ok(AddressType::AdsBSelfAssigned)
        } else if byte == 0x2 {
            Ok(AddressType::TisBIcao)
        } else if byte == 0x3 {
            Ok(AddressType::TisBTrackFile)
        } else if byte == 0x4 {
            Ok(AddressType::SurfaceVehicle)
        } else if byte == 0x5 {
            Ok(AddressType::GroundStationBeacon)
        } else if byte <= 0xF {
            Err(Gdl90Error::ReservedContent)
        } else {
            Err(Gdl90Error::LogicError)
        }
    }
}

// ---------------------------------------------------------------------------
// Track / heading
// ---------------------------------------------------------------------------

/// One raw angle byte, tagged by the report's track-type selector. The angle
/// byte maps to degrees as `raw * 360 / 256`; the scaling to degrees is left
/// to the presentation layer.
#[derive(Clone, Copy, Debug, PartialEq, Eq, Structural)]
pub enum TrackHeading {
    Invalid,
    TrueTrack(u8),
    MagneticHeading(u8),
    TrueHeading(u8),
}

/// The tagged angle read from the miscellaneous byte (its two low selector
/// bits) and the raw track byte.
pub open spec fn spec_track_heading(misc: u8, raw: u8) -> TrackHeading {
    if misc & 0x3 == 0x0 {
        TrackHeading::Invalid
    } else if misc & 0x3 == 0x1 {
        TrackHeading::TrueTrack(raw)
    } else if misc & 0x3 == 0x2 {
        TrackHeading::MagneticHeading(raw)
    } else {
        TrackHeading::TrueHeading(raw)
    }
}

// ---------------------------------------------------------------------------
// Ownship / Traffic report
// ---------------------------------------------------------------------------

/// One position record, used both for the Ownship Report and for the Traffic
/// Report (the two differ only in the message-type byte that produced them).
///
/// Latitude and longitude hold the raw signed 24-bit semicircle values; a
/// value maps to degrees as `raw * 180 / 8388608`, a scaling left to the
/// presentation layer. Altitude is in feet, horizontal velocity in knots,
/// vertical speed in feet per minute. `None` stands for a field the source
/// device marked "no data".
#[derive(Clone, Copy, Debug, PartialEq, Eq)]
pub struct OwnShipTraffic {
    pub traffic_alert: bool,
    pub address_type: AddressType,
    pub address: u32,
    pub latitude: i32,
    pub longitude: i32,
    pub altitude: i32,
    pub airborne: bool,
    pub extrapolated: bool,
    pub track_heading: TrackHeading,
    pub nic_nacp: u8,
    pub horizontal_velocity: Option<u16>,
    pub vertical_speed: Option<i32>,
    pub emitter_category: u8,
    pub callsign: [u8; 8],
    pub emergency: u8,
}

impl Message for OwnShipTraffic {

}

/// `m` is the record read from the 27 payload bytes `bytes` (type byte and
/// frame check bytes already removed).
pub open spec fn ownship_matches(bytes: Seq<u8>, m: OwnShipTraffic) -> bool {
    &&& m.traffic_alert == ((bytes[0] & 0x10) != 0)
    &&& Ok::<AddressType, Gdl90Error>(m.address_type) == spec_address_type(bytes[0] & 0xF)
    &&& m.address == spec_u24(bytes[1], bytes[2], bytes[3])
    &&& m.latitude == spec_i24(bytes[4], bytes[5], bytes[6])
    &&& m.longitude == spec_i24(bytes[7], bytes[8], bytes[9])
    &&& m.altitude == spec_upper_u12(bytes[10], bytes[11]) * 25 - 1000
    &&& m.airborne == (bytes[11] & 0x8 != 0)
    &&& m.extrapolated == (bytes[11] & 0x4 != 0)
    &&& m.nic_nacp == bytes[12]
    &&& m.horizontal_velocity == (if spec_upper_u12(bytes[13], bytes[14]) == 0xFFF {
        None
    } else {
        Some(spec_upper_u12(bytes[13], bytes[14]))
    })
    &&& m.vertical_speed == (if spec_lower_i12(bytes[14], bytes[15]) == -0xFFF {
        None
    } else {
        Some((spec_lower_i12(bytes[14], bytes[15]) * 64) as i32)
    })
    &&& m.track_heading == spec_track_heading(bytes[11], bytes[16])
    &&& m.emitter_category == bytes[17]
    &&& m.callsign@ == seq![
        bytes[18],
        bytes[19],
        bytes[20],
        bytes[21],
        bytes[22],
        bytes[23],
        bytes[24],
        bytes[25],
    ]
    &&& m.emergency == bytes[26]
}

/// The error, if any, that decoding the 27-byte record payload must report:
/// a wrong payload length is a structural mismatch, and a reserved
/// address-type nibble is reserved content. Length is checked first.
pub open spec fn spec_ownship_error(bytes: Seq<u8>) -> Option<Gdl90Error> {
    if bytes.len() != 27 {
        Some(Gdl90Error::InvalidMessage)
    } else if bytes[0] & 0xF > 5 {
        Some(Gdl90Error::ReservedContent)
    } else {
        None
    }
}

/// `r` is the outcome of decoding the record payload `bytes`: the exact
/// error `spec_ownship_error` demands, or else the record all of whose
/// fields `ownship_matches` pins.
pub open spec fn ownship_result_matches(bytes: Seq<u8>, r: Result<
    OwnShipTraffic,
    Gdl90Error,
>) -> bool {
    match spec_ownship_error(bytes) {
        Some(e) => r == Err::<OwnShipTraffic, Gdl90Error>(e),
        None => r matches Ok(m) && ownship_matches(bytes, m),
    }
}

impl OwnShipTraffic {
    /// Decodes the 27 payload bytes of an Ownship or Traffic report.
    pub fn from_bytes(bytes: &[u8]) -> (r: Result<OwnShipTraffic, Gdl90Error>)
        ensures
            ownship_result_matches(bytes@, r),
    {
        if bytes.len() != 27 {
            return Err(Gdl90Error::InvalidMessage);
        }
        let b0 = bytes[0];
        proof {
            assert(b0 & 0xF <= 0xF) by (bit_vector);
        }
        let address_type = match AddressType::from_byte(b0 & 0xF) {
            Ok(at) => at,
            Err(e) => {
                return Err(e);
            },
        };
        let b11 = bytes[11];
        proof {
            assert(b11 & 0x3 <= 0x3) by (bit_vector);
        }
        let sel = b11 & 0x3;
        let track_heading = if sel == 0x0 {
            TrackHeading::Invalid
        } else if sel == 0x1 {
            TrackHeading::TrueTrack(bytes[16])
        } else if sel == 0x2 {
            TrackHeading::MagneticHeading(bytes[16])
        } else {
            TrackHeading::TrueHeading(bytes[16])
        };
        let altitude_raw = Self::upper_u12_from_bytes_msb(bytes[10], b11);
        let hv_raw = Self::upper_u12_from_bytes_msb(bytes[13], bytes[14]);
        let vs_raw = Self::lower_i12_from_bytes_msb(bytes[14], bytes[15]);
        Ok(
            OwnShipTraffic {
                traffic_alert: b0 & 0x10 != 0,
                address_type,
                address: Self::u24_from_bytes_msb(bytes[1], bytes[2], bytes[3]),
                latitude: Self::i24_from_bytes_msb(bytes[4], bytes[5], bytes[6]),
                longitude: Self::i24_from_bytes_msb(bytes[7], bytes[8], bytes[9]),
                altitude: altitude_raw as i32 * 25 - 1000,
                airborne: b11 & 0x8 != 0,
                extrapolated: b11 & 0x4 != 0,
                track_heading,
                nic_nacp: bytes[12],
                horizontal_velocity: if hv_raw == 0xFFF {
                    None
                } else {
                    Some(hv_raw)
                },
                vertical_speed: if vs_raw == -0xFFF {
                    None
                } else {
                    Some(vs_raw as i32 * 64)
                },
                emitter_category: bytes[17],
                callsign: [
                    bytes[18],
                    bytes[19],
                    bytes[20],
                    bytes[21],
                    bytes[22],
                    bytes[23],
                    bytes[24],
                    bytes[25],
                ],
                emergency: bytes[26],
            },
        )
    }

    fn u24_from_bytes_msb(b0: u8, b1: u8, b2: u8) -> (r: u32)
        ensures
            r == spec_u24(b0, b1, b2),
            r <= 0xFFFFFF,
    {
        proof {
            assert(((b0 as u32) << 16) | ((b1 as u32) << 8) | (b2 as u32) <= 0xFFFFFF)
                by (bit_vector);
        }
        ((b0 as u32) << 16) | ((b1 as u32) << 8) | (b2 as u32)
    }

    fn i24_from_bytes_msb(b0: u8, b1: u8, b2: u8) -> (r: i32)
        ensures
            r == spec_i24(b0, b1, b2),
    {
        let u = Self::u24_from_bytes_msb(b0, b1, b2);
        if u >= 0x800000 {
            u as i32 - 0x1000000
        } else {
            u as i32
        }
    }

    fn upper_u12_from_bytes_msb(b0: u8, b1: u8) -> (r: u16)
        ensures
            r == spec_upper_u12(b0, b1),
            r <= 0xFFF,
    {
        proof {
            assert(((b0 as u16) << 4) | ((b1 as u16) >> 4) <= 0xFFF) by (bit_vector);
        }
        ((b0 as u16) << 4) | ((b1 as u16) >> 4)
    }

    fn lower_u12_from_bytes_msb(b0: u8, b1: u8) -> (r: u16)
        ensures
            r == spec_lower_u12(b0, b1),
            r <= 0xFFF,
    {
        proof {
            assert((((b0 & 0x0F) as u16) << 8) | (b1 as u16) <= 0xFFF) by (bit_vector);
        }
        (((b0 & 0x0F) as u16) << 8) | (b1 as u16)
    }

    fn lower_i12_from_bytes_msb(b0: u8, b1: u8) -> (r: i16)
        ensures
            r == spec_lower_i12(b0, b1),
            -0x800 <= r <= 0x7FF,
    {
        let u = Self::lower_u12_from_bytes_msb(b0, b1);
        if u >= 0x800 {
            u as i16 - 0x1000
        } else {
            u as i16
        }
    }
}

// ---------------------------------------------------------------------------
// Message dispatch
// ---------------------------------------------------------------------------

/// One fully decoded GDL-90 record. Ownship and Traffic share the record
/// shape and differ only in the message-type byte that produced them.
#[derive(Clone, Copy, Debug, PartialEq, Eq)]
pub enum Gdl90Message {
    Heartbeat(Heartbeat),
    OwnShip(OwnShipTraffic),
    Traffic(OwnShipTraffic),
}

/// `r` is the outcome of decoding one de-stuffed frame `bytes` (frame check
/// bytes already removed; byte 0 is the message type): a Heartbeat for type
/// 0x00 with exactly 6 payload bytes, an Ownship or Traffic record for types
/// 0x10 and 0x20 with exactly 27, `UnknownMessageType` for any other type
/// byte, and `InvalidMessage` for a frame too short to carry its type.
pub open spec fn decode_outcome_matches(bytes: Seq<u8>, r: Result<
    Gdl90Message,
    Gdl90Error,
>) -> bool {
    if bytes.len() == 0 {
        r == Err::<Gdl90Message, Gdl90Error>(Gdl90Error::InvalidMessage)
    } else if bytes[0] == 0x00 {
        if bytes.len() != 7 {
            r == Err::<Gdl90Message, Gdl90Error>(Gdl90Error::InvalidMessage)
        } else {
            r matches Ok(Gdl90Message::Heartbeat(h)) && heartbeat_matches(bytes.skip(1), h)
        }
    } else if bytes[0] == 0x10 {
        match spec_ownship_error(bytes.skip(1)) {
            Some(e) => r == Err::<Gdl90Message, Gdl90Error>(e),
            None => r matches Ok(Gdl90Message::OwnShip(m)) && ownship_matches(bytes.skip(1), m),
        }
    } else if bytes[0] == 0x20 {
        match spec_ownship_error(bytes.skip(1)) {
            Some(e) => r == Err::<Gdl90Message, Gdl90Error>(e),
            None => r matches Ok(Gdl90Message::Traffic(m)) && ownship_matches(bytes.skip(1), m),
        }
    } else {
        r == Err::<Gdl90Message, Gdl90Error>(Gdl90Error::UnknownMessageType)
    }
}

impl Gdl90Message {
    /// Decodes one complete de-stuffed frame (frame check bytes already
    /// removed), dispatching on the message-type byte.
    pub fn from_bytes(bytes: &[u8]) -> (r: Result<Gdl90Message, Gdl90Error>)
        ensures
            decode_outcome_matches(bytes@, r),
    {
        if bytes.len() == 0 {
            return Err(Gdl90Error::InvalidMessage);
        }
        let n = bytes.len();
        match bytes[0] {
            0x00 => {
                if n != 7 {
                    Err(Gdl90Error::InvalidMessage)
                } else {
                    Ok(
                        Gdl90Message::Heartbeat(
                            Heartbeat::from_bytes(vstd::slice::slice_subrange(bytes, 1, 7)),
                        ),
                    )
                }
            },
            0x10 => {
                match OwnShipTraffic::from_bytes(vstd::slice::slice_subrange(bytes, 1, n)) {
                    Ok(m) => Ok(Gdl90Message::OwnShip(m)),
                    Err(e) => Err(e),
                }
            },
            0x20 => {
                match OwnShipTraffic::from_bytes(vstd::slice::slice_subrange(bytes, 1, n)) {
                    Ok(m) => Ok(Gdl90Message::Traffic(m)),
                    Err(e) => Err(e),
                }
            },
            _ => Err(Gdl90Error::UnknownMessageType),
        }
    }
}

// ---------------------------------------------------------------------------
// Decode laws
// ---------------------------------------------------------------------------

/// A record payload whose address-type nibble lies in the reserved range
/// 0x6-0xF decodes to the `ReservedContent` error, never to a record or to
/// any other outcome.
pub proof fn lemma_reserved_address_type(bytes: Seq<u8>, r: Result<OwnShipTraffic, Gdl90Error>)
    requires
        bytes.len() == 27,
        0x6 <= bytes[0] & 0xF <= 0xF,
        ownship_result_matches(bytes, r),
    ensures
        r == Err::<OwnShipTraffic, Gdl90Error>(Gdl90Error::ReservedContent),
{
}

/// In a decoded record, the horizontal velocity field is absent exactly when
/// its 12-bit value on the wire is the all-ones sentinel 0xFFF; any other
/// value is carried over literally, with no scaling.
pub proof fn lemma_horizontal_velocity_sentinel(bytes: Seq<u8>, m: OwnShipTraffic)
    requires
        bytes.len() == 27,
        ownship_matches(bytes, m),
    ensures
        spec_upper_u12(bytes[13], bytes[14]) == 0xFFF ==> m.horizontal_velocity is None,
        spec_upper_u12(bytes[13], bytes[14]) != 0xFFF ==> m.horizontal_velocity == Some(
            spec_upper_u12(bytes[13], bytes[14]),
        ),
{
}

/// In a decoded record, the vertical speed field is absent exactly when its
/// sign-extended 12-bit value on the wire is -0xFFF; any other value is
/// multiplied by 64 feet per minute.
pub proof fn lemma_vertical_speed_sentinel(bytes: Seq<u8>, m: OwnShipTraffic)
    requires
        bytes.len() == 27,
        ownship_matches(bytes, m),
    ensures
        spec_lower_i12(bytes[14], bytes[15]) == -0xFFF ==> m.vertical_speed is None,
        spec_lower_i12(bytes[14], bytes[15]) != -0xFFF ==> (m.vertical_speed matches Some(v)
            && v == spec_lower_i12(bytes[14], bytes[15]) * 64),
{
    let b0 = bytes[14];
    let b1 = bytes[15];
    assert((((b0 & 0x0F) as u16) << 8) | (b1 as u16) <= 0xFFF) by (bit_vector);
    assert(spec_lower_u12(b0, b1) <= 0xFFF);
}

/// A frame whose type byte is none of the known ones (0x00, 0x10, 0x20)
/// decodes to the `UnknownMessageType` error and nothing else.
pub proof fn lemma_unknown_message_type(bytes: Seq<u8>, r: Result<Gdl90Message, Gdl90Error>)
    requires
        bytes.len() > 0,
        bytes[0] != 0x00,
        bytes[0] != 0x10,
        bytes[0] != 0x20,
        decode_outcome_matches(bytes, r),
    ensures
        r == Err::<Gdl90Message, Gdl90Error>(Gdl90Error::UnknownMessageType),
{
}

} // verus!
