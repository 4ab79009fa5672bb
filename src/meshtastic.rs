//! The Meshtastic messages that the harvester reads, decoded from their wire encoding, and
//! the table of application ports.
//!
//! Each decoder reads the fields that the pipeline uses and checks their wire types; other
//! fields are skipped.
use crate::wire::{
    all_kind, check_kind, fields, find_bytes, find_fixed32, find_member, find_varint, last_bytes,
    last_fixed32, last_varint, member, read_fields, views, Field,
};
use vstd::prelude::*;

verus! {

/// Wire type of a varint.
pub const VARINT: u8 = 0;

/// Wire type of a length-delimited value.
pub const LEN: u8 = 2;

/// Wire type of a four-byte value.
pub const FIXED32: u8 = 5;

/// A message that could not be decoded, named by the structure that was being decoded.
#[derive(Debug, Clone, Copy, PartialEq, Eq)]
pub enum DecodeError {
    Envelope,
    MeshPacket,
    Data,
    Position,
    Telemetry,
    DeviceMetrics,
    NodeInfo,
}

/// The low 32 bits of `v` as an unsigned integer.
pub open spec fn low_u32(v: u64) -> u32 {
    (v % 0x1_0000_0000) as u32
}

/// `v` read as a two's complement 32-bit integer.
pub open spec fn signed32(v: u32) -> i32 {
    if v < 0x8000_0000 {
        v as i32
    } else {
        (v - 0x1_0000_0000) as i32
    }
}

fn to_u32(v: u64) -> (r: u32)
    ensures
        r == low_u32(v),
{
    (v % 0x1_0000_0000) as u32
}

fn to_i32(v: u32) -> (r: i32)
    ensures
        r == signed32(v),
{
    if v < 0x8000_0000 {
        v as i32
    } else {
        (v as i64 - 0x1_0000_0000) as i32
    }
}

/// An application payload: the port that says what it holds, and its bytes.
#[derive(Debug)]
pub struct Data {
    pub portnum: i32,
    pub payload: Vec<u8>,
}

pub struct DataView {
    pub portnum: i32,
    pub payload: Seq<u8>,
}

impl View for Data {
    type V = DataView;

    open spec fn view(&self) -> DataView {
        DataView { portnum: self.portnum, payload: self.payload@ }
    }
}

/// `Data`: port (1, an enum varint, kept as its low 32 bits) and payload (2, bytes).
pub open spec fn parsed_data(b: Seq<u8>) -> Option<DataView> {
    match fields(b) {
        Some(fs) => if all_kind(fs, 1, VARINT) && all_kind(fs, 2, LEN) {
            Some(
                DataView {
                    portnum: match last_varint(fs, 1) {
                        Some(v) => signed32(low_u32(v)),
                        None => 0,
                    },
                    payload: match last_bytes(fs, 2) {
                        Some(p) => p,
                        None => Seq::empty(),
                    },
                },
            )
        } else {
            None
        },
        None => None,
    }
}

pub fn decode_data(b: &[u8]) -> (r: Result<Data, DecodeError>)
    ensures
        match parsed_data(b@) {
            Some(d) => r matches Ok(x) && x@ == d,
            None => r == Err::<Data, DecodeError>(DecodeError::Data),
        },
{
    let fs = match read_fields(b) {
        Some(fs) => fs,
        None => return Err(DecodeError::Data),
    };
    if !(check_kind(&fs, 1, VARINT) && check_kind(&fs, 2, LEN)) {
        return Err(DecodeError::Data);
    }
    let portnum = match find_varint(&fs, 1) {
        Some(v) => to_i32(to_u32(v)),
        None => 0,
    };
    let payload = match find_bytes(&fs, 2) {
        Some(p) => p,
        None => Vec::new(),
    };
    let d = Data { portnum, payload };
    assert(d@.payload =~= parsed_data(b@)->Some_0.payload);
    Ok(d)
}

/// A position report. Latitude and longitude are degrees times 10^7; `time` is in seconds
/// since the Unix epoch.
#[derive(Debug, Clone, Copy, PartialEq, Eq)]
pub struct Position {
    pub latitude_i: i32,
    pub longitude_i: i32,
    pub altitude: i32,
    pub time: u32,
}

/// `Position`: latitude (1) and longitude (2), signed four-byte; altitude (3), a varint
/// kept as its low 32 bits; time (4), four bytes.
pub open spec fn parsed_position(b: Seq<u8>) -> Option<Position> {
    match fields(b) {
        Some(fs) => if all_kind(fs, 1, FIXED32) && all_kind(fs, 2, FIXED32) && all_kind(
            fs,
            3,
            VARINT,
        ) && all_kind(fs, 4, FIXED32) {
            Some(
                Position {
                    latitude_i: match last_fixed32(fs, 1) {
                        Some(v) => signed32(v),
                        None => 0,
                    },
                    longitude_i: match last_fixed32(fs, 2) {
                        Some(v) => signed32(v),
                        None => 0,
                    },
                    altitude: match last_varint(fs, 3) {
                        Some(v) => signed32(low_u32(v)),
                        None => 0,
                    },
                    time: match last_fixed32(fs, 4) {
                        Some(v) => v,
                        None => 0,
                    },
                },
            )
        } else {
            None
        },
        None => None,
    }
}

pub fn decode_position(b: &[u8]) -> (r: Result<Position, DecodeError>)
    ensures
        match parsed_position(b@) {
            Some(p) => r == Ok::<Position, DecodeError>(p),
            None => r == Err::<Position, DecodeError>(DecodeError::Position),
        },
{
    let fs = match read_fields(b) {
        Some(fs) => fs,
        None => return Err(DecodeError::Position),
    };
    if !(check_kind(&fs, 1, FIXED32) && check_kind(&fs, 2, FIXED32) && check_kind(&fs, 3, VARINT)
        && check_kind(&fs, 4, FIXED32)) {
        return Err(DecodeError::Position);
    }
    let latitude_i = match find_fixed32(&fs, 1) {
        Some(v) => to_i32(v),
        None => 0,
    };
    let longitude_i = match find_fixed32(&fs, 2) {
        Some(v) => to_i32(v),
        None => 0,
    };
    let altitude = match find_varint(&fs, 3) {
        Some(v) => to_i32(to_u32(v)),
        None => 0,
    };
    let time = match find_fixed32(&fs, 4) {
        Some(v) => v,
        None => 0,
    };
    Ok(Position { latitude_i, longitude_i, altitude, time })
}

/// Device metrics: battery level in percent and the bit pattern of the voltage, an IEEE 754
/// single-precision number.
#[derive(Debug, Clone, Copy, PartialEq, Eq)]
pub struct DeviceMetrics {
    pub battery_level: u32,
    pub voltage_bits: u32,
}

/// `DeviceMetrics`: battery level (1, a varint kept as its low 32 bits) and voltage (2, four
/// bytes).
pub open spec fn parsed_device_metrics(b: Seq<u8>) -> Option<DeviceMetrics> {
    match fields(b) {
        Some(fs) => if all_kind(fs, 1, VARINT) && all_kind(fs, 2, FIXED32) {
            Some(
                DeviceMetrics {
                    battery_level: match last_varint(fs, 1) {
                        Some(v) => low_u32(v),
                        None => 0,
                    },
                    voltage_bits: match last_fixed32(fs, 2) {
                        Some(v) => v,
                        None => 0,
                    },
                },
            )
        } else {
            None
        },
        None => None,
    }
}

pub fn decode_device_metrics(b: &[u8]) -> (r: Result<DeviceMetrics, DecodeError>)
    ensures
        match parsed_device_metrics(b@) {
            Some(m) => r == Ok::<DeviceMetrics, DecodeError>(m),
            None => r == Err::<DeviceMetrics, DecodeError>(DecodeError::DeviceMetrics),
        },
{
    let fs = match read_fields(b) {
        Some(fs) => fs,
        None => return Err(DecodeError::DeviceMetrics),
    };
    if !(check_kind(&fs, 1, VARINT) && check_kind(&fs, 2, FIXED32)) {
        return Err(DecodeError::DeviceMetrics);
    }
    let battery_level = match find_varint(&fs, 1) {
        Some(v) => to_u32(v),
        None => 0,
    };
    let voltage_bits = match find_fixed32(&fs, 2) {
        Some(v) => v,
        None => 0,
    };
    Ok(DeviceMetrics { battery_level, voltage_bits })
}

/// Which kind of reading a telemetry message carries. Only device metrics are read further.
#[derive(Debug, Clone, Copy, PartialEq, Eq)]
pub enum TelemetryVariant {
    DeviceMetrics(DeviceMetrics),
    EnvironmentMetrics,
    AirQualityMetrics,
    PowerMetrics,
}

/// A telemetry reading taken at `time`, seconds since the Unix epoch.
#[derive(Debug, Clone, Copy, PartialEq, Eq)]
pub struct Telemetry {
    pub time: u32,
    pub variant: Option<TelemetryVariant>,
}

/// `Telemetry`: time (1, four bytes) and a oneof of device (2), environment (3), air
/// quality (4) and power (5) metrics, each an embedded message.
pub open spec fn parsed_telemetry(b: Seq<u8>) -> Option<Telemetry> {
    match fields(b) {
        Some(fs) => if all_kind(fs, 1, FIXED32) && all_kind(fs, 2, LEN) && all_kind(fs, 3, LEN)
            && all_kind(fs, 4, LEN) && all_kind(fs, 5, LEN) {
            let time = match last_fixed32(fs, 1) {
                Some(v) => v,
                None => 0,
            };
            match member(fs, 2, 5, 0) {
                None => Some(Telemetry { time, variant: None }),
                Some((k, m)) => if k == 2 {
                    match parsed_device_metrics(m) {
                        Some(d) => Some(
                            Telemetry { time, variant: Some(TelemetryVariant::DeviceMetrics(d)) },
                        ),
                        None => None,
                    }
                } else if k == 3 {
                    Some(Telemetry { time, variant: Some(TelemetryVariant::EnvironmentMetrics) })
                } else if k == 4 {
                    Some(Telemetry { time, variant: Some(TelemetryVariant::AirQualityMetrics) })
                } else {
                    Some(Telemetry { time, variant: Some(TelemetryVariant::PowerMetrics) })
                },
            }
        } else {
            None
        },
        None => None,
    }
}

pub fn decode_telemetry(b: &[u8]) -> (r: Result<Telemetry, DecodeError>)
    ensures
        match parsed_telemetry(b@) {
            Some(t) => r == Ok::<Telemetry, DecodeError>(t),
            None => r == Err::<Telemetry, DecodeError>(DecodeError::Telemetry),
        },
{
    let fs = match read_fields(b) {
        Some(fs) => fs,
        None => return Err(DecodeError::Telemetry),
    };
    if !(check_kind(&fs, 1, FIXED32) && check_kind(&fs, 2, LEN) && check_kind(&fs, 3, LEN)
        && check_kind(&fs, 4, LEN) && check_kind(&fs, 5, LEN)) {
        return Err(DecodeError::Telemetry);
    }
    let time = match find_fixed32(&fs, 1) {
        Some(v) => v,
        None => 0,
    };
    let variant = match find_member(&fs, 2, 5, 0) {
        None => None,
        Some((k, m)) => {
            if k == 2 {
                match decode_device_metrics(m.as_slice()) {
                    Ok(d) => Some(TelemetryVariant::DeviceMetrics(d)),
                    Err(_) => return Err(DecodeError::Telemetry),
                }
            } else if k == 3 {
                Some(TelemetryVariant::EnvironmentMetrics)
            } else if k == 4 {
                Some(TelemetryVariant::AirQualityMetrics)
            } else {
                Some(TelemetryVariant::PowerMetrics)
            }
        },
    };
    Ok(Telemetry { time, variant })
}

/// What a mesh packet carries: a cleartext payload or encrypted bytes.
#[derive(Debug)]
pub enum PayloadVariant {
    Decoded(Data),
    Encrypted(Vec<u8>),
}

pub enum PayloadView {
    Decoded(DataView),
    Encrypted(Seq<u8>),
}

/// One packet of the mesh: sender, destination, packet id and what it carries, if anything.
#[derive(Debug)]
pub struct MeshPacket {
    pub from: u32,
    pub to: u32,
    pub id: u32,
    pub payload_variant: Option<PayloadVariant>,
}

pub struct MeshPacketView {
    pub from: u32,
    pub to: u32,
    pub id: u32,
    pub payload_variant: Option<PayloadView>,
}

impl View for PayloadVariant {
    type V = PayloadView;

    open spec fn view(&self) -> PayloadView {
        match self {
            PayloadVariant::Decoded(d) => PayloadView::Decoded(d@),
            PayloadVariant::Encrypted(e) => PayloadView::Encrypted(e@),
        }
    }
}

impl View for MeshPacket {
    type V = MeshPacketView;

    open spec fn view(&self) -> MeshPacketView {
        MeshPacketView {
            from: self.from,
            to: self.to,
            id: self.id,
            payload_variant: match self.payload_variant {
                Some(p) => Some(p@),
                None => None,
            },
        }
    }
}

/// `MeshPacket`: from (1), to (2) and id (6), four bytes each; a oneof of the cleartext
/// payload (4, an embedded `Data`) and the encrypted bytes (5).
pub open spec fn parsed_packet(b: Seq<u8>) -> Option<MeshPacketView> {
    match fields(b) {
        Some(fs) => if all_kind(fs, 1, FIXED32) && all_kind(fs, 2, FIXED32) && all_kind(
            fs,
            6,
            FIXED32,
        ) && all_kind(fs, 4, LEN) && all_kind(fs, 5, LEN) {
            let from = match last_fixed32(fs, 1) {
                Some(v) => v,
                None => 0,
            };
            let to = match last_fixed32(fs, 2) {
                Some(v) => v,
                None => 0,
            };
            let id = match last_fixed32(fs, 6) {
                Some(v) => v,
                None => 0,
            };
            match member(fs, 4, 4, 5) {
                None => Some(MeshPacketView { from, to, id, payload_variant: None }),
                Some((k, m)) => if k == 4 {
                    match parsed_data(m) {
                        Some(d) => Some(
                            MeshPacketView {
                                from,
                                to,
                                id,
                                payload_variant: Some(PayloadView::Decoded(d)),
                            },
                        ),
                        None => None,
                    }
                } else {
                    Some(
                        MeshPacketView {
                            from,
                            to,
                            id,
                            payload_variant: Some(PayloadView::Encrypted(m)),
                        },
                    )
                },
            }
        } else {
            None
        },
        None => None,
    }
}

pub fn decode_packet(b: &[u8]) -> (r: Result<MeshPacket, DecodeError>)
    ensures
        match parsed_packet(b@) {
            Some(p) => r matches Ok(x) && x@ == p,
            None => r == Err::<MeshPacket, DecodeError>(DecodeError::MeshPacket),
        },
{
    let fs = match read_fields(b) {
        Some(fs) => fs,
        None => return Err(DecodeError::MeshPacket),
    };
    if !(check_kind(&fs, 1, FIXED32) && check_kind(&fs, 2, FIXED32) && check_kind(&fs, 6, FIXED32)
        && check_kind(&fs, 4, LEN) && check_kind(&fs, 5, LEN)) {
        return Err(DecodeError::MeshPacket);
    }
    let from = match find_fixed32(&fs, 1) {
        Some(v) => v,
        None => 0,
    };
    let to = match find_fixed32(&fs, 2) {
        Some(v) => v,
        None => 0,
    };
    let id = match find_fixed32(&fs, 6) {
        Some(v) => v,
        None => 0,
    };
    let payload_variant = match find_member(&fs, 4, 4, 5) {
        None => None,
        Some((k, m)) => {
            if k == 4 {
                match decode_data(m.as_slice()) {
                    Ok(d) => Some(PayloadVariant::Decoded(d)),
                    Err(_) => return Err(DecodeError::MeshPacket),
                }
            } else {
                Some(PayloadVariant::Encrypted(m))
            }
        },
    };
    Ok(MeshPacket { from, to, id, payload_variant })
}

/// The envelope in which a gateway publishes one mesh packet.
#[derive(Debug)]
pub struct ServiceEnvelope {
    pub packet: Option<MeshPacket>,
}

pub struct ServiceEnvelopeView {
    pub packet: Option<MeshPacketView>,
}

impl View for ServiceEnvelope {
    type V = ServiceEnvelopeView;

    open spec fn view(&self) -> ServiceEnvelopeView {
        ServiceEnvelopeView {
            packet: match self.packet {
                Some(p) => Some(p@),
                None => None,
            },
        }
    }
}

/// `ServiceEnvelope`: the packet (1, an embedded `MeshPacket`). The channel and gateway
/// names that follow it are not read.
pub open spec fn parsed_envelope(b: Seq<u8>) -> Option<ServiceEnvelopeView> {
    match fields(b) {
        Some(fs) => if all_kind(fs, 1, LEN) {
            match member(fs, 1, 1, 0) {
                None => Some(ServiceEnvelopeView { packet: None }),
                Some((_, m)) => match parsed_packet(m) {
                    Some(p) => Some(ServiceEnvelopeView { packet: Some(p) }),
                    None => None,
                },
            }
        } else {
            None
        },
        None => None,
    }
}

pub fn decode_envelope(b: &[u8]) -> (r: Result<ServiceEnvelope, DecodeError>)
    ensures
        match parsed_envelope(b@) {
            Some(e) => r matches Ok(x) && x@ == e,
            None => r == Err::<ServiceEnvelope, DecodeError>(DecodeError::Envelope),
        },
{
    let fs = match read_fields(b) {
        Some(fs) => fs,
        None => return Err(DecodeError::Envelope),
    };
    if !check_kind(&fs, 1, LEN) {
        return Err(DecodeError::Envelope);
    }
    let packet = match find_member(&fs, 1, 1, 0) {
        None => None,
        Some((_, m)) => match decode_packet(m.as_slice()) {
            Ok(p) => Some(p),
            Err(_) => return Err(DecodeError::Envelope),
        },
    };
    Ok(ServiceEnvelope { packet })
}

/// The part of a node's announcement that the harvester reads: its node number.
#[derive(Debug, Clone, Copy, PartialEq, Eq)]
pub struct NodeInfo {
    pub num: u32,
}

/// `NodeInfo`: node number (1, a varint kept as its low 32 bits).
pub open spec fn parsed_node_info(b: Seq<u8>) -> Option<NodeInfo> {
    match fields(b) {
        Some(fs) => if all_kind(fs, 1, VARINT) {
            Some(
                NodeInfo {
                    num: match last_varint(fs, 1) {
                        Some(v) => low_u32(v),
                        None => 0,
                    },
                },
            )
        } else {
            None
        },
        None => None,
    }
}

pub fn decode_node_info(b: &[u8]) -> (r: Result<NodeInfo, DecodeError>)
    ensures
        match parsed_node_info(b@) {
            Some(n) => r == Ok::<NodeInfo, DecodeError>(n),
            None => r == Err::<NodeInfo, DecodeError>(DecodeError::NodeInfo),
        },
{
    let fs = match read_fields(b) {
        Some(fs) => fs,
        None => return Err(DecodeError::NodeInfo),
    };
    if !check_kind(&fs, 1, VARINT) {
        return Err(DecodeError::NodeInfo);
    }
    let num = match find_varint(&fs, 1) {
        Some(v) => to_u32(v),
        None => 0,
    };
    Ok(NodeInfo { num })
}

/// The application ports of the mesh protocol.
#[derive(Debug, Clone, Copy, PartialEq, Eq)]
pub enum PortNum {
    UnknownApp,
    TextMessageApp,
    RemoteHardwareApp,
    PositionApp,
    NodeinfoApp,
    RoutingApp,
    AdminApp,
    TextMessageCompressedApp,
    WaypointApp,
    AudioApp,
    DetectionSensorApp,
    ReplyApp,
    IpTunnelApp,
    PaxcounterApp,
    SerialApp,
    StoreForwardApp,
    RangeTestApp,
    TelemetryApp,
    ZpsApp,
    SimulatorApp,
    TracerouteApp,
    NeighborinfoApp,
    AtakPlugin,
    PrivateApp,
    AtakForwarder,
    Max,
}

/// The number of each port on the wire.
pub open spec fn port_number(p: PortNum) -> i32 {
    match p {
        PortNum::UnknownApp => 0,
        PortNum::TextMessageApp => 1,
        PortNum::RemoteHardwareApp => 2,
        PortNum::PositionApp => 3,
        PortNum::NodeinfoApp => 4,
        PortNum::RoutingApp => 5,
        PortNum::AdminApp => 6,
        PortNum::TextMessageCompressedApp => 7,
        PortNum::WaypointApp => 8,
        PortNum::AudioApp => 9,
        PortNum::DetectionSensorApp => 10,
        PortNum::ReplyApp => 32,
        PortNum::IpTunnelApp => 33,
        PortNum::PaxcounterApp => 34,
        PortNum::SerialApp => 64,
        PortNum::StoreForwardApp => 65,
        PortNum::RangeTestApp => 66,
        PortNum::TelemetryApp => 67,
        PortNum::ZpsApp => 68,
        PortNum::SimulatorApp => 69,
        PortNum::TracerouteApp => 70,
        PortNum::NeighborinfoApp => 71,
        PortNum::AtakPlugin => 72,
        PortNum::PrivateApp => 256,
        PortNum::AtakForwarder => 257,
        PortNum::Max => 511,
    }
}

/// The port with number `n`, if it is one of the known ports.
pub open spec fn port_of(n: i32) -> Option<PortNum> {
    match n {
        0 => Some(PortNum::UnknownApp),
        1 => Some(PortNum::TextMessageApp),
        2 => Some(PortNum::RemoteHardwareApp),
        3 => Some(PortNum::PositionApp),
        4 => Some(PortNum::NodeinfoApp),
        5 => Some(PortNum::RoutingApp),
        6 => Some(PortNum::AdminApp),
        7 => Some(PortNum::TextMessageCompressedApp),
        8 => Some(PortNum::WaypointApp),
        9 => Some(PortNum::AudioApp),
        10 => Some(PortNum::DetectionSensorApp),
        32 => Some(PortNum::ReplyApp),
        33 => Some(PortNum::IpTunnelApp),
        34 => Some(PortNum::PaxcounterApp),
        64 => Some(PortNum::SerialApp),
        65 => Some(PortNum::StoreForwardApp),
        66 => Some(PortNum::RangeTestApp),
        67 => Some(PortNum::TelemetryApp),
        68 => Some(PortNum::ZpsApp),
        69 => Some(PortNum::SimulatorApp),
        70 => Some(PortNum::TracerouteApp),
        71 => Some(PortNum::NeighborinfoApp),
        72 => Some(PortNum::AtakPlugin),
        256 => Some(PortNum::PrivateApp),
        257 => Some(PortNum::AtakForwarder),
        511 => Some(PortNum::Max),
        _ => None,
    }
}

/// Errors of the harvester's own rules.
#[derive(Debug, Clone, Copy, PartialEq, Eq)]
pub enum HarvesterError {
    /// A timestamp that is no instant of the calendar.
    BadTimestamp(u32),
    /// A port number that is not one of the known ports.
    UnrecognizedPortNum(i32),
}

/// The port with number `portnum`, or an error that carries the number.
pub fn int_to_portnum(portnum: i32) -> (r: Result<PortNum, HarvesterError>)
    ensures
        match port_of(portnum) {
            Some(p) => r == Ok::<PortNum, HarvesterError>(p),
            None => r == Err::<PortNum, HarvesterError>(HarvesterError::UnrecognizedPortNum(portnum)),
        },
        r matches Ok(p) ==> port_number(p) == portnum,
{
    let r = match portnum {
        0 => Ok(PortNum::UnknownApp),
        1 => Ok(PortNum::TextMessageApp),
        2 => Ok(PortNum::RemoteHardwareApp),
        3 => Ok(PortNum::PositionApp),
        4 => Ok(PortNum::NodeinfoApp),
        5 => Ok(PortNum::RoutingApp),
        6 => Ok(PortNum::AdminApp),
        7 => Ok(PortNum::TextMessageCompressedApp),
        8 => Ok(PortNum::WaypointApp),
        9 => Ok(PortNum::AudioApp),
        10 => Ok(PortNum::DetectionSensorApp),
        32 => Ok(PortNum::ReplyApp),
        33 => Ok(PortNum::IpTunnelApp),
        34 => Ok(PortNum::PaxcounterApp),
        64 => Ok(PortNum::SerialApp),
        65 => Ok(PortNum::StoreForwardApp),
        66 => Ok(PortNum::RangeTestApp),
        67 => Ok(PortNum::TelemetryApp),
        68 => Ok(PortNum::ZpsApp),
        69 => Ok(PortNum::SimulatorApp),
        70 => Ok(PortNum::TracerouteApp),
        71 => Ok(PortNum::NeighborinfoApp),
        72 => Ok(PortNum::AtakPlugin),
        256 => Ok(PortNum::PrivateApp),
        257 => Ok(PortNum::AtakForwarder),
        511 => Ok(PortNum::Max),
        _ => Err(HarvesterError::UnrecognizedPortNum(portnum)),
    };
    r
}

/// Port numbers and ports correspond one to one: `n` is classified as port `p` exactly when
/// `n` is the number of `p`. So no two numbers give the same port, no known number gives
/// another port than its own, and every other number is unrecognized.
pub proof fn lemma_port_table(n: i32, p: PortNum)
    ensures
        port_of(n) == Some(p) <==> port_number(p) == n,
{
    match p {
        PortNum::UnknownApp => {},
        PortNum::TextMessageApp => {},
        PortNum::RemoteHardwareApp => {},
        PortNum::PositionApp => {},
        PortNum::NodeinfoApp => {},
        PortNum::RoutingApp => {},
        PortNum::AdminApp => {},
        PortNum::TextMessageCompressedApp => {},
        PortNum::WaypointApp => {},
        PortNum::AudioApp => {},
        PortNum::DetectionSensorApp => {},
        PortNum::ReplyApp => {},
        PortNum::IpTunnelApp => {},
        PortNum::PaxcounterApp => {},
        PortNum::SerialApp => {},
        PortNum::StoreForwardApp => {},
        PortNum::RangeTestApp => {},
        PortNum::TelemetryApp => {},
        PortNum::ZpsApp => {},
        PortNum::SimulatorApp => {},
        PortNum::TracerouteApp => {},
        PortNum::NeighborinfoApp => {},
        PortNum::AtakPlugin => {},
        PortNum::PrivateApp => {},
        PortNum::AtakForwarder => {},
        PortNum::Max => {},
    }
}

} // verus!
