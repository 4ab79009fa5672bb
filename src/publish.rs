//! The ingestion pipeline: what one message published on the bus comes to. It decodes the
//! envelope, decrypts where needed, classifies the port and reads the payloads of the ports
//! that record something. Persisting and logging the outcome is the caller's part.
use crate::cipher::{decrypt_data, keystream_xor};
use crate::meshtastic::{
    decode_envelope, decode_node_info, decode_position, decode_telemetry, int_to_portnum,
    parsed_data, parsed_envelope, parsed_node_info, parsed_position, parsed_telemetry,
    port_of, Data, DataView, DecodeError, HarvesterError, NodeInfo, PayloadVariant, PayloadView,
    PortNum, Telemetry, TelemetryVariant,
};
use crate::utils::{carries_packets, find_last_slash, is_packet_topic, last_segment};
use crate::wire::{copy_range, field, fields, pow128, varint, varint_len_from, varint_sum};
use vstd::prelude::*;
use vstd::string::StringSliceAdditionalSpecFns;
use vstd::utf8::{decode_utf8, valid_utf8};

verus! {

/// An instant of the UTC calendar, as seconds since the Unix epoch.
#[derive(Debug, Clone, Copy, PartialEq, Eq)]
pub struct UtcTime {
    pub secs: i64,
}

/// Relies on chrono's `DateTime::<Utc>::from_timestamp(secs, 0)`: it returns `None` only for
/// a number of seconds out of its range, some 262,000 years either side of the common era,
/// which every `u32` number of seconds since 1970 lies within.
#[verifier::external_body]
fn utc_time(secs: i64) -> (r: Option<UtcTime>)
    ensures
        r matches Some(t) ==> t.secs == secs,
        0 <= secs <= u32::MAX ==> r is Some,
{
    match chrono::DateTime::from_timestamp(secs, 0) {
        Some(_) => Some(UtcTime { secs }),
        None => None,
    }
}

/// Relies on std's `String::from_utf8`: it succeeds exactly on valid UTF-8, and the text
/// holds the characters that the bytes encode.
#[verifier::external_body]
fn text_from_utf8(b: Vec<u8>) -> (r: Option<String>)
    ensures
        r is Some <==> valid_utf8(b@),
        r matches Some(s) ==> s@ == decode_utf8(b@),
{
    match String::from_utf8(b) {
        Ok(s) => Some(s),
        Err(_) => None,
    }
}

/// The key under which a node's readings are stored: its node number, or, for a packet that
/// names no sender, the last segment of the topic (as bytes of UTF-8).
#[derive(Debug)]
pub enum ClientId {
    Node(u32),
    Topic(Vec<u8>),
}

pub enum ClientIdView {
    Node(u32),
    Topic(Seq<u8>),
}

impl View for ClientId {
    type V = ClientIdView;

    open spec fn view(&self) -> ClientIdView {
        match self {
            ClientId::Node(n) => ClientIdView::Node(*n),
            ClientId::Topic(t) => ClientIdView::Topic(t@),
        }
    }
}

/// The client of a packet from node `from` published on `topic`: node 0 stands for no sender.
pub open spec fn client_of(from: u32, topic: Seq<u8>) -> ClientIdView {
    if from != 0 {
        ClientIdView::Node(from)
    } else {
        ClientIdView::Topic(last_segment(topic))
    }
}

fn client_id(from: u32, topic: &[u8]) -> (r: ClientId)
    ensures
        r@ == client_of(from, topic@),
{
    if from != 0 {
        ClientId::Node(from)
    } else {
        let n = topic.len();
        let start = match find_last_slash(topic) {
            Some(i) => i + 1,
            None => 0,
        };
        let t = copy_range(topic, start, n);
        assert(t@ =~= last_segment(topic@));
        ClientId::Topic(t)
    }
}

/// A position to store: where a node was (degrees times 10^7) and when.
#[derive(Debug)]
pub struct PositionRecord {
    pub client: ClientId,
    pub latitude_i: i32,
    pub longitude_i: i32,
    pub time: UtcTime,
}

pub struct PositionRecordView {
    pub client: ClientIdView,
    pub latitude_i: i32,
    pub longitude_i: i32,
    pub time: UtcTime,
}

/// Device metrics to store: battery level, the bit pattern of the voltage (an `f32`) and when.
#[derive(Debug)]
pub struct TelemetryRecord {
    pub client: ClientId,
    pub battery_level: u32,
    pub voltage_bits: u32,
    pub time: UtcTime,
}

pub struct TelemetryRecordView {
    pub client: ClientIdView,
    pub battery_level: u32,
    pub voltage_bits: u32,
    pub time: UtcTime,
}

/// What a message came to.
#[derive(Debug)]
pub enum Handled {
    /// The topic does not carry raw packets.
    NotPacketTopic,
    /// The envelope holds no packet.
    NoPacket,
    /// The packet carries neither a payload nor encrypted bytes.
    EmptyPacket,
    /// The encrypted bytes are empty: there is no payload.
    NoPayload,
    /// The decrypted bytes are no payload: another key, or noise.
    Undecryptable,
    /// A known port that records nothing.
    Ignored(PortNum),
    /// A text message.
    Text(String),
    /// A node's announcement.
    NodeInfo(NodeInfo),
    /// A position to store.
    Position(PositionRecord),
    /// Device metrics to store.
    Telemetry(TelemetryRecord),
    /// A telemetry reading that is not stored: other metrics, or none.
    TelemetryNotStored(Telemetry),
}

pub enum HandledView {
    NotPacketTopic,
    NoPacket,
    EmptyPacket,
    NoPayload,
    Undecryptable,
    Ignored(PortNum),
    Text(Seq<char>),
    NodeInfo(NodeInfo),
    Position(PositionRecordView),
    Telemetry(TelemetryRecordView),
    TelemetryNotStored(Telemetry),
}

impl View for Handled {
    type V = HandledView;

    open spec fn view(&self) -> HandledView {
        match self {
            Handled::NotPacketTopic => HandledView::NotPacketTopic,
            Handled::NoPacket => HandledView::NoPacket,
            Handled::EmptyPacket => HandledView::EmptyPacket,
            Handled::NoPayload => HandledView::NoPayload,
            Handled::Undecryptable => HandledView::Undecryptable,
            Handled::Ignored(p) => HandledView::Ignored(*p),
            Handled::Text(s) => HandledView::Text(s@),
            Handled::NodeInfo(n) => HandledView::NodeInfo(*n),
            Handled::Position(r) => HandledView::Position(
                PositionRecordView {
                    client: r.client@,
                    latitude_i: r.latitude_i,
                    longitude_i: r.longitude_i,
                    time: r.time,
                },
            ),
            Handled::Telemetry(r) => HandledView::Telemetry(
                TelemetryRecordView {
                    client: r.client@,
                    battery_level: r.battery_level,
                    voltage_bits: r.voltage_bits,
                    time: r.time,
                },
            ),
            Handled::TelemetryNotStored(t) => HandledView::TelemetryNotStored(*t),
        }
    }
}

/// Why a message was dropped.
#[derive(Debug, Clone, Copy, PartialEq, Eq)]
pub enum ProcessError {
    Decode(DecodeError),
    Harvester(HarvesterError),
    /// A text message that is not valid UTF-8.
    InvalidText,
}

/// What the handler of port `p` makes of the payload `d` of a packet from `client`.
pub open spec fn dispatched(client: ClientIdView, p: PortNum, d: DataView) -> Result<
    HandledView,
    ProcessError,
> {
    match p {
        PortNum::TextMessageApp => if valid_utf8(d.payload) {
            Ok(HandledView::Text(decode_utf8(d.payload)))
        } else {
            Err(ProcessError::InvalidText)
        },
        PortNum::NodeinfoApp => match parsed_node_info(d.payload) {
            Some(n) => Ok(HandledView::NodeInfo(n)),
            None => Err(ProcessError::Decode(DecodeError::NodeInfo)),
        },
        PortNum::PositionApp => match parsed_position(d.payload) {
            Some(pos) => Ok(
                HandledView::Position(
                    PositionRecordView {
                        client,
                        latitude_i: pos.latitude_i,
                        longitude_i: pos.longitude_i,
                        time: UtcTime { secs: pos.time as i64 },
                    },
                ),
            ),
            None => Err(ProcessError::Decode(DecodeError::Position)),
        },
        PortNum::TelemetryApp => match parsed_telemetry(d.payload) {
            Some(t) => match t.variant {
                Some(TelemetryVariant::DeviceMetrics(m)) => Ok(
                    HandledView::Telemetry(
                        TelemetryRecordView {
                            client,
                            battery_level: m.battery_level,
                            voltage_bits: m.voltage_bits,
                            time: UtcTime { secs: t.time as i64 },
                        },
                    ),
                ),
                _ => Ok(HandledView::TelemetryNotStored(t)),
            },
            None => Err(ProcessError::Decode(DecodeError::Telemetry)),
        },
        _ => Ok(HandledView::Ignored(p)),
    }
}

/// What a cleartext payload comes to: an unrecognized port is an error that carries it.
pub open spec fn classified(client: ClientIdView, d: DataView) -> Result<HandledView, ProcessError> {
    match port_of(d.portnum) {
        Some(p) => dispatched(client, p, d),
        None => Err(ProcessError::Harvester(HarvesterError::UnrecognizedPortNum(d.portnum))),
    }
}

/// What the message `payload` published on `topic` comes to.
pub open spec fn handled(topic: Seq<u8>, payload: Seq<u8>) -> Result<HandledView, ProcessError> {
    if !carries_packets(topic) {
        Ok(HandledView::NotPacketTopic)
    } else {
        match parsed_envelope(payload) {
            None => Err(ProcessError::Decode(DecodeError::Envelope)),
            Some(env) => match env.packet {
                None => Ok(HandledView::NoPacket),
                Some(pk) => {
                    let client = client_of(pk.from, topic);
                    match pk.payload_variant {
                        None => Ok(HandledView::EmptyPacket),
                        Some(PayloadView::Decoded(d)) => classified(client, d),
                        Some(PayloadView::Encrypted(e)) => if e.len() == 0 {
                            Ok(HandledView::NoPayload)
                        } else {
                            match parsed_data(keystream_xor(pk.id as u64, pk.from as u64, e)) {
                                Some(d) => classified(client, d),
                                None => Ok(HandledView::Undecryptable),
                            }
                        },
                    }
                },
            },
        }
    }
}

/// `r` is the outcome `o` describes.
pub open spec fn outcome_is(r: Result<Handled, ProcessError>, o: Result<HandledView, ProcessError>) -> bool {
    match o {
        Ok(h) => r matches Ok(x) && x@ == h,
        Err(e) => r == Err::<Handled, ProcessError>(e),
    }
}

/// Handles a payload of port `p` from `client`.
pub fn handle_portnum(client: ClientId, p: PortNum, d: Data) -> (r: Result<Handled, ProcessError>)
    ensures
        outcome_is(r, dispatched(client@, p, d@)),
{
    match p {
        PortNum::TextMessageApp => match text_from_utf8(d.payload) {
            Some(s) => Ok(Handled::Text(s)),
            None => Err(ProcessError::InvalidText),
        },
        PortNum::NodeinfoApp => match decode_node_info(d.payload.as_slice()) {
            Ok(n) => Ok(Handled::NodeInfo(n)),
            Err(e) => Err(ProcessError::Decode(e)),
        },
        PortNum::PositionApp => handle_position(client, &d),
        PortNum::TelemetryApp => handle_telemetry(client, &d),
        _ => Ok(Handled::Ignored(p)),
    }
}

/// Reads a position report. Its time must be an instant of the calendar.
pub fn handle_position(client: ClientId, d: &Data) -> (r: Result<Handled, ProcessError>)
    ensures
        outcome_is(r, dispatched(client@, PortNum::PositionApp, d@)),
{
    let p = match decode_position(d.payload.as_slice()) {
        Ok(p) => p,
        Err(e) => return Err(ProcessError::Decode(e)),
    };
    let time = match utc_time(p.time as i64) {
        Some(t) => t,
        None => return Err(ProcessError::Harvester(HarvesterError::BadTimestamp(p.time))),
    };
    Ok(
        Handled::Position(
            PositionRecord {
                client,
                latitude_i: p.latitude_i,
                longitude_i: p.longitude_i,
                time,
            },
        ),
    )
}

/// Reads a telemetry reading. Its time must be an instant of the calendar; only device
/// metrics are stored.
pub fn handle_telemetry(client: ClientId, d: &Data) -> (r: Result<Handled, ProcessError>)
    ensures
        outcome_is(r, dispatched(client@, PortNum::TelemetryApp, d@)),
{
    let t = match decode_telemetry(d.payload.as_slice()) {
        Ok(t) => t,
        Err(e) => return Err(ProcessError::Decode(e)),
    };
    let time = match utc_time(t.time as i64) {
        Some(time) => time,
        None => return Err(ProcessError::Harvester(HarvesterError::BadTimestamp(t.time))),
    };
    match t.variant {
        Some(TelemetryVariant::DeviceMetrics(m)) => Ok(
            Handled::Telemetry(
                TelemetryRecord {
                    client,
                    battery_level: m.battery_level,
                    voltage_bits: m.voltage_bits,
                    time,
                },
            ),
        ),
        _ => Ok(Handled::TelemetryNotStored(t)),
    }
}

/// Classifies the port of a cleartext payload and hands it to its handler.
pub fn handle_data(client: ClientId, d: Data) -> (r: Result<Handled, ProcessError>)
    ensures
        outcome_is(r, classified(client@, d@)),
{
    match int_to_portnum(d.portnum) {
        Ok(p) => handle_portnum(client, p, d),
        Err(e) => Err(ProcessError::Harvester(e)),
    }
}

/// Handles one message published on `topic`. Nothing is kept from one message to the next:
/// the outcome depends on the topic and the payload alone.
pub fn handle(topic: &str, payload: &[u8]) -> (r: Result<Handled, ProcessError>)
    ensures
        outcome_is(r, handled(topic.spec_bytes(), payload@)),
{
    let topic = topic.as_bytes();
    if !is_packet_topic(topic) {
        return Ok(Handled::NotPacketTopic);
    }
    let message = match decode_envelope(payload) {
        Ok(m) => m,
        Err(e) => return Err(ProcessError::Decode(e)),
    };
    let packet = match message.packet {
        Some(p) => p,
        None => return Ok(Handled::NoPacket),
    };
    let client = client_id(packet.from, topic);
    match packet.payload_variant {
        None => Ok(Handled::EmptyPacket),
        Some(PayloadVariant::Decoded(d)) => handle_data(client, d),
        Some(PayloadVariant::Encrypted(e)) => {
            match decrypt_data(packet.id as u64, packet.from as u64, e) {
                Ok(Some(d)) => handle_data(client, d),
                Ok(None) => Ok(Handled::NoPayload),
                Err(_) => Ok(Handled::Undecryptable),
            }
        },
    }
}

/// A message cut short inside its packet, whose packet field announces more bytes than
/// follow, is dropped with an envelope decode error. `handle` keeps nothing from one message
/// to the next, so the messages after it are handled as if it had never come.
pub proof fn lemma_truncated_envelope(topic: Seq<u8>, len: u8, rest: Seq<u8>)
    requires
        carries_packets(topic),
        len < 128,
        rest.len() < len,
    ensures
        handled(topic, seq![0x0au8, len] + rest) == Err::<HandledView, ProcessError>(
            ProcessError::Decode(DecodeError::Envelope),
        ),
{
    let b = seq![0x0au8, len] + rest;
    assert(b[0] == 0x0a && b[1] == len);
    reveal_with_fuel(varint_len_from, 2);
    reveal_with_fuel(varint_sum, 2);
    reveal_with_fuel(pow128, 1);
    assert(varint(b) == Some((10u64, 1nat)));
    let tail = b.subrange(1, b.len() as int);
    assert(tail[0] == len);
    assert(varint(tail) == Some((len as u64, 1nat)));
    assert(field(b) is None);
    assert(fields(b) is None);
}

} // verus!
