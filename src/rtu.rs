//! Modbus RTU framing for the "read input registers" transaction.
//!
//! Frames are built and checked by `rmodbus`; this module states what those
//! frames hold and turns a reply into a raw register value (tenths of a unit).

use vstd::prelude::*;
use rmodbus::client::ModbusRequest;
use rmodbus::consts::ModbusFunction;
use rmodbus::{ErrorKind, ModbusProto};

verus! {

/// Function code of "read input registers".
pub const READ_INPUTS: u8 = 4;

/// Largest RTU frame: 255 bytes of payload plus the two check bytes.
pub const MAX_FRAME_LEN: usize = 257;

/// Shortest reply that carries a register value: unit, function, byte count,
/// two value bytes and two check bytes.
pub const MIN_VALUE_REPLY_LEN: usize = 7;

/// rmodbus's error type, carried unopened in the results of the two calls
/// below.
#[verifier::external_type_specification]
#[verifier::external_body]
pub struct ExErrorKind(ErrorKind);

/// The Modbus CRC-16 of a byte sequence, as `rmodbus` computes it.
pub uninterp spec fn crc16_of(bytes: Seq<u8>) -> u16;

/// A 16-bit value from its low and high bytes.
pub open spec fn le16(lo: u8, hi: u8) -> u16 {
    (lo as int + 256 * hi as int) as u16
}

/// A 16-bit value from its high and low bytes.
pub open spec fn be16(hi: u8, lo: u8) -> u16 {
    (hi as int * 256 + lo as int) as u16
}

/// The two bytes of a 16-bit value, low byte first.
pub open spec fn le_bytes(v: u16) -> Seq<u8> {
    seq![(v % 256) as u8, (v / 256) as u8]
}

/// The two bytes of a 16-bit value, high byte first.
pub open spec fn be_bytes(v: u16) -> Seq<u8> {
    seq![(v / 256) as u8, (v % 256) as u8]
}

/// An RTU frame: the payload followed by its CRC-16, low byte first.
pub open spec fn rtu_frame(payload: Seq<u8>) -> Seq<u8> {
    payload + le_bytes(crc16_of(payload))
}

/// The payload of a request for `count` input registers from `register`.
pub open spec fn read_inputs_payload(unit_id: u8, register: u16, count: u16) -> Seq<u8> {
    seq![unit_id, READ_INPUTS] + be_bytes(register) + be_bytes(count)
}

/// The frame that asks unit `unit_id` for the single input register `register`.
pub open spec fn read_request(unit_id: u8, register: u16) -> Seq<u8> {
    rtu_frame(read_inputs_payload(unit_id, register, 1))
}

/// The payload of a frame, without its two check bytes.
pub open spec fn payload_of(frame: Seq<u8>) -> Seq<u8> {
    frame.take(frame.len() - 2)
}

/// The check bytes of a frame match the CRC-16 of its payload.
pub open spec fn crc_ok(frame: Seq<u8>) -> bool {
    &&& frame.len() >= 2
    &&& crc16_of(payload_of(frame)) == le16(frame[frame.len() - 2], frame[frame.len() - 1])
}

/// `rmodbus` accepts `reply` as the answer of unit `unit_id` to a request
/// for one input register: length in range, CRC, unit, function code and a
/// byte count that covers the data.
pub open spec fn reply_accepted(unit_id: u8, reply: Seq<u8>) -> bool {
    &&& 5 <= reply.len() <= MAX_FRAME_LEN
    &&& crc_ok(reply)
    &&& reply[0] == unit_id
    &&& reply[1] == READ_INPUTS
    &&& 2 * reply[2] as int >= reply.len() - 5
}

/// The register values that `rmodbus` reads from an accepted reply to a
/// one-register request: the first big-endian word of the data, if any.
pub open spec fn reply_values(reply: Seq<u8>) -> Seq<u16> {
    if reply.len() >= MIN_VALUE_REPLY_LEN {
        seq![be16(reply[3], reply[4])]
    } else {
        seq![]
    }
}

/// The raw reading that a reply carries, if any.
pub open spec fn reply_reading(unit_id: u8, reply: Seq<u8>) -> Option<u16> {
    if reply_accepted(unit_id, reply) && reply.len() >= MIN_VALUE_REPLY_LEN {
        Some(be16(reply[3], reply[4]))
    } else {
        None
    }
}

/// The reply of unit `unit_id` that carries the single value `value`.
pub open spec fn value_reply(unit_id: u8, value: u16) -> Seq<u8> {
    rtu_frame(seq![unit_id, READ_INPUTS, 2u8] + be_bytes(value))
}

/// The fields of a read request frame: unit id, function code, first register
/// and register count.
pub open spec fn request_fields(frame: Seq<u8>) -> (u8, u8, u16, u16) {
    (frame[0], frame[1], be16(frame[2], frame[3]), be16(frame[4], frame[5]))
}

proof fn lemma_be_round_trip(v: u16)
    ensures
        be16(be_bytes(v)[0], be_bytes(v)[1]) == v,
{
    assert((v / 256) * 256 + v % 256 == v) by (nonlinear_arith);
}

proof fn lemma_le_round_trip(v: u16)
    ensures
        le16(le_bytes(v)[0], le_bytes(v)[1]) == v,
{
    assert(v % 256 + 256 * (v / 256) == v) by (nonlinear_arith);
}

proof fn lemma_rtu_frame_checks(payload: Seq<u8>)
    ensures
        rtu_frame(payload).len() == payload.len() + 2,
        payload_of(rtu_frame(payload)) == payload,
        crc_ok(rtu_frame(payload)),
{
    let f = rtu_frame(payload);
    assert(payload_of(f) =~= payload);
    lemma_le_round_trip(crc16_of(payload));
}

/// Every request frame is a well-formed RTU frame: eight bytes whose check
/// bytes match the CRC-16 of the payload, and whose fields read back as the
/// unit id, function code 4, the register and a count of one.
pub proof fn lemma_request_well_formed(unit_id: u8, register: u16)
    ensures
        read_request(unit_id, register).len() == 8,
        crc_ok(read_request(unit_id, register)),
        request_fields(read_request(unit_id, register)) == (unit_id, READ_INPUTS, register, 1u16),
{
    lemma_rtu_frame_checks(read_inputs_payload(unit_id, register, 1));
    lemma_be_round_trip(register);
    lemma_be_round_trip(1);
}

/// A reply that carries the value `value` decodes to exactly that value.
pub proof fn lemma_value_reply_decodes(unit_id: u8, value: u16)
    ensures
        reply_reading(unit_id, value_reply(unit_id, value)) == Some(value),
{
    let payload = seq![unit_id, READ_INPUTS, 2u8] + be_bytes(value);
    lemma_rtu_frame_checks(payload);
    lemma_be_round_trip(value);
}

/// A reply shorter than the shortest value reply, or whose check bytes do not
/// match its payload, decodes to no value.
pub proof fn lemma_bad_reply_has_no_value(unit_id: u8, reply: Seq<u8>)
    requires
        reply.len() < MIN_VALUE_REPLY_LEN || !crc_ok(reply),
    ensures
        reply_reading(unit_id, reply) is None,
{
}

/// Relies on rmodbus's `ModbusRequest::generate_get_inputs` over RTU: the unit
/// id, function code 4, register and count big-endian, then the CRC-16 of
/// those six bytes low byte first. Into a `Vec` it never fails.
#[verifier::external_body]
fn generate_get_inputs(unit_id: u8, register: u16, count: u16) -> (r: Result<Vec<u8>, ErrorKind>)
    ensures
        r is Ok,
        r matches Ok(f) ==> f@ == read_inputs_payload(unit_id, register, count) + le_bytes(
            crc16_of(read_inputs_payload(unit_id, register, count)),
        ),
{
    let mut request = ModbusRequest::new(unit_id, ModbusProto::Rtu);
    let mut frame: Vec<u8> = Vec::new();
    request.generate_get_inputs(register, count, &mut frame).map(|_| frame)
}

/// Relies on rmodbus's `ModbusRequest::parse_u16` over RTU, on the request
/// state that `generate_get_inputs(_, 1, _)` leaves for unit `unit_id`: it
/// accepts the reply as `reply_accepted` says and yields at most the first
/// data word. A five-byte reply that passes those checks carries no data and
/// makes `parse_u16` underflow, so it is left out.
#[verifier::external_body]
fn parse_u16(unit_id: u8, reply: &[u8]) -> (r: Result<Vec<u16>, ErrorKind>)
    requires
        reply@.len() != 5,
    ensures
        r is Ok <==> reply_accepted(unit_id, reply@),
        r matches Ok(v) ==> v@ == reply_values(reply@),
{
    let request = ModbusRequest {
        tr_id: 1,
        unit_id,
        func: ModbusFunction::GetInputs,
        reg: 0,
        count: 1,
        proto: ModbusProto::Rtu,
    };
    let mut values: Vec<u16> = Vec::new();
    request.parse_u16(reply, &mut values).map(|_| values)
}

/// Builds the frame that asks unit `unit_id` for input register `register`.
/// `None` would mean the frame could not be built.
pub fn request_frame(unit_id: u8, register: u16) -> (r: Option<Vec<u8>>)
    ensures
        r matches Some(f) && f@ == read_request(unit_id, register),
{
    match generate_get_inputs(unit_id, register, 1) {
        Ok(frame) => Some(frame),
        Err(_) => None,
    }
}

/// Decodes the reply of unit `unit_id` to a one-register request into the raw
/// register value. Any short, corrupted, foreign or empty reply gives `None`.
pub fn decode_reply(unit_id: u8, reply: &[u8]) -> (r: Option<u16>)
    ensures
        r == reply_reading(unit_id, reply@),
{
    if reply.len() < MIN_VALUE_REPLY_LEN {
        return None;
    }
    match parse_u16(unit_id, reply) {
        Ok(values) => {
            if values.len() == 0 {
                None
            } else {
                Some(values[0])
            }
        },
        Err(_) => None,
    }
}

} // verus!
