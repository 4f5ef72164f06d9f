//! The serial/TCP gateway's pure pieces: payload conversion between
//! the serial wire format (with its 16-bit cyclic redundancy check)
//! and the TCP framing (with its transaction header).

use vstd::prelude::*;

verus! {

/// Largest response payload either side carries.
pub const MODBUS_VEC_SIZE: usize = 512;

/// Length of a TCP request frame.
pub const MODBUS_TCP_REQ_VEC_SIZE: usize = 12;

/// Length of a serial request frame.
pub const MODBUS_RTU_REQ_VEC_SIZE: usize = 8;

/// First function code that marks a serial error response.
pub const MODBUS_ERROR_VAL: u8 = 0x80;

/// Why a payload could not be converted or accepted.
#[derive(Clone, Copy, Debug, PartialEq, Eq, Structural)]
pub enum ModbusError {
    Rtu,
    Tcp,
    Slice,
    Push,
    RtuTimeout,
    RtuRxFail,
    CrcRx,
    ReadExactError,
    TcpRxFail(usize),
    RtuIlligal,
    TcpAccept,
    InvalidTransactionId,
    RtuPayloadTooShort,
    InvalidFilter,
    ConversionSlice,
}

/// The checksum the serial side carries: the result of the 16-bit
/// cyclic redundancy check, in its serial-line variant, over a byte
/// sequence.
pub uninterp spec fn crc16_modbus_of(s: Seq<u8>) -> u16;

/// Relies on crc16's `State::<MODBUS>::calculate`: the serial-line
/// 16-bit cyclic redundancy check of the bytes, a function of the
/// bytes alone.
#[verifier::external_body]
fn crc16_modbus(data: &[u8]) -> (r: u16)
    ensures
        r == crc16_modbus_of(data@),
{
    crc16::State::<crc16::MODBUS>::calculate(data)
}

/// The two little-endian checksum bytes appended to a serial payload.
pub open spec fn spec_crc_bytes(s: Seq<u8>) -> Seq<u8> {
    seq![(crc16_modbus_of(s) % 256) as u8, (crc16_modbus_of(s) / 256) as u8]
}

/// The checksum of a payload, as the two bytes the wire carries.
pub fn create_crc(s: &[u8]) -> (r: [u8; 2])
    ensures
        r@ == spec_crc_bytes(s@),
{
    let crc = crc16_modbus(s);
    let r: [u8; 2] = [(crc % 256) as u8, (crc / 256) as u8];
    proof {
        assert(r@ =~= spec_crc_bytes(s@));
    }
    r
}

/// A serial payload's trailing checksum matches its body.
pub open spec fn spec_crc_ok(payload: Seq<u8>) -> bool {
    payload.len() >= 4 && payload.subrange(payload.len() - 2, payload.len() as int)
        =~= spec_crc_bytes(payload.take(payload.len() - 2))
}

/// Check a serial payload's trailing checksum. Accepted if and only if
/// the payload is long enough and its last two bytes are the checksum
/// of everything before them; a rejected payload is reported without
/// being touched.
pub fn crc_check(payload: &[u8]) -> (r: Result<(), ModbusError>)
    ensures
        r is Ok <==> spec_crc_ok(payload@),
        !(payload@.len() >= 4) ==> r == Err::<(), ModbusError>(ModbusError::RtuRxFail),
        payload@.len() >= 4 && r is Err ==> r == Err::<(), ModbusError>(ModbusError::CrcRx),
{
    if payload.len() < 4 {
        return Err(ModbusError::RtuRxFail);
    }
    let body = vstd::slice::slice_subrange(payload, 0, payload.len() - 2);
    let calc = create_crc(body);
    let c0 = *vstd::slice::slice_index_get(payload, payload.len() - 2);
    let c1 = *vstd::slice::slice_index_get(payload, payload.len() - 1);
    proof {
        assert(payload@.take(payload@.len() - 2) =~= body@);
    }
    if c0 == calc[0] && c1 == calc[1] {
        proof {
            assert(payload@.subrange(payload@.len() - 2, payload@.len() as int)
                =~= spec_crc_bytes(payload@.take(payload@.len() - 2)));
        }
        Ok(())
    } else {
        proof {
            assert(!spec_crc_ok(payload@)) by {
                if spec_crc_ok(payload@) {
                    assert(payload@.subrange(payload@.len() - 2, payload@.len() as int)[0]
                        == spec_crc_bytes(payload@.take(payload@.len() - 2))[0]);
                    assert(payload@.subrange(payload@.len() - 2, payload@.len() as int)[1]
                        == spec_crc_bytes(payload@.take(payload@.len() - 2))[1]);
                }
            }
        }
        Err(ModbusError::CrcRx)
    }
}

/// Whether a serial response marks an error: its third byte carries an
/// error function code.
pub fn is_rtu_error(s: &[u8]) -> (r: bool)
    ensures
        r == (s@.len() > 2 && s@[2] >= MODBUS_ERROR_VAL),
{
    if s.len() > 2 {
        s[2] >= MODBUS_ERROR_VAL
    } else {
        false
    }
}

/// The number of bytes still to read after a serial response's first
/// three: the announced byte count plus the checksum.
pub fn payload_length(s: &[u8]) -> (r: Option<usize>)
    ensures
        s@.len() > 2 ==> r == Some((s@[2] + 2) as usize),
        s@.len() <= 2 ==> r is None,
{
    if s.len() > 2 {
        Some(s[2] as usize + 2)
    } else {
        None
    }
}

/// The next value of the TCP transaction counter; it wraps to zero.
pub fn increment_transaction_id(counter: &mut u16) -> (r: u16)
    ensures
        *old(counter) == u16::MAX ==> *final(counter) == 0 && r == 0,
        *old(counter) != u16::MAX ==> *final(counter) == *old(counter) + 1 && r == *final(counter),
{
    if *counter == u16::MAX {
        *counter = 0;
        0
    } else {
        *counter = *counter + 1;
        *counter
    }
}

/// The current TCP transaction counter.
pub fn get_transaction_id(counter: &u16) -> (r: u16)
    ensures
        r == *counter,
{
    *counter
}

/// Overwrite the TCP transaction counter with an observed id.
pub fn set_transaction_id(counter: &mut u16, val: u16)
    ensures
        *final(counter) == val,
{
    *counter = val;
}

/// Which role the serial side plays; it follows the TCP role.
#[derive(Clone, Copy, Debug, PartialEq, Eq, Structural)]
pub enum ModbusRtuMode {
    Client,
    Server,
}

/// The TCP transaction header: transaction id, protocol id, length.
#[derive(Clone, Copy, Debug, PartialEq, Eq, Structural)]
pub struct Mbap {
    pub transaction_id: u16,
    pub protocol_id: u16,
    pub length: u16,
}

impl Mbap {
    /// A fresh header for the next transaction: the incremented
    /// counter's id, protocol zero, length six.
    pub fn new(counter: &mut u16) -> (r: Result<Mbap, ModbusError>)
        ensures
            r matches Ok(m) ==> {
                &&& m.protocol_id == 0
                &&& m.length == 6
                &&& m.transaction_id == *final(counter)
            },
            r is Ok,
            *old(counter) == u16::MAX ==> *final(counter) == 0,
            *old(counter) != u16::MAX ==> *final(counter) == *old(counter) + 1,
    {
        let id = increment_transaction_id(counter);
        Ok(Mbap { transaction_id: id, protocol_id: 0, length: 6 })
    }
}

/// A TCP request built from a serial request: the transaction header,
/// a zero protocol id, the payload length, then the serial request
/// without its checksum.
pub open spec fn spec_rtu_to_tcp_request(input: Seq<u8>, tid: u16) -> Seq<u8> {
    let body = input.take(input.len() - 2);
    seq![
        (tid / 256) as u8,
        (tid % 256) as u8,
        0u8,
        0u8,
        ((body.len() as int) / 256) as u8,
        ((body.len() as int) % 256) as u8,
    ] + body
}

/// Convert a serial request into a TCP request, assigning the next
/// transaction id. Rejected if and only if the request is shorter
/// than a minimal checksummed frame.
pub fn convert_rtu_request_payload_to_tcp_request_payload(
    input: &[u8],
    counter: &mut u16,
) -> (r: Result<Vec<u8>, ModbusError>)
    ensures
        input@.len() < 4 ==> r == Err::<Vec<u8>, ModbusError>(ModbusError::RtuPayloadTooShort)
            && *final(counter) == *old(counter),
        input@.len() >= 4 ==> (r matches Ok(v) && v@ == spec_rtu_to_tcp_request(
            input@,
            *final(counter),
        )),
{
    if input.len() < 4 {
        return Err(ModbusError::RtuPayloadTooShort);
    }
    let tid = increment_transaction_id(counter);
    let body_len = input.len() - 2;
    let mut out: Vec<u8> = Vec::new();
    out.push((tid / 256) as u8);
    out.push((tid % 256) as u8);
    out.push(0);
    out.push(0);
    out.push((body_len / 256) as u8);
    out.push((body_len % 256) as u8);
    let mut i: usize = 0;
    while i < body_len
        invariant
            i <= body_len,
            body_len == input@.len() - 2,
            input@.len() >= 4,
            out@.len() == 6 + i,
            forall|j: int| 0 <= j < i ==> out@[6 + j] == input@[j],
            out@[0] == (tid / 256) as u8,
            out@[1] == (tid % 256) as u8,
            out@[2] == 0u8,
            out@[3] == 0u8,
            out@[4] == ((body_len as int) / 256) as u8,
            out@[5] == ((body_len as int) % 256) as u8,
        decreases body_len - i,
    {
        let b = input[i];
        out.push(b);
        i = i + 1;
    }
    proof {
        assert(out@ =~= spec_rtu_to_tcp_request(input@, tid));
    }
    Ok(out)
}

/// A serial response built from a TCP response: the data unit with the
/// serial checksum appended.
pub open spec fn spec_tcp_to_rtu_response(pdu: Seq<u8>) -> Seq<u8> {
    pdu + spec_crc_bytes(pdu)
}

/// Convert a TCP response back into a serial response: check the
/// transaction id, take the announced number of data-unit bytes, and
/// append the serial checksum. Rejected when the frame is shorter than
/// a header plus one byte, when the transaction id is not the current
/// one, or when the announced length overruns the frame.
pub fn convert_tcp_reponse_payload_to_rtu_response_payload(
    input: &[u8],
    counter: &u16,
) -> (r: Result<Vec<u8>, ModbusError>)
    ensures
        input@.len() < 7 ==> r == Err::<Vec<u8>, ModbusError>(
            ModbusError::TcpRxFail(input@.len() as usize),
        ),
        r matches Ok(v) ==> {
            &&& input@.len() >= 7
            &&& (input@[0] as int) * 256 + (input@[1] as int) == *counter
            &&& v@ == spec_tcp_to_rtu_response(input@.subrange(6, 6 + input@[5] as int))
        },
{
    if input.len() < 7 {
        return Err(ModbusError::TcpRxFail(input.len()));
    }
    let rx_id: u32 = (input[0] as u32) * 256 + (input[1] as u32);
    if rx_id != *counter as u32 {
        return Err(ModbusError::InvalidTransactionId);
    }
    let len: usize = input[5] as usize;
    if 6 + len > input.len() {
        return Err(ModbusError::ConversionSlice);
    }
    let pdu = vstd::slice::slice_subrange(input, 6, 6 + len);
    let mut out: Vec<u8> = Vec::new();
    let mut i: usize = 0;
    while i < len
        invariant
            i <= len,
            pdu@.len() == len,
            out@ == pdu@.take(i as int),
        decreases len - i,
    {
        proof {
            assert(pdu@.take(i + 1) =~= pdu@.take(i as int).push(pdu@[i as int]));
        }
        let b = pdu[i];
        out.push(b);
        i = i + 1;
    }
    proof {
        assert(out@ =~= pdu@);
    }
    let crc = create_crc(out.as_slice());
    out.push(crc[0]);
    out.push(crc[1]);
    proof {
        assert(out@ =~= spec_tcp_to_rtu_response(input@.subrange(6, 6 + input@[5] as int)));
    }
    Ok(out)
}

/// A serial request built from a TCP request: the data unit with the
/// serial checksum appended.
pub open spec fn spec_tcp_to_rtu_request(input: Seq<u8>) -> Seq<u8> {
    let pdu = input.skip(6);
    pdu + spec_crc_bytes(pdu)
}

/// Convert a TCP request into a serial request, adopting its
/// transaction id as the current one. Rejected if and only if the
/// frame is shorter than a header plus one byte.
pub fn convert_tcp_request_payload_to_rtu_request_payload(
    input: &[u8],
    counter: &mut u16,
) -> (r: Result<Vec<u8>, ModbusError>)
    ensures
        input@.len() < 7 ==> r == Err::<Vec<u8>, ModbusError>(
            ModbusError::TcpRxFail(input@.len() as usize),
        ) && *final(counter) == *old(counter),
        input@.len() >= 7 ==> {
            &&& *final(counter) == (input@[0] as int) * 256 + (input@[1] as int)
            &&& r matches Ok(v) && v@ == spec_tcp_to_rtu_request(input@)
        },
{
    if input.len() < 7 {
        return Err(ModbusError::TcpRxFail(input.len()));
    }
    let tid: u16 = (input[0] as u16) * 256 + (input[1] as u16);
    set_transaction_id(counter, tid);
    let pdu = vstd::slice::slice_subrange(input, 6, input.len());
    let mut out: Vec<u8> = Vec::new();
    let mut i: usize = 0;
    while i < pdu.len()
        invariant
            i <= pdu@.len(),
            out@ == pdu@.take(i as int),
        decreases pdu@.len() - i,
    {
        proof {
            assert(pdu@.take(i + 1) =~= pdu@.take(i as int).push(pdu@[i as int]));
        }
        let b = pdu[i];
        out.push(b);
        i = i + 1;
    }
    proof {
        assert(out@ =~= pdu@);
        assert(pdu@ =~= input@.skip(6));
    }
    let crc = create_crc(out.as_slice());
    out.push(crc[0]);
    out.push(crc[1]);
    proof {
        assert(out@ =~= spec_tcp_to_rtu_request(input@));
    }
    Ok(out)
}

/// A TCP response built from a serial response: the current
/// transaction header, protocol zero, the length, then the serial
/// response without its checksum.
pub open spec fn spec_rtu_to_tcp_response(input: Seq<u8>, tid: u16) -> Seq<u8> {
    let body = input.take(input.len() - 2);
    seq![
        (tid / 256) as u8,
        (tid % 256) as u8,
        0u8,
        0u8,
        ((body.len() as int) / 256) as u8,
        ((body.len() as int) % 256) as u8,
    ] + body
}

/// Convert a serial response into a TCP response under the current
/// transaction id. Rejected if and only if the response is shorter
/// than a checksummed frame allows.
pub fn convert_rtu_reponse_payload_to_tcp_response_payload(
    input: &[u8],
    counter: &u16,
) -> (r: Result<Vec<u8>, ModbusError>)
    ensures
        input@.len() < 4 ==> r == Err::<Vec<u8>, ModbusError>(ModbusError::RtuPayloadTooShort),
        input@.len() >= 4 ==> (r matches Ok(v) && v@ == spec_rtu_to_tcp_response(
            input@,
            *counter,
        )),
{
    if input.len() < 4 {
        return Err(ModbusError::RtuPayloadTooShort);
    }
    let tid: u16 = *counter;
    let body_len = input.len() - 2;
    let mut out: Vec<u8> = Vec::new();
    out.push((tid / 256) as u8);
    out.push((tid % 256) as u8);
    out.push(0);
    out.push(0);
    out.push((body_len / 256) as u8);
    out.push((body_len % 256) as u8);
    let mut i: usize = 0;
    while i < body_len
        invariant
            i <= body_len,
            body_len == input@.len() - 2,
            input@.len() >= 4,
            out@.len() == 6 + i,
            forall|j: int| 0 <= j < i ==> out@[6 + j] == input@[j],
            out@[0] == (tid / 256) as u8,
            out@[1] == (tid % 256) as u8,
            out@[2] == 0u8,
            out@[3] == 0u8,
            out@[4] == ((body_len as int) / 256) as u8,
            out@[5] == ((body_len as int) % 256) as u8,
        decreases body_len - i,
    {
        let b = input[i];
        out.push(b);
        i = i + 1;
    }
    proof {
        assert(out@ =~= spec_rtu_to_tcp_response(input@, tid));
    }
    Ok(out)
}

/// A TCP response assembled by the bridge from a serial response: the
/// five retained header bytes, the adjusted length, the device
/// address, then the data unit without its checksum.
pub open spec fn spec_bridge_tcp_response(header: Seq<u8>, rtu: Seq<u8>) -> Seq<u8> {
    header.take(5) + seq![((rtu[2] + 3) % 256) as u8, rtu[0]] + rtu.subrange(1, rtu.len() - 2)
}

/// Build the TCP response the bridge returns for a good serial
/// response: the request's header with the length patched, the device
/// address, and the response data without the serial checksum.
/// Rejected if and only if either side is too short.
pub fn update_from_rtu_response(header: &[u8], rtu: &[u8]) -> (r: Result<Vec<u8>, ModbusError>)
    ensures
        header@.len() < 5 || rtu@.len() <= 5 ==> r is Err,
        header@.len() >= 5 && rtu@.len() > 5 ==> (r matches Ok(v) && v@
            == spec_bridge_tcp_response(header@, rtu@)),
{
    if header.len() < 5 {
        return Err(ModbusError::Slice);
    }
    if rtu.len() <= 5 {
        return Err(ModbusError::RtuRxFail);
    }
    let mut out: Vec<u8> = Vec::new();
    let mut i: usize = 0;
    while i < 5
        invariant
            i <= 5,
            header@.len() >= 5,
            out@ == header@.take(i as int),
        decreases 5 - i,
    {
        proof {
            assert(header@.take(i + 1) =~= header@.take(i as int).push(header@[i as int]));
        }
        let b = header[i];
        out.push(b);
        i = i + 1;
    }
    let adjusted: u8 = if rtu[2] <= 252 {
        rtu[2] + 3
    } else {
        rtu[2] - 253
    };
    out.push(adjusted);
    out.push(rtu[0]);
    let end = rtu.len() - 2;
    let mut j: usize = 1;
    while j < end
        invariant
            1 <= j <= end,
            end == rtu@.len() - 2,
            rtu@.len() > 5,
            out@.len() == 7 + (j - 1),
            out@.take(7) =~= header@.take(5) + seq![((rtu@[2] + 3) % 256) as u8, rtu@[0]],
            forall|k: int| 0 <= k < j - 1 ==> (#[trigger] out@[7 + k]) == rtu@[1 + k],
        decreases end - j,
    {
        let b = rtu[j];
        out.push(b);
        j = j + 1;
    }
    proof {
        assert(out@.len() == rtu@.len() + 4);
        let head7 = header@.take(5) + seq![((rtu@[2] + 3) % 256) as u8, rtu@[0]];
        assert(out@.take(7) =~= head7);
        assert(forall|k: int| 0 <= k < 7 ==> out@[k] == #[trigger] head7[k]);
        assert forall|i: int| 7 <= i < out@.len() implies out@[i] == rtu@[i - 6] by {
            assert(out@[7 + (i - 7)] == rtu@[1 + (i - 7)]);
        }
        assert(out@ =~= spec_bridge_tcp_response(header@, rtu@));
    }
    Ok(out)
}

/// A TCP error response assembled by the bridge: the five retained
/// header bytes, a length of three, then the serial error's first
/// three bytes.
pub open spec fn spec_bridge_tcp_error(header: Seq<u8>, rtu: Seq<u8>) -> Seq<u8> {
    header.take(5) + seq![3u8] + rtu.take(3)
}

/// Build the TCP response the bridge returns for a serial error
/// response. Rejected if and only if either side is too short.
pub fn update_from_rtu_error(header: &[u8], rtu: &[u8]) -> (r: Result<Vec<u8>, ModbusError>)
    ensures
        header@.len() < 5 || rtu@.len() < 3 ==> r is Err,
        header@.len() >= 5 && rtu@.len() >= 3 ==> (r matches Ok(v) && v@ == spec_bridge_tcp_error(
            header@,
            rtu@,
        )),
{
    if header.len() < 5 {
        return Err(ModbusError::Slice);
    }
    if rtu.len() < 3 {
        return Err(ModbusError::RtuRxFail);
    }
    let mut out: Vec<u8> = Vec::new();
    out.push(header[0]);
    out.push(header[1]);
    out.push(header[2]);
    out.push(header[3]);
    out.push(header[4]);
    out.push(3);
    out.push(rtu[0]);
    out.push(rtu[1]);
    out.push(rtu[2]);
    proof {
        assert(out@ =~= spec_bridge_tcp_error(header@, rtu@));
    }
    Ok(out)
}

/// A parsed serial read request: address, function, register, count.
#[derive(Clone, Copy, Debug, PartialEq, Eq, Structural)]
pub struct ModbusRtuRxPdu {
    pub slave_address: u8,
    pub function: u8,
    pub address: u16,
    pub quantity: u16,
}

/// Parse an eight-byte serial read request, checking its checksum.
/// Rejected if and only if the frame is not eight bytes or the
/// checksum does not match; nothing is read from a rejected frame.
pub fn parse_rtu_request(value: &[u8]) -> (r: Result<ModbusRtuRxPdu, ModbusError>)
    ensures
        value@.len() != 8 ==> r == Err::<ModbusRtuRxPdu, ModbusError>(ModbusError::Rtu),
        value@.len() == 8 && !spec_crc_ok(value@) ==> r == Err::<ModbusRtuRxPdu, ModbusError>(
            ModbusError::CrcRx,
        ),
        value@.len() == 8 && spec_crc_ok(value@) ==> r == Ok::<ModbusRtuRxPdu, ModbusError>(
            ModbusRtuRxPdu {
                slave_address: value@[0],
                function: value@[1],
                address: ((value@[2] as int) * 256 + (value@[3] as int)) as u16,
                quantity: ((value@[4] as int) * 256 + (value@[5] as int)) as u16,
            },
        ),
{
    if value.len() != 8 {
        return Err(ModbusError::Rtu);
    }
    match crc_check(value) {
        Ok(()) => Ok(
            ModbusRtuRxPdu {
                slave_address: value[0],
                function: value[1],
                address: (value[2] as u16) * 256 + (value[3] as u16),
                quantity: (value[4] as u16) * 256 + (value[5] as u16),
            },
        ),
        Err(_) => Err(ModbusError::CrcRx),
    }
}

} // verus!
