//! The transport framer: command and status wrappers of the bulk-only
//! transport, and the order of the bulk transfers that make one exchange.
//!
//! An [`Exchange`] never touches the bus. It says which transfer comes next
//! and is told how that transfer went; after at most three transfers it holds
//! the status byte of the display, or the fault that ended it.

use vstd::prelude::*;
use crate::command::CommandBlock;
use crate::error::UsbFault;

verus! {

/// Bulk endpoint that takes commands and pixel data.
pub const ENDPOINT_OUT: u8 = 0x01;

/// Bulk endpoint that gives responses and status.
pub const ENDPOINT_IN: u8 = 0x81;

/// Time allowed for writing the command wrapper, in milliseconds.
pub const COMMAND_TIMEOUT_MS: u64 = 1000;

/// Time allowed for writing the payload, in milliseconds.
pub const DATA_OUT_TIMEOUT_MS: u64 = 3000;

/// Time allowed for reading a response, in milliseconds.
pub const DATA_IN_TIMEOUT_MS: u64 = 4000;

/// Time allowed for reading the status wrapper, in milliseconds.
pub const STATUS_TIMEOUT_MS: u64 = 5000;

/// Length of a command wrapper with its command block.
pub const CBW_LEN: usize = 31;

/// Length of a status wrapper.
pub const CSW_LEN: usize = 13;

/// Which way the data phase of an exchange goes.
#[derive(Clone, Copy, Debug, PartialEq, Eq, Structural)]
pub enum Direction {
    /// Display to host.
    In,
    /// Host to display.
    Out,
}

/// The flags byte of a command wrapper.
pub open spec fn direction_flag(direction: Direction) -> u8 {
    match direction {
        Direction::In => 0x80u8,
        Direction::Out => 0x00u8,
    }
}

/// The low 32 bits of `n`, least significant byte first.
pub open spec fn le32(n: nat) -> Seq<u8> {
    seq![
        (n % 256) as u8,
        (n / 0x100 % 256) as u8,
        (n / 0x1_0000 % 256) as u8,
        (n / 0x100_0000 % 256) as u8,
    ]
}

/// The 15 bytes in front of the command block: signature "USBC", a fixed
/// tag, the length of the data phase, the direction flag, logical unit 0,
/// command length 16.
pub open spec fn cbw_header(direction: Direction, data_len: nat) -> Seq<u8> {
    seq![0x55u8, 0x53, 0x42, 0x43, 0xDE, 0xAD, 0xBE, 0xEF] + le32(data_len) + seq![
        direction_flag(direction),
        0x00u8,
        0x10u8,
    ]
}

/// The 31 bytes of a command wrapper: the header, then the command block.
pub open spec fn cbw(command: Seq<u8>, direction: Direction, data_len: nat) -> Seq<u8> {
    cbw_header(direction, data_len) + command
}

/// The bytes of a status wrapper as the exchange reads them: what was
/// received, cut or zero-filled to 13 bytes.
pub open spec fn csw_padded(received: Seq<u8>) -> Seq<u8> {
    Seq::new(
        13,
        |i: int|
            if i < received.len() {
                received[i]
            } else {
                0u8
            },
    )
}

/// The status byte of a status wrapper: its thirteenth byte.
pub open spec fn csw_status(received: Seq<u8>) -> u8 {
    csw_padded(received)[12]
}

/// Whether a status wrapper starts with the signature "USBS".
pub open spec fn csw_signature_ok(received: Seq<u8>) -> bool {
    let p = csw_padded(received);
    p[0] == 0x55 && p[1] == 0x53 && p[2] == 0x42 && p[3] == 0x53
}

/// A receive buffer after `received` arrived: the bytes that arrived
/// replace the start of the buffer, the rest stays.
pub open spec fn filled(buffer: Seq<u8>, received: Seq<u8>) -> Seq<u8> {
    Seq::new(
        buffer.len(),
        |i: int|
            if i < received.len() {
                received[i]
            } else {
                buffer[i]
            },
    )
}

/// Builds the command wrapper for one exchange. The length field holds the
/// low 32 bits of `data_len`.
pub fn build_cbw(command: &CommandBlock, direction: Direction, data_len: usize) -> (out: Vec<u8>)
    ensures
        out@ == cbw(command@, direction, data_len as nat),
        out@.len() == CBW_LEN,
{
    let block = command.bytes();
    let flag: u8 = match direction {
        Direction::In => 0x80,
        Direction::Out => 0x00,
    };
    let mut out: Vec<u8> = Vec::with_capacity(CBW_LEN);
    out.push(0x55);
    out.push(0x53);
    out.push(0x42);
    out.push(0x43);
    out.push(0xDE);
    out.push(0xAD);
    out.push(0xBE);
    out.push(0xEF);
    out.push((data_len % 256) as u8);
    out.push((data_len / 0x100 % 256) as u8);
    out.push((data_len / 0x1_0000 % 256) as u8);
    out.push((data_len / 0x100_0000 % 256) as u8);
    out.push(flag);
    out.push(0x00);
    out.push(0x10);
    let ghost header = out@;
    assert(header =~= cbw_header(direction, data_len as nat));
    let mut i: usize = 0;
    while i < 16
        invariant
            i <= 16,
            block@.len() == 16,
            out@ == header + block@.subrange(0, i as int),
        decreases 16 - i,
    {
        out.push(block[i]);
        i += 1;
        assert(out@ =~= header + block@.subrange(0, i as int));
    }
    assert(block@.subrange(0, 16) =~= block@);
    out
}

/// What a status wrapper says, and what is odd about it.
#[derive(Clone, Copy, Debug, PartialEq, Eq, Structural)]
pub struct StatusReport {
    /// The status byte: 0 passed, 1 failed, 2 phase error.
    pub status: u8,
    /// Whether the wrapper starts with "USBS". A wrong signature is worth a
    /// log line; the status byte still counts.
    pub signature_ok: bool,
    /// Whether exactly 13 bytes were received.
    pub complete: bool,
}

/// Reads a status wrapper. Missing bytes count as zero.
pub fn parse_csw(received: &[u8]) -> (report: StatusReport)
    ensures
        report.status == csw_status(received@),
        report.signature_ok == csw_signature_ok(received@),
        report.complete == (received@.len() == CSW_LEN),
{
    let b0: u8 = if received.len() > 0 { received[0] } else { 0 };
    let b1: u8 = if received.len() > 1 { received[1] } else { 0 };
    let b2: u8 = if received.len() > 2 { received[2] } else { 0 };
    let b3: u8 = if received.len() > 3 { received[3] } else { 0 };
    let status: u8 = if received.len() > 12 { received[12] } else { 0 };
    StatusReport {
        status,
        signature_ok: b0 == 0x55 && b1 == 0x53 && b2 == 0x42 && b3 == 0x53,
        complete: received.len() == CSW_LEN,
    }
}

/// Where an exchange stands.
#[derive(Clone, Copy, Debug, PartialEq, Eq)]
pub enum Phase {
    /// The command wrapper has to be written.
    Command,
    /// The payload has to be written, or the response read.
    Data,
    /// The status wrapper has to be read.
    Status,
    /// Nothing is left to do: the display's status byte, or the fault that
    /// ended the exchange.
    Finished(Result<u8, UsbFault>),
}

/// Oddities that do not end an exchange. Each is worth a log line, and a
/// length mismatch hints that host and display are out of step.
#[derive(Clone, Copy, Debug, PartialEq, Eq, Structural)]
pub struct Anomalies {
    /// The data phase moved another number of bytes than the buffer holds.
    pub data_length_mismatch: bool,
    /// The status wrapper did not come as exactly 13 bytes.
    pub status_length_mismatch: bool,
    /// The status wrapper does not start with "USBS".
    pub bad_signature: bool,
}

/// One bulk transfer that the caller is asked to perform.
#[derive(Clone, Copy, Debug, PartialEq, Eq)]
pub enum Transfer<'a> {
    /// Write all of `data` to `endpoint`.
    Write { endpoint: u8, data: &'a [u8], timeout_ms: u64 },
    /// Read up to `len` bytes from `endpoint`.
    Read { endpoint: u8, len: usize, timeout_ms: u64 },
}

/// A transfer as a plain value.
pub ghost enum TransferView {
    Write { endpoint: u8, data: Seq<u8>, timeout_ms: u64 },
    Read { endpoint: u8, len: nat, timeout_ms: u64 },
}

impl<'a> View for Transfer<'a> {
    type V = TransferView;

    open spec fn view(&self) -> TransferView {
        match *self {
            Transfer::Write { endpoint, data, timeout_ms } => TransferView::Write {
                endpoint,
                data: data@,
                timeout_ms,
            },
            Transfer::Read { endpoint, len, timeout_ms } => TransferView::Read {
                endpoint,
                len: len as nat,
                timeout_ms,
            },
        }
    }
}

/// How a transfer went.
#[derive(Clone, Debug, PartialEq, Eq)]
pub enum Reply {
    /// A write moved this many bytes.
    Written(usize),
    /// A read brought these bytes.
    Received(Vec<u8>),
    /// The USB layer reported a fault.
    Failed(UsbFault),
}

/// An exchange as a plain value.
pub ghost struct ExchangeView {
    /// The command wrapper, command block included.
    pub cbw: Seq<u8>,
    pub direction: Direction,
    /// The payload to send, or the buffer to receive into.
    pub buffer: Option<Seq<u8>>,
    pub phase: Phase,
    pub anomalies: Anomalies,
}

/// An exchange before its first transfer. The length field of the wrapper is
/// the length of the buffer, or zero without one.
pub open spec fn started(
    command: Seq<u8>,
    direction: Direction,
    buffer: Option<Seq<u8>>,
) -> ExchangeView {
    ExchangeView {
        cbw: cbw(
            command,
            direction,
            match buffer {
                Some(b) => b.len(),
                None => 0,
            },
        ),
        direction,
        buffer,
        phase: Phase::Command,
        anomalies: Anomalies {
            data_length_mismatch: false,
            status_length_mismatch: false,
            bad_signature: false,
        },
    }
}

/// The transfer an exchange waits for, if any.
pub open spec fn pending(v: ExchangeView) -> Option<TransferView> {
    match v.phase {
        Phase::Command => Some(
            TransferView::Write {
                endpoint: ENDPOINT_OUT,
                data: v.cbw,
                timeout_ms: COMMAND_TIMEOUT_MS,
            },
        ),
        Phase::Data => match (v.buffer, v.direction) {
            (Some(b), Direction::Out) => Some(
                TransferView::Write {
                    endpoint: ENDPOINT_OUT,
                    data: b,
                    timeout_ms: DATA_OUT_TIMEOUT_MS,
                },
            ),
            (Some(b), Direction::In) => Some(
                TransferView::Read {
                    endpoint: ENDPOINT_IN,
                    len: b.len(),
                    timeout_ms: DATA_IN_TIMEOUT_MS,
                },
            ),
            (None, _) => None,
        },
        Phase::Status => Some(
            TransferView::Read {
                endpoint: ENDPOINT_IN,
                len: CSW_LEN as nat,
                timeout_ms: STATUS_TIMEOUT_MS,
            },
        ),
        Phase::Finished(_) => None,
    }
}

/// An exchange ended by a fault.
pub open spec fn failed(v: ExchangeView, fault: UsbFault) -> ExchangeView {
    ExchangeView { phase: Phase::Finished(Err(fault)), ..v }
}

/// The exchange after the reply to its pending transfer.
///
/// A fault ends it at once. So does a reply of the wrong kind (bytes for a
/// write, a count for a read), as `UsbFault::Other`. The command phase is
/// followed by the data phase when there is a buffer, else by the status
/// phase. A short data phase or status wrapper, or a wrong signature, is
/// noted and the exchange goes on: the status byte decides. A finished
/// exchange stays as it is.
pub open spec fn advanced(v: ExchangeView, reply: Reply) -> ExchangeView {
    match v.phase {
        Phase::Finished(_) => v,
        Phase::Command => match reply {
            Reply::Failed(fault) => failed(v, fault),
            Reply::Written(_) => ExchangeView {
                phase: if v.buffer is Some {
                    Phase::Data
                } else {
                    Phase::Status
                },
                ..v
            },
            Reply::Received(_) => failed(v, UsbFault::Other),
        },
        Phase::Data => match (v.buffer, v.direction, reply) {
            (_, _, Reply::Failed(fault)) => failed(v, fault),
            (Some(b), Direction::Out, Reply::Written(n)) => ExchangeView {
                phase: Phase::Status,
                anomalies: Anomalies { data_length_mismatch: n != b.len(), ..v.anomalies },
                ..v
            },
            (Some(b), Direction::In, Reply::Received(bytes)) => ExchangeView {
                phase: Phase::Status,
                buffer: Some(filled(b, bytes@)),
                anomalies: Anomalies {
                    data_length_mismatch: bytes@.len() != b.len(),
                    ..v.anomalies
                },
                ..v
            },
            _ => failed(v, UsbFault::Other),
        },
        Phase::Status => match reply {
            Reply::Failed(fault) => failed(v, fault),
            Reply::Received(bytes) => ExchangeView {
                phase: Phase::Finished(Ok(csw_status(bytes@))),
                anomalies: Anomalies {
                    status_length_mismatch: bytes@.len() != CSW_LEN,
                    bad_signature: !csw_signature_ok(bytes@),
                    ..v.anomalies
                },
                ..v
            },
            Reply::Written(_) => failed(v, UsbFault::Other),
        },
    }
}

/// One command/data/status conversation with the display.
pub struct Exchange {
    cbw: Vec<u8>,
    direction: Direction,
    buffer: Option<Vec<u8>>,
    phase: Phase,
    anomalies: Anomalies,
}

impl View for Exchange {
    type V = ExchangeView;

    closed spec fn view(&self) -> ExchangeView {
        ExchangeView {
            cbw: self.cbw@,
            direction: self.direction,
            buffer: match self.buffer {
                Some(b) => Some(b@),
                None => None,
            },
            phase: self.phase,
            anomalies: self.anomalies,
        }
    }
}

impl Exchange {
    /// Prepares an exchange. For `Direction::Out` the buffer is the payload
    /// to send; for `Direction::In` it is the buffer to receive into, and
    /// its length is the number of bytes asked for.
    pub fn new(command: &CommandBlock, direction: Direction, buffer: Option<Vec<u8>>) -> (e:
        Exchange)
        ensures
            e@ == started(
                command@,
                direction,
                match buffer {
                    Some(b) => Some(b@),
                    None => None,
                },
            ),
    {
        let data_len: usize = match &buffer {
            Some(b) => b.len(),
            None => 0,
        };
        Exchange {
            cbw: build_cbw(command, direction, data_len),
            direction,
            buffer,
            phase: Phase::Command,
            anomalies: Anomalies {
                data_length_mismatch: false,
                status_length_mismatch: false,
                bad_signature: false,
            },
        }
    }

    /// The transfer to perform next; `None` once the exchange is finished.
    pub fn request(&self) -> (t: Option<Transfer<'_>>)
        ensures
            match t {
                Some(transfer) => pending(self@) == Some(transfer@),
                None => pending(self@) is None,
            },
    {
        match self.phase {
            Phase::Command => Some(
                Transfer::Write {
                    endpoint: ENDPOINT_OUT,
                    data: self.cbw.as_slice(),
                    timeout_ms: COMMAND_TIMEOUT_MS,
                },
            ),
            Phase::Data => match (&self.buffer, self.direction) {
                (Some(b), Direction::Out) => Some(
                    Transfer::Write {
                        endpoint: ENDPOINT_OUT,
                        data: b.as_slice(),
                        timeout_ms: DATA_OUT_TIMEOUT_MS,
                    },
                ),
                (Some(b), Direction::In) => Some(
                    Transfer::Read {
                        endpoint: ENDPOINT_IN,
                        len: b.len(),
                        timeout_ms: DATA_IN_TIMEOUT_MS,
                    },
                ),
                (None, _) => None,
            },
            Phase::Status => Some(
                Transfer::Read {
                    endpoint: ENDPOINT_IN,
                    len: CSW_LEN,
                    timeout_ms: STATUS_TIMEOUT_MS,
                },
            ),
            Phase::Finished(_) => None,
        }
    }

    /// Takes the reply to the pending transfer and moves on.
    pub fn advance(&mut self, reply: Reply)
        ensures
            final(self)@ == advanced(old(self)@, reply),
    {
        match self.phase {
            Phase::Finished(_) => {},
            Phase::Command => match reply {
                Reply::Failed(fault) => {
                    self.phase = Phase::Finished(Err(fault));
                },
                Reply::Written(_) => {
                    if self.buffer.is_some() {
                        self.phase = Phase::Data;
                    } else {
                        self.phase = Phase::Status;
                    }
                },
                Reply::Received(_) => {
                    self.phase = Phase::Finished(Err(UsbFault::Other));
                },
            },
            Phase::Data => {
                let buffer = self.buffer.take();
                match (buffer, self.direction, reply) {
                    (buffer, _, Reply::Failed(fault)) => {
                        self.buffer = buffer;
                        self.phase = Phase::Finished(Err(fault));
                    },
                    (Some(b), Direction::Out, Reply::Written(n)) => {
                        self.anomalies.data_length_mismatch = n != b.len();
                        self.buffer = Some(b);
                        self.phase = Phase::Status;
                    },
                    (Some(b), Direction::In, Reply::Received(bytes)) => {
                        self.anomalies.data_length_mismatch = bytes.len() != b.len();
                        self.buffer = Some(fill(b, &bytes));
                        self.phase = Phase::Status;
                    },
                    (buffer, _, _) => {
                        self.buffer = buffer;
                        self.phase = Phase::Finished(Err(UsbFault::Other));
                    },
                }
            },
            Phase::Status => match reply {
                Reply::Failed(fault) => {
                    self.phase = Phase::Finished(Err(fault));
                },
                Reply::Received(bytes) => {
                    let report = parse_csw(bytes.as_slice());
                    self.anomalies.status_length_mismatch = !report.complete;
                    self.anomalies.bad_signature = !report.signature_ok;
                    self.phase = Phase::Finished(Ok(report.status));
                },
                Reply::Written(_) => {
                    self.phase = Phase::Finished(Err(UsbFault::Other));
                },
            },
        }
    }

    /// Where the exchange stands.
    pub fn phase(&self) -> (p: Phase)
        ensures
            p == self@.phase,
    {
        self.phase
    }

    /// The status byte or the fault, once the exchange is finished.
    pub fn outcome(&self) -> (r: Option<Result<u8, UsbFault>>)
        ensures
            r == (match self@.phase {
                Phase::Finished(result) => Some(result),
                _ => None,
            }),
    {
        match self.phase {
            Phase::Finished(result) => Some(result),
            _ => None,
        }
    }

    /// What was odd so far.
    pub fn anomalies(&self) -> (a: Anomalies)
        ensures
            a == self@.anomalies,
    {
        self.anomalies
    }

    /// The buffer: the payload, or what was received into it so far.
    pub fn buffer(&self) -> (b: Option<&Vec<u8>>)
        ensures
            match b {
                Some(bytes) => self@.buffer == Some(bytes@),
                None => self@.buffer is None,
            },
    {
        self.buffer.as_ref()
    }

    /// Gives the buffer back: the payload, or what was received into it.
    pub fn into_buffer(self) -> (b: Option<Vec<u8>>)
        ensures
            match b {
                Some(bytes) => self@.buffer == Some(bytes@),
                None => self@.buffer is None,
            },
    {
        self.buffer
    }
}

/// Writes `received` over the start of `buffer`.
fn fill(buffer: Vec<u8>, received: &Vec<u8>) -> (out: Vec<u8>)
    ensures
        out@ == filled(buffer@, received@),
{
    let mut out = buffer;
    let n: usize = if received.len() < out.len() {
        received.len()
    } else {
        out.len()
    };
    let mut i: usize = 0;
    while i < n
        invariant
            i <= n,
            n <= received@.len(),
            n <= out@.len(),
            out@.len() == buffer@.len(),
            forall|k: int| 0 <= k < i ==> out@[k] == received@[k],
            forall|k: int| i <= k < out@.len() ==> out@[k] == buffer@[k],
        decreases n - i,
    {
        out.set(i, received[i]);
        i += 1;
    }
    assert(out@ =~= filled(buffer@, received@));
    out
}

/// The four bytes of `le32` are the base-256 digits of the low 32 bits.
pub proof fn lemma_le32_value(n: nat)
    ensures
        le32(n).len() == 4,
        le32(n)[0] + 0x100 * le32(n)[1] + 0x1_0000 * le32(n)[2] + 0x100_0000 * le32(n)[3] == n
            % 0x1_0000_0000,
{
    let q1 = n / 0x100;
    let q2 = q1 / 0x100;
    let q3 = q2 / 0x100;
    let q4 = q3 / 0x100;
    assert(n == 0x100 * q1 + n % 0x100);
    assert(q1 == 0x100 * q2 + q1 % 0x100);
    assert(q2 == 0x100 * q3 + q2 % 0x100);
    assert(q3 == 0x100 * q4 + q3 % 0x100);
    assert(n / 0x1_0000 == q2);
    assert(n / 0x100_0000 == q3);
    assert(n == 0x1_0000_0000 * q4 + (n % 0x100 + 0x100 * (q1 % 0x100) + 0x1_0000 * (q2 % 0x100)
        + 0x100_0000 * (q3 % 0x100)));
    assert(n % 0x1_0000_0000 == n % 0x100 + 0x100 * (q1 % 0x100) + 0x1_0000 * (q2 % 0x100)
        + 0x100_0000 * (q3 % 0x100));
}

/// The layout of every command wrapper: 31 bytes that start with "USBC",
/// give 16 as the command length and 0 as the logical unit, carry the
/// direction flag in byte 12 and the command block from byte 15 on. Bytes 8
/// to 11 are the little-endian length of the buffer, zero without one; of a
/// length beyond 32 bits they hold the low 32 bits.
pub proof fn lemma_cbw_layout(command: Seq<u8>, direction: Direction, buffer: Option<Seq<u8>>)
    requires
        command.len() == 16,
    ensures
        ({
            let w = started(command, direction, buffer).cbw;
            let n: nat = match buffer {
                Some(b) => b.len(),
                None => 0,
            };
            &&& w.len() == CBW_LEN
            &&& w[0] == 0x55 && w[1] == 0x53 && w[2] == 0x42 && w[3] == 0x43
            &&& w[8] + 0x100 * w[9] + 0x1_0000 * w[10] + 0x100_0000 * w[11] == n % 0x1_0000_0000
            &&& n <= u32::MAX ==> w[8] + 0x100 * w[9] + 0x1_0000 * w[10] + 0x100_0000 * w[11] == n
            &&& buffer is None ==> w[8] == 0 && w[9] == 0 && w[10] == 0 && w[11] == 0
            &&& w[12] == direction_flag(direction)
            &&& w[13] == 0
            &&& w[14] == 16
            &&& w.subrange(15, 31) == command
        }),
{
    let w = started(command, direction, buffer).cbw;
    let n: nat = match buffer {
        Some(b) => b.len(),
        None => 0,
    };
    lemma_le32_value(n);
    assert(w[8] == le32(n)[0] && w[9] == le32(n)[1] && w[10] == le32(n)[2] && w[11] == le32(n)[3]);
    assert(w.subrange(15, 31) =~= command);
}

/// Sending a payload takes three transfers, in this order: the command
/// wrapper to the out endpoint within one second, the payload to the out
/// endpoint within three, the status wrapper from the in endpoint within
/// five. Whatever counts the writes report, the exchange then finishes with
/// the status byte of the wrapper and asks for nothing more.
pub proof fn lemma_exchange_out(
    command: Seq<u8>,
    payload: Seq<u8>,
    sent_command: usize,
    sent_payload: usize,
    status_wrapper: Vec<u8>,
)
    ensures
        ({
            let v0 = started(command, Direction::Out, Some(payload));
            let v1 = advanced(v0, Reply::Written(sent_command));
            let v2 = advanced(v1, Reply::Written(sent_payload));
            let v3 = advanced(v2, Reply::Received(status_wrapper));
            &&& pending(v0) == Some(
                TransferView::Write {
                    endpoint: 0x01,
                    data: cbw(command, Direction::Out, payload.len()),
                    timeout_ms: 1000,
                },
            )
            &&& pending(v1) == Some(
                TransferView::Write { endpoint: 0x01, data: payload, timeout_ms: 3000 },
            )
            &&& pending(v2) == Some(TransferView::Read { endpoint: 0x81, len: 13, timeout_ms: 5000 })
            &&& pending(v3) is None
            &&& v3.phase == Phase::Finished(Ok(csw_status(status_wrapper@)))
            &&& v3.buffer == Some(payload)
            &&& v3.anomalies.data_length_mismatch == (sent_payload != payload.len())
        }),
{
}

/// Asking for data takes three transfers, in this order: the command
/// wrapper to the out endpoint within one second, a read of as many bytes
/// as the buffer holds from the in endpoint within four, the status wrapper
/// from the in endpoint within five. What arrived replaces the start of the
/// buffer; a short read is noted and does not end the exchange, which
/// finishes with the status byte of the wrapper.
pub proof fn lemma_exchange_in(
    command: Seq<u8>,
    buffer: Seq<u8>,
    sent_command: usize,
    response: Vec<u8>,
    status_wrapper: Vec<u8>,
)
    ensures
        ({
            let v0 = started(command, Direction::In, Some(buffer));
            let v1 = advanced(v0, Reply::Written(sent_command));
            let v2 = advanced(v1, Reply::Received(response));
            let v3 = advanced(v2, Reply::Received(status_wrapper));
            &&& pending(v0) == Some(
                TransferView::Write {
                    endpoint: 0x01,
                    data: cbw(command, Direction::In, buffer.len()),
                    timeout_ms: 1000,
                },
            )
            &&& pending(v1) == Some(
                TransferView::Read { endpoint: 0x81, len: buffer.len(), timeout_ms: 4000 },
            )
            &&& pending(v2) == Some(TransferView::Read { endpoint: 0x81, len: 13, timeout_ms: 5000 })
            &&& pending(v3) is None
            &&& v3.phase == Phase::Finished(Ok(csw_status(status_wrapper@)))
            &&& v3.buffer == Some(filled(buffer, response@))
            &&& v3.anomalies.data_length_mismatch == (response@.len() != buffer.len())
        }),
{
}

/// Without a buffer there is no data phase: the command wrapper is written,
/// the status wrapper is read, and the exchange finishes with its status
/// byte.
pub proof fn lemma_exchange_without_data(
    command: Seq<u8>,
    direction: Direction,
    sent_command: usize,
    status_wrapper: Vec<u8>,
)
    ensures
        ({
            let v0 = started(command, direction, None);
            let v1 = advanced(v0, Reply::Written(sent_command));
            let v2 = advanced(v1, Reply::Received(status_wrapper));
            &&& pending(v0) == Some(
                TransferView::Write {
                    endpoint: 0x01,
                    data: cbw(command, direction, 0),
                    timeout_ms: 1000,
                },
            )
            &&& pending(v1) == Some(TransferView::Read { endpoint: 0x81, len: 13, timeout_ms: 5000 })
            &&& pending(v2) is None
            &&& v2.phase == Phase::Finished(Ok(csw_status(status_wrapper@)))
        }),
{
}

/// A status wrapper of 13 bytes yields its last byte as the status, whether
/// or not it starts with "USBS"; a wrong signature is only noted.
pub proof fn lemma_status_byte_decides(v: ExchangeView, status_wrapper: Vec<u8>)
    requires
        v.phase is Status,
        status_wrapper@.len() == CSW_LEN,
    ensures
        ({
            let after = advanced(v, Reply::Received(status_wrapper));
            &&& after.phase == Phase::Finished(Ok(status_wrapper@[12]))
            &&& after.anomalies.bad_signature == !(status_wrapper@[0] == 0x55
                && status_wrapper@[1] == 0x53 && status_wrapper@[2] == 0x42
                && status_wrapper@[3] == 0x53)
            &&& !after.anomalies.status_length_mismatch
        }),
{
}

/// A fault in any phase ends the exchange with that fault: no transfer is
/// asked for afterwards, nothing is retried, and later replies change
/// nothing.
pub proof fn lemma_fault_ends_exchange(v: ExchangeView, fault: UsbFault, later: Reply)
    requires
        !(v.phase is Finished),
    ensures
        ({
            let after = advanced(v, Reply::Failed(fault));
            &&& after.phase == Phase::Finished(Err(fault))
            &&& pending(after) is None
            &&& advanced(after, later) == after
        }),
{
}

/// No exchange takes more than three transfers: whatever the three replies
/// are, the exchange is finished after them and asks for nothing more.
pub proof fn lemma_exchange_ends(
    command: Seq<u8>,
    direction: Direction,
    buffer: Option<Seq<u8>>,
    first: Reply,
    second: Reply,
    third: Reply,
)
    ensures
        ({
            let end = advanced(
                advanced(advanced(started(command, direction, buffer), first), second),
                third,
            );
            &&& end.phase is Finished
            &&& pending(end) is None
        }),
{
}

} // verus!
