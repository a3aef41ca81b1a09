pub mod config;
pub mod ubx;

use crate::bytes::spec_u32_le;
use crate::neom9n::config::{CfgStorage, DynamicModel};
use crate::neom9n::ubx::{spec_valset_frame, ubx_cfg_valset};
use vstd::prelude::*;
use vstd::slice::slice_to_vec;

verus! {

/// Baud rate that `Neo::init` switches the receiver's UART1, and then the host's port, to.
pub const GPS_BAUDRATE: u32 = 115200;

/// Command set of the NEO-M9N GNSS receiver on a UART.
///
/// Each method gives the bytes to write; the port itself stays with the caller.
pub struct Neo {}

/// One step of a start-up sequence.
#[derive(Debug, PartialEq, Eq)]
pub enum GpsStep {
    /// Write these bytes to the receiver.
    Send(Vec<u8>),
    /// Reconfigure the host's port to this baud rate, 8 data bits, no parity, one stop bit.
    SetBaudrate(u32),
}

/// `n` zero bytes: the buffer a message is built in.
pub open spec fn zeros(n: nat) -> Seq<u8> {
    Seq::new(n, |i: int| 0u8)
}

/// The CFG-VALSET message, built in a zeroed buffer of `n` bytes, that applies `payload` to RAM.
pub open spec fn spec_ram_valset(payload: Seq<u8>, n: nat) -> Seq<u8> {
    spec_valset_frame(CfgStorage::Ram, payload, zeros(n))
}

/// Key CFG-UART1-BAUDRATE set to 115200.
pub open spec fn baudrate_payload() -> Seq<u8> {
    seq![0x40u8, 0x52u8, 0x00u8, 0x01u8, 0x00u8, 0x01u8, 0xC2u8, 0x00u8]
}

/// Keys CFG-UART1OUTPROT-UBX set to 1 and CFG-UART1OUTPROT-NMEA set to 0.
pub open spec fn output_protocol_payload() -> Seq<u8> {
    seq![0x10u8, 0x74u8, 0x00u8, 0x01u8, 0x01u8, 0x10u8, 0x74u8, 0x00u8, 0x02u8, 0x00u8]
}

/// Key CFG-NAVSPG-DYNMODEL set to `model`.
pub open spec fn model_payload(model: DynamicModel) -> Seq<u8> {
    seq![0x20u8, 0x11u8, 0x00u8, 0x21u8, model.spec_bits()]
}

/// UBX output only on UART1 at `verbosity`, followed by zeros.
pub open spec fn verbosity_payload(verbosity: u8) -> Seq<u8> {
    seq![0u8, verbosity, 0u8, 0u8, 0u8, 0u8, 0u8, 0u8, 0u8, 0u8]
}

/// Measurement period `period` (high byte first), one measurement per
/// solution, aligned to UTC.
pub open spec fn rate_payload(period: u16) -> Seq<u8> {
    seq![(period / 256) as u8, (period % 256) as u8, 0u8, 1u8, 0u8]
}

impl Neo {
    pub fn new() -> (r: Self) {
        Neo {}
    }

    /// The start-up sequence: set UART1 to 115200 baud, follow on the host's
    /// side, then turn UBX output on and NMEA output off.
    pub fn init(&self) -> (steps: Vec<GpsStep>)
        ensures
            steps@.len() == 3,
            steps@[0] matches GpsStep::Send(m) && m@ == spec_ram_valset(baudrate_payload(), 16),
            steps@[1] == GpsStep::SetBaudrate(GPS_BAUDRATE),
            steps@[2] matches GpsStep::Send(m) && m@ == spec_ram_valset(output_protocol_payload(), 24),
    {
        let payload: [u8; 8] = [0x40, 0x52, 0x00, 0x01, 0x00, 0x01, 0xC2, 0x00];
        let mut write_buf = [0u8; 16];
        assert(write_buf@ =~= zeros(16));
        assert(payload@ =~= baudrate_payload());
        ubx_cfg_valset(CfgStorage::Ram, &payload, &mut write_buf);
        let baud_frame = slice_to_vec(&write_buf);

        let payload: [u8; 10] = [0x10, 0x74, 0x00, 0x01, 0x01, 0x10, 0x74, 0x00, 0x02, 0x00];
        let mut write_buf = [0u8; 24];
        assert(write_buf@ =~= zeros(24));
        assert(payload@ =~= output_protocol_payload());
        ubx_cfg_valset(CfgStorage::Ram, &payload, &mut write_buf);
        let protocol_frame = slice_to_vec(&write_buf);

        let mut steps: Vec<GpsStep> = Vec::new();
        steps.push(GpsStep::Send(baud_frame));
        steps.push(GpsStep::SetBaudrate(GPS_BAUDRATE));
        steps.push(GpsStep::Send(protocol_frame));
        steps
    }

    /// The message that selects the dynamic platform model.
    pub fn set_model(&self, model: DynamicModel) -> (frame: [u8; 16])
        ensures
            frame@ == spec_ram_valset(model_payload(model), 16),
            frame[4] == 9,
            frame[8] == 0x20 && frame[9] == 0x11 && frame[10] == 0x00 && frame[11] == 0x21,
            frame[12] == model.spec_bits(),
            frame[13] == 0 && frame[14] == 0 && frame[15] == 0,
    {
        let payload: [u8; 5] = [0x20, 0x11, 0x00, 0x21, model.bits()];
        let mut write_buf = [0u8; 16];
        assert(write_buf@ =~= zeros(16));
        assert(payload@ =~= model_payload(model));
        ubx_cfg_valset(CfgStorage::Ram, &payload, &mut write_buf);
        write_buf
    }

    /// The message that sets the information message verbosity, an OR of the
    /// per-level bits in 0x01..=0x1f.
    pub fn set_verbosity(&self, verbosity: u8) -> (frame: [u8; 24])
        requires
            verbosity <= 0x1f,
            verbosity != 0,
        ensures
            frame@ == spec_ram_valset(verbosity_payload(verbosity), 24),
            frame[4] == 14,
            frame[9] == verbosity,
            forall|i: int| 8 <= i < 24 && i != 9 ==> frame[i] == 0,
    {
        // only ubx on uart1
        let payload: [u8; 10] = [0, verbosity, 0, 0, 0, 0, 0, 0, 0, 0];
        let mut write_buf = [0u8; 24];
        assert(write_buf@ =~= zeros(24));
        assert(payload@ =~= verbosity_payload(verbosity));
        ubx_cfg_valset(CfgStorage::Ram, &payload, &mut write_buf);
        write_buf
    }

    /// The message that sets the measurement period in milliseconds.
    pub fn set_rate_period(&self, period: u16) -> (frame: [u8; 16])
        requires
            period <= 40,
        ensures
            frame@ == spec_ram_valset(rate_payload(period), 16),
            frame[4] == 9,
            256 * frame[8] + frame[9] == period,
            frame[10] == 0 && frame[11] == 1 && frame[12] == 0,
            frame[13] == 0 && frame[14] == 0 && frame[15] == 0,
    {
        let hi: u8 = (period / 256) as u8;
        let lo: u8 = (period % 256) as u8;
        // period, 1 measurement per solution, aligned to utc
        let payload: [u8; 5] = [hi, lo, 0, 1, 0];
        let mut write_buf = [0u8; 16];
        assert(write_buf@ =~= zeros(16));
        assert(payload@ =~= rate_payload(period));
        ubx_cfg_valset(CfgStorage::Ram, &payload, &mut write_buf);
        write_buf
    }
}

/// The value bytes of the baud-rate message (after the 4-byte key), read
/// most significant byte first, give the baud rate the host switches to.
pub proof fn lemma_init_baudrate_value()
    ensures
        spec_u32_le(
            baudrate_payload()[7],
            baudrate_payload()[6],
            baudrate_payload()[5],
            baudrate_payload()[4],
        ) == GPS_BAUDRATE,
{
    let p = baudrate_payload();
    assert(p[4] == 0x00u8);
    assert(p[5] == 0x01u8);
    assert(p[6] == 0xC2u8);
    assert(p[7] == 0x00u8);
}

/// The two start-up messages byte for byte: CFG-VALSET to RAM with key
/// `40 52 00 01` and value `00 01 c2 00` (115200 read most significant byte
/// first), then keys `10 74 00 01` = 1 and `10 74 00 02` = 0.
pub proof fn lemma_init_messages()
    ensures
        spec_ram_valset(baudrate_payload(), 16) == seq![
            0xb5u8, 0x62u8, 0x06u8, 0x8au8, 12u8, 0x00u8, 0x01u8, 0x00u8,
            0x40u8, 0x52u8, 0x00u8, 0x01u8, 0x00u8, 0x01u8, 0xC2u8, 0x00u8,
        ],
        spec_ram_valset(output_protocol_payload(), 24) == seq![
            0xb5u8, 0x62u8, 0x06u8, 0x8au8, 14u8, 0x00u8, 0x01u8, 0x00u8,
            0x10u8, 0x74u8, 0x00u8, 0x01u8, 0x01u8, 0x10u8, 0x74u8, 0x00u8,
            0x02u8, 0x00u8, 0u8, 0u8, 0u8, 0u8, 0u8, 0u8,
        ],
{
    assert(spec_ram_valset(baudrate_payload(), 16) =~= seq![
        0xb5u8, 0x62u8, 0x06u8, 0x8au8, 12u8, 0x00u8, 0x01u8, 0x00u8,
        0x40u8, 0x52u8, 0x00u8, 0x01u8, 0x00u8, 0x01u8, 0xC2u8, 0x00u8,
    ]);
    assert(spec_ram_valset(output_protocol_payload(), 24) =~= seq![
        0xb5u8, 0x62u8, 0x06u8, 0x8au8, 14u8, 0x00u8, 0x01u8, 0x00u8,
        0x10u8, 0x74u8, 0x00u8, 0x01u8, 0x01u8, 0x10u8, 0x74u8, 0x00u8,
        0x02u8, 0x00u8, 0u8, 0u8, 0u8, 0u8, 0u8, 0u8,
    ]);
}

/// The verbosity message carries exactly the requested verbosity: byte 9
/// is the verbosity and the other payload bytes (8 to 23) are zero.
pub proof fn lemma_verbosity_message(verbosity: u8)
    ensures
        spec_ram_valset(verbosity_payload(verbosity), 24)[9] == verbosity,
        forall|i: int| 8 <= i < 24 && i != 9 ==> spec_ram_valset(verbosity_payload(verbosity), 24)[i] == 0,
{
}

} // verus!
