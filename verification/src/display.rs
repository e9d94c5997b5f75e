//! The display driver: owns a byte transport and the data/command select
//! line, runs the fixed start-up command sequence once at construction, and
//! renders whole frames.
//!
//! The driver keeps a ghost log of the traffic it has handed to the
//! transport: one `(data, byte)` pair per byte, where `data` is the level
//! the select line was last successfully driven to — `false` (command) for
//! opcode bytes, `true` (data) for parameter and pixel bytes. Contracts pin
//! the traffic down exactly; transport failures are fatal to the display and
//! add nothing to the log.

use vstd::prelude::*;
use std::io::Write;
use crate::commands::{
    Command, ClkDiv, ColorDepth, Interface, MCUProtection, PinState, encodable, opcode_of,
    params_of, encode,
};

verus! {

/// spidev's SPI device handle, opaque to verification.
#[verifier::external_type_specification]
#[verifier::external_body]
pub struct ExSpidev(spidev::Spidev);

/// gpio_cdev's requested-line handle, opaque to verification.
#[verifier::external_type_specification]
#[verifier::external_body]
pub struct ExLineHandle(gpio_cdev::LineHandle);

/// gpio_cdev's error type, opaque to verification.
#[verifier::external_type_specification]
#[verifier::external_body]
pub struct ExGpioError(gpio_cdev::errors::Error);

/// std's I/O error type, opaque to verification.
#[verifier::external_type_specification]
#[verifier::external_body]
pub struct ExIoError(std::io::Error);

/// A serial or GPIO I/O failure, as the collaborator interfaces report it.
#[derive(Debug)]
pub enum TransportError {
    /// The serial transport failed.
    SPIError(std::io::Error),
    /// The data/command select line could not be driven.
    GPIOError(gpio_cdev::errors::Error),
}

/// A transport or encoding failure; always fatal to the affected display,
/// whose protocol state can no longer be trusted. The first two variants
/// carry a `TransportError` through unchanged; `InvalidParameter` is the
/// library's own validation and never comes from the transport.
#[derive(Debug)]
pub enum TransferError {
    /// The serial transport failed.
    SPIError(std::io::Error),
    /// The data/command select line could not be driven.
    GPIOError(gpio_cdev::errors::Error),
    /// A configuration command had no encoding (see `commands::encode`).
    InvalidParameter,
}

/// The byte-oriented transport that carries opcode, parameter and pixel
/// bytes to the panel. `write_bytes` either writes the whole buffer or
/// fails; nothing more is assumed of an implementation.
pub trait Transport {
    /// Writes the whole buffer to the panel, or fails.
    fn write_bytes(&mut self, data: &[u8]) -> Result<(), TransportError>;
}

/// The single-bit data/command select line: low for opcode bytes, high for
/// parameter and pixel bytes.
pub trait DigitalOutput {
    /// Drives the line high (data) or low (command).
    fn set_level(&mut self, high: bool) -> Result<(), TransportError>;
}

/// Lifts a transport failure into the display's error, moving the payload
/// through unchanged.
fn lift_transport_error(e: TransportError) -> (r: TransferError)
    ensures
        r is SPIError || r is GPIOError,
        e matches TransportError::SPIError(io) ==> (r matches TransferError::SPIError(io2)
            && io2 == io),
        e matches TransportError::GPIOError(g) ==> (r matches TransferError::GPIOError(g2) && g2
            == g),
{
    match e {
        TransportError::SPIError(io) => TransferError::SPIError(io),
        TransportError::GPIOError(g) => TransferError::GPIOError(g),
    }
}

/// Relies on spidev's `std::io::Write` impl: `write_all` writes the whole
/// buffer to the SPI device, or returns the error it hit.
#[verifier::external_body]
fn spi_write_all(spi: &mut spidev::Spidev, data: &[u8]) -> Result<(), std::io::Error> {
    spi.write_all(data)
}

/// Relies on gpio_cdev's `LineHandle::set_value`: drives the requested GPIO
/// line to 0 or 1, or returns the error it hit.
#[verifier::external_body]
fn gpio_set_value(line: &gpio_cdev::LineHandle, value: u8) -> Result<
    (),
    gpio_cdev::errors::Error,
> {
    line.set_value(value)
}

/// An SPI device as the panel's transport.
pub struct SpiTransport {
    spi: spidev::Spidev,
}

impl SpiTransport {
    /// Wraps an already opened and configured SPI device.
    pub fn new(spi: spidev::Spidev) -> SpiTransport {
        SpiTransport { spi }
    }
}

impl Transport for SpiTransport {
    fn write_bytes(&mut self, data: &[u8]) -> Result<(), TransportError> {
        match spi_write_all(&mut self.spi, data) {
            Ok(_) => Ok(()),
            Err(e) => Err(TransportError::SPIError(e)),
        }
    }
}

/// A GPIO line as the panel's data/command select line.
pub struct GpioSelectLine {
    line: gpio_cdev::LineHandle,
}

impl GpioSelectLine {
    /// Wraps an already requested GPIO output line.
    pub fn new(line: gpio_cdev::LineHandle) -> GpioSelectLine {
        GpioSelectLine { line }
    }
}

impl DigitalOutput for GpioSelectLine {
    fn set_level(&mut self, high: bool) -> Result<(), TransportError> {
        let value: u8 = if high {
            1
        } else {
            0
        };
        match gpio_set_value(&self.line, value) {
            Ok(_) => Ok(()),
            Err(e) => Err(TransportError::GPIOError(e)),
        }
    }
}

/// The given bytes, each tagged with the select-line level they travel at.
pub open spec fn at_level(level: bool, bytes: Seq<u8>) -> Seq<(bool, u8)> {
    bytes.map(|i: int, b: u8| (level, b))
}

/// The wire traffic of one configuration command: its opcode byte at command
/// level, then its parameter bytes at data level.
pub open spec fn command_traffic(c: Command) -> Seq<(bool, u8)> {
    seq![(false, opcode_of(c))] + at_level(true, params_of(c))
}

/// The wire traffic of a command sequence, in order.
pub open spec fn commands_traffic(cs: Seq<Command>) -> Seq<(bool, u8)>
    decreases cs.len(),
{
    if cs.len() == 0 {
        Seq::empty()
    } else {
        command_traffic(cs[0]) + commands_traffic(cs.drop_first())
    }
}

/// `a` is the first `a.len()` elements of `b`.
pub open spec fn prefix_of(a: Seq<(bool, u8)>, b: Seq<(bool, u8)>) -> bool {
    a.len() <= b.len() && a == b.take(a.len() as int)
}

proof fn lemma_commands_traffic_snoc(cs: Seq<Command>, c: Command)
    ensures
        commands_traffic(cs.push(c)) == commands_traffic(cs) + command_traffic(c),
    decreases cs.len(),
{
    if cs.len() == 0 {
        assert(cs.push(c).drop_first() =~= Seq::<Command>::empty());
        assert(cs.push(c)[0] == c);
        assert(commands_traffic(Seq::<Command>::empty()) == Seq::<(bool, u8)>::empty());
        assert(commands_traffic(cs.push(c)) == command_traffic(c) + Seq::<(bool, u8)>::empty());
        assert(command_traffic(c) + Seq::<(bool, u8)>::empty() =~= command_traffic(c));
        assert(cs =~= Seq::<Command>::empty());
        assert(commands_traffic(cs) == Seq::<(bool, u8)>::empty());
        assert(commands_traffic(cs) + command_traffic(c) =~= command_traffic(c));
    } else {
        lemma_commands_traffic_snoc(cs.drop_first(), c);
        assert(cs.push(c).drop_first() =~= cs.drop_first().push(c));
        assert(cs.push(c)[0] == cs[0]);
        assert(command_traffic(cs[0]) + (commands_traffic(cs.drop_first()) + command_traffic(c))
            =~= (command_traffic(cs[0]) + commands_traffic(cs.drop_first())) + command_traffic(c));
    }
}

/// The traffic of a command-sequence prefix is a prefix of the whole
/// sequence's traffic.
proof fn lemma_commands_traffic_take_prefix(cs: Seq<Command>, j: int)
    requires
        0 <= j <= cs.len(),
    ensures
        prefix_of(commands_traffic(cs.take(j)), commands_traffic(cs)),
    decreases cs.len() - j,
{
    if j == cs.len() {
        assert(cs.take(j) =~= cs);
        assert(commands_traffic(cs).take(commands_traffic(cs).len() as int) =~= commands_traffic(
            cs,
        ));
    } else {
        lemma_commands_traffic_take_prefix(cs, j + 1);
        lemma_commands_traffic_snoc(cs.take(j), cs[j]);
        assert(cs.take(j + 1) =~= cs.take(j).push(cs[j]));
        let a = commands_traffic(cs.take(j));
        let b = commands_traffic(cs.take(j + 1));
        let c = commands_traffic(cs);
        assert(b == a + command_traffic(cs[j]));
        assert(a =~= b.take(a.len() as int));
        assert(a =~= c.take(a.len() as int));
    }
}

/// Putting the same front before a prefix and its whole keeps the prefix
/// relation, and the front itself is a prefix of the extension.
proof fn lemma_extend_prefix(front: Seq<(bool, u8)>, p: Seq<(bool, u8)>, s: Seq<(bool, u8)>)
    requires
        prefix_of(p, s),
    ensures
        prefix_of(front + p, front + s),
        prefix_of(front, front + p),
{
    assert((front + p) =~= (front + s).take((front + p).len() as int));
    assert(front =~= (front + p).take(front.len() as int));
}

/// The fixed start-up command sequence, in the order it is issued, for a
/// panel whose last column is `col_end` and last row is `row_end`.
pub open spec fn startup_commands(col_end: u8, row_end: u8) -> Seq<Command> {
    seq![
        Command::SetCommandLock(MCUProtection::Unlock),
        Command::SetCommandLock(MCUProtection::AdditionalCommandsInUnlock),
        Command::SetSleepModeOn,
        Command::Clocks { divider: ClkDiv::Div2, osc_freq: 0xF },
        Command::SetMuxRatio(0x7f),
        Command::SetColumnAddress(0, col_end),
        Command::SetRowAddress(0, row_end),
        Command::SetReMapColorDepth {
            vert_increment: false,
            column_invert: false,
            swap_colors: false,
            scan_from_n: true,
            enable_com_split: true,
            color_depth: ColorDepth::Color65k,
        },
        Command::SetDisplayStartLine(0),
        Command::SetDisplayOffset(0),
        Command::SetGPIO { gpio0: PinState::HiZInputDisabled, gpio1: PinState::HiZInputDisabled },
        Command::FunctionSelection { internal_regulator: true, interface: Interface::Parallel8 },
        Command::SetResetPreCharge { phase_1: 0x2, phase_2: 0x3 },
        Command::SetSegmentLowVoltage { external: true },
        Command::SetVComVoltage(0x05),
        Command::MasterContrast(0x0F),
        Command::SetPreChargeVoltage(0x01),
        Command::SetDisplayModeNormal,
        Command::SetContrast { r: 0xff, g: 0xff, b: 0xff },
        Command::SetSleepModeOff,
        Command::WriteRam,
    ]
}

/// The whole wire traffic of the start-up sequence.
pub open spec fn startup_traffic(col_end: u8, row_end: u8) -> Seq<(bool, u8)> {
    commands_traffic(startup_commands(col_end, row_end))
}

/// Builds the start-up sequence as issued at construction.
fn startup_sequence(col_end: u8, row_end: u8) -> (v: Vec<Command>)
    ensures
        v@ == startup_commands(col_end, row_end),
{
    let mut v: Vec<Command> = Vec::new();
    v.push(Command::SetCommandLock(MCUProtection::Unlock));
    v.push(Command::SetCommandLock(MCUProtection::AdditionalCommandsInUnlock));
    v.push(Command::SetSleepModeOn);
    v.push(Command::Clocks { divider: ClkDiv::Div2, osc_freq: 0xF });
    v.push(Command::SetMuxRatio(0x7f));
    v.push(Command::SetColumnAddress(0, col_end));
    v.push(Command::SetRowAddress(0, row_end));
    v.push(
        Command::SetReMapColorDepth {
            vert_increment: false,
            column_invert: false,
            swap_colors: false,
            scan_from_n: true,
            enable_com_split: true,
            color_depth: ColorDepth::Color65k,
        },
    );
    v.push(Command::SetDisplayStartLine(0));
    v.push(Command::SetDisplayOffset(0));
    v.push(
        Command::SetGPIO { gpio0: PinState::HiZInputDisabled, gpio1: PinState::HiZInputDisabled },
    );
    v.push(
        Command::FunctionSelection { internal_regulator: true, interface: Interface::Parallel8 },
    );
    v.push(Command::SetResetPreCharge { phase_1: 0x2, phase_2: 0x3 });
    v.push(Command::SetSegmentLowVoltage { external: true });
    v.push(Command::SetVComVoltage(0x05));
    v.push(Command::MasterContrast(0x0F));
    v.push(Command::SetPreChargeVoltage(0x01));
    v.push(Command::SetDisplayModeNormal);
    v.push(Command::SetContrast { r: 0xff, g: 0xff, b: 0xff });
    v.push(Command::SetSleepModeOff);
    v.push(Command::WriteRam);
    assert(v@ =~= startup_commands(col_end, row_end));
    v
}

/// One panel: a transport, a data/command select line, and the panel's
/// dimensions. Constructed in working state by `new`, which runs the
/// start-up sequence exactly once; afterwards `render` may be called
/// repeatedly, and no further state transitions exist.
pub struct Display<T: Transport, D: DigitalOutput> {
    transport: T,
    select: D,
    width: usize,
    height: usize,
    data_high: bool,
    traffic: Ghost<Seq<(bool, u8)>>,
}

impl<T: Transport, D: DigitalOutput> Display<T, D> {
    /// Every byte handed to the transport so far, tagged with the
    /// select-line level it traveled at.
    pub closed spec fn traffic(self) -> Seq<(bool, u8)> {
        self.traffic@
    }

    /// Panel width in pixels.
    pub closed spec fn spec_width(self) -> usize {
        self.width
    }

    /// Panel height in pixels.
    pub closed spec fn spec_height(self) -> usize {
        self.height
    }

    /// The level the select line was last successfully driven to.
    pub closed spec fn spec_data_high(self) -> bool {
        self.data_high
    }

    /// Panel width in pixels.
    pub fn width(&self) -> (w: usize)
        ensures
            w == self.spec_width(),
    {
        self.width
    }

    /// Panel height in pixels.
    pub fn height(&self) -> (h: usize)
        ensures
            h == self.spec_height(),
    {
        self.height
    }

    /// Drives the select line and records the new level on success; a
    /// failure leaves the recorded traffic and level as they were.
    fn data_mode(&mut self, data: bool) -> (r: Result<(), TransferError>)
        ensures
            final(self).spec_width() == old(self).spec_width(),
            final(self).spec_height() == old(self).spec_height(),
            final(self).traffic() == old(self).traffic(),
            r is Ok ==> final(self).spec_data_high() == data,
            r matches Err(e) ==> (e is SPIError || e is GPIOError) && final(self).spec_data_high()
                == old(self).spec_data_high(),
    {
        match self.select.set_level(data) {
            Ok(_) => {
                self.data_high = data;
                Ok(())
            },
            Err(e) => Err(lift_transport_error(e)),
        }
    }

    /// Hands bytes to the transport; on success they are logged at the
    /// current select-line level, on failure nothing is logged.
    fn xmit(&mut self, data: &[u8]) -> (r: Result<(), TransferError>)
        ensures
            final(self).spec_width() == old(self).spec_width(),
            final(self).spec_height() == old(self).spec_height(),
            final(self).spec_data_high() == old(self).spec_data_high(),
            r is Ok ==> final(self).traffic() == old(self).traffic() + at_level(
                old(self).spec_data_high(),
                data@,
            ),
            r matches Err(e) ==> (e is SPIError || e is GPIOError)
                && final(self).traffic() == old(self).traffic(),
    {
        match self.transport.write_bytes(data) {
            Ok(_) => {
                self.traffic = Ghost(self.traffic@ + at_level(self.data_high, data@));
                Ok(())
            },
            Err(e) => Err(lift_transport_error(e)),
        }
    }

    /// Encodes and issues one configuration command: the opcode byte with
    /// the select line at command level, then any parameter bytes at data
    /// level. A command outside the encodable set fails with
    /// `InvalidParameter` — and only such a command does — before anything
    /// reaches the wire; on success the traffic grows by exactly the
    /// command's encoding; a transport failure passes through as the
    /// transport's own error kind, and at most the opcode byte of this
    /// command has gone out.
    pub fn config(&mut self, option: Command) -> (r: Result<(), TransferError>)
        ensures
            final(self).spec_width() == old(self).spec_width(),
            final(self).spec_height() == old(self).spec_height(),
            r is Ok ==> encodable(option) && final(self).traffic() == old(self).traffic()
                + command_traffic(option),
            !encodable(option) ==> (r matches Err(TransferError::InvalidParameter)
                && final(self).traffic() == old(self).traffic()),
            r matches Err(TransferError::InvalidParameter) ==> !encodable(option),
            (r is Err && encodable(option)) ==> (r matches Err(e) && (e is SPIError
                || e is GPIOError)),
            (r is Err && encodable(option)) ==> (final(self).traffic() == old(self).traffic()
                || final(self).traffic() == old(self).traffic() + seq![
                (false, opcode_of(option)),
            ]),
    {
        let (cmd, data) = match encode(option) {
            Ok(p) => p,
            Err(_) => {
                return Err(TransferError::InvalidParameter);
            },
        };
        match self.data_mode(false) {
            Ok(_) => (),
            Err(e) => {
                return Err(e);
            },
        }
        let opbuf: [u8; 1] = [cmd; 1];
        match self.xmit(opbuf.as_slice()) {
            Ok(_) => (),
            Err(e) => {
                return Err(e);
            },
        }
        assert(at_level(false, opbuf@) =~= seq![(false, opcode_of(option))]);
        if data.len() > 0 {
            match self.data_mode(true) {
                Ok(_) => (),
                Err(e) => {
                    return Err(e);
                },
            }
            match self.xmit(data.as_slice()) {
                Ok(_) => (),
                Err(e) => {
                    return Err(e);
                },
            }
        } else {
            assert(at_level(true, params_of(option)) =~= Seq::<(bool, u8)>::empty());
        }
        assert(final(self).traffic() =~= old(self).traffic() + command_traffic(option));
        Ok(())
    }

    /// Runs the fixed start-up sequence; on success the traffic has grown by
    /// exactly the whole sequence's encoding. Any single command failure
    /// aborts initialization at once and propagates the transport's own
    /// error — every start-up command is encodable, so `InvalidParameter`
    /// never comes out — and what has gone out then is a prefix of the
    /// start-up traffic: no later command is transmitted and nothing is
    /// retried.
    fn init(&mut self) -> (r: Result<(), TransferError>)
        requires
            1 <= old(self).spec_width() <= 128,
            1 <= old(self).spec_height() <= 128,
        ensures
            final(self).spec_width() == old(self).spec_width(),
            final(self).spec_height() == old(self).spec_height(),
            r is Ok ==> final(self).traffic() == old(self).traffic() + startup_traffic(
                (old(self).spec_width() - 1) as u8,
                (old(self).spec_height() - 1) as u8,
            ),
            r matches Err(e) ==> (e is SPIError || e is GPIOError),
            r is Err ==> prefix_of(old(self).traffic(), final(self).traffic()) && prefix_of(
                final(self).traffic(),
                old(self).traffic() + startup_traffic(
                    (old(self).spec_width() - 1) as u8,
                    (old(self).spec_height() - 1) as u8,
                ),
            ),
    {
        let col_end: u8 = (self.width - 1) as u8;
        let row_end: u8 = (self.height - 1) as u8;
        let cmds = startup_sequence(col_end, row_end);
        let ghost t0 = self.traffic();
        let mut i: usize = 0;
        while i < cmds.len()
            invariant
                i <= cmds@.len(),
                cmds@ == startup_commands(col_end, row_end),
                col_end == (old(self).spec_width() - 1) as u8,
                row_end == (old(self).spec_height() - 1) as u8,
                self.spec_width() == old(self).spec_width(),
                self.spec_height() == old(self).spec_height(),
                t0 == old(self).traffic(),
                self.traffic() == t0 + commands_traffic(cmds@.take(i as int)),
            decreases cmds@.len() - i,
        {
            let ghost prefix = cmds@.take(i as int);
            match self.config(cmds[i]) {
                Ok(_) => (),
                Err(e) => {
                    proof {
                        let cs = cmds@;
                        let j = i as int;
                        assert(encodable(cs[j]));
                        let p = commands_traffic(cs.take(j));
                        lemma_commands_traffic_take_prefix(cs, j);
                        if self.traffic() == t0 + p {
                            lemma_extend_prefix(t0, p, commands_traffic(cs));
                        } else {
                            // config left the opcode byte alone on the wire
                            lemma_commands_traffic_snoc(cs.take(j), cs[j]);
                            assert(cs.take(j + 1) =~= cs.take(j).push(cs[j]));
                            lemma_commands_traffic_take_prefix(cs, j + 1);
                            let q = p + seq![(false, opcode_of(cs[j]))];
                            assert(command_traffic(cs[j])[0] == (false, opcode_of(cs[j])));
                            assert(q.len() <= commands_traffic(cs.take(j + 1)).len());
                            assert(q =~= commands_traffic(cs.take(j + 1)).take(q.len() as int));
                            assert(q =~= commands_traffic(cs).take(q.len() as int));
                            lemma_extend_prefix(t0, q, commands_traffic(cs));
                            assert((t0 + p) + seq![(false, opcode_of(cs[j]))] =~= t0 + q);
                        }
                    }
                    return Err(e);
                },
            }
            proof {
                lemma_commands_traffic_snoc(prefix, cmds@[i as int]);
                assert(cmds@.take(i + 1) =~= prefix.push(cmds@[i as int]));
                assert(t0 + commands_traffic(prefix) + command_traffic(cmds@[i as int]) =~= t0
                    + (commands_traffic(prefix) + command_traffic(cmds@[i as int])));
            }
            i = i + 1;
        }
        proof {
            assert(cmds@.take(cmds@.len() as int) =~= cmds@);
        }
        Ok(())
    }

    /// Builds a display over an already opened transport and select line and
    /// runs the start-up sequence exactly once. On success the display is
    /// ready to render, and everything on the wire so far is exactly the
    /// start-up sequence's encoding. A failure of any start-up command
    /// aborts construction and propagates the transport's own error — never
    /// the library's `InvalidParameter`, since every start-up command is
    /// encodable; partial initialization is not retried.
    pub fn new(transport: T, select: D, width: usize, height: usize) -> (r: Result<
        Display<T, D>,
        TransferError,
    >)
        requires
            1 <= width <= 128,
            1 <= height <= 128,
        ensures
            r matches Ok(d) ==> d.spec_width() == width && d.spec_height() == height
                && d.traffic() == startup_traffic((width - 1) as u8, (height - 1) as u8),
            r matches Err(e) ==> (e is SPIError || e is GPIOError),
    {
        let mut disp = Display {
            transport,
            select,
            width,
            height,
            data_high: false,
            traffic: Ghost(Seq::empty()),
        };
        match disp.init() {
            Ok(_) => {
                assert(disp.traffic() =~= startup_traffic(
                    (width - 1) as u8,
                    (height - 1) as u8,
                ));
                Ok(disp)
            },
            Err(e) => Err(e),
        }
    }

    /// Renders one whole frame: raises the select line to data level, then
    /// writes the frame's bytes in one transport operation. On success the
    /// traffic grows by exactly the frame's bytes at data level; on failure
    /// nothing is logged — a frame is transmitted whole or not at all.
    pub fn render(&mut self, fb: &[u8]) -> (r: Result<(), TransferError>)
        requires
            fb@.len() == old(self).spec_width() * old(self).spec_height() * 2,
        ensures
            final(self).spec_width() == old(self).spec_width(),
            final(self).spec_height() == old(self).spec_height(),
            r is Ok ==> final(self).traffic() == old(self).traffic() + at_level(true, fb@),
            r matches Err(e) ==> (e is SPIError || e is GPIOError)
                && final(self).traffic() == old(self).traffic(),
    {
        match self.data_mode(true) {
            Ok(_) => (),
            Err(e) => {
                return Err(e);
            },
        }
        self.xmit(fb)
    }
}

} // verus!
