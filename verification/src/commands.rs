//! The panel's configuration command protocol: every configuration operation
//! is a `Command` variant, and `encode` turns a variant into its fixed opcode
//! byte plus a deterministic parameter byte sequence, rejecting out-of-range
//! parameters with `InvalidParameter` instead of crashing.
//!
//! Opcode bytes travel with the data/command select line low; parameter bytes
//! with the line high (see the display driver).

use vstd::prelude::*;

verus! {

/// A parameter was outside its documented range, or the variant has no
/// encoding in this command set: a programming error of the caller,
/// surfaced immediately and never silently clamped.
#[derive(Clone, Copy, PartialEq, Eq, Structural, Debug)]
pub struct InvalidParameter;

/// Parallel host interface width (vestigial on serial-only use).
#[derive(Clone, Copy, PartialEq, Eq, Structural, Debug)]
pub enum Interface {
    Parallel8,
    Parallel16,
    Parallel18,
}

/// The two-bit field value of an interface selection.
pub open spec fn interface_bits(i: Interface) -> u8 {
    match i {
        Interface::Parallel8 => 0b00,
        Interface::Parallel16 => 0b01,
        Interface::Parallel18 => 0b11,
    }
}

/// Electrical state of one of the panel's GPIO pins.
#[derive(Clone, Copy, PartialEq, Eq, Structural, Debug)]
pub enum PinState {
    HiZInputDisabled,
    HiZInputEnabled,
    OutputLow,
    OutputHigh,
}

/// The two-bit field value of a GPIO pin state.
pub open spec fn pin_state_bits(p: PinState) -> u8 {
    match p {
        PinState::HiZInputDisabled => 0b00,
        PinState::HiZInputEnabled => 0b01,
        PinState::OutputLow => 0b10,
        PinState::OutputHigh => 0b11,
    }
}

/// Time interval between scroll steps.
#[derive(Clone, Copy, PartialEq, Eq, Structural, Debug)]
pub enum ScrollingInterval {
    TestMode,
    Normal,
    Slow,
    Slowest,
}

/// Color depth of the panel RAM.
#[derive(Clone, Copy, PartialEq, Eq, Structural, Debug)]
pub enum ColorDepth {
    Color65k,
    Color262k,
    Color262kFmt2,
}

/// The two-bit field value of a color depth selection.
pub open spec fn color_depth_bits(d: ColorDepth) -> u8 {
    match d {
        ColorDepth::Color65k => 0b00,
        ColorDepth::Color262k => 0b10,
        ColorDepth::Color262kFmt2 => 0b11,
    }
}

/// Display clock divider ratio.
#[derive(Clone, Copy, PartialEq, Eq, Structural, Debug)]
pub enum ClkDiv {
    Div1,
    Div2,
    Div4,
    Div8,
    Div16,
    Div32,
    Div64,
    Div128,
    Div256,
    Div512,
    Div1024,
}

/// The four-bit field value of a clock divider selection.
pub open spec fn clk_div_bits(d: ClkDiv) -> u8 {
    match d {
        ClkDiv::Div1 => 0,
        ClkDiv::Div2 => 1,
        ClkDiv::Div4 => 2,
        ClkDiv::Div8 => 3,
        ClkDiv::Div16 => 4,
        ClkDiv::Div32 => 5,
        ClkDiv::Div64 => 6,
        ClkDiv::Div128 => 7,
        ClkDiv::Div256 => 8,
        ClkDiv::Div512 => 9,
        ClkDiv::Div1024 => 10,
    }
}

/// Command-lock protection level of the panel's controller.
#[derive(Clone, Copy, PartialEq, Eq, Structural, Debug)]
pub enum MCUProtection {
    Unlock,
    LockCommands,
    AdditionalCommandsInaccessible,
    AdditionalCommandsInUnlock,
}

/// The parameter byte of a command-lock setting.
pub open spec fn mcu_protection_bits(p: MCUProtection) -> u8 {
    match p {
        MCUProtection::Unlock => 0x12,
        MCUProtection::LockCommands => 0x16,
        MCUProtection::AdditionalCommandsInaccessible => 0xb0,
        MCUProtection::AdditionalCommandsInUnlock => 0xb1,
    }
}

/// A panel configuration operation. Each variant carries typed parameters;
/// encoding is a pure function of the variant.
#[derive(Clone, Copy)]
pub enum Command {
    SetColumnAddress(u8, u8),
    SetRowAddress(u8, u8),
    WriteRam,
    ReadRam,
    SetReMapColorDepth {
        vert_increment: bool,
        column_invert: bool,
        swap_colors: bool,
        scan_from_n: bool,
        enable_com_split: bool,
        color_depth: ColorDepth,
    },
    SetDisplayStartLine(u8),
    SetDisplayOffset(u8),
    SetDisplayModeOff,
    SetDisplayModeOn,
    SetDisplayModeNormal,
    SetDisplayModeInverse,
    FunctionSelection {
        internal_regulator: bool,
        interface: Interface,
    },
    Nop,
    SetSleepModeOn,
    SetSleepModeOff,
    SetResetPreCharge {
        phase_1: u8,
        phase_2: u8,
    },
    DisplayEnhancement(bool),
    Clocks {
        divider: ClkDiv,
        osc_freq: u8,
    },
    SetSegmentLowVoltage {
        external: bool,
    },
    SetGPIO {
        gpio0: PinState,
        gpio1: PinState,
    },
    SetSecondPreChargePeriod {
        precharge_period: u8,
        gs_table: [u8; 63],
    },
    UseBuiltInLUT,
    SetPreChargeVoltage(u8),
    SetVComVoltage(u8),
    SetContrast {
        r: u8,
        g: u8,
        b: u8,
    },
    MasterContrast(u8),
    SetMuxRatio(u8),
    SetCommandLock(MCUProtection),
    HorizontalScroll {
        scroll: u8,
        start_row: u8,
        rows: u8,
        interval: ScrollingInterval,
    },
    StopMoving,
    StartMoving,
}

/// A single bit as a byte.
pub open spec fn bit(b: bool) -> u8 {
    if b {
        1
    } else {
        0
    }
}

/// Whether the variant belongs to the encodable command set (the commands the
/// start-up sequence and rendering need; the remaining variants are listed
/// for completeness of the panel's command table but have no encoding here).
pub open spec fn has_encoding(c: Command) -> bool {
    match c {
        Command::Nop => false,
        Command::DisplayEnhancement(_) => false,
        Command::SetSecondPreChargePeriod { .. } => false,
        Command::UseBuiltInLUT => false,
        Command::HorizontalScroll { .. } => false,
        Command::StopMoving => false,
        Command::StartMoving => false,
        _ => true,
    }
}

/// Whether every parameter of the variant is inside its documented range.
pub open spec fn params_valid(c: Command) -> bool {
    match c {
        Command::Clocks { divider, osc_freq } => osc_freq <= 0b1111,
        Command::SetMuxRatio(ratio) => 15 <= ratio <= 127,
        Command::SetDisplayStartLine(line) => line <= 127,
        Command::SetDisplayOffset(line) => line <= 127,
        Command::SetResetPreCharge { phase_1, phase_2 } => 2 <= phase_1 <= 15 && 3 <= phase_2
            <= 15,
        Command::SetVComVoltage(v) => v <= 0b111,
        Command::MasterContrast(v) => v <= 0b1111,
        Command::SetPreChargeVoltage(v) => v <= 0b11111,
        _ => true,
    }
}

/// Whether `encode` accepts the command.
pub open spec fn encodable(c: Command) -> bool {
    has_encoding(c) && params_valid(c)
}

/// The fixed opcode byte of an encodable command.
pub open spec fn opcode_of(c: Command) -> u8 {
    match c {
        Command::SetColumnAddress(..) => 0x15,
        Command::SetRowAddress(..) => 0x75,
        Command::WriteRam => 0x5c,
        Command::ReadRam => 0x5d,
        Command::SetSleepModeOn => 0xae,
        Command::SetSleepModeOff => 0xaf,
        Command::SetCommandLock(..) => 0xfd,
        Command::Clocks { .. } => 0xb3,
        Command::SetMuxRatio(..) => 0xca,
        Command::SetReMapColorDepth { .. } => 0xa0,
        Command::SetDisplayStartLine(..) => 0xa1,
        Command::SetDisplayOffset(..) => 0xa2,
        Command::SetGPIO { .. } => 0xb5,
        Command::FunctionSelection { .. } => 0xab,
        Command::SetResetPreCharge { .. } => 0xb1,
        Command::SetSegmentLowVoltage { .. } => 0xb4,
        Command::SetVComVoltage(..) => 0xbe,
        Command::MasterContrast(..) => 0xc7,
        Command::SetPreChargeVoltage(..) => 0xbb,
        Command::SetContrast { .. } => 0xc1,
        Command::SetDisplayModeOff => 0xa4,
        Command::SetDisplayModeOn => 0xa5,
        Command::SetDisplayModeNormal => 0xa6,
        Command::SetDisplayModeInverse => 0xa7,
        _ => 0,
    }
}

/// The parameter bytes of an encodable command with in-range parameters:
/// single bytes, or multi-field bytes built by OR-ing shifted sub-fields.
pub open spec fn params_of(c: Command) -> Seq<u8> {
    match c {
        Command::SetColumnAddress(start, end) => seq![start, end],
        Command::SetRowAddress(start, end) => seq![start, end],
        Command::SetCommandLock(prot) => seq![mcu_protection_bits(prot)],
        Command::Clocks { divider, osc_freq } => seq![clk_div_bits(divider) | (osc_freq << 4)],
        Command::SetMuxRatio(ratio) => seq![ratio],
        Command::SetReMapColorDepth {
            vert_increment,
            column_invert,
            swap_colors,
            scan_from_n,
            enable_com_split,
            color_depth,
        } => seq![
            bit(vert_increment) | (bit(column_invert) << 1) | (bit(swap_colors) << 2) | (bit(
                scan_from_n,
            ) << 4) | (bit(enable_com_split) << 5) | (color_depth_bits(color_depth) << 6),
        ],
        Command::SetDisplayStartLine(line) => seq![line],
        Command::SetDisplayOffset(line) => seq![line],
        Command::SetGPIO { gpio0, gpio1 } => seq![
            pin_state_bits(gpio0) | (pin_state_bits(gpio1) << 2),
        ],
        Command::FunctionSelection { internal_regulator, interface } => seq![
            bit(internal_regulator) | (interface_bits(interface) << 6),
        ],
        Command::SetResetPreCharge { phase_1, phase_2 } => seq![phase_1 | (phase_2 << 4)],
        Command::SetSegmentLowVoltage { external } => seq![
            0xa0 | bit(external),
            0b10110101,
            0b01010101,
        ],
        Command::SetVComVoltage(v) => seq![v],
        Command::MasterContrast(v) => seq![v],
        Command::SetPreChargeVoltage(v) => seq![v],
        Command::SetContrast { r, g, b } => seq![r, g, b],
        _ => Seq::empty(),
    }
}

/// An empty parameter list.
fn params0() -> (v: Vec<u8>)
    ensures
        v@ == Seq::<u8>::empty(),
{
    let v: Vec<u8> = Vec::new();
    v
}

/// A one-byte parameter list.
fn params1(a: u8) -> (v: Vec<u8>)
    ensures
        v@ == seq![a],
{
    let mut v: Vec<u8> = Vec::new();
    v.push(a);
    assert(v@ =~= seq![a]);
    v
}

/// A two-byte parameter list.
fn params2(a: u8, b: u8) -> (v: Vec<u8>)
    ensures
        v@ == seq![a, b],
{
    let mut v: Vec<u8> = Vec::new();
    v.push(a);
    v.push(b);
    assert(v@ =~= seq![a, b]);
    v
}

/// A three-byte parameter list.
fn params3(a: u8, b: u8, c: u8) -> (v: Vec<u8>)
    ensures
        v@ == seq![a, b, c],
{
    let mut v: Vec<u8> = Vec::new();
    v.push(a);
    v.push(b);
    v.push(c);
    assert(v@ =~= seq![a, b, c]);
    v
}

/// A boolean as a single-bit byte.
fn bit_of(b: bool) -> (v: u8)
    ensures
        v == bit(b),
{
    if b {
        1
    } else {
        0
    }
}

impl Interface {
    /// The two-bit field value of this interface selection.
    pub fn bits(self) -> (v: u8)
        ensures
            v == interface_bits(self),
    {
        match self {
            Interface::Parallel8 => 0b00,
            Interface::Parallel16 => 0b01,
            Interface::Parallel18 => 0b11,
        }
    }
}

impl PinState {
    /// The two-bit field value of this pin state.
    pub fn bits(self) -> (v: u8)
        ensures
            v == pin_state_bits(self),
    {
        match self {
            PinState::HiZInputDisabled => 0b00,
            PinState::HiZInputEnabled => 0b01,
            PinState::OutputLow => 0b10,
            PinState::OutputHigh => 0b11,
        }
    }
}

impl ColorDepth {
    /// The two-bit field value of this color depth selection.
    pub fn bits(self) -> (v: u8)
        ensures
            v == color_depth_bits(self),
    {
        match self {
            ColorDepth::Color65k => 0b00,
            ColorDepth::Color262k => 0b10,
            ColorDepth::Color262kFmt2 => 0b11,
        }
    }
}

impl ClkDiv {
    /// The four-bit field value of this clock divider selection.
    pub fn bits(self) -> (v: u8)
        ensures
            v == clk_div_bits(self),
    {
        match self {
            ClkDiv::Div1 => 0,
            ClkDiv::Div2 => 1,
            ClkDiv::Div4 => 2,
            ClkDiv::Div8 => 3,
            ClkDiv::Div16 => 4,
            ClkDiv::Div32 => 5,
            ClkDiv::Div64 => 6,
            ClkDiv::Div128 => 7,
            ClkDiv::Div256 => 8,
            ClkDiv::Div512 => 9,
            ClkDiv::Div1024 => 10,
        }
    }
}

impl MCUProtection {
    /// The parameter byte of this command-lock setting.
    pub fn bits(self) -> (v: u8)
        ensures
            v == mcu_protection_bits(self),
    {
        match self {
            MCUProtection::Unlock => 0x12,
            MCUProtection::LockCommands => 0x16,
            MCUProtection::AdditionalCommandsInaccessible => 0xb0,
            MCUProtection::AdditionalCommandsInUnlock => 0xb1,
        }
    }
}

/// Encodes a command into its opcode byte and parameter bytes. Succeeds
/// exactly on the encodable variants with in-range parameters; every other
/// input fails with `InvalidParameter` and returns no bytes at all.
pub fn encode(c: Command) -> (r: Result<(u8, Vec<u8>), InvalidParameter>)
    ensures
        r is Ok <==> encodable(c),
        r matches Ok(p) ==> p.0 == opcode_of(c) && p.1@ == params_of(c),
{
    match c {
        Command::SetColumnAddress(start, end) => Ok((0x15, params2(start, end))),
        Command::SetRowAddress(start, end) => Ok((0x75, params2(start, end))),
        Command::WriteRam => Ok((0x5c, params0())),
        Command::ReadRam => Ok((0x5d, params0())),
        Command::SetSleepModeOn => Ok((0xae, params0())),
        Command::SetSleepModeOff => Ok((0xaf, params0())),
        Command::SetCommandLock(prot) => Ok((0xfd, params1(prot.bits()))),
        Command::Clocks { divider, osc_freq } => {
            if osc_freq <= 0b1111 {
                Ok((0xb3, params1(divider.bits() | (osc_freq << 4u8))))
            } else {
                Err(InvalidParameter)
            }
        },
        Command::SetMuxRatio(ratio) => {
            if 15 <= ratio && ratio <= 127 {
                Ok((0xca, params1(ratio)))
            } else {
                Err(InvalidParameter)
            }
        },
        Command::SetReMapColorDepth {
            vert_increment,
            column_invert,
            swap_colors,
            scan_from_n,
            enable_com_split,
            color_depth,
        } => Ok(
            (
                0xa0,
                params1(
                    bit_of(vert_increment) | (bit_of(column_invert) << 1u8) | (bit_of(swap_colors)
                        << 2u8) | (bit_of(scan_from_n) << 4u8) | (bit_of(enable_com_split) << 5u8)
                        | (color_depth.bits() << 6u8),
                ),
            ),
        ),
        Command::SetDisplayStartLine(line) => {
            if line <= 127 {
                Ok((0xa1, params1(line)))
            } else {
                Err(InvalidParameter)
            }
        },
        Command::SetDisplayOffset(line) => {
            if line <= 127 {
                Ok((0xa2, params1(line)))
            } else {
                Err(InvalidParameter)
            }
        },
        Command::SetGPIO { gpio0, gpio1 } => Ok(
            (0xb5, params1(gpio0.bits() | (gpio1.bits() << 2u8))),
        ),
        Command::FunctionSelection { internal_regulator, interface } => Ok(
            (0xab, params1(bit_of(internal_regulator) | (interface.bits() << 6u8))),
        ),
        Command::SetResetPreCharge { phase_1, phase_2 } => {
            if 2 <= phase_1 && phase_1 <= 15 && 3 <= phase_2 && phase_2 <= 15 {
                Ok((0xb1, params1(phase_1 | (phase_2 << 4u8))))
            } else {
                Err(InvalidParameter)
            }
        },
        Command::SetSegmentLowVoltage { external } => Ok(
            (0xb4, params3(0xa0 | bit_of(external), 0b10110101, 0b01010101)),
        ),
        Command::SetVComVoltage(v) => {
            if v <= 0b111 {
                Ok((0xbe, params1(v)))
            } else {
                Err(InvalidParameter)
            }
        },
        Command::MasterContrast(v) => {
            if v <= 0b1111 {
                Ok((0xc7, params1(v)))
            } else {
                Err(InvalidParameter)
            }
        },
        Command::SetPreChargeVoltage(v) => {
            if v <= 0b11111 {
                Ok((0xbb, params1(v)))
            } else {
                Err(InvalidParameter)
            }
        },
        Command::SetContrast { r, g, b } => Ok((0xc1, params3(r, g, b))),
        Command::SetDisplayModeOff => Ok((0xa4, params0())),
        Command::SetDisplayModeOn => Ok((0xa5, params0())),
        Command::SetDisplayModeNormal => Ok((0xa6, params0())),
        Command::SetDisplayModeInverse => Ok((0xa7, params0())),
        _ => Err(InvalidParameter),
    }
}

} // verus!
