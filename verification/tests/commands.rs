use oled_player::commands::{
    encode, ClkDiv, ColorDepth, Command, Interface, MCUProtection, PinState,
};

fn ok(c: Command) -> (u8, Vec<u8>) {
    encode(c).expect("command should encode")
}

#[test]
fn encode_no_parameter_commands() {
    assert_eq!(ok(Command::WriteRam), (0x5c, vec![]));
    assert_eq!(ok(Command::ReadRam), (0x5d, vec![]));
    assert_eq!(ok(Command::SetSleepModeOn), (0xae, vec![]));
    assert_eq!(ok(Command::SetSleepModeOff), (0xaf, vec![]));
    assert_eq!(ok(Command::SetDisplayModeOff), (0xa4, vec![]));
    assert_eq!(ok(Command::SetDisplayModeOn), (0xa5, vec![]));
    assert_eq!(ok(Command::SetDisplayModeNormal), (0xa6, vec![]));
    assert_eq!(ok(Command::SetDisplayModeInverse), (0xa7, vec![]));
}

#[test]
fn encode_address_ranges() {
    assert_eq!(ok(Command::SetColumnAddress(0, 127)), (0x15, vec![0, 127]));
    assert_eq!(ok(Command::SetRowAddress(3, 96)), (0x75, vec![3, 96]));
}

#[test]
fn encode_command_lock() {
    assert_eq!(ok(Command::SetCommandLock(MCUProtection::Unlock)), (0xfd, vec![0x12]));
    assert_eq!(ok(Command::SetCommandLock(MCUProtection::LockCommands)), (0xfd, vec![0x16]));
    assert_eq!(
        ok(Command::SetCommandLock(MCUProtection::AdditionalCommandsInaccessible)),
        (0xfd, vec![0xb0])
    );
    assert_eq!(
        ok(Command::SetCommandLock(MCUProtection::AdditionalCommandsInUnlock)),
        (0xfd, vec![0xb1])
    );
}

#[test]
fn encode_clocks_packs_divider_and_oscillator() {
    assert_eq!(
        ok(Command::Clocks { divider: ClkDiv::Div2, osc_freq: 0xF }),
        (0xb3, vec![0xF1])
    );
    assert_eq!(
        ok(Command::Clocks { divider: ClkDiv::Div1024, osc_freq: 0 }),
        (0xb3, vec![10])
    );
    assert!(encode(Command::Clocks { divider: ClkDiv::Div1, osc_freq: 16 }).is_err());
}

#[test]
fn encode_mux_ratio_range() {
    assert_eq!(ok(Command::SetMuxRatio(15)), (0xca, vec![15]));
    assert_eq!(ok(Command::SetMuxRatio(0x7f)), (0xca, vec![0x7f]));
    assert!(encode(Command::SetMuxRatio(14)).is_err());
    assert!(encode(Command::SetMuxRatio(128)).is_err());
}

#[test]
fn encode_remap_color_depth_packs_flags() {
    let c = Command::SetReMapColorDepth {
        vert_increment: false,
        column_invert: false,
        swap_colors: false,
        scan_from_n: true,
        enable_com_split: true,
        color_depth: ColorDepth::Color65k,
    };
    assert_eq!(ok(c), (0xa0, vec![0x30]));
    let c2 = Command::SetReMapColorDepth {
        vert_increment: true,
        column_invert: true,
        swap_colors: true,
        scan_from_n: false,
        enable_com_split: false,
        color_depth: ColorDepth::Color262kFmt2,
    };
    assert_eq!(ok(c2), (0xa0, vec![0b1100_0111]));
}

#[test]
fn encode_start_line_and_offset_range() {
    assert_eq!(ok(Command::SetDisplayStartLine(0)), (0xa1, vec![0]));
    assert_eq!(ok(Command::SetDisplayStartLine(127)), (0xa1, vec![127]));
    assert!(encode(Command::SetDisplayStartLine(128)).is_err());
    assert_eq!(ok(Command::SetDisplayOffset(64)), (0xa2, vec![64]));
    assert!(encode(Command::SetDisplayOffset(200)).is_err());
}

#[test]
fn encode_gpio_packs_both_pins() {
    let c = Command::SetGPIO {
        gpio0: PinState::HiZInputDisabled,
        gpio1: PinState::HiZInputDisabled,
    };
    assert_eq!(ok(c), (0xb5, vec![0]));
    let c2 = Command::SetGPIO { gpio0: PinState::OutputHigh, gpio1: PinState::OutputLow };
    assert_eq!(ok(c2), (0xb5, vec![0b1011]));
}

#[test]
fn encode_function_selection() {
    let c = Command::FunctionSelection { internal_regulator: true, interface: Interface::Parallel8 };
    assert_eq!(ok(c), (0xab, vec![1]));
    let c2 = Command::FunctionSelection {
        internal_regulator: false,
        interface: Interface::Parallel18,
    };
    assert_eq!(ok(c2), (0xab, vec![0b1100_0000]));
}

#[test]
fn encode_reset_precharge_range() {
    assert_eq!(ok(Command::SetResetPreCharge { phase_1: 2, phase_2: 3 }), (0xb1, vec![0x32]));
    assert_eq!(ok(Command::SetResetPreCharge { phase_1: 15, phase_2: 15 }), (0xb1, vec![0xff]));
    assert!(encode(Command::SetResetPreCharge { phase_1: 1, phase_2: 3 }).is_err());
    assert!(encode(Command::SetResetPreCharge { phase_1: 2, phase_2: 2 }).is_err());
    assert!(encode(Command::SetResetPreCharge { phase_1: 16, phase_2: 3 }).is_err());
}

#[test]
fn encode_segment_low_voltage() {
    assert_eq!(
        ok(Command::SetSegmentLowVoltage { external: true }),
        (0xb4, vec![0xa1, 0b1011_0101, 0b0101_0101])
    );
    assert_eq!(
        ok(Command::SetSegmentLowVoltage { external: false }),
        (0xb4, vec![0xa0, 0b1011_0101, 0b0101_0101])
    );
}

#[test]
fn encode_voltage_and_contrast_ranges() {
    assert_eq!(ok(Command::SetVComVoltage(0b111)), (0xbe, vec![7]));
    assert!(encode(Command::SetVComVoltage(8)).is_err());
    assert_eq!(ok(Command::MasterContrast(0xF)), (0xc7, vec![0xF]));
    assert!(encode(Command::MasterContrast(16)).is_err());
    assert_eq!(ok(Command::SetPreChargeVoltage(0b11111)), (0xbb, vec![31]));
    assert!(encode(Command::SetPreChargeVoltage(32)).is_err());
    assert_eq!(ok(Command::SetContrast { r: 1, g: 2, b: 3 }), (0xc1, vec![1, 2, 3]));
}

#[test]
fn encode_rejects_variants_outside_the_command_set() {
    assert!(encode(Command::Nop).is_err());
    assert!(encode(Command::DisplayEnhancement(true)).is_err());
    assert!(encode(Command::UseBuiltInLUT).is_err());
    assert!(encode(Command::StopMoving).is_err());
    assert!(encode(Command::StartMoving).is_err());
    assert!(encode(Command::SetSecondPreChargePeriod {
        precharge_period: 1,
        gs_table: [0u8; 63],
    })
    .is_err());
    assert!(encode(Command::HorizontalScroll {
        scroll: 1,
        start_row: 0,
        rows: 8,
        interval: oled_player::commands::ScrollingInterval::Normal,
    })
    .is_err());
}
