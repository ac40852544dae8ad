use stm32f7_discovery::i2c::{I2cTrait, SetupOp, I2C};
use stm32f7_discovery::init::{
    init_sdram, sdram_control, sdram_timing, Bank, Command, SdramStep,
    init_wm8994, sai2_block_config, sai2_plli2s_config, sai_master_clock_divider, PllI2sConfig, AUDIO_FREQUENCY, SYSTEM_CLOCK_PLLM, SYSTEM_CLOCK_PLLN,
    SYSTEM_CLOCK_PLLQ, WM8994_ADDRESS,
};
use stm32f7_discovery::system_clock::{pll_system_clock_speed, PllP};
use stm32f7_discovery::touch::{check_family_id, init_ft6x06};

struct Bus;
impl I2cTrait for Bus {}

#[test]
fn init_system_clock_settings_give_216_mhz() {
    assert_eq!(pll_system_clock_speed(SYSTEM_CLOCK_PLLM, SYSTEM_CLOCK_PLLN, PllP::Div2), 216_000_000);
    assert_eq!(SYSTEM_CLOCK_PLLQ, 9);
}

#[test]
fn init_sai_master_clock_divider() {
    // 25 MHz / 25 * 192 / 4 = 48 MHz: 48e6 / (512 * 16 kHz) = 5.86, rounded down
    assert_eq!(sai_master_clock_divider(25, 192, 4, 0, AUDIO_FREQUENCY), 5);
    // 49 MHz: 5.98, the decimal 9 rounds up
    assert_eq!(sai_master_clock_divider(25, 196, 4, 0, AUDIO_FREQUENCY), 6);
    // PLLSAIDIVQ = 1 halves the SAI clock: 24.5 MHz gives 2.99
    assert_eq!(sai_master_clock_divider(25, 196, 4, 1, AUDIO_FREQUENCY), 3);
    // 344 MHz / 7 = 49.14 MHz at 48 kHz: 2.0
    assert_eq!(sai_master_clock_divider(25, 344, 7, 0, 48000), 2);
}

#[test]
fn init_wm8994_setup_sequence() {
    let i2c = I2C(Bus);
    let (conn, ops) = init_wm8994(&i2c);
    let _ = conn;
    assert_eq!(WM8994_ADDRESS, 0b0011010);
    assert_eq!(ops.len(), 26);
    assert_eq!(ops[0], SetupOp::Check { register: 0, value: 0x8994 });
    assert_eq!(ops[1], SetupOp::Write { register: 0, value: 0 });
    assert_eq!(ops[7], SetupOp::WaitMs(50));
    assert_eq!(ops[14], SetupOp::Write { register: 0x210, value: 0x0033 });
    for (k, reg) in [0x400u16, 0x401, 0x404, 0x405].iter().enumerate() {
        assert_eq!(ops[22 + k], SetupOp::Write { register: *reg, value: 0x1EF });
    }
}

#[test]
fn init_touch_controller_setups() {
    let i2c = I2C(Bus);
    let (_, ops) = check_family_id(&i2c);
    assert_eq!(ops, vec![SetupOp::Check { register: 0xA8, value: 0x51 }]);
    let (_, ops) = init_ft6x06(&i2c);
    assert_eq!(
        ops,
        vec![
            SetupOp::Write { register: 0, value: 0 },
            SetupOp::Check { register: 0xA8, value: 0x11 },
            SetupOp::Write { register: 0xA4, value: 0 },
        ]
    );
}

#[test]
fn init_sdram_sequence() {
    let steps = init_sdram();
    assert_eq!(steps.len(), 12);
    assert_eq!(
        steps[0],
        SdramStep::Command { bank: Bank::One, command: Command::ClockConfigurationEnable, auto_refresh: 1, mode_register: 0 }
    );
    assert_eq!(steps[1], SdramStep::WaitMs(1));
    assert_eq!(
        steps[3],
        SdramStep::Command { bank: Bank::One, command: Command::AutoRefreshCommand, auto_refresh: 8, mode_register: 0 }
    );
    assert_eq!(
        steps[4],
        SdramStep::Command { bank: Bank::One, command: Command::LoadModeRegister, auto_refresh: 1, mode_register: 0x0020 | 0x200 }
    );
    assert_eq!(steps[5], SdramStep::RefreshCount(0x301));
    assert_eq!(steps[8], SdramStep::Write { address: 0xC07F_FFFC, value: 0x0deafbee });
    assert_eq!(steps[11], SdramStep::Check { address: 0xC07F_FFFC, value: 0x0deafbee });
    assert_eq!(Command::LoadModeRegister.bits(), 0b100);
    assert_eq!(Command::PowerDownCommand.bits(), 0b110);
    let control = sdram_control();
    assert_eq!((control.nc, control.nr, control.mwid, control.cas, control.sdclk), (0, 1, 1, 2, 2));
    assert!(control.nb && !control.wp && !control.rburst);
    let timing = sdram_timing();
    assert_eq!((timing.tmrd, timing.txsr, timing.tras, timing.trc), (1, 6, 3, 6));
    assert_eq!((timing.twr, timing.trp, timing.trcd), (1, 1, 1));
}

#[test]
fn sai2_block_settings() {
    assert_eq!(sai2_plli2s_config(), PllI2sConfig { plli2sn: 344, plli2sq: 7, plli2sdiv: 0 });
    let a = sai2_block_config(true, 6);
    let b = sai2_block_config(false, 6);
    assert_eq!((a.mode, a.syncen), (0b01, 0b00));
    assert_eq!((b.mode, b.syncen), (0b11, 0b01));
    assert_eq!((a.ds, a.frl, a.fsall, a.nbslot, a.sloten), (0b100, 63, 31, 3, 0b1010));
    assert_eq!(a.mckdiv, 6);
    // the divider is truncated to the 8 bits of its field
    assert_eq!(sai2_block_config(true, 0x105).mckdiv, 5);
}
