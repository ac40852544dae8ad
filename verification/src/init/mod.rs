//! Hardware initialization: the pin mapping of the board's peripherals and the settings
//! that the initialization routines compute.

pub mod pins;

use crate::i2c::{Address, I2C, I2cConnection, I2cTrait, SetupOp};
use crate::system_clock::{PllP, pll_clock_speed};
use vstd::prelude::*;

verus! {

/// The division factor PLLM of the main PLL that sets the system clock to 216 MHz: the VCO
/// input is 25 MHz / 25 = 1 MHz.
pub const SYSTEM_CLOCK_PLLM: u8 = 25;

/// The multiplication factor PLLN of the main PLL that sets the system clock to 216 MHz: the
/// VCO output is 1 MHz * 432 = 432 MHz.
pub const SYSTEM_CLOCK_PLLN: u16 = 432;

/// The division factor PLLQ of the main PLL that sets the system clock to 216 MHz.
pub const SYSTEM_CLOCK_PLLQ: u8 = 9;

/// The main PLL setting of the 216 MHz system clock runs the system clock at 216 MHz:
/// 25 MHz / PLLM * PLLN / PLLP with PLLP = 2.
pub proof fn lemma_system_clock_216mhz()
    ensures
        pll_clock_speed(SYSTEM_CLOCK_PLLM, SYSTEM_CLOCK_PLLN, PllP::Div2) == 216_000_000,
{
    assert(25_000_000int / 25 == 1_000_000);
    assert(1_000_000int * 432 / 2 == 216_000_000);
}

/// The audio sampling frequency that the SAI2 controller is set up for, in Hz.
pub const AUDIO_FREQUENCY: u32 = 16000;

/// The frequency of the SAI clock, in Hz, that the PLLSAI produces from the 25 MHz external
/// oscillator: `25 MHz / PLLM * PLLSAIN / PLLSAIQ / (PLLSAIDIVQ + 1)`, each division rounding
/// down.
pub open spec fn sai_clock_frequency(pllm: int, pllsain: int, pllsaiq: int, pllsaidivq: int) -> int {
    25_000_000int / pllm * pllsain / pllsaiq / (pllsaidivq + 1)
}

/// The master clock divider MCKDIV for a SAI clock of `frequency` Hz and an audio frequency
/// `fs`, from `MCLK = SAI_CK / (MCKDIV * 2) = 256 * fs`: the ratio `frequency / (512 * fs)`
/// is computed to one decimal (rounded down) and rounded up when that decimal is 9.
pub open spec fn master_clock_divider(frequency: int, fs: int) -> int {
    let tenths = frequency * 10 / (fs * 512);
    if tenths % 10 > 8 {
        tenths / 10 + 1
    } else {
        tenths / 10
    }
}

/// Computes the SAI2 master clock divider for the audio frequency `audio_frequency` from the
/// PLLSAI configuration fields (PLLM of the main PLL, PLLSAIN, PLLSAIQ and PLLSAIDIVQ).
pub fn sai_master_clock_divider(
    pllm: u8,
    pllsain: u16,
    pllsaiq: u8,
    pllsaidivq: u8,
    audio_frequency: u32,
) -> (r: u32)
    requires
        pllm > 0,
        pllsaiq > 0,
        0 < audio_frequency * 512 <= u32::MAX,
        25_000_000int / (pllm as int) * pllsain <= u32::MAX,
        sai_clock_frequency(pllm as int, pllsain as int, pllsaiq as int, pllsaidivq as int) * 10
            <= u32::MAX,
    ensures
        r == master_clock_divider(
            sai_clock_frequency(pllm as int, pllsain as int, pllsaiq as int, pllsaidivq as int),
            audio_frequency as int,
        ),
{
    // PLLSAI_VCO input = PLL_SOURCE / PLLM, with the 25 MHz external oscillator as source
    let vcoinput: u32 = 25000000 / (pllm as u32);
    // SAI_CLK(first level) = PLLSAI_VCO output / PLLSAIQ = VCO input * PLLSAIN / PLLSAIQ
    let tmpreg: u32 = pllsaiq as u32;
    let frequency: u32 = (vcoinput * (pllsain as u32)) / tmpreg;
    // SAI_CLK_x = SAI_CLK(first level) / PLLSAIDIVQ
    let tmpreg: u32 = (pllsaidivq as u32) + 1;
    let freq: u32 = frequency / tmpreg;

    // (sai clock * 10) to keep one significant decimal
    let tmpclock: u32 = (freq * 10) / (audio_frequency * 512);
    let mckdiv: u32 = tmpclock / 10;
    // round the result up when the decimal is 9
    if (tmpclock % 10) > 8 {
        mckdiv + 1
    } else {
        mckdiv
    }
}

/// The division factors of the PLLI2S that clocks the SAI2 controller: VCO output = input *
/// PLLI2SN, SAI clock = VCO output / PLLI2SQ / (PLLI2SDIV + 1), so 344 MHz / 7 = 49.142 MHz.
#[derive(Debug, Clone, Copy, PartialEq, Eq, Structural)]
pub struct PllI2sConfig {
    /// PLLI2SN: the multiplication factor of the VCO.
    pub plli2sn: u16,
    /// PLLI2SQ: the division factor of the SAI clock.
    pub plli2sq: u8,
    /// PLLI2SDIV: the further division factor of the SAI clock, minus one.
    pub plli2sdiv: u8,
}

/// The PLLI2S settings for the SAI2 clock.
pub fn sai2_plli2s_config() -> (r: PllI2sConfig)
    ensures
        r == (PllI2sConfig { plli2sn: 344, plli2sq: 7, plli2sdiv: 0 }),
{
    PllI2sConfig { plli2sn: 344, plli2sq: 7, plli2sdiv: 1 - 1 }
}

/// The settings of one audio block of the SAI2 controller: its configuration registers 1 and
/// 2 (CR1, CR2), frame (FRCR) and slot (SLOTR) registers.
#[derive(Debug, Clone, Copy, PartialEq, Eq, Structural)]
pub struct SaiBlockConfig {
    /// MODE: 0b01 master receiver, 0b11 slave receiver.
    pub mode: u8,
    /// PRTCFG: 0b00 free protocol.
    pub prtcfg: u8,
    /// DS: 0b100 for 16 bit data.
    pub ds: u8,
    /// LSBFIRST: least significant bit first.
    pub lsbfirst: bool,
    /// CKSTR: the clock strobing edge.
    pub ckstr: bool,
    /// SYNCEN: 0b00 asynchronous, 0b01 synchronous with the other block.
    pub syncen: u8,
    /// MONO: mono mode.
    pub mono: bool,
    /// OUTDRIV: output drive.
    pub out_dri: bool,
    /// NODIV: no master clock divider.
    pub nodiv: bool,
    /// MCKDIV: the master clock divider.
    pub mckdiv: u8,
    /// FTH: 0b001 quarter FIFO threshold.
    pub fth: u8,
    /// TRIS: tristate management.
    pub tris: bool,
    /// COMP: 0b00 no companding.
    pub comp: u8,
    /// FRL: the frame length minus one.
    pub frl: u8,
    /// FSALL: the frame synchronization active level length minus one.
    pub fsall: u8,
    /// FSDEF: frame synchronization definition.
    pub fsdef: bool,
    /// FSPOL: frame synchronization polarity.
    pub fspol: bool,
    /// FSOFF: frame synchronization offset.
    pub fsoff: bool,
    /// FBOFF: the first bit offset.
    pub fboff: u8,
    /// SLOTSZ: 0b00 slot size equal to the data size.
    pub slotsz: u8,
    /// NBSLOT: the number of slots minus one.
    pub nbslot: u8,
    /// SLOTEN: the enabled slots, one bit each.
    pub sloten: u16,
}

/// The settings of an audio block of SAI2 for audio input: block A is the asynchronous master
/// receiver, block B the slave receiver synchronous with block A. Both take 16 bit data in a
/// 64 bit frame of 4 slots, of which slots 1 and 3 are enabled, and the master clock divider
/// `mckdiv` (truncated to its 8 bits).
pub fn sai2_block_config(master: bool, mckdiv: u32) -> (r: SaiBlockConfig)
    ensures
        r == (SaiBlockConfig {
            mode: if master { 0b01u8 } else { 0b11u8 },
            prtcfg: 0b00,
            ds: 0b100,
            lsbfirst: false,
            ckstr: true,
            syncen: if master { 0b00u8 } else { 0b01u8 },
            mono: false,
            out_dri: true,
            nodiv: false,
            mckdiv: mckdiv as u8,
            fth: 0b001,
            tris: false,
            comp: 0b00,
            frl: 63,
            fsall: 31,
            fsdef: true,
            fspol: false,
            fsoff: true,
            fboff: 0,
            slotsz: 0b00,
            nbslot: 3,
            sloten: 0b1010,
        }),
{
    SaiBlockConfig {
        mode: if master { 0b01 } else { 0b11 },  // MasterReceiver or SlaveReceiver
        prtcfg: 0b00,  // protocol free
        ds: 0b100,  // data_size 16 bits
        lsbfirst: false,
        ckstr: true,  // clock_strobing_edge
        syncen: if master { 0b00 } else { 0b01 },  // asynchronous or synchronous with block A
        mono: false,
        out_dri: true,  // output_drive
        nodiv: false,  // no_divider
        mckdiv: mckdiv as u8,  // master_clock_divider
        fth: 0b001,  // fifo_threshold QuarterFifo
        tris: false,  // tristate_management
        comp: 0b00,  // companding_mode None
        frl: 64 - 1,  // frame_length
        fsall: 32 - 1,  // sync_active_level_length
        fsdef: true,  // frame_sync_definition
        fspol: false,  // frame_sync_polarity
        fsoff: true,  // frame_sync_offset
        fboff: 0,  // first_bit_offset
        slotsz: 0b00,  // slot_size DataSize
        nbslot: 4 - 1,  // number_of_slots
        sloten: 0b1010,  // enable_slots 1 and 3
    }
}

/// The 7 bit I2C address of the WM8994 audio codec.
pub const WM8994_ADDRESS: u8 = 0b0011010;

/// The setup of the WM8994 audio codec for audio input from the digital microphone 2 at
/// 16 kHz: check the device family ID, reset the device, then configure it.
pub open spec fn wm8994_setup() -> Seq<SetupOp<u16>> {
    seq![
        // device family ID
        SetupOp::Check { register: 0x0, value: 0x8994 },
        // reset device
        SetupOp::Write { register: 0x0, value: 0x0000 },
        // errata work-arounds
        SetupOp::Write { register: 0x102, value: 0x0003 },
        SetupOp::Write { register: 0x817, value: 0x0000 },
        SetupOp::Write { register: 0x102, value: 0x0000 },
        // enable VMID soft start (fast), start-up bias current enabled
        SetupOp::Write { register: 0x39, value: 0x006C },
        // enable bias generator, enable VMID
        SetupOp::Write { register: 0x1, value: 0x0003 },
        // let the bias settle
        SetupOp::WaitMs(50),
        // enable AIF1ADC2 (left, right), DMICDAT2 (left, right), left and right ADC
        SetupOp::Write { register: 0x4, value: 0x0C30 },
        // enable AIF1 DRC2 signal detect and DRC in AIF1ADC2 left/right timeslot 1
        SetupOp::Write { register: 0x450, value: 0x00DB },
        // disable IN1L, IN1R, IN2L, IN2R, enable thermal sensor and shutdown
        SetupOp::Write { register: 0x2, value: 0x6000 },
        // DMIC2 (left) to AIF1 timeslot 1 (left) mixer path
        SetupOp::Write { register: 0x608, value: 0x0002 },
        // DMIC2 (right) to AIF1 timeslot 1 (right) mixer path
        SetupOp::Write { register: 0x609, value: 0x0002 },
        // GPIO1: output, AIF1 DRC2 signal detect
        SetupOp::Write { register: 0x700, value: 0x000E },
        // AIF1 sample rate 16 kHz, ratio 256
        SetupOp::Write { register: 0x210, value: 0x0033 },
        // AIF1 word length 16 bits, I2S format
        SetupOp::Write { register: 0x300, value: 0x4010 },
        // slave mode
        SetupOp::Write { register: 0x302, value: 0x0000 },
        // enable the DSP processing clock for AIF1 and the core clock
        SetupOp::Write { register: 0x208, value: 0x000A },
        // enable AIF1 clock, source MCLK1 pin
        SetupOp::Write { register: 0x200, value: 0x0001 },
        // enable microphone bias 1 generator, enable VMID
        SetupOp::Write { register: 0x1, value: 0x0013 },
        // ADC oversample enable
        SetupOp::Write { register: 0x620, value: 0x0002 },
        // AIF ADC2 HPF enable, HPF cut = voice mode 1
        SetupOp::Write { register: 0x411, value: 0x3800 },
        // volume (+17.625 dB) of left and right AIF1 ADC1 and ADC2
        SetupOp::Write { register: 0x400, value: 239u16 | 0x100 },
        SetupOp::Write { register: 0x401, value: 239u16 | 0x100 },
        SetupOp::Write { register: 0x404, value: 239u16 | 0x100 },
        SetupOp::Write { register: 0x405, value: 239u16 | 0x100 },
    ]
}

/// Initializes the WM8994 audio controller: the connection to the codec and the operations to
/// run on it, in order (see [`wm8994_setup`]).
///
/// Required for audio input.
pub fn init_wm8994<I: I2cTrait>(i2c_3: &I2C<I>) -> (r: (I2cConnection<u16>, Vec<SetupOp<u16>>))
    ensures
        r.0.spec_device_address().spec_value() == WM8994_ADDRESS * 2,
        r.1@ == wm8994_setup(),
{
    let conn = i2c_3.connect::<u16>(Address::bits_7(WM8994_ADDRESS));
    // 100 (+17.625 dB)
    let convertedvol: u16 = 239;
    let mut ops: Vec<SetupOp<u16>> = Vec::new();
    // device family ID
    ops.push(SetupOp::Check { register: 0x0, value: 0x8994 });
    // reset device
    ops.push(SetupOp::Write { register: 0x0, value: 0x0000 });
    // errata work-arounds
    ops.push(SetupOp::Write { register: 0x102, value: 0x0003 });
    ops.push(SetupOp::Write { register: 0x817, value: 0x0000 });
    ops.push(SetupOp::Write { register: 0x102, value: 0x0000 });
    // enable VMID soft start (fast), start-up bias current enabled
    ops.push(SetupOp::Write { register: 0x39, value: 0x006C });
    // enable bias generator, enable VMID
    ops.push(SetupOp::Write { register: 0x1, value: 0x0003 });
    // let the bias settle
    ops.push(SetupOp::WaitMs(50));
    // enable AIF1ADC2 (left, right), DMICDAT2 (left, right), left and right ADC
    ops.push(SetupOp::Write { register: 0x4, value: 0x0C30 });
    // enable AIF1 DRC2 signal detect and DRC in AIF1ADC2 left/right timeslot 1
    ops.push(SetupOp::Write { register: 0x450, value: 0x00DB });
    // disable IN1L, IN1R, IN2L, IN2R, enable thermal sensor and shutdown
    ops.push(SetupOp::Write { register: 0x2, value: 0x6000 });
    // DMIC2 (left) to AIF1 timeslot 1 (left) mixer path
    ops.push(SetupOp::Write { register: 0x608, value: 0x0002 });
    // DMIC2 (right) to AIF1 timeslot 1 (right) mixer path
    ops.push(SetupOp::Write { register: 0x609, value: 0x0002 });
    // GPIO1: output, AIF1 DRC2 signal detect
    ops.push(SetupOp::Write { register: 0x700, value: 0x000E });
    // AIF1 sample rate 16 kHz, ratio 256
    ops.push(SetupOp::Write { register: 0x210, value: 0x0033 });
    // AIF1 word length 16 bits, I2S format
    ops.push(SetupOp::Write { register: 0x300, value: 0x4010 });
    // slave mode
    ops.push(SetupOp::Write { register: 0x302, value: 0x0000 });
    // enable the DSP processing clock for AIF1 and the core clock
    ops.push(SetupOp::Write { register: 0x208, value: 0x000A });
    // enable AIF1 clock, source MCLK1 pin
    ops.push(SetupOp::Write { register: 0x200, value: 0x0001 });
    // enable microphone bias 1 generator, enable VMID
    ops.push(SetupOp::Write { register: 0x1, value: 0x0013 });
    // ADC oversample enable
    ops.push(SetupOp::Write { register: 0x620, value: 0x0002 });
    // AIF ADC2 HPF enable, HPF cut = voice mode 1
    ops.push(SetupOp::Write { register: 0x411, value: 0x3800 });
    // volume (+17.625 dB) of left and right AIF1 ADC1 and ADC2
    ops.push(SetupOp::Write { register: 0x400, value: convertedvol | 0x100 });
    ops.push(SetupOp::Write { register: 0x401, value: convertedvol | 0x100 });
    ops.push(SetupOp::Write { register: 0x404, value: convertedvol | 0x100 });
    ops.push(SetupOp::Write { register: 0x405, value: convertedvol | 0x100 });
    (conn, ops)
}

/// The banks of the SDRAM controller that a command targets.
#[derive(Debug, Clone, Copy, PartialEq, Eq, Structural)]
pub enum Bank {
    /// Bank 1 (CTB1).
    One,
    /// Bank 2 (CTB2).
    Two,
    /// Both banks.
    Both,
}

/// The commands of the SDRAM controller.
#[derive(Debug, Clone, Copy, PartialEq, Eq, Structural)]
pub enum Command {
    /// Normal mode.
    Normal,
    /// Clock configuration enable.
    ClockConfigurationEnable,
    /// Precharge all.
    PrechargeAllCommand,
    /// Auto refresh.
    AutoRefreshCommand,
    /// Load the mode register.
    LoadModeRegister,
    /// Self refresh.
    SelfRefreshCommand,
    /// Power down.
    PowerDownCommand,
}

impl Command {
    /// The value of the MODE field for the command.
    pub fn bits(&self) -> (r: u8)
        ensures
            r == match *self {
                Command::Normal => 0b000u8,
                Command::ClockConfigurationEnable => 0b001u8,
                Command::PrechargeAllCommand => 0b010u8,
                Command::AutoRefreshCommand => 0b011u8,
                Command::LoadModeRegister => 0b100u8,
                Command::SelfRefreshCommand => 0b101u8,
                Command::PowerDownCommand => 0b110u8,
            },
    {
        match *self {
            Command::Normal => 0b000,
            Command::ClockConfigurationEnable => 0b001,
            Command::PrechargeAllCommand => 0b010,
            Command::AutoRefreshCommand => 0b011,
            Command::LoadModeRegister => 0b100,
            Command::SelfRefreshCommand => 0b101,
            Command::PowerDownCommand => 0b110,
        }
    }
}

/// One step of the SDRAM initialization.
#[derive(Debug, Clone, Copy, PartialEq, Eq, Structural)]
pub enum SdramStep {
    /// Issue a command to the banks (once the controller is not busy, then wait until it is
    /// done): the number of auto refreshes and the mode register definition.
    Command {
        /// The target banks.
        bank: Bank,
        /// The command.
        command: Command,
        /// The number of consecutive auto refreshes.
        auto_refresh: u8,
        /// The value for the mode register.
        mode_register: u16,
    },
    /// Wait for the given number of milliseconds.
    WaitMs(usize),
    /// Set the refresh timer count, without the refresh error interrupt.
    RefreshCount(u16),
    /// Write a word to the memory.
    Write {
        /// The address of the word.
        address: u32,
        /// The word.
        value: u32,
    },
    /// Read a word from the memory: it must hold `value`.
    Check {
        /// The address of the word.
        address: u32,
        /// The expected word.
        value: u32,
    },
}

/// The settings of the SDRAM control register (SDCR1): 8 column and 12 row address bits, a
/// 16-bit data bus, 4 internal banks, a CAS latency of 2 cycles, no write protection, no
/// read burst, and the SDRAM clock at 2 HCLK periods.
#[derive(Debug, Clone, Copy, PartialEq, Eq, Structural)]
pub struct SdramControl {
    /// NC: the number of column address bits minus 8.
    pub nc: u8,
    /// NR: the number of row address bits minus 11.
    pub nr: u8,
    /// MWID: the memory data bus width (1 for 16 bits).
    pub mwid: u8,
    /// NB: four internal banks (else two).
    pub nb: bool,
    /// CAS: the CAS latency in cycles.
    pub cas: u8,
    /// WP: write protection.
    pub wp: bool,
    /// RBURST: burst read.
    pub rburst: bool,
    /// SDCLK: the SDRAM clock period in HCLK periods.
    pub sdclk: u8,
}

/// The settings of the SDRAM timing register (SDTR1), each the number of cycles minus one.
#[derive(Debug, Clone, Copy, PartialEq, Eq, Structural)]
pub struct SdramTiming {
    /// TMRD: load mode register to active.
    pub tmrd: u8,
    /// TXSR: exit self refresh delay.
    pub txsr: u8,
    /// TRAS: self refresh time.
    pub tras: u8,
    /// TRC: row cycle delay.
    pub trc: u8,
    /// TWR: recovery delay.
    pub twr: u8,
    /// TRP: row precharge delay.
    pub trp: u8,
    /// TRCD: row to column delay.
    pub trcd: u8,
}

/// The SDRAM control register settings.
pub fn sdram_control() -> (r: SdramControl)
    ensures
        r == (SdramControl {
            nc: 0,
            nr: 1,
            mwid: 0b01,
            nb: true,
            cas: 2,
            wp: false,
            rburst: false,
            sdclk: 2,
        }),
{
    SdramControl {
        nc: 8 - 8,  // number_of_column_address_bits
        nr: 12 - 11,  // number_of_row_address_bits
        mwid: 0b01,  // data_bus_width: 16
        nb: true,  // number_of_internal_banks: 4
        cas: 2,  // cas_latency
        wp: false,  // write_protection
        rburst: false,  // burst_read
        sdclk: 2,  // enable_sdram_clock
    }
}

/// The SDRAM timing register settings.
pub fn sdram_timing() -> (r: SdramTiming)
    ensures
        r == (SdramTiming { tmrd: 1, txsr: 6, tras: 3, trc: 6, twr: 1, trp: 1, trcd: 1 }),
{
    SdramTiming {
        tmrd: 2 - 1,  // load_mode_register_to_active
        txsr: 7 - 1,  // exit_self_refresh_delay
        tras: 4 - 1,  // self_refresh_time
        trc: 7 - 1,  // row_cycle_delay
        twr: 2 - 1,  // recovery_delay
        trp: 2 - 1,  // row_precharge_delay
        trcd: 2 - 1,  // row_to_column_delay
    }
}

/// The mode register value: burst length 1, sequential bursts, CAS latency 2, standard
/// operating mode, single write bursts.
pub const SDRAM_MODE_REGISTER: u16 = 0x0220;

/// The steps of the SDRAM initialization after the controller is set up: the command
/// sequence of the SDRAM power-up on bank 1, the refresh count, then a test that writes three
/// words across the memory and reads them back.
pub open spec fn sdram_init_steps() -> Seq<SdramStep> {
    seq![
        SdramStep::Command {
            bank: Bank::One,
            command: Command::ClockConfigurationEnable,
            auto_refresh: 1,
            mode_register: 0,
        },
        SdramStep::WaitMs(1),
        SdramStep::Command {
            bank: Bank::One,
            command: Command::PrechargeAllCommand,
            auto_refresh: 1,
            mode_register: 0,
        },
        SdramStep::Command {
            bank: Bank::One,
            command: Command::AutoRefreshCommand,
            auto_refresh: 8,
            mode_register: 0,
        },
        SdramStep::Command {
            bank: Bank::One,
            command: Command::LoadModeRegister,
            auto_refresh: 1,
            mode_register: SDRAM_MODE_REGISTER,
        },
        SdramStep::RefreshCount(0x301),
        SdramStep::Write { address: 0xC000_0000, value: 0xcafebabe },
        SdramStep::Write { address: 0xC053_6170, value: 0xdeadbeaf },
        SdramStep::Write { address: 0xC07F_FFFC, value: 0x0deafbee },
        SdramStep::Check { address: 0xC000_0000, value: 0xcafebabe },
        SdramStep::Check { address: 0xC053_6170, value: 0xdeadbeaf },
        SdramStep::Check { address: 0xC07F_FFFC, value: 0x0deafbee },
    ]
}

/// Initializes the SDRAM, which makes more memory accessible: the steps to carry out in order
/// (see [`sdram_init_steps`]) once the controller has [`sdram_control`] and
/// [`sdram_timing`].
///
/// This is a prerequisite for using the LCD.
pub fn init_sdram() -> (r: Vec<SdramStep>)
    ensures
        r@ == sdram_init_steps(),
{
    let banks = Bank::One;
    let mut steps: Vec<SdramStep> = Vec::new();
    // enable clock config
    steps.push(SdramStep::Command {
        bank: banks,
        command: Command::ClockConfigurationEnable,
        auto_refresh: 1,
        mode_register: 0,
    });
    // wait at least 100 microseconds while the sdram powers up
    steps.push(SdramStep::WaitMs(1));
    // precharge all
    steps.push(SdramStep::Command {
        bank: banks,
        command: Command::PrechargeAllCommand,
        auto_refresh: 1,
        mode_register: 0,
    });
    // set auto refresh
    steps.push(SdramStep::Command {
        bank: banks,
        command: Command::AutoRefreshCommand,
        auto_refresh: 8,
        mode_register: 0,
    });
    // load the external mode register
    steps.push(SdramStep::Command {
        bank: banks,
        command: Command::LoadModeRegister,
        auto_refresh: 1,
        mode_register: SDRAM_MODE_REGISTER,
    });
    // set refresh counter
    steps.push(SdramStep::RefreshCount(0x301));
    // test sdram
    steps.push(SdramStep::Write { address: 0xC000_0000, value: 0xcafebabe });
    steps.push(SdramStep::Write { address: 0xC053_6170, value: 0xdeadbeaf });
    steps.push(SdramStep::Write { address: 0xC07F_FFFC, value: 0x0deafbee });
    steps.push(SdramStep::Check { address: 0xC000_0000, value: 0xcafebabe });
    steps.push(SdramStep::Check { address: 0xC053_6170, value: 0xdeadbeaf });
    steps.push(SdramStep::Check { address: 0xC07F_FFFC, value: 0x0deafbee });
    steps
}

} // verus!
