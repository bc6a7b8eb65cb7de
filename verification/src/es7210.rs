//! Register-level logic of the ES7210 four-channel audio ADC: which values
//! go to which registers to configure, enable, disable it and set its gain.
//! The driver is stateless; each operation yields the register writes to
//! make in order, which the caller sends over I2C.

use vstd::prelude::*;

verus! {

// Register addresses
pub const RESET_REG00: u8 = 0x00;
pub const CLOCK_OFF_REG01: u8 = 0x01;
pub const MAINCLK_REG02: u8 = 0x02;
pub const MASTER_CLK_REG03: u8 = 0x03;
pub const LRCK_DIVH_REG04: u8 = 0x04;
pub const LRCK_DIVL_REG05: u8 = 0x05;
pub const POWER_DOWN_REG06: u8 = 0x06;
pub const OSR_REG07: u8 = 0x07;
pub const MODE_CONFIG_REG08: u8 = 0x08;
pub const TIME_CONTROL0_REG09: u8 = 0x09;
pub const TIME_CONTROL1_REG0A: u8 = 0x0A;
pub const SDP_INTERFACE1_REG11: u8 = 0x11;
pub const SDP_INTERFACE2_REG12: u8 = 0x12;
pub const ADC_AUTOMUTE_REG13: u8 = 0x13;
pub const ADC34_MUTERANGE_REG14: u8 = 0x14;
pub const ALC_SEL_REG16: u8 = 0x16;
pub const ADC1_DIRECT_DB_REG1B: u8 = 0x1B;
pub const ADC2_DIRECT_DB_REG1C: u8 = 0x1C;
pub const ADC3_DIRECT_DB_REG1D: u8 = 0x1D;
pub const ADC4_DIRECT_DB_REG1E: u8 = 0x1E;
pub const ADC34_HPF2_REG20: u8 = 0x20;
pub const ADC34_HPF1_REG21: u8 = 0x21;
pub const ADC12_HPF2_REG22: u8 = 0x22;
pub const ADC12_HPF1_REG23: u8 = 0x23;
pub const ANALOG_REG40: u8 = 0x40;
pub const MIC12_BIAS_REG41: u8 = 0x41;
pub const MIC34_BIAS_REG42: u8 = 0x42;
pub const MIC1_GAIN_REG43: u8 = 0x43;
pub const MIC2_GAIN_REG44: u8 = 0x44;
pub const MIC3_GAIN_REG45: u8 = 0x45;
pub const MIC4_GAIN_REG46: u8 = 0x46;
pub const MIC1_POWER_REG47: u8 = 0x47;
pub const MIC2_POWER_REG48: u8 = 0x48;
pub const MIC3_POWER_REG49: u8 = 0x49;
pub const MIC4_POWER_REG4A: u8 = 0x4A;
pub const MIC12_POWER_REG4B: u8 = 0x4B;
pub const MIC34_POWER_REG4C: u8 = 0x4C;

#[derive(Debug, Clone, Copy, PartialEq, Eq, Structural)]
pub enum I2sFormat {
    I2S,
    LeftJustified,
    DspA,
    DspB,
}

impl I2sFormat {
    pub open spec fn spec_value(self) -> u8 {
        match self {
            I2sFormat::I2S => 0x00,
            I2sFormat::LeftJustified => 0x01,
            I2sFormat::DspA => 0x03,
            I2sFormat::DspB => 0x13,
        }
    }

    /// The format's code in the serial data port register.
    #[verifier::when_used_as_spec(spec_value)]
    pub fn value(self) -> (r: u8)
        ensures
            r == self.spec_value(),
    {
        match self {
            I2sFormat::I2S => 0x00,
            I2sFormat::LeftJustified => 0x01,
            I2sFormat::DspA => 0x03,
            I2sFormat::DspB => 0x13,
        }
    }
}

#[derive(Debug, Clone, Copy, PartialEq, Eq, Structural)]
pub enum I2sBits {
    Bits16,
    Bits18,
    Bits20,
    Bits24,
    Bits32,
}

impl I2sBits {
    /// Bits per sample.
    pub fn value(self) -> (r: u8)
        ensures
            r == match self {
                I2sBits::Bits16 => 16u8,
                I2sBits::Bits18 => 18u8,
                I2sBits::Bits20 => 20u8,
                I2sBits::Bits24 => 24u8,
                I2sBits::Bits32 => 32u8,
            },
    {
        match self {
            I2sBits::Bits16 => 16,
            I2sBits::Bits18 => 18,
            I2sBits::Bits20 => 20,
            I2sBits::Bits24 => 24,
            I2sBits::Bits32 => 32,
        }
    }
}

#[derive(Debug, Clone, Copy, PartialEq, Eq, Structural)]
pub enum MicGain {
    Gain0dB,
    Gain3dB,
    Gain6dB,
    Gain9dB,
    Gain12dB,
    Gain15dB,
    Gain18dB,
    Gain21dB,
    Gain24dB,
    Gain27dB,
    Gain30dB,
    Gain33dB,
    Gain34_5dB,
    Gain36dB,
    Gain37_5dB,
}

impl MicGain {
    pub open spec fn spec_value(self) -> u8 {
        match self {
            MicGain::Gain0dB => 0,
            MicGain::Gain3dB => 1,
            MicGain::Gain6dB => 2,
            MicGain::Gain9dB => 3,
            MicGain::Gain12dB => 4,
            MicGain::Gain15dB => 5,
            MicGain::Gain18dB => 6,
            MicGain::Gain21dB => 7,
            MicGain::Gain24dB => 8,
            MicGain::Gain27dB => 9,
            MicGain::Gain30dB => 10,
            MicGain::Gain33dB => 11,
            MicGain::Gain34_5dB => 12,
            MicGain::Gain36dB => 13,
            MicGain::Gain37_5dB => 14,
        }
    }

    /// The gain step's code (0-14).
    #[verifier::when_used_as_spec(spec_value)]
    pub fn value(self) -> (r: u8)
        ensures
            r == self.spec_value(),
    {
        match self {
            MicGain::Gain0dB => 0,
            MicGain::Gain3dB => 1,
            MicGain::Gain6dB => 2,
            MicGain::Gain9dB => 3,
            MicGain::Gain12dB => 4,
            MicGain::Gain15dB => 5,
            MicGain::Gain18dB => 6,
            MicGain::Gain21dB => 7,
            MicGain::Gain24dB => 8,
            MicGain::Gain27dB => 9,
            MicGain::Gain30dB => 10,
            MicGain::Gain33dB => 11,
            MicGain::Gain34_5dB => 12,
            MicGain::Gain36dB => 13,
            MicGain::Gain37_5dB => 14,
        }
    }
}

#[derive(Debug, Clone, Copy, PartialEq, Eq, Structural)]
pub enum MicBias {
    V2_18,
    V2_26,
    V2_36,
    V2_45,
    V2_55,
    V2_66,
    V2_78,
    V2_87,
}

impl MicBias {
    pub open spec fn spec_value(self) -> u8 {
        match self {
            MicBias::V2_18 => 0x00,
            MicBias::V2_26 => 0x10,
            MicBias::V2_36 => 0x20,
            MicBias::V2_45 => 0x30,
            MicBias::V2_55 => 0x40,
            MicBias::V2_66 => 0x50,
            MicBias::V2_78 => 0x60,
            MicBias::V2_87 => 0x70,
        }
    }

    /// The bias voltage's register code.
    #[verifier::when_used_as_spec(spec_value)]
    pub fn value(self) -> (r: u8)
        ensures
            r == self.spec_value(),
    {
        match self {
            MicBias::V2_18 => 0x00,
            MicBias::V2_26 => 0x10,
            MicBias::V2_36 => 0x20,
            MicBias::V2_45 => 0x30,
            MicBias::V2_55 => 0x40,
            MicBias::V2_66 => 0x50,
            MicBias::V2_78 => 0x60,
            MicBias::V2_87 => 0x70,
        }
    }
}

#[derive(Debug, Clone, Copy)]
pub struct CodecConfig {
    pub sample_rate_hz: u32,
    pub mclk_ratio: u32,
    pub i2s_format: I2sFormat,
    pub bit_width: I2sBits,
    pub mic_bias: MicBias,
    pub mic_gain: MicGain,
    pub tdm_enable: bool,
}

#[derive(Debug)]
pub enum Error<E> {
    I2c(E),
    InvalidConfig,
    NotSupported,
}

/// One register write: register address, then value.
pub type RegWrite = (u8, u8);

/// Clock coefficients for one master-clock / sample-rate pair.
#[derive(Clone, Copy)]
pub struct CoeffDiv {
    pub mclk: u32,
    pub lrck: u32,
    pub ss_ds: u8,
    pub adc_div: u8,
    pub dll: u8,
    pub doubler: u8,
    pub osr: u8,
    pub mclk_src: u8,
    pub lrck_h: u32,
    pub lrck_l: u32,
}

/// The clock coefficient table, in lookup order.
pub open spec fn spec_coeff_table() -> Seq<CoeffDiv> {
    seq![
        CoeffDiv { mclk: 12288000, lrck: 8000, ss_ds: 0x00, adc_div: 0x03, dll: 0x01, doubler: 0x00, osr: 0x20, mclk_src: 0x00, lrck_h: 0x06, lrck_l: 0x00 },
        CoeffDiv { mclk: 16384000, lrck: 8000, ss_ds: 0x00, adc_div: 0x04, dll: 0x01, doubler: 0x00, osr: 0x20, mclk_src: 0x00, lrck_h: 0x08, lrck_l: 0x00 },
        CoeffDiv { mclk: 19200000, lrck: 8000, ss_ds: 0x00, adc_div: 0x1e, dll: 0x00, doubler: 0x01, osr: 0x28, mclk_src: 0x00, lrck_h: 0x09, lrck_l: 0x60 },
        CoeffDiv { mclk: 4096000, lrck: 8000, ss_ds: 0x00, adc_div: 0x01, dll: 0x01, doubler: 0x00, osr: 0x20, mclk_src: 0x00, lrck_h: 0x02, lrck_l: 0x00 },
        CoeffDiv { mclk: 11289600, lrck: 11025, ss_ds: 0x00, adc_div: 0x02, dll: 0x01, doubler: 0x00, osr: 0x20, mclk_src: 0x00, lrck_h: 0x01, lrck_l: 0x00 },
        CoeffDiv { mclk: 12288000, lrck: 12000, ss_ds: 0x00, adc_div: 0x02, dll: 0x01, doubler: 0x00, osr: 0x20, mclk_src: 0x00, lrck_h: 0x04, lrck_l: 0x00 },
        CoeffDiv { mclk: 19200000, lrck: 12000, ss_ds: 0x00, adc_div: 0x14, dll: 0x00, doubler: 0x01, osr: 0x28, mclk_src: 0x00, lrck_h: 0x06, lrck_l: 0x40 },
        CoeffDiv { mclk: 4096000, lrck: 16000, ss_ds: 0x00, adc_div: 0x01, dll: 0x01, doubler: 0x01, osr: 0x20, mclk_src: 0x00, lrck_h: 0x01, lrck_l: 0x00 },
        CoeffDiv { mclk: 19200000, lrck: 16000, ss_ds: 0x00, adc_div: 0x0a, dll: 0x00, doubler: 0x00, osr: 0x1e, mclk_src: 0x00, lrck_h: 0x04, lrck_l: 0x80 },
        CoeffDiv { mclk: 16384000, lrck: 16000, ss_ds: 0x00, adc_div: 0x02, dll: 0x01, doubler: 0x00, osr: 0x20, mclk_src: 0x00, lrck_h: 0x04, lrck_l: 0x00 },
        CoeffDiv { mclk: 12288000, lrck: 16000, ss_ds: 0x00, adc_div: 0x03, dll: 0x01, doubler: 0x01, osr: 0x20, mclk_src: 0x00, lrck_h: 0x03, lrck_l: 0x00 },
        CoeffDiv { mclk: 11289600, lrck: 22050, ss_ds: 0x00, adc_div: 0x01, dll: 0x01, doubler: 0x00, osr: 0x20, mclk_src: 0x00, lrck_h: 0x02, lrck_l: 0x00 },
        CoeffDiv { mclk: 12288000, lrck: 24000, ss_ds: 0x00, adc_div: 0x01, dll: 0x01, doubler: 0x00, osr: 0x20, mclk_src: 0x00, lrck_h: 0x02, lrck_l: 0x00 },
        CoeffDiv { mclk: 19200000, lrck: 24000, ss_ds: 0x00, adc_div: 0x0a, dll: 0x00, doubler: 0x01, osr: 0x28, mclk_src: 0x00, lrck_h: 0x03, lrck_l: 0x20 },
        CoeffDiv { mclk: 12288000, lrck: 32000, ss_ds: 0x00, adc_div: 0x03, dll: 0x00, doubler: 0x00, osr: 0x20, mclk_src: 0x00, lrck_h: 0x01, lrck_l: 0x80 },
        CoeffDiv { mclk: 16384000, lrck: 32000, ss_ds: 0x00, adc_div: 0x01, dll: 0x01, doubler: 0x00, osr: 0x20, mclk_src: 0x00, lrck_h: 0x02, lrck_l: 0x00 },
        CoeffDiv { mclk: 19200000, lrck: 32000, ss_ds: 0x00, adc_div: 0x05, dll: 0x00, doubler: 0x00, osr: 0x1e, mclk_src: 0x00, lrck_h: 0x02, lrck_l: 0x58 },
        CoeffDiv { mclk: 11289600, lrck: 44100, ss_ds: 0x00, adc_div: 0x01, dll: 0x01, doubler: 0x01, osr: 0x20, mclk_src: 0x00, lrck_h: 0x01, lrck_l: 0x00 },
        CoeffDiv { mclk: 12288000, lrck: 48000, ss_ds: 0x00, adc_div: 0x01, dll: 0x01, doubler: 0x01, osr: 0x20, mclk_src: 0x00, lrck_h: 0x01, lrck_l: 0x00 },
        CoeffDiv { mclk: 19200000, lrck: 48000, ss_ds: 0x00, adc_div: 0x05, dll: 0x00, doubler: 0x01, osr: 0x28, mclk_src: 0x00, lrck_h: 0x01, lrck_l: 0x90 },
        CoeffDiv { mclk: 16384000, lrck: 64000, ss_ds: 0x01, adc_div: 0x01, dll: 0x01, doubler: 0x00, osr: 0x20, mclk_src: 0x00, lrck_h: 0x01, lrck_l: 0x00 },
        CoeffDiv { mclk: 19200000, lrck: 64000, ss_ds: 0x00, adc_div: 0x05, dll: 0x00, doubler: 0x01, osr: 0x1e, mclk_src: 0x00, lrck_h: 0x01, lrck_l: 0x2c },
        CoeffDiv { mclk: 11289600, lrck: 88200, ss_ds: 0x01, adc_div: 0x01, dll: 0x01, doubler: 0x01, osr: 0x20, mclk_src: 0x00, lrck_h: 0x00, lrck_l: 0x80 },
        CoeffDiv { mclk: 12288000, lrck: 96000, ss_ds: 0x01, adc_div: 0x01, dll: 0x01, doubler: 0x01, osr: 0x20, mclk_src: 0x00, lrck_h: 0x00, lrck_l: 0x80 },
        CoeffDiv { mclk: 19200000, lrck: 96000, ss_ds: 0x01, adc_div: 0x05, dll: 0x00, doubler: 0x01, osr: 0x28, mclk_src: 0x00, lrck_h: 0x00, lrck_l: 0xc8 },
    ]
}

/// Clock coefficient table
pub fn coeff_table() -> (r: Vec<CoeffDiv>)
    ensures
        r@ == spec_coeff_table(),
{
    let r = vec![
        CoeffDiv { mclk: 12288000, lrck: 8000, ss_ds: 0x00, adc_div: 0x03, dll: 0x01, doubler: 0x00, osr: 0x20, mclk_src: 0x00, lrck_h: 0x06, lrck_l: 0x00 },
        CoeffDiv { mclk: 16384000, lrck: 8000, ss_ds: 0x00, adc_div: 0x04, dll: 0x01, doubler: 0x00, osr: 0x20, mclk_src: 0x00, lrck_h: 0x08, lrck_l: 0x00 },
        CoeffDiv { mclk: 19200000, lrck: 8000, ss_ds: 0x00, adc_div: 0x1e, dll: 0x00, doubler: 0x01, osr: 0x28, mclk_src: 0x00, lrck_h: 0x09, lrck_l: 0x60 },
        CoeffDiv { mclk: 4096000, lrck: 8000, ss_ds: 0x00, adc_div: 0x01, dll: 0x01, doubler: 0x00, osr: 0x20, mclk_src: 0x00, lrck_h: 0x02, lrck_l: 0x00 },
        CoeffDiv { mclk: 11289600, lrck: 11025, ss_ds: 0x00, adc_div: 0x02, dll: 0x01, doubler: 0x00, osr: 0x20, mclk_src: 0x00, lrck_h: 0x01, lrck_l: 0x00 },
        CoeffDiv { mclk: 12288000, lrck: 12000, ss_ds: 0x00, adc_div: 0x02, dll: 0x01, doubler: 0x00, osr: 0x20, mclk_src: 0x00, lrck_h: 0x04, lrck_l: 0x00 },
        CoeffDiv { mclk: 19200000, lrck: 12000, ss_ds: 0x00, adc_div: 0x14, dll: 0x00, doubler: 0x01, osr: 0x28, mclk_src: 0x00, lrck_h: 0x06, lrck_l: 0x40 },
        CoeffDiv { mclk: 4096000, lrck: 16000, ss_ds: 0x00, adc_div: 0x01, dll: 0x01, doubler: 0x01, osr: 0x20, mclk_src: 0x00, lrck_h: 0x01, lrck_l: 0x00 },
        CoeffDiv { mclk: 19200000, lrck: 16000, ss_ds: 0x00, adc_div: 0x0a, dll: 0x00, doubler: 0x00, osr: 0x1e, mclk_src: 0x00, lrck_h: 0x04, lrck_l: 0x80 },
        CoeffDiv { mclk: 16384000, lrck: 16000, ss_ds: 0x00, adc_div: 0x02, dll: 0x01, doubler: 0x00, osr: 0x20, mclk_src: 0x00, lrck_h: 0x04, lrck_l: 0x00 },
        CoeffDiv { mclk: 12288000, lrck: 16000, ss_ds: 0x00, adc_div: 0x03, dll: 0x01, doubler: 0x01, osr: 0x20, mclk_src: 0x00, lrck_h: 0x03, lrck_l: 0x00 },
        CoeffDiv { mclk: 11289600, lrck: 22050, ss_ds: 0x00, adc_div: 0x01, dll: 0x01, doubler: 0x00, osr: 0x20, mclk_src: 0x00, lrck_h: 0x02, lrck_l: 0x00 },
        CoeffDiv { mclk: 12288000, lrck: 24000, ss_ds: 0x00, adc_div: 0x01, dll: 0x01, doubler: 0x00, osr: 0x20, mclk_src: 0x00, lrck_h: 0x02, lrck_l: 0x00 },
        CoeffDiv { mclk: 19200000, lrck: 24000, ss_ds: 0x00, adc_div: 0x0a, dll: 0x00, doubler: 0x01, osr: 0x28, mclk_src: 0x00, lrck_h: 0x03, lrck_l: 0x20 },
        CoeffDiv { mclk: 12288000, lrck: 32000, ss_ds: 0x00, adc_div: 0x03, dll: 0x00, doubler: 0x00, osr: 0x20, mclk_src: 0x00, lrck_h: 0x01, lrck_l: 0x80 },
        CoeffDiv { mclk: 16384000, lrck: 32000, ss_ds: 0x00, adc_div: 0x01, dll: 0x01, doubler: 0x00, osr: 0x20, mclk_src: 0x00, lrck_h: 0x02, lrck_l: 0x00 },
        CoeffDiv { mclk: 19200000, lrck: 32000, ss_ds: 0x00, adc_div: 0x05, dll: 0x00, doubler: 0x00, osr: 0x1e, mclk_src: 0x00, lrck_h: 0x02, lrck_l: 0x58 },
        CoeffDiv { mclk: 11289600, lrck: 44100, ss_ds: 0x00, adc_div: 0x01, dll: 0x01, doubler: 0x01, osr: 0x20, mclk_src: 0x00, lrck_h: 0x01, lrck_l: 0x00 },
        CoeffDiv { mclk: 12288000, lrck: 48000, ss_ds: 0x00, adc_div: 0x01, dll: 0x01, doubler: 0x01, osr: 0x20, mclk_src: 0x00, lrck_h: 0x01, lrck_l: 0x00 },
        CoeffDiv { mclk: 19200000, lrck: 48000, ss_ds: 0x00, adc_div: 0x05, dll: 0x00, doubler: 0x01, osr: 0x28, mclk_src: 0x00, lrck_h: 0x01, lrck_l: 0x90 },
        CoeffDiv { mclk: 16384000, lrck: 64000, ss_ds: 0x01, adc_div: 0x01, dll: 0x01, doubler: 0x00, osr: 0x20, mclk_src: 0x00, lrck_h: 0x01, lrck_l: 0x00 },
        CoeffDiv { mclk: 19200000, lrck: 64000, ss_ds: 0x00, adc_div: 0x05, dll: 0x00, doubler: 0x01, osr: 0x1e, mclk_src: 0x00, lrck_h: 0x01, lrck_l: 0x2c },
        CoeffDiv { mclk: 11289600, lrck: 88200, ss_ds: 0x01, adc_div: 0x01, dll: 0x01, doubler: 0x01, osr: 0x20, mclk_src: 0x00, lrck_h: 0x00, lrck_l: 0x80 },
        CoeffDiv { mclk: 12288000, lrck: 96000, ss_ds: 0x01, adc_div: 0x01, dll: 0x01, doubler: 0x01, osr: 0x20, mclk_src: 0x00, lrck_h: 0x00, lrck_l: 0x80 },
        CoeffDiv { mclk: 19200000, lrck: 96000, ss_ds: 0x01, adc_div: 0x05, dll: 0x00, doubler: 0x01, osr: 0x28, mclk_src: 0x00, lrck_h: 0x00, lrck_l: 0xc8 },
    ];
    assert(r@ =~= spec_coeff_table());
    r
}

/// The first entry of `table` for master clock `mclk` and sample rate
/// `lrck`.
pub open spec fn first_coeff(table: Seq<CoeffDiv>, mclk: u32, lrck: u32) -> Option<CoeffDiv>
    decreases table.len(),
{
    if table.len() == 0 {
        None
    } else if table[0].mclk == mclk && table[0].lrck == lrck {
        Some(table[0])
    } else {
        first_coeff(table.drop_first(), mclk, lrck)
    }
}

/// Looks up the clock coefficients of a master clock / sample rate pair.
pub fn find_coeff(mclk: u32, lrck: u32) -> (r: Option<CoeffDiv>)
    ensures
        r == first_coeff(spec_coeff_table(), mclk, lrck),
{
    let table = coeff_table();
    let mut i: usize = 0;
    assert(table@.skip(0) =~= table@);
    while i < table.len()
        invariant
            i <= table@.len(),
            table@ == spec_coeff_table(),
            first_coeff(table@.skip(i as int), mclk, lrck) == first_coeff(
                spec_coeff_table(),
                mclk,
                lrck,
            ),
        decreases table@.len() - i,
    {
        assert(table@.skip(i as int).drop_first() =~= table@.skip(i + 1));
        if table[i].mclk == mclk && table[i].lrck == lrck {
            return Some(table[i]);
        }
        i = i + 1;
    }
    None
}

/// Serial data port register 0x11: format code combined with the
/// bit-width code.
pub open spec fn sdp1_value(fmt: I2sFormat, bits: I2sBits) -> u8 {
    fmt.spec_value() | match bits {
        I2sBits::Bits16 => 0x60u8,
        I2sBits::Bits18 => 0x40u8,
        I2sBits::Bits20 => 0x20u8,
        I2sBits::Bits24 => 0x00u8,
        I2sBits::Bits32 => 0x80u8,
    }
}

/// Serial data port register 0x12: TDM mode, 0x02 for I2S and
/// left-justified, 0x01 for DSP formats; 0 without TDM.
pub open spec fn sdp2_value(fmt: I2sFormat, tdm: bool) -> u8 {
    if tdm {
        match fmt {
            I2sFormat::I2S | I2sFormat::LeftJustified => 0x02u8,
            I2sFormat::DspA | I2sFormat::DspB => 0x01u8,
        }
    } else {
        0x00u8
    }
}

pub open spec fn i2s_format_writes(fmt: I2sFormat, bits: I2sBits, tdm: bool) -> Seq<RegWrite> {
    seq![(SDP_INTERFACE1_REG11, sdp1_value(fmt, bits)), (SDP_INTERFACE2_REG12, sdp2_value(fmt, tdm))]
}

pub open spec fn mic_bias_writes(bias: MicBias) -> Seq<RegWrite> {
    seq![(MIC12_BIAS_REG41, bias.spec_value()), (MIC34_BIAS_REG42, bias.spec_value())]
}

pub open spec fn mic_gain_writes(gain: MicGain) -> Seq<RegWrite> {
    let val = (gain.spec_value() | 0x10u8) as u8;
    seq![
        (MIC1_GAIN_REG43, val),
        (MIC2_GAIN_REG44, val),
        (MIC3_GAIN_REG45, val),
        (MIC4_GAIN_REG46, val),
    ]
}

pub open spec fn sample_rate_writes(c: CoeffDiv) -> Seq<RegWrite> {
    seq![
        (OSR_REG07, c.osr),
        (MAINCLK_REG02, (c.adc_div | (c.doubler << 6u8) | (c.dll << 7u8)) as u8),
        (LRCK_DIVH_REG04, c.lrck_h as u8),
        (LRCK_DIVL_REG05, c.lrck_l as u8),
    ]
}

/// Writes of a full configuration up to the clock setup: reset, power-up
/// timing, high-pass filters, serial format, analog power, bias, gain and
/// microphone power.
pub open spec fn config_prefix(cfg: CodecConfig) -> Seq<RegWrite> {
    seq![
        (RESET_REG00, 0xFFu8),
        (RESET_REG00, 0x32u8),
        (TIME_CONTROL0_REG09, 0x30u8),
        (TIME_CONTROL1_REG0A, 0x30u8),
        (ADC12_HPF1_REG23, 0x2Au8),
        (ADC12_HPF2_REG22, 0x0Au8),
        (ADC34_HPF1_REG21, 0x2Au8),
        (ADC34_HPF2_REG20, 0x0Au8),
    ] + i2s_format_writes(cfg.i2s_format, cfg.bit_width, cfg.tdm_enable) + seq![
        (ANALOG_REG40, 0xC3u8),
    ] + mic_bias_writes(cfg.mic_bias) + mic_gain_writes(cfg.mic_gain) + seq![
        (MIC1_POWER_REG47, 0x08u8),
        (MIC2_POWER_REG48, 0x08u8),
        (MIC3_POWER_REG49, 0x08u8),
        (MIC4_POWER_REG4A, 0x08u8),
    ]
}

/// Writes that power the converters up and start the device.
pub open spec fn config_suffix() -> Seq<RegWrite> {
    seq![
        (POWER_DOWN_REG06, 0x04u8),
        (MIC12_POWER_REG4B, 0x0Fu8),
        (MIC34_POWER_REG4C, 0x0Fu8),
        (RESET_REG00, 0x71u8),
        (RESET_REG00, 0x41u8),
    ]
}

pub open spec fn enable_writes() -> Seq<RegWrite> {
    seq![(RESET_REG00, 0x71u8), (RESET_REG00, 0x41u8)]
}

/// The value of the direct digital volume registers for `volume_db` dB:
/// 191 + 2 * dB, i.e. half-dB steps with 0 dB at 191.
pub open spec fn direct_db_value(volume_db: i8) -> u8 {
    (191 + volume_db * 2) as u8
}

/// The register writes of a full configuration and whether it succeeds:
/// the prefix, then (when the clocks have a coefficient entry) the clock
/// setup and the suffix.
pub open spec fn config_outcome(cfg: CodecConfig) -> (Seq<RegWrite>, bool) {
    match first_coeff(spec_coeff_table(), (cfg.sample_rate_hz * cfg.mclk_ratio) as u32, cfg.sample_rate_hz) {
        Some(c) => (config_prefix(cfg) + sample_rate_writes(c) + config_suffix(), true),
        None => (config_prefix(cfg), false),
    }
}

/// The codec keeps no state between calls: every call's writes are a
/// function of its arguments alone. A configuration starts with the
/// software reset (`0xFF`, then `0x32`, to register 0), so what it leaves
/// in the codec does not depend on earlier calls, and a successful one ends
/// with the enable writes; a later `disable` writes the reset register
/// alone.
pub proof fn lemma_codec_configuration_starts_from_reset(cfg: CodecConfig)
    ensures
        config_outcome(cfg).0.len() >= 2,
        config_outcome(cfg).0[0] == (RESET_REG00, 0xFFu8),
        config_outcome(cfg).0[1] == (RESET_REG00, 0x32u8),
        config_outcome(cfg).1 ==> config_outcome(cfg).0.subrange(
            config_outcome(cfg).0.len() - 2,
            config_outcome(cfg).0.len() as int,
        ) == enable_writes(),
{
    let w = config_outcome(cfg).0;
    if config_outcome(cfg).1 {
        assert(w.subrange(w.len() - 2, w.len() as int) =~= enable_writes());
    }
}

/// Stateless driver
pub struct Es7210 {
    addr: u8,
}

fn push_write(writes: &mut Vec<RegWrite>, reg: u8, val: u8)
    ensures
        final(writes)@ == old(writes)@.push((reg, val)),
{
    writes.push((reg, val));
}

impl Es7210 {
    /// The bus address of the codec.
    pub closed spec fn spec_addr(&self) -> u8 {
        self.addr
    }

    pub fn new(addr: u8) -> (r: Self)
        ensures
            r.spec_addr() == addr,
    {
        Self { addr }
    }

    pub fn addr(&self) -> (r: u8)
        ensures
            r == self.spec_addr(),
    {
        self.addr
    }

    /// The register writes of a full configuration, in order, and whether
    /// it succeeds. The sample rate and master-clock ratio must have an
    /// entry in the coefficient table; when they have none the writes stop
    /// before the clock setup and the result is `NotSupported`.
    pub fn config_codec<E>(&self, cfg: &CodecConfig) -> (r: (Vec<RegWrite>, Result<(), Error<E>>))
        requires
            cfg.sample_rate_hz * cfg.mclk_ratio <= u32::MAX,
        ensures
            match first_coeff(
                spec_coeff_table(),
                (cfg.sample_rate_hz * cfg.mclk_ratio) as u32,
                cfg.sample_rate_hz,
            ) {
                Some(c) => r.0@ == config_prefix(*cfg) + sample_rate_writes(c) + config_suffix()
                    && r.1 is Ok,
                None => r.0@ == config_prefix(*cfg) && (r.1 matches Err(e) && e is NotSupported),
            },
            (r.0@, r.1 is Ok) == config_outcome(*cfg),
    {
        let mut w: Vec<RegWrite> = Vec::new();
        // Software reset
        push_write(&mut w, RESET_REG00, 0xFF);
        push_write(&mut w, RESET_REG00, 0x32);
        // Set power-up timing
        push_write(&mut w, TIME_CONTROL0_REG09, 0x30);
        push_write(&mut w, TIME_CONTROL1_REG0A, 0x30);
        // HPF configuration
        push_write(&mut w, ADC12_HPF1_REG23, 0x2A);
        push_write(&mut w, ADC12_HPF2_REG22, 0x0A);
        push_write(&mut w, ADC34_HPF1_REG21, 0x2A);
        push_write(&mut w, ADC34_HPF2_REG20, 0x0A);
        // I2S format and bit width
        self.set_i2s_format(&mut w, cfg.i2s_format, cfg.bit_width, cfg.tdm_enable);
        // Analog power and VMID
        push_write(&mut w, ANALOG_REG40, 0xC3);
        // MIC bias
        self.set_mic_bias(&mut w, cfg.mic_bias);
        // MIC gain
        self.set_mic_gain(&mut w, cfg.mic_gain);
        // Power up MICs
        push_write(&mut w, MIC1_POWER_REG47, 0x08);
        push_write(&mut w, MIC2_POWER_REG48, 0x08);
        push_write(&mut w, MIC3_POWER_REG49, 0x08);
        push_write(&mut w, MIC4_POWER_REG4A, 0x08);
        assert(w@ =~= config_prefix(*cfg));
        // Sample rate and clock
        let ghost prefix = w@;
        let rate = self.set_sample_rate::<E>(&mut w, cfg.sample_rate_hz, cfg.mclk_ratio);
        if let Err(e) = rate {
            return (w, Err(e));
        }
        // Power down DLL
        push_write(&mut w, POWER_DOWN_REG06, 0x04);
        // Power up ADCs and PGAs
        push_write(&mut w, MIC12_POWER_REG4B, 0x0F);
        push_write(&mut w, MIC34_POWER_REG4C, 0x0F);
        // Enable device
        push_write(&mut w, RESET_REG00, 0x71);
        push_write(&mut w, RESET_REG00, 0x41);
        proof {
            let c = first_coeff(
                spec_coeff_table(),
                (cfg.sample_rate_hz * cfg.mclk_ratio) as u32,
                cfg.sample_rate_hz,
            )->Some_0;
            assert(w@ =~= config_prefix(*cfg) + sample_rate_writes(c) + config_suffix());
        }
        (w, Ok(()))
    }

    /// Enable the codec (power up, start ADCs): its register writes.
    pub fn enable(&self) -> (r: Vec<RegWrite>)
        ensures
            r@ == enable_writes(),
    {
        let mut w: Vec<RegWrite> = Vec::new();
        push_write(&mut w, RESET_REG00, 0x71);
        push_write(&mut w, RESET_REG00, 0x41);
        assert(w@ =~= enable_writes());
        w
    }

    /// Disable the codec (power down, stop ADCs): its register writes.
    pub fn disable(&self) -> (r: Vec<RegWrite>)
        ensures
            r@ == seq![(RESET_REG00, 0x00u8)],
    {
        let mut w: Vec<RegWrite> = Vec::new();
        // Put the codec into reset / power-down state
        push_write(&mut w, RESET_REG00, 0x00);
        assert(w@ =~= seq![(RESET_REG00, 0x00u8)]);
        w
    }

    /// Sets the digital volume of all four ADCs: the register writes, or
    /// `InvalidConfig` outside -95..=32 dB.
    pub fn gain_set<E>(&self, volume_db: i8) -> (r: Result<Vec<RegWrite>, Error<E>>)
        ensures
            -95 <= volume_db <= 32 ==> (r matches Ok(w) && w@ == seq![
                (ADC1_DIRECT_DB_REG1B, direct_db_value(volume_db)),
                (ADC2_DIRECT_DB_REG1C, direct_db_value(volume_db)),
                (ADC3_DIRECT_DB_REG1D, direct_db_value(volume_db)),
                (ADC4_DIRECT_DB_REG1E, direct_db_value(volume_db)),
            ]),
            !(-95 <= volume_db <= 32) ==> (r matches Err(e) && e is InvalidConfig),
    {
        if !(-95 <= volume_db && volume_db <= 32) {
            return Err(Error::InvalidConfig);
        }
        let reg_val = (191 + (volume_db as i32) * 2) as u8;
        let mut w: Vec<RegWrite> = Vec::new();
        push_write(&mut w, ADC1_DIRECT_DB_REG1B, reg_val);
        push_write(&mut w, ADC2_DIRECT_DB_REG1C, reg_val);
        push_write(&mut w, ADC3_DIRECT_DB_REG1D, reg_val);
        push_write(&mut w, ADC4_DIRECT_DB_REG1E, reg_val);
        assert(w@ =~= seq![
            (ADC1_DIRECT_DB_REG1B, direct_db_value(volume_db)),
            (ADC2_DIRECT_DB_REG1C, direct_db_value(volume_db)),
            (ADC3_DIRECT_DB_REG1D, direct_db_value(volume_db)),
            (ADC4_DIRECT_DB_REG1E, direct_db_value(volume_db)),
        ]);
        Ok(w)
    }

    fn set_i2s_format(&self, w: &mut Vec<RegWrite>, fmt: I2sFormat, bits: I2sBits, tdm: bool)
        ensures
            final(w)@ == old(w)@ + i2s_format_writes(fmt, bits, tdm),
    {
        let bits_val: u8 = match bits {
            I2sBits::Bits16 => 0x60,
            I2sBits::Bits18 => 0x40,
            I2sBits::Bits20 => 0x20,
            I2sBits::Bits24 => 0x00,
            I2sBits::Bits32 => 0x80,
        };
        push_write(w, SDP_INTERFACE1_REG11, fmt.value() | bits_val);
        let reg12: u8 = if tdm {
            match fmt {
                I2sFormat::I2S | I2sFormat::LeftJustified => 0x02,
                I2sFormat::DspA | I2sFormat::DspB => 0x01,
            }
        } else {
            0x00
        };
        push_write(w, SDP_INTERFACE2_REG12, reg12);
        assert(w@ =~= old(w)@ + i2s_format_writes(fmt, bits, tdm));
    }

    fn set_mic_gain(&self, w: &mut Vec<RegWrite>, gain: MicGain)
        ensures
            final(w)@ == old(w)@ + mic_gain_writes(gain),
    {
        let val = gain.value() | 0x10;
        push_write(w, MIC1_GAIN_REG43, val);
        push_write(w, MIC2_GAIN_REG44, val);
        push_write(w, MIC3_GAIN_REG45, val);
        push_write(w, MIC4_GAIN_REG46, val);
        assert(w@ =~= old(w)@ + mic_gain_writes(gain));
    }

    fn set_mic_bias(&self, w: &mut Vec<RegWrite>, bias: MicBias)
        ensures
            final(w)@ == old(w)@ + mic_bias_writes(bias),
    {
        push_write(w, MIC12_BIAS_REG41, bias.value());
        push_write(w, MIC34_BIAS_REG42, bias.value());
        assert(w@ =~= old(w)@ + mic_bias_writes(bias));
    }

    fn set_sample_rate<E>(&self, w: &mut Vec<RegWrite>, sample_rate: u32, mclk_ratio: u32) -> (r:
        Result<(), Error<E>>)
        requires
            sample_rate * mclk_ratio <= u32::MAX,
        ensures
            match first_coeff(spec_coeff_table(), (sample_rate * mclk_ratio) as u32, sample_rate) {
                Some(c) => final(w)@ == old(w)@ + sample_rate_writes(c) && r is Ok,
                None => final(w)@ == old(w)@ && (r matches Err(e) && e is NotSupported),
            },
    {
        let mclk = sample_rate * mclk_ratio;
        let coeff = match find_coeff(mclk, sample_rate) {
            Some(c) => c,
            None => {
                return Err(Error::NotSupported);
            },
        };
        push_write(w, OSR_REG07, coeff.osr);
        push_write(w, MAINCLK_REG02, coeff.adc_div | (coeff.doubler << 6) | (coeff.dll << 7));
        push_write(w, LRCK_DIVH_REG04, coeff.lrck_h as u8);
        push_write(w, LRCK_DIVL_REG05, coeff.lrck_l as u8);
        assert(w@ =~= old(w)@ + sample_rate_writes(coeff));
        Ok(())
    }
}

} // verus!
