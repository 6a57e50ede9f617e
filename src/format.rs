use vstd::prelude::*;

use crate::device::{Config, Device};

verus! {

/// The sample representation a stream carries.
#[derive(Debug, Clone, Copy, PartialEq, Eq, Structural)]
pub enum Format {
    /// Signed 16-bit integer samples.
    I16,
    /// Signed 32-bit integer samples.
    I32,
    /// 32-bit floating-point samples.
    F32,
}

/// A sample type a session can be instantiated with.
pub trait Sample: Copy {
    /// The representation this sample type stands for.
    spec fn spec_format() -> Format;

    /// The value written for an output position that has no sample.
    spec fn spec_silence() -> Self;

    fn sample_format() -> (r: Format)
        ensures
            r == Self::spec_format(),
    ;

    fn silence() -> (r: Self)
        ensures
            r == Self::spec_silence(),
    ;
}

impl Sample for i16 {
    open spec fn spec_format() -> Format {
        Format::I16
    }

    open spec fn spec_silence() -> i16 {
        0
    }

    fn sample_format() -> (r: Format) {
        Format::I16
    }

    fn silence() -> (r: i16) {
        0
    }
}

impl Sample for i32 {
    open spec fn spec_format() -> Format {
        Format::I32
    }

    open spec fn spec_silence() -> i32 {
        0
    }

    fn sample_format() -> (r: Format) {
        Format::I32
    }

    fn silence() -> (r: i32) {
        0
    }
}

/// The concrete stream description settled on before a callback is
/// installed. Samples are always packed and interleaved.
#[derive(Debug, Clone, Copy, PartialEq, Eq, Structural)]
pub struct NegotiatedFormat {
    /// Frames per second.
    pub sample_rate: u32,
    /// Samples per frame.
    pub channels: u32,
    /// The sample representation.
    pub format: Format,
    /// The hardware flag: floating-point rather than signed integer.
    pub is_float: bool,
    /// The hardware flag: packed samples, no padding bits.
    pub is_packed: bool,
}

/// The requested value where there is one, else the device's default.
pub open spec fn resolve(requested: Option<u32>, default: u32) -> u32 {
    match requested {
        Some(v) => v,
        None => default,
    }
}

/// The format that a stream on `device` opened with `config` and samples of
/// representation `format` uses.
pub open spec fn negotiated(device: Device, config: Config, format: Format) -> NegotiatedFormat {
    NegotiatedFormat {
        sample_rate: resolve(config.sample_rate, device.sample_rate),
        channels: resolve(config.num_channels, device.channels),
        format,
        is_float: format == Format::F32,
        is_packed: true,
    }
}

/// Settles the stream format: each field of `config` that is set wins over
/// the device's default, and the representation fixes the hardware flags.
pub fn negotiate(device: &Device, config: &Config, format: Format) -> (r: NegotiatedFormat)
    ensures
        r == negotiated(*device, *config, format),
{
    let sample_rate = match config.sample_rate {
        Some(v) => v,
        None => device.sample_rate,
    };
    let channels = match config.num_channels {
        Some(v) => v,
        None => device.channels,
    };
    let is_float = match format {
        Format::F32 => true,
        _ => false,
    };
    NegotiatedFormat { sample_rate, channels, format, is_float, is_packed: true }
}

/// A configuration that sets only the sample rate keeps the device's
/// default channel count.
pub proof fn lemma_rate_only_keeps_channels(device: Device, config: Config, format: Format)
    requires
        config.sample_rate is Some,
        config.num_channels is None,
    ensures
        negotiated(device, config, format).channels == device.channels,
        negotiated(device, config, format).sample_rate == config.sample_rate->Some_0,
{
}

/// A configuration that sets only the channel count keeps the device's
/// default sample rate.
pub proof fn lemma_channels_only_keeps_rate(device: Device, config: Config, format: Format)
    requires
        config.sample_rate is None,
        config.num_channels is Some,
    ensures
        negotiated(device, config, format).sample_rate == device.sample_rate,
        negotiated(device, config, format).channels == config.num_channels->Some_0,
{
}

} // verus!
