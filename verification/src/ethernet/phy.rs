//! Decoding of the status registers of the LAN8742A Ethernet PHY.

use crate::bits::{u16_get_bit, u16_get_bits};
use vstd::prelude::*;

verus! {

/// Errors that can happen during initialization of the PHY.
#[derive(Debug, Clone, Copy, PartialEq, Eq, Structural)]
pub enum Error {
    /// Timeout while waiting for ethernet link.
    LinkTimeout,
    /// Timeout while waiting for auto negotiation.
    AutoNegotiationTimeout,
}

/// The outcome of the auto negotiation: duplex mode and link speed.
#[derive(Debug, PartialEq, Eq, Structural)]
pub struct AutoNegotiationResult {
    /// Whether the link is full duplex.
    pub duplex: bool,
    /// The link speed.
    pub speed: Speed,
}

/// The speed of the Ethernet link.
#[derive(Debug, Clone, Copy, PartialEq, Eq, Structural)]
pub enum Speed {
    /// 10 Mbit/s.
    Speed10M,
    /// 100 Mbit/s.
    Speed100M,
}

/// The bit of the basic status register that reports an established link.
pub const LINK_STATUS_BIT: usize = 2;
/// The bit of the basic status register that reports a completed auto negotiation.
pub const AUTONEGOTIATION_COMPLETE_BIT: usize = 5;
/// The bit of the special status register that reports that auto negotiation is done.
pub const AUTONEGOTIATION_DONE_BIT: usize = 12;

/// The speed indication field (bits 2 to 4) of the special status register.
pub open spec fn speed_indication(ssr: u16) -> u16 {
    (ssr >> 2u16) & 7u16
}

/// What a special status register value reports: `None` when auto negotiation is not done or
/// the speed indication field holds no valid value.
pub open spec fn spec_auto_negotiation_result(ssr: u16) -> Option<AutoNegotiationResult> {
    if (ssr >> 12u16) & 1u16 != 1u16 {
        None
    } else if speed_indication(ssr) == 1 {
        Some(AutoNegotiationResult { duplex: false, speed: Speed::Speed10M })
    } else if speed_indication(ssr) == 5 {
        Some(AutoNegotiationResult { duplex: true, speed: Speed::Speed10M })
    } else if speed_indication(ssr) == 2 {
        Some(AutoNegotiationResult { duplex: false, speed: Speed::Speed100M })
    } else if speed_indication(ssr) == 6 {
        Some(AutoNegotiationResult { duplex: true, speed: Speed::Speed100M })
    } else {
        None
    }
}

/// Decodes the special status register after auto negotiation.
///
/// Returns `None` on a value that the PHY never reports after a completed auto negotiation;
/// the driver treats it as a fatal error.
pub fn auto_negotiation_result(ssr: u16) -> (r: Option<AutoNegotiationResult>)
    ensures
        r == spec_auto_negotiation_result(ssr),
{
    if !u16_get_bit(ssr, AUTONEGOTIATION_DONE_BIT) {
        return None;
    }
    let field = u16_get_bits(ssr, 2, 5);
    assert((ssr >> 2u16) & (((1u16 << 3u16) - 1) as u16) == (ssr >> 2u16) & 7u16) by (bit_vector);
    if field == 0b001 {
        Some(AutoNegotiationResult { duplex: false, speed: Speed::Speed10M })
    } else if field == 0b101 {
        Some(AutoNegotiationResult { duplex: true, speed: Speed::Speed10M })
    } else if field == 0b010 {
        Some(AutoNegotiationResult { duplex: false, speed: Speed::Speed100M })
    } else if field == 0b110 {
        Some(AutoNegotiationResult { duplex: true, speed: Speed::Speed100M })
    } else {
        None
    }
}

/// Whether the basic status register reports an established link.
pub fn link_established(bsr: u16) -> (r: bool)
    ensures
        r == ((bsr >> 2u16) & 1u16 == 1u16),
{
    u16_get_bit(bsr, LINK_STATUS_BIT)
}

/// Whether the basic status register reports a completed auto negotiation.
pub fn auto_negotiation_complete(bsr: u16) -> (r: bool)
    ensures
        r == ((bsr >> 5u16) & 1u16 == 1u16),
{
    u16_get_bit(bsr, AUTONEGOTIATION_COMPLETE_BIT)
}

/// The MII clock range (the CR field of the MAC MII address register) for a system clock of
/// `hclk` Hz: only the range of 150 MHz and more (`0b100`, MDC = HCLK / 102) is supported;
/// `None` for a slower clock.
pub fn mii_clock_range(hclk: usize) -> (r: Option<u8>)
    ensures
        r == if hclk >= 150_000_000 {
            Some(0b100u8)
        } else {
            None::<u8>
        },
{
    if hclk >= 150_000_000 {
        Some(0b100)
    } else {
        None
    }
}

/// The link settings of the MAC configuration register.
#[derive(Debug, Clone, Copy, PartialEq, Eq, Structural)]
pub struct MacLinkConfig {
    /// FES: fast Ethernet, 100 Mbit/s (else 10 Mbit/s).
    pub fast_ethernet: bool,
    /// DM: full duplex (else half duplex).
    pub full_duplex: bool,
}

/// The link settings of the MAC for the result of the auto negotiation. The driver supports
/// only a full duplex link at 100 Mbit/s: `None` for any other result.
pub fn mac_link_config(result: &AutoNegotiationResult) -> (r: Option<MacLinkConfig>)
    ensures
        r == if result.duplex && result.speed == Speed::Speed100M {
            Some(MacLinkConfig { fast_ethernet: true, full_duplex: true })
        } else {
            None::<MacLinkConfig>
        },
{
    if !result.duplex {
        return None;
    }
    match result.speed {
        Speed::Speed100M => Some(
            MacLinkConfig { fast_ethernet: true, full_duplex: result.duplex },
        ),
        Speed::Speed10M => None,
    }
}

} // verus!
