//! The node's configuration: three tunables, each given as decimal text or
//! left at its default, and the share of the host's memory that the node
//! offers.

use vstd::prelude::*;
use vstd::string::StringSliceAdditionalSpecFns;

verus! {

/// The CPU percentage offered unless configured otherwise.
pub const DEFAULT_MAX_CPU_PERCENT: u8 = 50;

/// The gigabytes of storage offered unless configured otherwise.
pub const DEFAULT_MAX_STORAGE_GB: u32 = 10;

/// The bandwidth in Mbps offered unless configured otherwise.
pub const DEFAULT_MAX_BANDWIDTH_MBPS: u32 = 50;

/// The number of bytes in one megabyte of memory.
pub const BYTES_PER_MB: u64 = 0x10_0000;

/// The maxima that a node is configured with, and the memory it offers.
#[derive(Debug, Clone, Copy, PartialEq, Eq, Structural)]
pub struct NodeConfig {
    pub max_cpu_percent: u8,
    pub max_storage_gb: u32,
    pub max_bandwidth_mbps: u32,
    pub memory_mb: u32,
}

/// Which setting could not be read.
#[derive(Debug, Clone, Copy, PartialEq, Eq, Structural)]
pub enum ConfigError {
    /// The CPU percentage is no decimal number, or above 255.
    InvalidCpuPercent,
    /// The storage size is no decimal number, or above 4294967295.
    InvalidStorage,
    /// The bandwidth is no decimal number, or above 4294967295.
    InvalidBandwidth,
}

/// Whether a byte is an ASCII decimal digit.
pub open spec fn is_digit(b: u8) -> bool {
    0x30 <= b <= 0x39
}

/// Whether every byte is a decimal digit.
pub open spec fn all_digits(digits: Seq<u8>) -> bool {
    forall|i: int| 0 <= i < digits.len() ==> is_digit(#[trigger] digits[i])
}

/// The number that a sequence of decimal digits writes.
pub open spec fn digits_value(digits: Seq<u8>) -> nat
    decreases digits.len(),
{
    if digits.len() == 0 {
        0
    } else {
        digits_value(digits.drop_last()) * 10 + (digits.last() - 0x30) as nat
    }
}

/// The digits of a number's text: the text itself, without a leading plus
/// sign.
pub open spec fn digits_of(text: Seq<u8>) -> Seq<u8> {
    if text.len() > 0 && text[0] == 0x2b {
        text.subrange(1, text.len() as int)
    } else {
        text
    }
}

/// The number that a text writes in decimal, where it is at most `max`: one
/// or more digits, after at most one plus sign, and nothing else.
pub open spec fn decimal(text: Seq<u8>, max: u64) -> Option<u64> {
    let digits = digits_of(text);
    if digits.len() > 0 && all_digits(digits) && digits_value(digits) <= max {
        Some(digits_value(digits) as u64)
    } else {
        None
    }
}

/// The digits written so far never write more than all of them do.
proof fn lemma_prefix_value(digits: Seq<u8>, n: int)
    requires
        0 <= n <= digits.len(),
        all_digits(digits),
    ensures
        digits_value(digits.take(n)) <= digits_value(digits),
    decreases digits.len() - n,
{
    if n == digits.len() {
        assert(digits.take(n) =~= digits);
    } else {
        lemma_prefix_value(digits, n + 1);
        assert(digits.take(n + 1).drop_last() =~= digits.take(n));
        assert(is_digit(digits[n]));
    }
}

/// Reads a number written in decimal, where it is at most `max`.
pub fn parse_decimal(text: &str, max: u64) -> (r: Option<u64>)
    ensures
        r == decimal(text.spec_bytes(), max),
{
    let bytes = text.as_bytes();
    let start: usize = if bytes.len() > 0 && bytes[0] == 0x2b {
        1
    } else {
        0
    };
    let ghost digits = digits_of(bytes@);
    if bytes.len() == start {
        return None;
    }
    let mut value: u64 = 0;
    let mut i: usize = start;
    while i < bytes.len()
        invariant
            start <= i <= bytes.len(),
            bytes@ == text.spec_bytes(),
            digits == digits_of(bytes@),
            digits == bytes@.subrange(start as int, bytes@.len() as int),
            forall|j: int| 0 <= j < i - start ==> is_digit(#[trigger] digits[j]),
            value == digits_value(digits.take(i - start)),
            value <= max,
        decreases bytes.len() - i,
    {
        let b = bytes[i];
        assert(b == digits[i - start]);
        if b < 0x30 || b > 0x39 {
            return None;
        }
        let d: u64 = (b - 0x30) as u64;
        proof {
            assert(digits.take(i - start + 1).drop_last() =~= digits.take(i - start));
            if all_digits(digits) {
                lemma_prefix_value(digits, i - start + 1);
            }
        }
        if d > max || value > (max - d) / 10 {
            return None;
        }
        value = value * 10 + d;
        i += 1;
    }
    assert(digits.take(i - start) =~= digits);
    Some(value)
}

/// The memory that a node offers, in megabytes: half of the host's memory,
/// and at most what the counter holds.
pub open spec fn memory_share(total_bytes: u64) -> u32 {
    let share = (total_bytes as int) / 2 / (BYTES_PER_MB as int);
    if share > u32::MAX {
        u32::MAX
    } else {
        share as u32
    }
}

/// Computes the memory that a node offers from the host's memory in bytes.
pub fn memory_share_mb(total_bytes: u64) -> (r: u32)
    ensures
        r == memory_share(total_bytes),
{
    let share: u64 = total_bytes / 2 / BYTES_PER_MB;
    if share > 0xffff_ffff {
        0xffff_ffff
    } else {
        share as u32
    }
}

/// The value of one setting: the default where it is not given, the number
/// it writes where that is within `max`, and nothing otherwise.
pub open spec fn setting(text: Option<Seq<u8>>, default: u64, max: u64) -> Option<u64> {
    match text {
        Some(t) => decimal(t, max),
        None => Some(default),
    }
}

/// The bytes of a setting's text.
pub open spec fn setting_bytes(text: Option<&str>) -> Option<Seq<u8>> {
    match text {
        Some(t) => Some(t.spec_bytes()),
        None => None,
    }
}

/// The configuration that the settings give, or the first setting that
/// cannot be read.
pub open spec fn config_of(
    cpu_percent: Option<Seq<u8>>,
    storage_gb: Option<Seq<u8>>,
    bandwidth_mbps: Option<Seq<u8>>,
    memory_mb: u32,
) -> Result<NodeConfig, ConfigError> {
    match setting(cpu_percent, DEFAULT_MAX_CPU_PERCENT as u64, 0xff) {
        None => Err(ConfigError::InvalidCpuPercent),
        Some(cpu) => match setting(storage_gb, DEFAULT_MAX_STORAGE_GB as u64, 0xffff_ffff) {
            None => Err(ConfigError::InvalidStorage),
            Some(storage) => match setting(
                bandwidth_mbps,
                DEFAULT_MAX_BANDWIDTH_MBPS as u64,
                0xffff_ffff,
            ) {
                None => Err(ConfigError::InvalidBandwidth),
                Some(bandwidth) => Ok(
                    NodeConfig {
                        max_cpu_percent: cpu as u8,
                        max_storage_gb: storage as u32,
                        max_bandwidth_mbps: bandwidth as u32,
                        memory_mb,
                    },
                ),
            },
        },
    }
}

/// Reads one setting.
fn read_setting(text: Option<&str>, default: u64, max: u64) -> (r: Option<u64>)
    ensures
        r == setting(setting_bytes(text), default, max),
{
    match text {
        Some(t) => parse_decimal(t, max),
        None => Some(default),
    }
}

/// Builds the node's configuration from its settings, each given as text or
/// left out, and from the memory the node is to offer.
pub fn configure(
    cpu_percent: Option<&str>,
    storage_gb: Option<&str>,
    bandwidth_mbps: Option<&str>,
    memory_mb: u32,
) -> (r: Result<NodeConfig, ConfigError>)
    ensures
        r == config_of(
            setting_bytes(cpu_percent),
            setting_bytes(storage_gb),
            setting_bytes(bandwidth_mbps),
            memory_mb,
        ),
{
    let cpu = match read_setting(cpu_percent, DEFAULT_MAX_CPU_PERCENT as u64, 0xff) {
        Some(cpu) => cpu,
        None => {
            return Err(ConfigError::InvalidCpuPercent);
        },
    };
    let storage = match read_setting(storage_gb, DEFAULT_MAX_STORAGE_GB as u64, 0xffff_ffff) {
        Some(storage) => storage,
        None => {
            return Err(ConfigError::InvalidStorage);
        },
    };
    let bandwidth = match read_setting(
        bandwidth_mbps,
        DEFAULT_MAX_BANDWIDTH_MBPS as u64,
        0xffff_ffff,
    ) {
        Some(bandwidth) => bandwidth,
        None => {
            return Err(ConfigError::InvalidBandwidth);
        },
    };
    Ok(
        NodeConfig {
            max_cpu_percent: cpu as u8,
            max_storage_gb: storage as u32,
            max_bandwidth_mbps: bandwidth as u32,
            memory_mb,
        },
    )
}

} // verus!
