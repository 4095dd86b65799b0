//! Caller-facing scan options: which channels participate, the per-channel
//! sample rate, and the acquisition flags.
//!
//! The channel bitmask selects physical input channels; channel order is
//! ascending bit position.  The sample rate is carried in millihertz so that
//! fractional rates stay exact; it must be positive.

use vstd::prelude::*;
use crate::flags::ScanOptionFlags;
use crate::hat::ErrorCode;

verus! {

/// Whether bit `b` of `mask` is set.
pub open spec fn mask_bit(mask: u8, b: int) -> bool {
    mask & (1u8 << b) != 0
}

/// How many of the `n` lowest bits of `mask` are set.
pub open spec fn bits_set_below(mask: u8, n: int) -> int
    decreases n,
{
    if n <= 0 {
        0
    } else {
        bits_set_below(mask, n - 1) + if mask_bit(mask, n - 1) {
            1int
        } else {
            0int
        }
    }
}

/// The population count of `mask`: how many channels it selects.
pub open spec fn pop_count(mask: u8) -> int {
    bits_set_below(mask, 8)
}

/// Options for a continuous scan, constructed by the caller and immutable
/// once handed to the orchestrator.
#[derive(Copy, Clone, Debug, PartialEq, Eq, Structural)]
pub struct ScanOptions {
    /// Bitmask of the physical channels that participate; channel order is
    /// ascending bit position.  Must select at least one channel.
    pub channel_mask: u8,
    /// Sample rate per channel in millihertz; must be positive.
    pub sample_rate_millihertz: u64,
    /// Scale readings to engineering units.
    pub scale_data: bool,
    /// Apply the board's calibration.
    pub calibrate_data: bool,
    /// Use an external clock.
    pub external_clock: bool,
    /// Wait for an external trigger.
    pub external_trigger: bool,
}

impl ScanOptions {
    /// Whether these options may start a scan: at least one channel and a
    /// positive sample rate.
    pub open spec fn valid(&self) -> bool {
        self.channel_mask != 0 && self.sample_rate_millihertz > 0
    }

    /// The number of channels the mask selects.
    pub fn channel_count(&self) -> (n: usize)
        ensures
            n == pop_count(self.channel_mask),
            n <= 8,
            self.channel_mask != 0 ==> n >= 1,
    {
        let mask = self.channel_mask;
        let mut n: usize = 0;
        let mut b: u8 = 0;
        while b < 8
            invariant
                b <= 8,
                n == bits_set_below(mask, b as int),
                n <= b,
            decreases 8 - b,
        {
            if mask & (1u8 << b) != 0 {
                n = n + 1;
            }
            b = b + 1;
        }
        proof {
            if mask != 0 {
                lemma_pop_count_positive(mask);
            }
        }
        n
    }

    /// The channels the mask selects, in ascending bit order.
    pub fn channels(&self) -> (v: Vec<u8>)
        ensures
            v@.len() == pop_count(self.channel_mask),
            forall|i: int| 0 <= i < v@.len() ==> v@[i] < 8 && mask_bit(self.channel_mask, v@[i] as int),
            forall|i: int, j: int| 0 <= i < j < v@.len() ==> v@[i] < v@[j],
            forall|b: int| 0 <= b < 8 && mask_bit(self.channel_mask, b) ==> v@.contains(b as u8),
    {
        let mask = self.channel_mask;
        let mut v: Vec<u8> = Vec::new();
        let mut b: u8 = 0;
        while b < 8
            invariant
                b <= 8,
                v@.len() == bits_set_below(mask, b as int),
                forall|i: int| 0 <= i < v@.len() ==> v@[i] < b && mask_bit(mask, v@[i] as int),
                forall|i: int, j: int| 0 <= i < j < v@.len() ==> v@[i] < v@[j],
                forall|c: int| 0 <= c < b && mask_bit(mask, c) ==> v@.contains(c as u8),
            decreases 8 - b,
        {
            if mask & (1u8 << b) != 0 {
                let ghost vpre = v@;
                v.push(b);
                proof {
                    assert(v@ == vpre.push(b));
                    assert(v@[vpre.len() as int] == b);
                    assert(v@.contains(b));
                    assert forall|c: int| 0 <= c < b && mask_bit(mask, c) implies v@.contains(
                        c as u8,
                    ) by {
                        assert(vpre.contains(c as u8));
                        let i = choose|i: int| 0 <= i < vpre.len() && vpre[i] == c as u8;
                        assert(v@[i] == c as u8);
                    }
                }
            }
            b = b + 1;
        }
        v
    }

    /// The option word handed to the hardware for a continuous scan with
    /// these options.
    pub fn scan_flags(&self) -> (f: ScanOptionFlags)
        ensures
            f == scan_flags_spec(*self),
    {
        ScanOptionFlags {
            no_scale_data: !self.scale_data,
            no_calibrate_data: !self.calibrate_data,
            ext_clock: self.external_clock,
            ext_trigger: self.external_trigger,
            continuous: true,
        }
    }

    /// Checks that the options may start a scan; reports `BadParameter`
    /// exactly when the mask is empty or the rate is not positive.
    pub fn validate(&self) -> (r: Result<(), ErrorCode>)
        ensures
            r is Ok <==> self.valid(),
            r is Err ==> r == Result::<(), ErrorCode>::Err(ErrorCode::BadParameter),
    {
        if self.channel_mask == 0 || self.sample_rate_millihertz == 0 {
            Err(ErrorCode::BadParameter)
        } else {
            Ok(())
        }
    }
}

/// The option word for a continuous scan: continuous acquisition, with
/// scaling and calibration disabled exactly when the caller turned them off,
/// and external clock and trigger exactly as the caller asked.
pub open spec fn scan_flags_spec(opts: ScanOptions) -> ScanOptionFlags {
    ScanOptionFlags {
        no_scale_data: !opts.scale_data,
        no_calibrate_data: !opts.calibrate_data,
        ext_clock: opts.external_clock,
        ext_trigger: opts.external_trigger,
        continuous: true,
    }
}

/// Counting the bits below position `n` gives at most `n`.
proof fn lemma_bits_set_below_bound(mask: u8, n: int)
    requires
        0 <= n <= 8,
    ensures
        0 <= bits_set_below(mask, n) <= n,
    decreases n,
{
    if n > 0 {
        lemma_bits_set_below_bound(mask, n - 1);
    }
}

/// A bit set anywhere below `n` makes the count of bits below `n` positive.
proof fn lemma_bit_counted(mask: u8, b: int, n: int)
    requires
        0 <= b < n <= 8,
        mask_bit(mask, b),
    ensures
        bits_set_below(mask, n) >= 1,
    decreases n,
{
    if b == n - 1 {
        lemma_bits_set_below_bound(mask, n - 1);
    } else {
        lemma_bit_counted(mask, b, n - 1);
    }
}

/// A non-empty mask selects at least one channel.
proof fn lemma_pop_count_positive(mask: u8)
    requires
        mask != 0,
    ensures
        pop_count(mask) >= 1,
{
    assert(exists|b: int| 0 <= b < 8 && mask_bit(mask, b)) by {
        assert(mask != 0 ==> (mask & (1u8 << 0) != 0) || (mask & (1u8 << 1) != 0)
            || (mask & (1u8 << 2) != 0) || (mask & (1u8 << 3) != 0)
            || (mask & (1u8 << 4) != 0) || (mask & (1u8 << 5) != 0)
            || (mask & (1u8 << 6) != 0) || (mask & (1u8 << 7) != 0)) by (bit_vector);
        assert(mask_bit(mask, 0) || mask_bit(mask, 1) || mask_bit(mask, 2) || mask_bit(mask, 3)
            || mask_bit(mask, 4) || mask_bit(mask, 5) || mask_bit(mask, 6) || mask_bit(mask, 7));
    }
    let b = choose|b: int| 0 <= b < 8 && mask_bit(mask, b);
    lemma_bit_counted(mask, b, 8);
}

/// A valid channel mask selects between one and eight channels: the number
/// of consumer endpoints a continuous scan yields, one per set bit.
pub proof fn lemma_channel_count_range(mask: u8)
    requires
        mask != 0,
    ensures
        1 <= pop_count(mask) <= 8,
{
    lemma_pop_count_positive(mask);
    lemma_bits_set_below_bound(mask, 8);
}

} // verus!
