use vstd::prelude::*;

verus! {

/// Hertz in one kilohertz.
pub const KHZ_TO_HZ: usize = 1_000;

/// Hertz in one megahertz.
pub const MHZ_TO_HZ: usize = 1_000_000;

/// Hertz in one gigahertz.
pub const GHZ_TO_HZ: usize = 1_000_000_000;

/// The frequency unit.
///
/// Represents a frequency in hertz, wrapping a pointer-sized unsigned long value.
#[derive(Copy, Clone, PartialEq, Eq, Debug, Structural)]
pub struct Hertz(pub usize);

/// The number of hertz in `n` units of `scale` hertz each.
pub open spec fn scaled_up(n: int, scale: int) -> int {
    n * scale
}

/// The number of whole units of `scale` hertz in `hz` hertz, rounded down.
pub open spec fn scaled_down(hz: int, scale: int) -> int {
    hz / scale
}

impl Hertz {
    /// Create a new instance from kilohertz (kHz)
    pub fn from_khz(khz: usize) -> (r: Self)
        requires
            khz * KHZ_TO_HZ <= usize::MAX,
        ensures
            r.0 == scaled_up(khz as int, KHZ_TO_HZ as int),
            r.0 == khz * 1000,
    {
        Self(khz * KHZ_TO_HZ)
    }

    /// Create a new instance from megahertz (MHz)
    pub fn from_mhz(mhz: usize) -> (r: Self)
        requires
            mhz * MHZ_TO_HZ <= usize::MAX,
        ensures
            r.0 == scaled_up(mhz as int, MHZ_TO_HZ as int),
            r.0 == mhz * 1_000_000,
    {
        Self(mhz * MHZ_TO_HZ)
    }

    /// Create a new instance from gigahertz (GHz)
    pub fn from_ghz(ghz: usize) -> (r: Self)
        requires
            ghz * GHZ_TO_HZ <= usize::MAX,
        ensures
            r.0 == scaled_up(ghz as int, GHZ_TO_HZ as int),
            r.0 == ghz * 1_000_000_000,
    {
        Self(ghz * GHZ_TO_HZ)
    }

    /// Get the frequency in hertz
    pub fn as_hz(&self) -> (r: usize)
        ensures
            r == self.0,
    {
        self.0
    }

    /// Get the frequency in kilohertz
    pub fn as_khz(&self) -> (r: usize)
        ensures
            r == scaled_down(self.0 as int, KHZ_TO_HZ as int),
            r == self.0 / 1000,
            r * 1000 <= self.0 < (r + 1) * 1000,
    {
        self.0 / KHZ_TO_HZ
    }

    /// Get the frequency in megahertz
    pub fn as_mhz(&self) -> (r: usize)
        ensures
            r == scaled_down(self.0 as int, MHZ_TO_HZ as int),
            r == self.0 / 1_000_000,
            r * 1_000_000 <= self.0 < (r + 1) * 1_000_000,
    {
        self.0 / MHZ_TO_HZ
    }

    /// Get the frequency in gigahertz
    pub fn as_ghz(&self) -> (r: usize)
        ensures
            r == scaled_down(self.0 as int, GHZ_TO_HZ as int),
            r == self.0 / 1_000_000_000,
            r * 1_000_000_000 <= self.0 < (r + 1) * 1_000_000_000,
    {
        self.0 / GHZ_TO_HZ
    }
}

impl From<Hertz> for usize {
    fn from(freq: Hertz) -> (r: usize)
        ensures
            r == freq.0,
    {
        freq.0
    }
}

impl vstd::std_specs::convert::FromSpecImpl<Hertz> for usize {
    open spec fn obeys_from_spec() -> bool {
        true
    }

    open spec fn from_spec(v: Hertz) -> usize {
        v.0
    }
}

/// Building a frequency from a whole number of units and reading it back in
/// the same unit gives that number again.
pub proof fn lemma_scale_round_trip(n: int, scale: int)
    requires
        n >= 0,
        scale > 0,
    ensures
        scaled_down(scaled_up(n, scale), scale) == n,
{
    assert(n * scale / scale == n) by (nonlinear_arith)
        requires
            scale > 0,
    ;
}

/// A frequency read in a unit and built back from that reading is the same
/// frequency exactly when it is a whole number of that unit.
pub proof fn lemma_scale_back_exact(hz: int, scale: int)
    requires
        hz >= 0,
        scale > 0,
    ensures
        scaled_up(scaled_down(hz, scale), scale) == hz <==> hz % scale == 0,
        scaled_up(scaled_down(hz, scale), scale) <= hz,
{
    assert(hz == scale * (hz / scale) + hz % scale) by (nonlinear_arith)
        requires
            scale > 0,
    ;
    assert(scale * (hz / scale) == (hz / scale) * scale) by (nonlinear_arith);
}

/// Reading a frequency in megahertz is reading it in kilohertz and then
/// reading that in thousands; gigahertz are thousands of megahertz likewise.
pub proof fn lemma_units_nest(hz: int)
    requires
        hz >= 0,
    ensures
        scaled_down(hz, MHZ_TO_HZ as int) == scaled_down(
            scaled_down(hz, KHZ_TO_HZ as int),
            KHZ_TO_HZ as int,
        ),
        scaled_down(hz, GHZ_TO_HZ as int) == scaled_down(
            scaled_down(hz, MHZ_TO_HZ as int),
            KHZ_TO_HZ as int,
        ),
{
    lemma_div_div(hz, 1000, 1000);
    lemma_div_div(hz, 1_000_000, 1000);
}

proof fn lemma_div_div(x: int, a: int, b: int)
    requires
        x >= 0,
        a > 0,
        b > 0,
    ensures
        x / a / b == x / (a * b),
{
    vstd::arithmetic::div_mod::lemma_div_denominator(x, a, b);
}

/// A frequency given in gigahertz equals the same frequency given in
/// megahertz or kilohertz.
pub proof fn lemma_units_agree(g: int)
    ensures
        scaled_up(g, GHZ_TO_HZ as int) == scaled_up(scaled_up(g, KHZ_TO_HZ as int), MHZ_TO_HZ as int),
        scaled_up(g, GHZ_TO_HZ as int) == scaled_up(scaled_up(g, MHZ_TO_HZ as int), KHZ_TO_HZ as int),
{
    assert(g * 1000 * 1000000 == g * 1000000000) by (nonlinear_arith);
    assert(g * 1000000 * 1000 == g * 1000000000) by (nonlinear_arith);
}

/// Reading a frequency in any unit never decreases as the frequency grows.
pub proof fn lemma_scaled_down_monotonic(a: int, b: int, scale: int)
    requires
        0 <= a <= b,
        scale > 0,
    ensures
        scaled_down(a, scale) <= scaled_down(b, scale),
{
    vstd::arithmetic::div_mod::lemma_div_is_ordered(a, b, scale);
}

/// Converting a frequency into an unsigned long gives its count of hertz,
/// unchanged.
pub proof fn lemma_into_unsigned_long(h: Hertz)
    ensures
        <usize as vstd::std_specs::convert::FromSpec<Hertz>>::from_spec(h) == h.0,
{
}

/// The units are a thousand, a million and a billion hertz: building from a
/// unit multiplies by it, reading in a unit divides by it and rounds down.
pub proof fn lemma_units_exact(n: int, hz: int)
    requires
        hz >= 0,
    ensures
        scaled_up(n, KHZ_TO_HZ as int) == n * 1000,
        scaled_up(n, MHZ_TO_HZ as int) == n * 1_000_000,
        scaled_up(n, GHZ_TO_HZ as int) == n * 1_000_000_000,
        scaled_down(hz, KHZ_TO_HZ as int) * 1000 <= hz < (scaled_down(hz, KHZ_TO_HZ as int) + 1) * 1000,
        scaled_down(hz, MHZ_TO_HZ as int) * 1_000_000 <= hz < (scaled_down(hz, MHZ_TO_HZ as int) + 1)
            * 1_000_000,
        scaled_down(hz, GHZ_TO_HZ as int) * 1_000_000_000 <= hz < (scaled_down(hz, GHZ_TO_HZ as int)
            + 1) * 1_000_000_000,
{
    vstd::arithmetic::div_mod::lemma_fundamental_div_mod(hz, 1000);
    vstd::arithmetic::div_mod::lemma_fundamental_div_mod(hz, 1_000_000);
    vstd::arithmetic::div_mod::lemma_fundamental_div_mod(hz, 1_000_000_000);
    vstd::arithmetic::div_mod::lemma_mod_bound(hz, 1000);
    vstd::arithmetic::div_mod::lemma_mod_bound(hz, 1_000_000);
    vstd::arithmetic::div_mod::lemma_mod_bound(hz, 1_000_000_000);
}

} // verus!
