use vstd::prelude::*;

verus! {

/// Mask of a 23-bit mantissa field, right-justified.
pub const MANTISSA_MASK: u32 = 0x7f_ffff;

/// Sign bit of a low-latency pattern (bit 31).
pub open spec fn ll_sign(b: u32) -> bool {
    (b >> 31u32) & 1u32 == 1u32
}

/// Exponent field of a low-latency pattern (bits 30..24).
pub open spec fn ll_exponent(b: u32) -> u32 {
    (b >> 24u32) & 0x7fu32
}

/// Mantissa field of a low-latency pattern (bits 23..1).
pub open spec fn ll_mantissa(b: u32) -> u32 {
    (b >> 1u32) & 0x7f_ffffu32
}

/// Reserved flag of a low-latency pattern (bit 0).
pub open spec fn ll_reserved(b: u32) -> bool {
    b & 1u32 == 1u32
}

/// Sign bit of a standard pattern (bit 31).
pub open spec fn std_sign(b: u32) -> bool {
    (b >> 31u32) & 1u32 == 1u32
}

/// Exponent field of a standard pattern (bits 30..23).
pub open spec fn std_exponent(b: u32) -> u32 {
    (b >> 23u32) & 0xffu32
}

/// Mantissa field of a standard pattern (bits 22..0).
pub open spec fn std_mantissa(b: u32) -> u32 {
    b & 0x7f_ffffu32
}

/// The low-latency pattern with the given fields, each cut to its width;
/// the reserved flag is clear.
pub open spec fn ll_pack(sign: bool, exponent: u32, mantissa: u32) -> u32 {
    ((if sign { 1u32 } else { 0u32 }) << 31u32) | ((exponent & 0x7fu32) << 24u32) | ((mantissa
        & 0x7f_ffffu32) << 1u32)
}

/// The standard pattern with the given fields, each cut to its width.
pub open spec fn std_pack(sign: bool, exponent: u32, mantissa: u32) -> u32 {
    ((if sign { 1u32 } else { 0u32 }) << 31u32) | ((exponent & 0xffu32) << 23u32) | (mantissa
        & 0x7f_ffffu32)
}

/// Low-latency exponent for a standard exponent: the bias of 127 is taken
/// off, and a result below zero becomes zero.
pub open spec fn unbias(e: u32) -> u32 {
    if e < 127 {
        0
    } else {
        (e - 127) as u32
    }
}

/// What a low-latency pattern converts to: zero stays zero; otherwise the sign
/// is inverted, the exponent gains the bias of 127 and the mantissa moves up one
/// bit, losing its top bit.
pub open spec fn standard_of(b: u32) -> u32 {
    if b == 0 {
        0
    } else {
        std_pack(!ll_sign(b), (ll_exponent(b) + 127) as u32, ll_mantissa(b) << 1u32)
    }
}

/// What a standard pattern converts to: zero stays zero; otherwise the sign is
/// inverted, the exponent loses the bias of 127 (saturating at zero) and the
/// mantissa moves down one bit, losing its low bit.
pub open spec fn low_latency_of(b: u32) -> u32 {
    if b == 0 {
        0
    } else {
        ll_pack(!std_sign(b), unbias(std_exponent(b)), std_mantissa(b) >> 1u32)
    }
}

/// Each field of a packed low-latency pattern reads back what was packed.
pub proof fn lemma_ll_pack_fields(sign: bool, exponent: u32, mantissa: u32)
    ensures
        ll_sign(ll_pack(sign, exponent, mantissa)) == sign,
        ll_exponent(ll_pack(sign, exponent, mantissa)) == exponent & 0x7fu32,
        ll_mantissa(ll_pack(sign, exponent, mantissa)) == mantissa & 0x7f_ffffu32,
        !ll_reserved(ll_pack(sign, exponent, mantissa)),
{
    let s: u32 = if sign { 1u32 } else { 0u32 };
    let p = ll_pack(sign, exponent, mantissa);
    assert(p == (s << 31u32) | ((exponent & 0x7fu32) << 24u32) | ((mantissa & 0x7f_ffffu32)
        << 1u32));
    assert(((s << 31u32) | ((exponent & 0x7fu32) << 24u32) | ((mantissa & 0x7f_ffffu32)
        << 1u32)) >> 31u32 & 1u32 == s) by (bit_vector)
        requires
            s <= 1u32,
    ;
    assert((((s << 31u32) | ((exponent & 0x7fu32) << 24u32) | ((mantissa & 0x7f_ffffu32)
        << 1u32)) >> 24u32) & 0x7fu32 == exponent & 0x7fu32) by (bit_vector);
    assert((((s << 31u32) | ((exponent & 0x7fu32) << 24u32) | ((mantissa & 0x7f_ffffu32)
        << 1u32)) >> 1u32) & 0x7f_ffffu32 == mantissa & 0x7f_ffffu32) by (bit_vector);
    assert(((s << 31u32) | ((exponent & 0x7fu32) << 24u32) | ((mantissa & 0x7f_ffffu32)
        << 1u32)) & 1u32 == 0u32) by (bit_vector);
}

/// Each field of a packed standard pattern reads back what was packed.
pub proof fn lemma_std_pack_fields(sign: bool, exponent: u32, mantissa: u32)
    ensures
        std_sign(std_pack(sign, exponent, mantissa)) == sign,
        std_exponent(std_pack(sign, exponent, mantissa)) == exponent & 0xffu32,
        std_mantissa(std_pack(sign, exponent, mantissa)) == mantissa & 0x7f_ffffu32,
{
    let s: u32 = if sign { 1u32 } else { 0u32 };
    let p = std_pack(sign, exponent, mantissa);
    assert(p == (s << 31u32) | ((exponent & 0xffu32) << 23u32) | (mantissa & 0x7f_ffffu32));
    assert(((s << 31u32) | ((exponent & 0xffu32) << 23u32) | (mantissa & 0x7f_ffffu32)) >> 31u32
        & 1u32 == s) by (bit_vector)
        requires
            s <= 1u32,
    ;
    assert((((s << 31u32) | ((exponent & 0xffu32) << 23u32) | (mantissa & 0x7f_ffffu32))
        >> 23u32) & 0xffu32 == exponent & 0xffu32) by (bit_vector);
    assert(((s << 31u32) | ((exponent & 0xffu32) << 23u32) | (mantissa & 0x7f_ffffu32))
        & 0x7f_ffffu32 == mantissa & 0x7f_ffffu32) by (bit_vector);
}

/// A 32-bit pattern in the low-latency layout: sign at bit 31, a 7-bit
/// exponent at bits 30..24, a 23-bit mantissa at bits 23..1 and a reserved
/// flag at bit 0.
pub struct LowLatencyFloat {
    bits: u32,
}

/// A 32-bit pattern in the standard single-precision layout: sign at bit 31,
/// an 8-bit exponent at bits 30..23 and a 23-bit mantissa at bits 22..0.
pub struct StandardFloat {
    bits: u32,
}

impl View for LowLatencyFloat {
    type V = u32;

    closed spec fn view(&self) -> u32 {
        self.bits
    }
}

impl View for StandardFloat {
    type V = u32;

    closed spec fn view(&self) -> u32 {
        self.bits
    }
}

impl LowLatencyFloat {
    /// The value that holds the given bits.
    pub closed spec fn spec_from_bits(bits: u32) -> Self {
        LowLatencyFloat { bits }
    }

    /// The stored bits.
    pub open spec fn spec_representation(&self) -> u32 {
        self@
    }

    /// Two values with the same bits are the same value.
    pub proof fn lemma_view_injective(a: Self, b: Self)
        ensures
            a@ == b@ <==> a == b,
    {
    }

    /// The view of a value built from bits is those bits.
    pub proof fn lemma_view_from_bits(bits: u32)
        ensures
            Self::spec_from_bits(bits)@ == bits,
    {
    }

    /// The all-zero pattern.
    pub fn zero() -> (r: Self)
        ensures
            r@ == 0u32,
            r == Self::spec_from_bits(0u32),
    {
        LowLatencyFloat { bits: 0 }
    }

    /// Wraps any 32-bit value as it is.
    #[verifier::when_used_as_spec(spec_from_bits)]
    pub fn from_bits(bits: u32) -> (r: Self)
        ensures
            r@ == bits,
            r == Self::spec_from_bits(bits),
    {
        LowLatencyFloat { bits }
    }

    /// The stored bits.
    #[verifier::when_used_as_spec(spec_representation)]
    pub fn representation(&self) -> (r: u32)
        ensures
            r == self@,
    {
        self.bits
    }

    /// The sign bit (bit 31).
    pub fn sign(&self) -> (r: bool)
        ensures
            r == ll_sign(self@),
    {
        (self.bits >> 31u32) & 1u32 == 1u32
    }

    /// The exponent field (bits 30..24).
    pub fn exponent(&self) -> (r: u32)
        ensures
            r == ll_exponent(self@),
            r < 128,
    {
        let b = self.bits;
        assert((b >> 24u32) & 0x7fu32 < 128u32) by (bit_vector);
        (b >> 24u32) & 0x7fu32
    }

    /// The mantissa field (bits 23..1).
    pub fn mantissa(&self) -> (r: u32)
        ensures
            r == ll_mantissa(self@),
            r <= MANTISSA_MASK,
    {
        let b = self.bits;
        assert((b >> 1u32) & 0x7f_ffffu32 <= 0x7f_ffffu32) by (bit_vector);
        (b >> 1u32) & MANTISSA_MASK
    }

    /// The reserved flag (bit 0).
    pub fn reserved_flag(&self) -> (r: bool)
        ensures
            r == ll_reserved(self@),
    {
        self.bits & 1u32 == 1u32
    }

    /// The standard pattern for this one: zero gives zero; otherwise the sign
    /// is inverted, the exponent gains a bias of 127 and the mantissa moves up
    /// one bit, its top bit dropped.
    pub fn to_standard(&self) -> (r: StandardFloat)
        ensures
            r@ == standard_of(self@),
            self@ == 0 ==> r@ == 0,
            self@ != 0 ==> std_sign(r@) == !ll_sign(self@),
            self@ != 0 ==> std_exponent(r@) == ll_exponent(self@) + 127,
            self@ != 0 ==> std_mantissa(r@) == (2 * ll_mantissa(self@)) % 0x80_0000,
    {
        if self.representation() == 0 {
            return StandardFloat::zero();
        }
        let sign: bool = !self.sign();
        let s: u32 = if sign { 1 } else { 0 };
        let e: u32 = self.exponent() + 127;
        let m: u32 = self.mantissa();
        let bits: u32 = (s << 31u32) | (e << 23u32) | ((m << 1u32) & MANTISSA_MASK);
        proof {
            let mm = m << 1u32;
            assert(bits == (s << 31u32) | ((e & 0xffu32) << 23u32) | (mm & 0x7f_ffffu32))
                by (bit_vector)
                requires
                    e < 256u32,
                    mm == m << 1u32,
                    bits == (s << 31u32) | (e << 23u32) | ((m << 1u32) & 0x7f_ffffu32),
            ;
            assert(bits == std_pack(sign, e, mm));
            lemma_std_pack_fields(sign, e, mm);
            assert(e & 0xffu32 == e) by (bit_vector)
                requires
                    e < 256u32,
            ;
            assert((m << 1u32) & 0x7f_ffffu32 == (2 * m) % 0x80_0000) by (bit_vector)
                requires
                    m <= 0x7f_ffffu32,
            ;
        }
        StandardFloat { bits }
    }
}

impl StandardFloat {
    /// The value that holds the given bits.
    pub closed spec fn spec_from_bits(bits: u32) -> Self {
        StandardFloat { bits }
    }

    /// The stored bits.
    pub open spec fn spec_representation(&self) -> u32 {
        self@
    }

    /// Two values with the same bits are the same value.
    pub proof fn lemma_view_injective(a: Self, b: Self)
        ensures
            a@ == b@ <==> a == b,
    {
    }

    /// The view of a value built from bits is those bits.
    pub proof fn lemma_view_from_bits(bits: u32)
        ensures
            Self::spec_from_bits(bits)@ == bits,
    {
    }

    /// The all-zero pattern.
    pub fn zero() -> (r: Self)
        ensures
            r@ == 0u32,
            r == Self::spec_from_bits(0u32),
    {
        StandardFloat { bits: 0 }
    }

    /// Wraps any 32-bit value as it is.
    #[verifier::when_used_as_spec(spec_from_bits)]
    pub fn from_bits(bits: u32) -> (r: Self)
        ensures
            r@ == bits,
            r == Self::spec_from_bits(bits),
    {
        StandardFloat { bits }
    }

    /// The stored bits.
    #[verifier::when_used_as_spec(spec_representation)]
    pub fn representation(&self) -> (r: u32)
        ensures
            r == self@,
    {
        self.bits
    }

    /// The sign bit (bit 31).
    pub fn sign(&self) -> (r: bool)
        ensures
            r == std_sign(self@),
    {
        (self.bits >> 31u32) & 1u32 == 1u32
    }

    /// The exponent field (bits 30..23).
    pub fn exponent(&self) -> (r: u32)
        ensures
            r == std_exponent(self@),
            r < 256,
    {
        let b = self.bits;
        assert((b >> 23u32) & 0xffu32 < 256u32) by (bit_vector);
        (b >> 23u32) & 0xffu32
    }

    /// The mantissa field (bits 22..0).
    pub fn mantissa(&self) -> (r: u32)
        ensures
            r == std_mantissa(self@),
            r <= MANTISSA_MASK,
    {
        let b = self.bits;
        assert(b & 0x7f_ffffu32 <= 0x7f_ffffu32) by (bit_vector);
        b & MANTISSA_MASK
    }

    /// The low-latency pattern for this one: zero gives zero; otherwise the
    /// sign is inverted, the bias of 127 is taken off the exponent (a result
    /// below zero becomes zero, one above 127 keeps its low seven bits), the
    /// mantissa moves down one bit, its low bit dropped, and the reserved flag
    /// is clear.
    pub fn to_low_latency(&self) -> (r: LowLatencyFloat)
        ensures
            r@ == low_latency_of(self@),
            self@ == 0 ==> r@ == 0,
            self@ != 0 ==> ll_sign(r@) == !std_sign(self@),
            self@ != 0 ==> ll_exponent(r@) == unbias(std_exponent(self@)) % 128,
            self@ != 0 && std_exponent(self@) < 127 ==> ll_exponent(r@) == 0,
            self@ != 0 ==> ll_mantissa(r@) == std_mantissa(self@) / 2,
            !ll_reserved(r@),
    {
        if self.representation() == 0 {
            assert(0u32 & 1u32 == 0u32) by (bit_vector);
            return LowLatencyFloat::zero();
        }
        let sign: bool = !self.sign();
        let s: u32 = if sign { 1 } else { 0 };
        let raw: u32 = self.exponent();
        let e: u32 = if raw < 127 { 0 } else { raw - 127 };
        let sm: u32 = self.mantissa();
        let m: u32 = sm >> 1u32;
        assert(m <= 0x3f_ffffu32 && m == sm / 2) by (bit_vector)
            requires
                sm <= 0x7f_ffffu32,
                m == sm >> 1u32,
        ;
        let bits: u32 = (s << 31u32) | ((e & 0x7fu32) << 24u32) | (m << 1u32);
        proof {
            assert(bits == (s << 31u32) | ((e & 0x7fu32) << 24u32) | ((m & 0x7f_ffffu32)
                << 1u32)) by (bit_vector)
                requires
                    m <= 0x3f_ffffu32,
                    bits == (s << 31u32) | ((e & 0x7fu32) << 24u32) | (m << 1u32),
            ;
            assert(bits == ll_pack(sign, e, m));
            lemma_ll_pack_fields(sign, e, m);
            assert(e & 0x7fu32 == e % 128) by (bit_vector);
            assert(m & 0x7f_ffffu32 == m) by (bit_vector)
                requires
                    m <= 0x3f_ffffu32,
            ;
        }
        LowLatencyFloat { bits }
    }
}

impl From<u32> for LowLatencyFloat {
    fn from(bits: u32) -> (r: Self) {
        LowLatencyFloat::from_bits(bits)
    }
}

impl vstd::std_specs::convert::FromSpecImpl<u32> for LowLatencyFloat {
    open spec fn obeys_from_spec() -> bool {
        true
    }

    open spec fn from_spec(bits: u32) -> Self {
        LowLatencyFloat::spec_from_bits(bits)
    }
}

impl From<u32> for StandardFloat {
    fn from(bits: u32) -> (r: Self) {
        StandardFloat::from_bits(bits)
    }
}

impl vstd::std_specs::convert::FromSpecImpl<u32> for StandardFloat {
    open spec fn obeys_from_spec() -> bool {
        true
    }

    open spec fn from_spec(bits: u32) -> Self {
        StandardFloat::spec_from_bits(bits)
    }
}

impl From<LowLatencyFloat> for StandardFloat {
    fn from(llf: LowLatencyFloat) -> (r: Self) {
        let r = llf.to_standard();
        proof {
            StandardFloat::lemma_view_injective(r, StandardFloat::spec_from_bits(standard_of(llf@)));
        }
        r
    }
}

impl vstd::std_specs::convert::FromSpecImpl<LowLatencyFloat> for StandardFloat {
    open spec fn obeys_from_spec() -> bool {
        true
    }

    open spec fn from_spec(llf: LowLatencyFloat) -> Self {
        StandardFloat::spec_from_bits(standard_of(llf@))
    }
}

impl From<StandardFloat> for LowLatencyFloat {
    fn from(sf: StandardFloat) -> (r: Self) {
        let r = sf.to_low_latency();
        proof {
            LowLatencyFloat::lemma_view_injective(
                r,
                LowLatencyFloat::spec_from_bits(low_latency_of(sf@)),
            );
        }
        r
    }
}

impl vstd::std_specs::convert::FromSpecImpl<StandardFloat> for LowLatencyFloat {
    open spec fn obeys_from_spec() -> bool {
        true
    }

    open spec fn from_spec(sf: StandardFloat) -> Self {
        LowLatencyFloat::spec_from_bits(low_latency_of(sf@))
    }
}

/// Converts a low-latency bit pattern to the standard one.
pub fn convert_to_standard(bits: u32) -> (r: u32)
    ensures
        r == standard_of(bits),
{
    LowLatencyFloat::from_bits(bits).to_standard().representation()
}

/// Converts a standard bit pattern to the low-latency one.
pub fn convert_to_low_latency(bits: u32) -> (r: u32)
    ensures
        r == low_latency_of(bits),
{
    StandardFloat::from_bits(bits).to_low_latency().representation()
}

/// The all-zero pattern converts to the all-zero pattern, in both directions.
pub proof fn lemma_zero_fixpoint()
    ensures
        standard_of(0u32) == 0u32,
        low_latency_of(0u32) == 0u32,
        LowLatencyFloat::spec_from_bits(0u32)@ == 0u32,
        StandardFloat::spec_from_bits(0u32)@ == 0u32,
{
}

/// For any non-zero input, the sign bit of the output is the negation of the
/// sign bit of the input, in both directions.
pub proof fn lemma_sign_inversion(b: u32)
    requires
        b != 0,
    ensures
        std_sign(standard_of(b)) == !ll_sign(b),
        ll_sign(low_latency_of(b)) == !std_sign(b),
{
    lemma_std_pack_fields(!ll_sign(b), (ll_exponent(b) + 127) as u32, ll_mantissa(b) << 1u32);
    lemma_ll_pack_fields(!std_sign(b), unbias(std_exponent(b)), std_mantissa(b) >> 1u32);
}

/// A low-latency exponent from 1 to 127 comes back unchanged from a
/// conversion to standard and back.
pub proof fn lemma_exponent_round_trip(b: u32)
    requires
        1 <= ll_exponent(b) <= 127,
    ensures
        ll_exponent(low_latency_of(standard_of(b))) == ll_exponent(b),
{
    let e = ll_exponent(b);
    assert(b != 0) by (bit_vector)
        requires
            1u32 <= (b >> 24u32) & 0x7fu32,
    ;
    let sb = standard_of(b);
    lemma_std_pack_fields(!ll_sign(b), (e + 127) as u32, ll_mantissa(b) << 1u32);
    assert(((e + 127) as u32) & 0xffu32 == e + 127) by (bit_vector)
        requires
            e <= 127u32,
    ;
    assert(sb != 0) by (bit_vector)
        requires
            (sb >> 23u32) & 0xffu32 >= 128u32,
    ;
    lemma_ll_pack_fields(!std_sign(sb), unbias(std_exponent(sb)), std_mantissa(sb) >> 1u32);
    assert(e & 0x7fu32 == e) by (bit_vector)
        requires
            e <= 127u32,
    ;
}

/// A standard input whose exponent field is below 127 converts to a
/// low-latency exponent of exactly zero.
pub proof fn lemma_exponent_clamp(b: u32)
    requires
        std_exponent(b) < 127,
    ensures
        ll_exponent(low_latency_of(b)) == 0,
{
    if b == 0 {
        assert((0u32 >> 24u32) & 0x7fu32 == 0u32) by (bit_vector);
    } else {
        lemma_ll_pack_fields(!std_sign(b), unbias(std_exponent(b)), std_mantissa(b) >> 1u32);
        assert(0u32 & 0x7fu32 == 0u32) by (bit_vector);
    }
}

/// Converting a standard pattern to low-latency and back clears the low bit
/// of its mantissa: that bit is lost on the way.
pub proof fn lemma_mantissa_low_bit_lost(b: u32)
    ensures
        std_mantissa(standard_of(low_latency_of(b))) & 1u32 == 0u32,
{
    let l = low_latency_of(b);
    if l == 0 {
        assert((0u32 & 0x7f_ffffu32) & 1u32 == 0u32) by (bit_vector);
    } else {
        assert(b != 0);
        let m = std_mantissa(b) >> 1u32;
        lemma_ll_pack_fields(!std_sign(b), unbias(std_exponent(b)), m);
        let lm = ll_mantissa(l);
        lemma_std_pack_fields(!ll_sign(l), (ll_exponent(l) + 127) as u32, lm << 1u32);
        assert(((lm << 1u32) & 0x7f_ffffu32) & 1u32 == 0u32) by (bit_vector);
    }
}

/// Converting a low-latency pattern to standard and back keeps the low 22
/// bits of its mantissa: only the top mantissa bit is lost on the way.
pub proof fn lemma_mantissa_round_trip(b: u32)
    ensures
        ll_mantissa(low_latency_of(standard_of(b))) == ll_mantissa(b) % 0x40_0000,
{
    if b == 0 {
        assert((0u32 >> 1u32) & 0x7f_ffffu32 == 0u32) by (bit_vector);
    } else {
        let e = ll_exponent(b);
        let m = ll_mantissa(b);
        let sb = standard_of(b);
        lemma_std_pack_fields(!ll_sign(b), (e + 127) as u32, m << 1u32);
        assert(((e + 127) as u32) & 0xffu32 == e + 127 && e + 127 >= 127) by (bit_vector)
            requires
                e == (b >> 24u32) & 0x7fu32,
        ;
        assert(sb != 0) by (bit_vector)
            requires
                (sb >> 23u32) & 0xffu32 >= 127u32,
        ;
        assert(m <= 0x7f_ffffu32) by (bit_vector)
            requires
                m == (b >> 1u32) & 0x7f_ffffu32,
        ;
        let sm = std_mantissa(sb);
        lemma_ll_pack_fields(!std_sign(sb), unbias(std_exponent(sb)), sm >> 1u32);
        assert((((m << 1u32) & 0x7f_ffffu32) >> 1u32) & 0x7f_ffffu32 == m % 0x40_0000) by (
        bit_vector)
            requires
                m <= 0x7f_ffffu32,
        ;
    }
}

/// Building a value from the representation of another gives back that
/// representation.
pub proof fn lemma_representation_idempotent(v: LowLatencyFloat, w: StandardFloat)
    ensures
        LowLatencyFloat::from_bits(v.representation()).representation() == v.representation(),
        StandardFloat::from_bits(w.representation()).representation() == w.representation(),
{
    LowLatencyFloat::lemma_view_from_bits(v@);
    StandardFloat::lemma_view_from_bits(w@);
}

} // verus!
