//! The address-filter configuration record.
//!
//! This is the one place the wrapper actively constructs a non-trivial
//! binary layout: four address ranges plus a packed control word holding a
//! 4-bit configuration field per range, laid out exactly as the native
//! decoder expects it. The invariant [`AddrFilter::wf`] ties the control
//! word's per-slot bits to the configuration tag of the corresponding range.

use vstd::prelude::*;

verus! {

/// Per-range address filter configuration tag.
///
/// The numeric encoding (0, 1, 2) is fixed by the IA32_RTIT_CTL MSR layout
/// and crosses the native boundary unchanged.
#[derive(Clone, Copy, Debug, PartialEq, Eq, Structural)]
pub enum AddrConfig {
    DISABLED,
    FILTER,
    STOP,
}

impl AddrConfig {
    /// The fixed 2-bit numeric encoding of this tag.
    pub open spec fn spec_bits(self) -> u64 {
        match self {
            AddrConfig::DISABLED => 0,
            AddrConfig::FILTER => 1,
            AddrConfig::STOP => 2,
        }
    }

    /// Decoding of a raw configuration field: defined for 0, 1 and 2; any
    /// other value is a protocol violation and decodes to `None`.
    pub open spec fn spec_from_bits(bits: u64) -> Option<AddrConfig> {
        if bits == 0 {
            Some(AddrConfig::DISABLED)
        } else if bits == 1 {
            Some(AddrConfig::FILTER)
        } else if bits == 2 {
            Some(AddrConfig::STOP)
        } else {
            None
        }
    }

    /// The numeric encoding this tag takes inside a packed control word.
    pub fn to_bits(self) -> (r: u32)
        ensures
            r == self.spec_bits(),
    {
        match self {
            AddrConfig::DISABLED => 0,
            AddrConfig::FILTER => 1,
            AddrConfig::STOP => 2,
        }
    }

    /// Total decoding of a raw configuration field. `None` marks a value the
    /// native side must never produce: callers treat it as a protocol
    /// violation, never as a default.
    pub fn from_bits(bits: u32) -> (r: Option<AddrConfig>)
        ensures
            r == AddrConfig::spec_from_bits(bits as u64),
    {
        match bits {
            0 => Some(AddrConfig::DISABLED),
            1 => Some(AddrConfig::FILTER),
            2 => Some(AddrConfig::STOP),
            _ => None,
        }
    }
}

/// Encoding a tag as its 2-bit numeric projection and decoding it again
/// yields the tag it started from, for every tag.
pub proof fn lemma_addr_config_round_trip(cfg: AddrConfig)
    ensures
        AddrConfig::spec_from_bits(cfg.spec_bits()) == Some(cfg),
{
}

/// An address range inside the address filter.
///
/// No relationship between `a` and `b` is enforced at this layer; the
/// native decoder interprets the pair.
#[derive(Clone, Copy, Debug, PartialEq, Eq, Structural)]
pub struct AddrRange {
    /// This corresponds to the IA32_RTIT_ADDRn_A MSRs.
    pub a: u64,
    /// This corresponds to the IA32_RTIT_ADDRn_B MSRs.
    pub b: u64,
    /// This corresponds to the respective fields in the IA32_RTIT_CTL MSR.
    pub cfg: AddrConfig,
}

impl AddrRange {
    /// The range every slot of an empty filter reads back as.
    pub open spec fn spec_empty() -> AddrRange {
        AddrRange { a: 0, b: 0, cfg: AddrConfig::DISABLED }
    }

    pub fn new(a: u64, b: u64, cfg: AddrConfig) -> (r: AddrRange)
        ensures
            r == (AddrRange { a, b, cfg }),
    {
        AddrRange { a, b, cfg }
    }

    /// This corresponds to the IA32_RTIT_ADDRn_A MSRs.
    pub fn a(&self) -> (r: u64)
        ensures
            r == self.a,
    {
        self.a
    }

    /// This corresponds to the IA32_RTIT_ADDRn_B MSRs.
    pub fn b(&self) -> (r: u64)
        ensures
            r == self.b,
    {
        self.b
    }

    /// This corresponds to the respective fields in the IA32_RTIT_CTL MSR.
    pub fn cfg(&self) -> (r: AddrConfig)
        ensures
            r == self.cfg,
    {
        self.cfg
    }

    /// This corresponds to the IA32_RTIT_ADDRn_A MSRs.
    pub fn set_a(&mut self, a: u64)
        ensures
            final(self).a == a,
            final(self).b == old(self).b,
            final(self).cfg == old(self).cfg,
    {
        self.a = a;
    }

    /// This corresponds to the IA32_RTIT_ADDRn_B MSRs.
    pub fn set_b(&mut self, b: u64)
        ensures
            final(self).a == old(self).a,
            final(self).b == b,
            final(self).cfg == old(self).cfg,
    {
        self.b = b;
    }

    /// This corresponds to the respective fields in the IA32_RTIT_CTL MSR.
    pub fn set_cfg(&mut self, cfg: AddrConfig)
        ensures
            final(self).a == old(self).a,
            final(self).b == old(self).b,
            final(self).cfg == cfg,
    {
        self.cfg = cfg;
    }
}

/// The 4-bit configuration field of slot 0 of a packed control word.
pub open spec fn slot0_bits(word: u64) -> u64 {
    word & 0xF
}

/// The 4-bit configuration field of slot 1 of a packed control word.
pub open spec fn slot1_bits(word: u64) -> u64 {
    (word >> 4) & 0xF
}

/// The 4-bit configuration field of slot 2 of a packed control word.
pub open spec fn slot2_bits(word: u64) -> u64 {
    (word >> 8) & 0xF
}

/// The 4-bit configuration field of slot 3 of a packed control word.
pub open spec fn slot3_bits(word: u64) -> u64 {
    (word >> 12) & 0xF
}

/// The tag a slot's 4-bit field decodes to. Only fields a well-formed
/// filter can hold (0..=2) are meaningful; see [`AddrConfig::spec_from_bits`]
/// for the decoder that flags the rest.
pub open spec fn cfg_of_bits(bits: u64) -> AddrConfig {
    if bits == 1 {
        AddrConfig::FILTER
    } else if bits == 2 {
        AddrConfig::STOP
    } else {
        AddrConfig::DISABLED
    }
}

/// The range a slot argument of [`AddrFilter::new`] stands for: an absent
/// slot keeps its empty value.
pub open spec fn range_or_empty(slot: Option<AddrRange>) -> AddrRange {
    match slot {
        Some(r) => r,
        None => AddrRange::spec_empty(),
    }
}

/// A control word packed from four 4-bit slot fields.
pub open spec fn pack_ctl(b0: u64, b1: u64, b2: u64, b3: u64) -> u64 {
    b0 | (b1 << 4) | (b2 << 8) | (b3 << 12)
}

/// The address filter configuration: four address ranges plus the packed
/// per-slot configuration word, field for field the record the native layer
/// consumes (the native record additionally reserves trailing zero space).
#[derive(Clone, Copy, Debug, PartialEq, Eq, Structural)]
pub struct AddrFilter {
    /// The packed configuration word; slot `n`'s field sits in bits
    /// `4n .. 4n + 4`.
    pub addr_cfg: u64,
    pub addr0_a: u64,
    pub addr0_b: u64,
    pub addr1_a: u64,
    pub addr1_b: u64,
    pub addr2_a: u64,
    pub addr2_b: u64,
    pub addr3_a: u64,
    pub addr3_b: u64,
}

impl AddrFilter {
    /// Well-formedness: every slot's configuration field holds a valid tag
    /// and the bits beyond the four fields are clear. Every filter built
    /// through this interface satisfies it.
    pub open spec fn wf(self) -> bool {
        &&& slot0_bits(self.addr_cfg) <= 2
        &&& slot1_bits(self.addr_cfg) <= 2
        &&& slot2_bits(self.addr_cfg) <= 2
        &&& slot3_bits(self.addr_cfg) <= 2
        &&& self.addr_cfg >> 16 == 0
    }

    /// The all-zero filter record.
    pub open spec fn spec_empty() -> AddrFilter {
        AddrFilter {
            addr_cfg: 0,
            addr0_a: 0,
            addr0_b: 0,
            addr1_a: 0,
            addr1_b: 0,
            addr2_a: 0,
            addr2_b: 0,
            addr3_a: 0,
            addr3_b: 0,
        }
    }

    /// The filter [`AddrFilter::new`] builds from four optional ranges.
    pub open spec fn spec_new(
        addr0: Option<AddrRange>,
        addr1: Option<AddrRange>,
        addr2: Option<AddrRange>,
        addr3: Option<AddrRange>,
    ) -> AddrFilter {
        AddrFilter {
            addr_cfg: pack_ctl(
                range_or_empty(addr0).cfg.spec_bits(),
                range_or_empty(addr1).cfg.spec_bits(),
                range_or_empty(addr2).cfg.spec_bits(),
                range_or_empty(addr3).cfg.spec_bits(),
            ),
            addr0_a: range_or_empty(addr0).a,
            addr0_b: range_or_empty(addr0).b,
            addr1_a: range_or_empty(addr1).a,
            addr1_b: range_or_empty(addr1).b,
            addr2_a: range_or_empty(addr2).a,
            addr2_b: range_or_empty(addr2).b,
            addr3_a: range_or_empty(addr3).a,
            addr3_b: range_or_empty(addr3).b,
        }
    }

    /// The range stored in slot 0, as [`AddrFilter::addr0`] reads it back.
    pub open spec fn spec_addr0(self) -> AddrRange {
        AddrRange { a: self.addr0_a, b: self.addr0_b, cfg: cfg_of_bits(slot0_bits(self.addr_cfg)) }
    }

    /// The range stored in slot 1, as [`AddrFilter::addr1`] reads it back.
    pub open spec fn spec_addr1(self) -> AddrRange {
        AddrRange { a: self.addr1_a, b: self.addr1_b, cfg: cfg_of_bits(slot1_bits(self.addr_cfg)) }
    }

    /// The range stored in slot 2, as [`AddrFilter::addr2`] reads it back.
    pub open spec fn spec_addr2(self) -> AddrRange {
        AddrRange { a: self.addr2_a, b: self.addr2_b, cfg: cfg_of_bits(slot2_bits(self.addr_cfg)) }
    }

    /// The range stored in slot 3, as [`AddrFilter::addr3`] reads it back.
    pub open spec fn spec_addr3(self) -> AddrRange {
        AddrRange { a: self.addr3_a, b: self.addr3_b, cfg: cfg_of_bits(slot3_bits(self.addr_cfg)) }
    }

    /// A zero-initialized filter: the exact byte pattern the native side
    /// treats as "no filtering on any of the four slots".
    pub fn empty() -> (r: AddrFilter)
        ensures
            r == AddrFilter::spec_empty(),
            r.wf(),
            r.spec_addr0() == AddrRange::spec_empty(),
            r.spec_addr1() == AddrRange::spec_empty(),
            r.spec_addr2() == AddrRange::spec_empty(),
            r.spec_addr3() == AddrRange::spec_empty(),
    {
        let r = AddrFilter {
            addr_cfg: 0,
            addr0_a: 0,
            addr0_b: 0,
            addr1_a: 0,
            addr1_b: 0,
            addr2_a: 0,
            addr2_b: 0,
            addr3_a: 0,
            addr3_b: 0,
        };
        proof {
            assert(0u64 & 0xF == 0 && (0u64 >> 4) & 0xF == 0 && (0u64 >> 8) & 0xF == 0 && (0u64
                >> 12) & 0xF == 0 && 0u64 >> 16 == 0) by (bit_vector);
        }
        r
    }

    /// A filter populated from four optional ranges; an absent range leaves
    /// its slot at the empty, all-zero value.
    pub fn new(
        addr0: Option<AddrRange>,
        addr1: Option<AddrRange>,
        addr2: Option<AddrRange>,
        addr3: Option<AddrRange>,
    ) -> (r: AddrFilter)
        ensures
            r == AddrFilter::spec_new(addr0, addr1, addr2, addr3),
            r.wf(),
            r.spec_addr0() == range_or_empty(addr0),
            r.spec_addr1() == range_or_empty(addr1),
            r.spec_addr2() == range_or_empty(addr2),
            r.spec_addr3() == range_or_empty(addr3),
            (addr0 is None && addr1 is None && addr2 is None && addr3 is None) ==> r
                == AddrFilter::spec_empty(),
    {
        let mut filter = AddrFilter::empty();
        if let Some(a) = addr0 {
            filter.set_addr0(a);
        }
        if let Some(a) = addr1 {
            filter.set_addr1(a);
        }
        if let Some(a) = addr2 {
            filter.set_addr2(a);
        }
        if let Some(a) = addr3 {
            filter.set_addr3(a);
        }
        proof {
            let w: u64 = filter.addr_cfg;
            assert(w >> 16 == 0 ==> w == (w & 0xF) | (((w >> 4) & 0xF) << 4) | (((w >> 8) & 0xF)
                << 8) | (((w >> 12) & 0xF) << 12)) by (bit_vector);
        }
        filter
    }

    /// Writes `range` into slot 0: the addresses into the two 64-bit fields
    /// and the 2-bit tag into the slot's 4-bit field of the control word,
    /// leaving every other bit of the word untouched.
    pub fn set_addr0(&mut self, range: AddrRange)
        ensures
            final(self).addr0_a == range.a,
            final(self).addr0_b == range.b,
            final(self).addr_cfg == (old(self).addr_cfg & !0xFu64) | range.cfg.spec_bits(),
            slot0_bits(final(self).addr_cfg) == range.cfg.spec_bits(),
            slot1_bits(final(self).addr_cfg) == slot1_bits(old(self).addr_cfg),
            slot2_bits(final(self).addr_cfg) == slot2_bits(old(self).addr_cfg),
            slot3_bits(final(self).addr_cfg) == slot3_bits(old(self).addr_cfg),
            final(self).addr_cfg >> 16 == old(self).addr_cfg >> 16,
            final(self).addr1_a == old(self).addr1_a,
            final(self).addr1_b == old(self).addr1_b,
            final(self).addr2_a == old(self).addr2_a,
            final(self).addr2_b == old(self).addr2_b,
            final(self).addr3_a == old(self).addr3_a,
            final(self).addr3_b == old(self).addr3_b,
            old(self).wf() ==> final(self).wf(),
    {
        self.addr0_a = range.a;
        self.addr0_b = range.b;
        let bits: u64 = range.cfg.to_bits() as u64;
        let word: u64 = self.addr_cfg;
        self.addr_cfg = (word & !0xFu64) | bits;
        proof {
            assert(((word & !0xFu64) | bits) & 0xF == bits && (((word & !0xFu64) | bits) >> 4)
                & 0xF == (word >> 4) & 0xF && (((word & !0xFu64) | bits) >> 8) & 0xF == (word >> 8)
                & 0xF && (((word & !0xFu64) | bits) >> 12) & 0xF == (word >> 12) & 0xF && ((word
                & !0xFu64) | bits) >> 16 == word >> 16) by (bit_vector)
                requires
                    bits <= 2,
            ;
        }
    }

    /// Writes `range` into slot 1; see [`AddrFilter::set_addr0`].
    pub fn set_addr1(&mut self, range: AddrRange)
        ensures
            final(self).addr1_a == range.a,
            final(self).addr1_b == range.b,
            final(self).addr_cfg == (old(self).addr_cfg & !0xF0u64) | (range.cfg.spec_bits() << 4),
            slot1_bits(final(self).addr_cfg) == range.cfg.spec_bits(),
            slot0_bits(final(self).addr_cfg) == slot0_bits(old(self).addr_cfg),
            slot2_bits(final(self).addr_cfg) == slot2_bits(old(self).addr_cfg),
            slot3_bits(final(self).addr_cfg) == slot3_bits(old(self).addr_cfg),
            final(self).addr_cfg >> 16 == old(self).addr_cfg >> 16,
            final(self).addr0_a == old(self).addr0_a,
            final(self).addr0_b == old(self).addr0_b,
            final(self).addr2_a == old(self).addr2_a,
            final(self).addr2_b == old(self).addr2_b,
            final(self).addr3_a == old(self).addr3_a,
            final(self).addr3_b == old(self).addr3_b,
            old(self).wf() ==> final(self).wf(),
    {
        self.addr1_a = range.a;
        self.addr1_b = range.b;
        let bits: u64 = range.cfg.to_bits() as u64;
        let word: u64 = self.addr_cfg;
        self.addr_cfg = (word & !0xF0u64) | (bits << 4u64);
        proof {
            assert(((word & !0xF0u64) | (bits << 4u64)) & 0xF == word & 0xF && (((word & !0xF0u64)
                | (bits << 4u64)) >> 4) & 0xF == bits && (((word & !0xF0u64) | (bits << 4u64)) >> 8)
                & 0xF == (word >> 8) & 0xF && (((word & !0xF0u64) | (bits << 4u64)) >> 12) & 0xF == (
            word >> 12) & 0xF && ((word & !0xF0u64) | (bits << 4u64)) >> 16 == word >> 16) by (bit_vector)
                requires
                    bits <= 2,
            ;
        }
    }

    /// Writes `range` into slot 2; see [`AddrFilter::set_addr0`].
    pub fn set_addr2(&mut self, range: AddrRange)
        ensures
            final(self).addr2_a == range.a,
            final(self).addr2_b == range.b,
            final(self).addr_cfg == (old(self).addr_cfg & !0xF00u64) | (range.cfg.spec_bits()
                << 8),
            slot2_bits(final(self).addr_cfg) == range.cfg.spec_bits(),
            slot0_bits(final(self).addr_cfg) == slot0_bits(old(self).addr_cfg),
            slot1_bits(final(self).addr_cfg) == slot1_bits(old(self).addr_cfg),
            slot3_bits(final(self).addr_cfg) == slot3_bits(old(self).addr_cfg),
            final(self).addr_cfg >> 16 == old(self).addr_cfg >> 16,
            final(self).addr0_a == old(self).addr0_a,
            final(self).addr0_b == old(self).addr0_b,
            final(self).addr1_a == old(self).addr1_a,
            final(self).addr1_b == old(self).addr1_b,
            final(self).addr3_a == old(self).addr3_a,
            final(self).addr3_b == old(self).addr3_b,
            old(self).wf() ==> final(self).wf(),
    {
        self.addr2_a = range.a;
        self.addr2_b = range.b;
        let bits: u64 = range.cfg.to_bits() as u64;
        let word: u64 = self.addr_cfg;
        self.addr_cfg = (word & !0xF00u64) | (bits << 8u64);
        proof {
            assert(((word & !0xF00u64) | (bits << 8u64)) & 0xF == word & 0xF && (((word
                & !0xF00u64) | (bits << 8u64)) >> 4) & 0xF == (word >> 4) & 0xF && (((word
                & !0xF00u64) | (bits << 8u64)) >> 8) & 0xF == bits && (((word & !0xF00u64) | (bits
                << 8u64)) >> 12) & 0xF == (word >> 12) & 0xF && ((word & !0xF00u64) | (bits
                << 8u64)) >> 16 == word >> 16) by (bit_vector)
                requires
                    bits <= 2,
            ;
        }
    }

    /// Writes `range` into slot 3; see [`AddrFilter::set_addr0`].
    pub fn set_addr3(&mut self, range: AddrRange)
        ensures
            final(self).addr3_a == range.a,
            final(self).addr3_b == range.b,
            final(self).addr_cfg == (old(self).addr_cfg & !0xF000u64) | (range.cfg.spec_bits()
                << 12),
            slot3_bits(final(self).addr_cfg) == range.cfg.spec_bits(),
            slot0_bits(final(self).addr_cfg) == slot0_bits(old(self).addr_cfg),
            slot1_bits(final(self).addr_cfg) == slot1_bits(old(self).addr_cfg),
            slot2_bits(final(self).addr_cfg) == slot2_bits(old(self).addr_cfg),
            final(self).addr_cfg >> 16 == old(self).addr_cfg >> 16,
            final(self).addr0_a == old(self).addr0_a,
            final(self).addr0_b == old(self).addr0_b,
            final(self).addr1_a == old(self).addr1_a,
            final(self).addr1_b == old(self).addr1_b,
            final(self).addr2_a == old(self).addr2_a,
            final(self).addr2_b == old(self).addr2_b,
            old(self).wf() ==> final(self).wf(),
    {
        self.addr3_a = range.a;
        self.addr3_b = range.b;
        let bits: u64 = range.cfg.to_bits() as u64;
        let word: u64 = self.addr_cfg;
        self.addr_cfg = (word & !0xF000u64) | (bits << 12u64);
        proof {
            assert(((word & !0xF000u64) | (bits << 12u64)) & 0xF == word & 0xF && (((word
                & !0xF000u64) | (bits << 12u64)) >> 4) & 0xF == (word >> 4) & 0xF && (((word
                & !0xF000u64) | (bits << 12u64)) >> 8) & 0xF == (word >> 8) & 0xF && (((word
                & !0xF000u64) | (bits << 12u64)) >> 12) & 0xF == bits && ((word & !0xF000u64)
                | (bits << 12u64)) >> 16 == word >> 16) by (bit_vector)
                requires
                    bits <= 2,
            ;
        }
    }

    /// Reads slot 0 back as a range; total on every well-formed filter.
    pub fn addr0(&self) -> (r: AddrRange)
        requires
            self.wf(),
        ensures
            r == self.spec_addr0(),
    {
        let word: u64 = self.addr_cfg;
        let bits: u32 = (word & 0xFu64) as u32;
        proof {
            assert(word & 0xF <= 0xF && (word & 0xF) as u32 as u64 == word & 0xF) by (bit_vector);
        }
        match AddrConfig::from_bits(bits) {
            Some(cfg) => AddrRange { a: self.addr0_a, b: self.addr0_b, cfg },
            None => vstd::pervasive::unreached(),
        }
    }

    /// Reads slot 1 back as a range; total on every well-formed filter.
    pub fn addr1(&self) -> (r: AddrRange)
        requires
            self.wf(),
        ensures
            r == self.spec_addr1(),
    {
        let word: u64 = self.addr_cfg;
        let bits: u32 = ((word >> 4u64) & 0xFu64) as u32;
        proof {
            assert((word >> 4) & 0xF <= 0xF && ((word >> 4) & 0xF) as u32 as u64 == (word >> 4)
                & 0xF) by (bit_vector);
        }
        match AddrConfig::from_bits(bits) {
            Some(cfg) => AddrRange { a: self.addr1_a, b: self.addr1_b, cfg },
            None => vstd::pervasive::unreached(),
        }
    }

    /// Reads slot 2 back as a range; total on every well-formed filter.
    pub fn addr2(&self) -> (r: AddrRange)
        requires
            self.wf(),
        ensures
            r == self.spec_addr2(),
    {
        let word: u64 = self.addr_cfg;
        let bits: u32 = ((word >> 8u64) & 0xFu64) as u32;
        proof {
            assert((word >> 8) & 0xF <= 0xF && ((word >> 8) & 0xF) as u32 as u64 == (word >> 8)
                & 0xF) by (bit_vector);
        }
        match AddrConfig::from_bits(bits) {
            Some(cfg) => AddrRange { a: self.addr2_a, b: self.addr2_b, cfg },
            None => vstd::pervasive::unreached(),
        }
    }

    /// Reads slot 3 back as a range; total on every well-formed filter.
    pub fn addr3(&self) -> (r: AddrRange)
        requires
            self.wf(),
        ensures
            r == self.spec_addr3(),
    {
        let word: u64 = self.addr_cfg;
        let bits: u32 = ((word >> 12u64) & 0xFu64) as u32;
        proof {
            assert((word >> 12) & 0xF <= 0xF && ((word >> 12) & 0xF) as u32 as u64 == (word >> 12)
                & 0xF) by (bit_vector);
        }
        match AddrConfig::from_bits(bits) {
            Some(cfg) => AddrRange { a: self.addr3_a, b: self.addr3_b, cfg },
            None => vstd::pervasive::unreached(),
        }
    }
}

/// Address-filter round trip: a filter built from four optional ranges is
/// well formed and reads back, slot by slot, exactly the ranges that were
/// given; an absent slot reads back as the disabled range at address zero.
pub proof fn lemma_filter_round_trip(
    addr0: Option<AddrRange>,
    addr1: Option<AddrRange>,
    addr2: Option<AddrRange>,
    addr3: Option<AddrRange>,
)
    ensures
        AddrFilter::spec_new(addr0, addr1, addr2, addr3).wf(),
        AddrFilter::spec_new(addr0, addr1, addr2, addr3).spec_addr0() == range_or_empty(addr0),
        AddrFilter::spec_new(addr0, addr1, addr2, addr3).spec_addr1() == range_or_empty(addr1),
        AddrFilter::spec_new(addr0, addr1, addr2, addr3).spec_addr2() == range_or_empty(addr2),
        AddrFilter::spec_new(addr0, addr1, addr2, addr3).spec_addr3() == range_or_empty(addr3),
{
    let b0: u64 = range_or_empty(addr0).cfg.spec_bits();
    let b1: u64 = range_or_empty(addr1).cfg.spec_bits();
    let b2: u64 = range_or_empty(addr2).cfg.spec_bits();
    let b3: u64 = range_or_empty(addr3).cfg.spec_bits();
    let w: u64 = pack_ctl(b0, b1, b2, b3);
    assert((b0 | (b1 << 4) | (b2 << 8) | (b3 << 12)) & 0xF == b0 && ((b0 | (b1 << 4) | (b2 << 8)
        | (b3 << 12)) >> 4) & 0xF == b1 && ((b0 | (b1 << 4) | (b2 << 8) | (b3 << 12)) >> 8)
        & 0xF == b2 && ((b0 | (b1 << 4) | (b2 << 8) | (b3 << 12)) >> 12) & 0xF == b3 && (b0 | (b1
        << 4) | (b2 << 8) | (b3 << 12)) >> 16 == 0) by (bit_vector)
        requires
            b0 <= 2 && b1 <= 2 && b2 <= 2 && b3 <= 2,
    ;
}

/// The empty filter is the filter built with four absent slots, and each of
/// its slots reads back as the disabled range at address zero.
pub proof fn lemma_empty_filter()
    ensures
        AddrFilter::spec_new(None, None, None, None) == AddrFilter::spec_empty(),
        AddrFilter::spec_empty().wf(),
        AddrFilter::spec_empty().spec_addr0() == AddrRange::spec_empty(),
        AddrFilter::spec_empty().spec_addr1() == AddrRange::spec_empty(),
        AddrFilter::spec_empty().spec_addr2() == AddrRange::spec_empty(),
        AddrFilter::spec_empty().spec_addr3() == AddrRange::spec_empty(),
{
    assert(0u64 | (0u64 << 4) | (0u64 << 8) | (0u64 << 12) == 0 && 0u64 & 0xF == 0 && (0u64 >> 4)
        & 0xF == 0 && (0u64 >> 8) & 0xF == 0 && (0u64 >> 12) & 0xF == 0 && 0u64 >> 16 == 0) by (bit_vector);
}

} // verus!
