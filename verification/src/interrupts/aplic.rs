//! The APLIC driver: interrupt routing, priorities, claim and complete.

use vstd::prelude::*;
use crate::registers::access::RegWrite;
use crate::registers::aplic::{
    CLAIM, COMPLETE, DELIVERY_INACTIVE, DOMAINCFG, IDELIVERY, IDENTITY, ITHRESHOLD, MAX_PRIORITY,
    NUM_HARTS, NUM_SOURCES, SRCCFG, TARGET, TARGET_MODE_SPECIFIC_HART, claim, complete, identity,
    idelivery, ithreshold, sourcecfg, target,
};

verus! {

/// An interrupt source's configuration.
#[derive(Debug, Clone, Copy)]
pub struct SourceConfig {
    pub delivery_mode: u32,
    pub target_mode: u32,
    pub priority: u32,
}

impl Default for SourceConfig {
    fn default() -> (c: Self)
        ensures
            c.delivery_mode == DELIVERY_INACTIVE,
            c.target_mode == TARGET_MODE_SPECIFIC_HART,
            c.priority == 0,
    {
        SourceConfig {
            delivery_mode: DELIVERY_INACTIVE,
            target_mode: TARGET_MODE_SPECIFIC_HART,
            priority: 0,
        }
    }
}

/// Where an interrupt source is delivered.
#[derive(Debug, Clone, Copy)]
pub struct TargetConfig {
    pub hart_id: usize,
    pub priority: u32,
    pub enabled: bool,
}

impl Default for TargetConfig {
    fn default() -> (c: Self)
        ensures
            c.hart_id == 0,
            c.priority == 0,
            !c.enabled,
    {
        TargetConfig { hart_id: 0, priority: 0, enabled: false }
    }
}

/// Source configuration word: delivery mode in bits 0-3, target mode in
/// bits 4-7, priority in bits 8-15.
pub open spec fn source_word(c: SourceConfig) -> u32 {
    (c.delivery_mode & 0xF) | ((c.target_mode & 0xF) << 4) | ((c.priority & 0xFF) << 8)
}

/// Target word: hart in bits 0-1, priority in bits 2-6, enable in bit 7.
pub open spec fn target_word(t: TargetConfig) -> u32 {
    ((t.hart_id as u32) & 0x3) | ((t.priority & 0x1F) << 2) | ((if t.enabled { 1u32 } else { 0u32 }) << 7)
}

/// The source configuration word reads back its three fields.
pub proof fn law_source_word_fields(c: SourceConfig)
    ensures
        source_word(c) & 0xF == c.delivery_mode & 0xF,
        (source_word(c) >> 4) & 0xF == c.target_mode & 0xF,
        (source_word(c) >> 8) & 0xFF == c.priority & 0xFF,
        source_word(c) >> 16 == 0,
{
    let d = c.delivery_mode;
    let m = c.target_mode;
    let p = c.priority;
    assert(((d & 0xF) | ((m & 0xF) << 4) | ((p & 0xFF) << 8)) & 0xF == d & 0xF) by (bit_vector);
    assert((((d & 0xF) | ((m & 0xF) << 4) | ((p & 0xFF) << 8)) >> 4) & 0xF == m & 0xF) by (bit_vector);
    assert((((d & 0xF) | ((m & 0xF) << 4) | ((p & 0xFF) << 8)) >> 8) & 0xFF == p & 0xFF) by (bit_vector);
    assert(((d & 0xF) | ((m & 0xF) << 4) | ((p & 0xFF) << 8)) >> 16 == 0) by (bit_vector);
}

/// The target word reads back its three fields.
pub proof fn law_target_word_fields(t: TargetConfig)
    ensures
        target_word(t) & 0x3 == (t.hart_id as u32) & 0x3,
        (target_word(t) >> 2) & 0x1F == t.priority & 0x1F,
        ((target_word(t) >> 7) & 1 == 1) == t.enabled,
        target_word(t) >> 8 == 0,
{
    let h = t.hart_id as u32;
    let p = t.priority;
    let e: u32 = if t.enabled { 1 } else { 0 };
    assert((h & 0x3 | ((p & 0x1F) << 2) | (e << 7)) & 0x3 == h & 0x3) by (bit_vector)
        requires e <= 1;
    assert(((h & 0x3 | ((p & 0x1F) << 2) | (e << 7)) >> 2) & 0x1F == p & 0x1F) by (bit_vector)
        requires e <= 1;
    assert((((h & 0x3 | ((p & 0x1F) << 2) | (e << 7)) >> 7) & 1 == 1) == (e == 1)) by (bit_vector)
        requires e <= 1;
    assert((h & 0x3 | ((p & 0x1F) << 2) | (e << 7)) >> 8 == 0) by (bit_vector)
        requires e <= 1;
}

/// The writes of initialization: enable the domain (little-endian); make
/// every source inactive and untargeted; enable delivery with threshold 0 on
/// every hart.
pub open spec fn init_writes() -> Seq<RegWrite> {
    seq![RegWrite::Word { addr: DOMAINCFG, value: 1 }] + Seq::new(
        (2 * NUM_SOURCES) as nat,
        |i: int|
            if i % 2 == 0 {
                RegWrite::Word { addr: (SRCCFG + (i / 2 + 1) * 4) as usize, value: DELIVERY_INACTIVE }
            } else {
                RegWrite::Word { addr: (TARGET + (i / 2 + 1) * 4) as usize, value: 0 }
            },
    ) + Seq::new(
        (2 * NUM_HARTS) as nat,
        |j: int|
            if j % 2 == 0 {
                RegWrite::Word { addr: (IDELIVERY + (j / 2) * 4) as usize, value: 1 }
            } else {
                RegWrite::Word { addr: (ITHRESHOLD + (j / 2) * 4) as usize, value: 0 }
            },
    )
}

/// What initialization writes, register by register: the domain is enabled
/// first; then each source `s` (1 to 511) has its configuration register
/// (`0x0C00_0004 + 4s`) and its target register (`0x0C00_4000 + 4s`) cleared;
/// then each hart `h` (0 to 3) has delivery enabled (`0x0C00_7000 + 4h`
/// receives 1) and its threshold (`0x0C00_7080 + 4h`) set to 0, admitting
/// every priority. Nothing else is written.
pub proof fn law_init_writes_every_register()
    ensures
        init_writes().len() == 1031,
        init_writes()[0] == (RegWrite::Word { addr: 0x0C00_0000, value: 1 }),
        forall|s: int|
            1 <= s <= 511 ==> #[trigger] init_writes()[2 * s - 1] == (RegWrite::Word {
                addr: (0x0C00_0004 + 4 * s) as usize,
                value: 0,
            }),
        forall|s: int|
            1 <= s <= 511 ==> #[trigger] init_writes()[2 * s] == (RegWrite::Word {
                addr: (0x0C00_4000 + 4 * s) as usize,
                value: 0,
            }),
        forall|h: int|
            0 <= h < 4 ==> #[trigger] init_writes()[1023 + 2 * h] == (RegWrite::Word {
                addr: (0x0C00_7000 + 4 * h) as usize,
                value: 1,
            }),
        forall|h: int|
            0 <= h < 4 ==> #[trigger] init_writes()[1024 + 2 * h] == (RegWrite::Word {
                addr: (0x0C00_7080 + 4 * h) as usize,
                value: 0,
            }),
{
    let w = init_writes();
    assert forall|s: int| 1 <= s <= 511 implies #[trigger] w[2 * s - 1] == (RegWrite::Word {
        addr: (0x0C00_0004 + 4 * s) as usize,
        value: 0,
    }) by {
        let i = 2 * s - 2;
        assert(i % 2 == 0 && i / 2 + 1 == s);
    }
    assert forall|s: int| 1 <= s <= 511 implies #[trigger] w[2 * s] == (RegWrite::Word {
        addr: (0x0C00_4000 + 4 * s) as usize,
        value: 0,
    }) by {
        let i = 2 * s - 1;
        assert(i % 2 == 1 && i / 2 + 1 == s);
    }
    assert forall|h: int| 0 <= h < 4 implies #[trigger] w[1023 + 2 * h] == (RegWrite::Word {
        addr: (0x0C00_7000 + 4 * h) as usize,
        value: 1,
    }) by {
        let j = 2 * h;
        assert(j % 2 == 0 && j / 2 == h);
    }
    assert forall|h: int| 0 <= h < 4 implies #[trigger] w[1024 + 2 * h] == (RegWrite::Word {
        addr: (0x0C00_7080 + 4 * h) as usize,
        value: 0,
    }) by {
        let j = 2 * h + 1;
        assert(j % 2 == 1 && j / 2 == h);
    }
}

/// The APLIC driver state.
pub struct Aplic {
    initialized: bool,
}

impl Aplic {
    /// Whether the controller has been initialized.
    pub closed spec fn spec_initialized(self) -> bool {
        self.initialized
    }

    /// A driver for a controller not yet initialized.
    pub fn new() -> (a: Self)
        ensures
            !a.spec_initialized(),
    {
        Aplic { initialized: false }
    }

    /// Initializes the controller once; a second call writes nothing.
    pub fn init(&mut self) -> (w: Vec<RegWrite>)
        ensures
            final(self).spec_initialized(),
            w@ == if old(self).spec_initialized() {
                Seq::<RegWrite>::empty()
            } else {
                init_writes()
            },
    {
        let mut w: Vec<RegWrite> = Vec::new();
        if self.initialized {
            return w;
        }
        w.push(RegWrite::Word { addr: DOMAINCFG, value: 1 });
        let mut source_id: usize = 1;
        while source_id <= NUM_SOURCES
            invariant
                1 <= source_id <= NUM_SOURCES + 1,
                w@ == seq![RegWrite::Word { addr: DOMAINCFG, value: 1 }] + init_writes().subrange(
                    1,
                    1 + 2 * (source_id - 1),
                ),
            decreases NUM_SOURCES + 1 - source_id,
        {
            w.push(RegWrite::Word { addr: sourcecfg(source_id), value: DELIVERY_INACTIVE });
            w.push(RegWrite::Word { addr: target(source_id), value: 0 });
            proof {
                assert(w@ =~= seq![RegWrite::Word { addr: DOMAINCFG, value: 1 }] + init_writes().subrange(
                    1,
                    1 + 2 * source_id,
                ));
            }
            source_id = source_id + 1;
        }
        let mut hart_id: usize = 0;
        while hart_id < NUM_HARTS
            invariant
                hart_id <= NUM_HARTS,
                w@ == init_writes().subrange(0, 1 + 2 * NUM_SOURCES + 2 * hart_id),
            decreases NUM_HARTS - hart_id,
        {
            w.push(RegWrite::Word { addr: idelivery(hart_id), value: 1 });
            w.push(RegWrite::Word { addr: ithreshold(hart_id), value: 0 });
            proof {
                assert(w@ =~= init_writes().subrange(0, 1 + 2 * NUM_SOURCES + 2 * (hart_id + 1)));
            }
            hart_id = hart_id + 1;
        }
        assert(w@ =~= init_writes());
        self.initialized = true;
        w
    }

    /// Routes a source (1 to 511) with the given configuration to a hart.
    pub fn enable_source(&self, source_id: usize, config: SourceConfig, target_cfg: TargetConfig) -> (w:
        Vec<RegWrite>)
        requires
            self.spec_initialized(),
            1 <= source_id <= NUM_SOURCES,
            config.priority <= MAX_PRIORITY,
            target_cfg.hart_id < NUM_HARTS,
        ensures
            w@ == seq![
                RegWrite::Word { addr: (SRCCFG + source_id * 4) as usize, value: source_word(config) },
                RegWrite::Word { addr: (TARGET + source_id * 4) as usize, value: target_word(target_cfg) },
            ],
    {
        let sourcecfg_value = (config.delivery_mode & 0xF) | ((config.target_mode & 0xF) << 4) | ((
        config.priority & 0xFF) << 8);
        let enabled: u32 = if target_cfg.enabled { 1 } else { 0 };
        let target_value = ((target_cfg.hart_id as u32) & 0x3) | ((target_cfg.priority & 0x1F) << 2) | (
        enabled << 7);
        let mut w: Vec<RegWrite> = Vec::new();
        w.push(RegWrite::Word { addr: sourcecfg(source_id), value: sourcecfg_value });
        w.push(RegWrite::Word { addr: target(source_id), value: target_value });
        assert(w@ =~= seq![
            RegWrite::Word { addr: (SRCCFG + source_id * 4) as usize, value: source_word(config) },
            RegWrite::Word { addr: (TARGET + source_id * 4) as usize, value: target_word(target_cfg) },
        ]);
        w
    }

    /// Makes a source (1 to 511) inactive and untargeted.
    pub fn disable_source(&self, source_id: usize) -> (w: Vec<RegWrite>)
        requires
            self.spec_initialized(),
            1 <= source_id <= NUM_SOURCES,
        ensures
            w@ == seq![
                RegWrite::Word { addr: (SRCCFG + source_id * 4) as usize, value: DELIVERY_INACTIVE },
                RegWrite::Word { addr: (TARGET + source_id * 4) as usize, value: 0 },
            ],
    {
        let mut w: Vec<RegWrite> = Vec::new();
        w.push(RegWrite::Word { addr: sourcecfg(source_id), value: DELIVERY_INACTIVE });
        w.push(RegWrite::Word { addr: target(source_id), value: 0 });
        assert(w@ =~= seq![
            RegWrite::Word { addr: (SRCCFG + source_id * 4) as usize, value: DELIVERY_INACTIVE },
            RegWrite::Word { addr: (TARGET + source_id * 4) as usize, value: 0 },
        ]);
        w
    }

    /// Sets a hart's priority threshold (0 to 31).
    pub fn set_threshold(&self, hart_id: usize, threshold: u32) -> (w: RegWrite)
        requires
            self.spec_initialized(),
            hart_id < NUM_HARTS,
            threshold <= MAX_PRIORITY,
        ensures
            w == (RegWrite::Word { addr: (ITHRESHOLD + hart_id * 4) as usize, value: threshold & 0x1F }),
    {
        RegWrite::Word { addr: ithreshold(hart_id), value: threshold & 0x1F }
    }

    /// Enables or disables interrupt delivery to a hart.
    pub fn set_delivery_enable(&self, hart_id: usize, enable: bool) -> (w: RegWrite)
        requires
            self.spec_initialized(),
            hart_id < NUM_HARTS,
        ensures
            w == (RegWrite::Word {
                addr: (IDELIVERY + hart_id * 4) as usize,
                value: if enable { 1u32 } else { 0u32 },
            }),
    {
        RegWrite::Word { addr: idelivery(hart_id), value: if enable { 1 } else { 0 } }
    }

    /// The claim register a hart reads to claim its highest-priority pending
    /// interrupt (the value read is the source, 0 for none).
    pub fn claim_interrupt(&self, hart_id: usize) -> (addr: usize)
        requires
            self.spec_initialized(),
            hart_id < NUM_HARTS,
        ensures
            addr == CLAIM + hart_id * 4,
    {
        claim(hart_id)
    }

    /// Signals on a hart that a claimed interrupt (1 to 511) was handled.
    pub fn complete_interrupt(&self, hart_id: usize, interrupt_id: usize) -> (w: RegWrite)
        requires
            self.spec_initialized(),
            1 <= interrupt_id <= NUM_SOURCES,
            hart_id < NUM_HARTS,
        ensures
            w == (RegWrite::Word { addr: (COMPLETE + hart_id * 4) as usize, value: interrupt_id as u32 }),
    {
        RegWrite::Word { addr: complete(hart_id), value: interrupt_id as u32 }
    }

    /// The identity register that shows a hart's highest-priority pending
    /// interrupt without claiming it.
    pub fn get_pending_interrupt(&self, hart_id: usize) -> (addr: usize)
        requires
            self.spec_initialized(),
            hart_id < NUM_HARTS,
        ensures
            addr == IDENTITY + hart_id * 4,
    {
        identity(hart_id)
    }

    /// Whether the controller has been initialized.
    pub fn is_initialized(&self) -> (b: bool)
        ensures
            b == self.spec_initialized(),
    {
        self.initialized
    }

    /// The domain configuration register to read, once initialized (before
    /// that the configuration reads as 0 without an access).
    pub fn get_domain_config(&self) -> (addr: Option<usize>)
        ensures
            addr == if self.spec_initialized() {
                Some(DOMAINCFG)
            } else {
                None::<usize>
            },
    {
        if !self.initialized {
            return None;
        }
        Some(DOMAINCFG)
    }
}

impl Default for Aplic {
    fn default() -> (a: Self)
        ensures
            !a.spec_initialized(),
    {
        Self::new()
    }
}

} // verus!
