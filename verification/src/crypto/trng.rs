//! The true random number generator (TRNG) of the crypto accelerator.

use vstd::prelude::*;
use vstd::bytes::{spec_u32_to_le_bytes, u32_to_le_bytes};
use vstd::slice::SliceAdditionalExecFns;
use crate::registers::access::RegWrite;
use crate::registers::hca::{TRNG_CTRL, TRNG_FIFO, TRNG_STATUS};

verus! {

/// Control: enable the generator.
pub const CTRL_ENABLE: u32 = 0x01;

/// Control: start the oscillator.
pub const CTRL_START_OSC: u32 = 0x02;

/// Status: data ready in the FIFO.
pub const STATUS_DATA_READY: u32 = 0x01;

/// Status: oscillator stable.
pub const STATUS_OSC_STABLE: u32 = 0x02;

/// Number of status polls before giving up.
pub const POLL_LIMIT: u32 = 1_000_000;

/// What to do after reading the status register while waiting for a bit.
#[derive(Debug, Clone, Copy, PartialEq, Eq)]
pub enum PollStep {
    /// The awaited bit is set.
    Ready,
    /// Not yet; poll again with this many attempts left.
    Retry { remaining: u32 },
    /// The attempts are exhausted.
    TimedOut,
}

/// Number of random words needed to fill `n` bytes (four bytes per word).
pub open spec fn words_needed(n: nat) -> nat {
    n / 4 + if n % 4 != 0 {
        1nat
    } else {
        0nat
    }
}

/// The byte at position `i` of a buffer filled from `words`: byte `i % 4`
/// of word `i / 4` in little-endian order.
pub open spec fn filled_byte(words: Seq<u32>, i: int) -> u8 {
    spec_u32_to_le_bytes(words[i / 4])[i % 4]
}

/// One step of waiting for a bit of `mask` in the status register, with
/// `remaining` attempts left (this read included).
pub open spec fn poll_next(remaining: u32, status: u32, mask: u32) -> PollStep {
    if status & mask != 0 {
        PollStep::Ready
    } else if remaining == 1 {
        PollStep::TimedOut
    } else {
        PollStep::Retry { remaining: (remaining - 1) as u32 }
    }
}

/// Where waiting ends when the status register reads `statuses` in turn:
/// each read is one step, until the bit shows, the attempts run out, or the
/// reads do (still waiting).
pub open spec fn poll_run(remaining: u32, statuses: Seq<u32>, mask: u32) -> PollStep
    decreases statuses.len(),
{
    if statuses.len() == 0 || remaining == 0 {
        PollStep::Retry { remaining }
    } else {
        match poll_next(remaining, statuses[0], mask) {
            PollStep::Retry { remaining: r } => poll_run(r, statuses.drop_first(), mask),
            step => step,
        }
    }
}

/// Waiting with `remaining` attempts succeeds exactly when the bit shows in
/// one of the first `remaining` reads, and otherwise times out after
/// exactly that many reads.
pub proof fn law_polling_gives_up_after_limit(remaining: u32, statuses: Seq<u32>, mask: u32)
    requires
        0 < remaining <= statuses.len(),
    ensures
        (exists|i: int| 0 <= i < remaining && #[trigger] statuses[i] & mask != 0) ==> poll_run(
            remaining,
            statuses,
            mask,
        ) == PollStep::Ready,
        !(exists|i: int| 0 <= i < remaining && #[trigger] statuses[i] & mask != 0) ==> poll_run(
            remaining,
            statuses,
            mask,
        ) == PollStep::TimedOut,
    decreases remaining,
{
    let t = statuses.drop_first();
    if statuses[0] & mask == 0 && remaining > 1 {
        law_polling_gives_up_after_limit((remaining - 1) as u32, t, mask);
        if exists|i: int| 0 <= i < remaining && #[trigger] statuses[i] & mask != 0 {
            let i = choose|i: int| 0 <= i < remaining && #[trigger] statuses[i] & mask != 0;
            assert(i > 0);
            assert(t[i - 1] == statuses[i]);
        } else {
            assert forall|j: int| 0 <= j < remaining - 1 implies !(#[trigger] t[j] & mask != 0) by {
                assert(t[j] == statuses[j + 1]);
            }
        }
    } else if statuses[0] & mask != 0 {
        assert(0 <= 0 < remaining && statuses[0] & mask != 0);
    } else {
        assert forall|j: int| 0 <= j < remaining implies !(#[trigger] statuses[j] & mask != 0) by {
            assert(j == 0);
        }
    }
}

/// Driver state of the generator.
pub struct Trng {
    initialized: bool,
}

impl Trng {
    /// Whether the generator has been initialized.
    pub closed spec fn spec_initialized(self) -> bool {
        self.initialized
    }

    /// A driver for a generator not yet initialized.
    pub fn new() -> (t: Self)
        ensures
            !t.spec_initialized(),
    {
        Trng { initialized: false }
    }

    /// Initializes the generator once: enables it and starts the oscillator
    /// (the caller then waits for `STATUS_OSC_STABLE`). A second call writes
    /// nothing.
    pub fn init(&mut self) -> (w: Option<RegWrite>)
        ensures
            final(self).spec_initialized(),
            w == if old(self).spec_initialized() {
                None::<RegWrite>
            } else {
                Some(RegWrite::Word { addr: TRNG_CTRL, value: CTRL_ENABLE | CTRL_START_OSC })
            },
    {
        if self.initialized {
            return None;
        }
        self.initialized = true;
        Some(RegWrite::Word { addr: TRNG_CTRL, value: CTRL_ENABLE | CTRL_START_OSC })
    }

    /// One step of waiting for a status bit: ready when a bit of `mask` is
    /// set, otherwise retry with one attempt less, or time out on the last.
    pub fn poll_step(remaining: u32, status: u32, mask: u32) -> (step: PollStep)
        requires
            remaining > 0,
        ensures
            step == poll_next(remaining, status, mask),
    {
        if status & mask != 0 {
            PollStep::Ready
        } else if remaining - 1 == 0 {
            PollStep::TimedOut
        } else {
            PollStep::Retry { remaining: remaining - 1 }
        }
    }

    /// Fills `buffer` from random words: four bytes per word, little-endian,
    /// the last word cut to the bytes that remain.
    pub fn fill_bytes(&self, buffer: &mut [u8], words: &[u32])
        requires
            self.spec_initialized(),
            words@.len() == words_needed(old(buffer)@.len()),
        ensures
            final(buffer)@.len() == old(buffer)@.len(),
            forall|i: int| 0 <= i < final(buffer)@.len() ==> #[trigger] final(buffer)@[i] == filled_byte(words@, i),
    {
        let n = buffer.len();
        let mut k: usize = 0;
        while k < words.len()
            invariant
                n == buffer@.len(),
                n == old(buffer)@.len(),
                words@.len() == words_needed(n as nat),
                k <= words@.len(),
                forall|i: int| 0 <= i < n && i < 4 * k ==> #[trigger] buffer@[i] == filled_byte(words@, i),
            decreases words@.len() - k,
        {
            let bytes = u32_to_le_bytes(words[k]);
            let mut j: usize = 0;
            while j < 4
                invariant
                    n == buffer@.len(),
                    words@.len() == words_needed(n as nat),
                    k < words@.len(),
                    bytes@ == spec_u32_to_le_bytes(words@[k as int]),
                    bytes@.len() == 4,
                    j <= 4,
                    forall|i: int| 0 <= i < n && i < 4 * k + j ==> #[trigger] buffer@[i] == filled_byte(words@, i),
                decreases 4 - j,
            {
                assert(4 * k + j <= 4 * words@.len() + 4);
                let pos = 4 * k + j;
                if pos < n {
                    buffer.set(pos, bytes[j]);
                    assert((pos as int) / 4 == k as int && (pos as int) % 4 == j as int);
                }
                j = j + 1;
            }
            k = k + 1;
        }
        assert(4 * words@.len() >= n);
    }

    /// The data register to read a random word from once the data-ready bit
    /// shows; nothing before the generator is initialized.
    pub fn fifo(&self) -> (addr: Option<usize>)
        ensures
            addr == if self.spec_initialized() {
                Some(TRNG_FIFO)
            } else {
                None::<usize>
            },
    {
        if !self.initialized {
            return None;
        }
        Some(TRNG_FIFO)
    }

    /// Whether the generator has been initialized.
    pub fn is_initialized(&self) -> (b: bool)
        ensures
            b == self.spec_initialized(),
    {
        self.initialized
    }

    /// The status register to read, once initialized (before that the
    /// status reads as 0 without an access).
    pub fn get_status(&self) -> (addr: Option<usize>)
        ensures
            addr == if self.spec_initialized() {
                Some(TRNG_STATUS)
            } else {
                None::<usize>
            },
    {
        if !self.initialized {
            return None;
        }
        Some(TRNG_STATUS)
    }
}

impl Default for Trng {
    fn default() -> (t: Self)
        ensures
            !t.spec_initialized(),
    {
        Self::new()
    }
}

} // verus!
