//! Block and sample bookkeeping between a software-defined radio and the
//! modulators and demodulators. Samples themselves are not touched here.

use vstd::prelude::*;

use crate::phy::components::modulator::{
    Error, Mode, Modulator, TxSlotBits, SAMPLES_SLOT,
};
use crate::sap::StackMode;
use crate::tdma::{TdmaTime, SLOT_COUNT_SPAN};

verus! {

/// Samples by which the uplink is sent later than the recovered downlink timing
/// asks for.
pub const MS_TX_SAMPLE_DELAY: i64 = 0;

/// Blocks by which generation is at least ahead of the hardware.
pub const TX_BLOCKS_AHEAD_MIN: i64 = 2;

/// Blocks by which generation is at most ahead of the hardware, and of
/// reception.
pub const TX_BLOCKS_AHEAD_MAX: i64 = 60;

// ---------------------------------------------------------------------------
// Carriers
// ---------------------------------------------------------------------------

/// The carriers of a device. `F` is how a frequency is held.
#[derive(Debug)]
pub struct PhyConfig<F> {
    /// Downlink carriers to follow, each with an uplink carrier to follow beside
    /// it.
    pub monitor_frequencies: Vec<(F, Option<F>)>,
    /// Downlink carriers of a base station.
    pub bs_dl_frequencies: Vec<F>,
    /// Uplink carriers of a base station.
    pub bs_ul_frequencies: Vec<F>,
    /// Uplink carriers of a mobile station.
    pub ms_ul_frequencies: Vec<F>,
}

impl<F> PhyConfig<F> {
    /// Whether these are the carriers for a mode: a mobile station follows the
    /// downlink and sends on the uplink, a base station the other way round.
    pub open spec fn serves(self, mode: StackMode, dl: F, ul: F) -> bool {
        if mode is Ms {
            &&& self.monitor_frequencies@ == seq![(dl, None::<F>)]
            &&& self.ms_ul_frequencies@ == seq![ul]
            &&& self.bs_dl_frequencies@ == Seq::<F>::empty()
            &&& self.bs_ul_frequencies@ == Seq::<F>::empty()
        } else {
            &&& self.monitor_frequencies@ == Seq::<(F, Option<F>)>::empty()
            &&& self.ms_ul_frequencies@ == Seq::<F>::empty()
            &&& self.bs_dl_frequencies@ == seq![dl]
            &&& self.bs_ul_frequencies@ == seq![ul]
        }
    }

    /// Whether there is something to transmit on: the device transmits, and there is
    /// a carrier for it.
    pub open spec fn transmits(self, tx_enabled: bool) -> bool {
        tx_enabled && (self.bs_dl_frequencies@.len() > 0 || self.ms_ul_frequencies@.len() > 0)
    }
}

impl<F: Copy> PhyConfig<F> {
    /// The carriers for a mode: a mobile station follows the downlink and sends
    /// on the uplink, a base station the other way round.
    pub fn for_mode(mode: StackMode, dl: F, ul: F) -> (r: PhyConfig<F>)
        ensures
            r.serves(mode, dl, ul),
    {
        let mut config = PhyConfig {
            monitor_frequencies: Vec::new(),
            bs_dl_frequencies: Vec::new(),
            bs_ul_frequencies: Vec::new(),
            ms_ul_frequencies: Vec::new(),
        };
        match mode {
            StackMode::Ms => {
                config.monitor_frequencies.push((dl, None));
                config.ms_ul_frequencies.push(ul);
            },
            _ => {
                config.bs_dl_frequencies.push(dl);
                config.bs_ul_frequencies.push(ul);
            },
        }
        config
    }

    /// Whether a transmit chain is needed: the device transmits, and there is a
    /// carrier to transmit on.
    pub fn needs_tx(&self, tx_enabled: bool) -> (r: bool)
        ensures
            r == self.transmits(tx_enabled),
    {
        tx_enabled && (self.bs_dl_frequencies.len() > 0 || self.ms_ul_frequencies.len() > 0)
    }
}

// ---------------------------------------------------------------------------
// Reception
// ---------------------------------------------------------------------------

/// `a / b`, rounded down.
fn floor_div(a: i64, b: i64) -> (r: i64)
    requires
        b > 0,
    ensures
        r == a as int / b as int,
{
    let q: i64 = a / b;
    let m: i64 = a % b;
    proof {
        vstd::arithmetic::div_mod::lemma_fundamental_div_mod(a as int, b as int);
        if a < 0 {
            vstd::arithmetic::div_mod::lemma_fundamental_div_mod(-a as int, b as int);
        }
    }
    if m < 0 {
        proof {
            let (x, y) = (-a as int, b as int);
            assert((-(x / y) - 1) * y + (y - x % y) == -x) by (nonlinear_arith)
                requires
                    x == y * (x / y) + x % y,
            ;
            vstd::arithmetic::div_mod::lemma_fundamental_div_mod_converse(
                a as int,
                y,
                -(x / y) - 1,
                y - x % y,
            );
            assert(y >= 2);
            assert(2 * (x / y) <= x) by (nonlinear_arith)
                requires
                    x == y * (x / y) + x % y,
                    x % y >= 0,
                    x >= 0,
                    y >= 2,
            ;
        }
        q - 1
    } else {
        proof {
            if a < 0 {
                let (x, y) = (-a as int, b as int);
                assert((-(x / y)) * y == -x) by (nonlinear_arith)
                    requires
                        x == y * (x / y),
                ;
                vstd::arithmetic::div_mod::lemma_fundamental_div_mod_converse(
                    a as int,
                    y,
                    -(x / y),
                    0,
                );
            }
        }
        q
    }
}

/// Which samples of the receive stream the next processing block still needs.
/// Block `n` begins at sample `n * new` of the stream and shares its first
/// `overlap` samples with the block before.
#[derive(Clone, Copy, Debug, PartialEq, Eq, Structural)]
pub struct RxBlocks {
    /// New samples per block.
    pub new: usize,
    /// Samples that a block shares with the one before.
    pub overlap: usize,
    pub block_count: i64,
    /// Samples of the block that have been filled.
    pub buffer_i: usize,
    /// Samples to be thrown away before the block begins.
    pub skip_left: i64,
}

/// Where the next samples go.
#[derive(Clone, Copy, Debug, PartialEq, Eq, Structural)]
pub struct RxRead {
    pub offset: usize,
    pub len: usize,
}

/// A number that fits its type.
pub open spec fn fits(n: int) -> bool {
    i64::MIN <= n <= i64::MAX
}

impl RxBlocks {
    /// The block is being filled, or samples are thrown away in front of it.
    pub open spec fn wf(self) -> bool {
        &&& 0 < self.new
        &&& self.new + self.overlap <= i64::MAX
        &&& self.new + self.overlap <= usize::MAX
        &&& self.buffer_i <= self.overlap + self.new
        &&& 0 <= self.skip_left <= self.new
        &&& self.skip_left > 0 ==> self.buffer_i == 0
    }

    /// The position in the stream of the next sample that belongs to the block.
    pub open spec fn expected(self) -> int {
        self.block_count * self.new + self.buffer_i
    }

    /// Whether the block is filled.
    pub open spec fn complete(self) -> bool {
        self.buffer_i == self.overlap + self.new
    }

    /// Samples have been thrown away.
    pub open spec fn after_skipped(self, len: int) -> RxBlocks {
        RxBlocks { skip_left: (self.skip_left - len) as i64, ..self }
    }

    /// Where the next samples go: over the block's beginning while samples are
    /// thrown away, behind the filled part otherwise.
    pub open spec fn wanted(self) -> RxRead {
        if self.skip_left > 0 {
            RxRead { offset: 0, len: self.skip_left as usize }
        } else {
            RxRead {
                offset: self.buffer_i,
                len: (self.overlap + self.new - self.buffer_i) as usize,
            }
        }
    }

    /// The next block begins.
    pub open spec fn after_begin(self) -> RxBlocks {
        RxBlocks { block_count: (self.block_count + 1) as i64, buffer_i: self.overlap, ..self }
    }

    /// Samples have arrived: they fill the block where they are the expected
    /// ones; otherwise samples were lost, and reception goes on with the next
    /// block that begins after them.
    pub open spec fn after_received(self, count: int, len: int) -> RxBlocks {
        if count == self.expected() {
            RxBlocks { buffer_i: (self.buffer_i + len) as usize, ..self }
        } else {
            let next = (count + len) / self.new as int + 1;
            RxBlocks {
                block_count: next as i64,
                buffer_i: 0,
                skip_left: (next * self.new - (count + len)) as i64,
                ..self
            }
        }
    }

    /// Bookkeeping for blocks of the given sizes, before the first one.
    pub fn start(new: usize, overlap: usize) -> (r: RxBlocks)
        requires
            0 < new,
            new + overlap <= i64::MAX,
            new + overlap <= usize::MAX,
        ensures
            r.wf(),
            r == (RxBlocks { new, overlap, block_count: 0, buffer_i: 0, skip_left: 0 }),
    {
        RxBlocks { new, overlap, block_count: 0, buffer_i: 0, skip_left: 0 }
    }

    /// Begin the next block; its overlap has been carried over.
    pub fn begin_block(&mut self)
        requires
            old(self).wf(),
            old(self).skip_left == 0,
            old(self).block_count < i64::MAX,
        ensures
            final(self).wf(),
            *final(self) == old(self).after_begin(),
    {
        self.block_count = self.block_count + 1;
        self.buffer_i = self.overlap;
    }

    /// Where the next samples go: over the block's beginning while samples are
    /// thrown away, behind the filled part otherwise.
    pub fn next_read(&self) -> (r: RxRead)
        requires
            self.wf(),
        ensures
            r == self.wanted(),
            r.offset + r.len <= self.overlap + self.new,
    {
        if self.skip_left > 0 {
            RxRead { offset: 0, len: self.skip_left as usize }
        } else {
            RxRead { offset: self.buffer_i, len: self.overlap + self.new - self.buffer_i }
        }
    }

    /// Take the report that `len` samples have arrived, the first of them at
    /// position `count` of the stream; whether the block is complete.
    pub fn received(&mut self, count: i64, len: usize) -> (r: bool)
        requires
            old(self).wf(),
            old(self).skip_left == 0,
            len <= old(self).overlap + old(self).new - old(self).buffer_i,
            fits(old(self).block_count * old(self).new),
            fits(old(self).expected()),
            fits(count + len),
            fits(((count + len) / old(self).new as int + 1) * old(self).new),
            fits((count + len) / old(self).new as int + 1),
        ensures
            final(self).wf(),
            *final(self) == old(self).after_received(count as int, len as int),
            r == (count == old(self).expected() && final(self).complete()),
    {
        let block_size: i64 = self.new as i64;
        let expected: i64 = self.block_count * block_size + self.buffer_i as i64;
        if count != expected {
            let next_count: i64 = count + len as i64;
            let next_block: i64 = floor_div(next_count, block_size) + 1;
            proof {
                let (n, b) = (next_count as int, block_size as int);
                vstd::arithmetic::div_mod::lemma_fundamental_div_mod(n, b);
                assert((n / b + 1) * b == b * (n / b) + b) by (nonlinear_arith);
            }
            self.skip_left = next_block * block_size - next_count;
            self.block_count = next_block;
            self.buffer_i = 0;
            false
        } else {
            self.buffer_i = self.buffer_i + len;
            self.buffer_i == self.overlap + self.new
        }
    }

    /// Take the report that `len` samples have been thrown away.
    pub fn skipped(&mut self, len: usize)
        requires
            old(self).wf(),
            len <= old(self).skip_left,
        ensures
            final(self).wf(),
            *final(self) == old(self).after_skipped(len as int),
    {
        self.skip_left = self.skip_left - len as i64;
    }
}

/// After a loss, throwing the samples away that are asked for leads to exactly
/// the sample that the block begins with; at least one and at most a block's
/// worth is thrown away.
pub proof fn law_loss_realigns(v: RxBlocks, count: int, len: int)
    requires
        v.wf(),
        v.skip_left == 0,
        count != v.expected(),
        fits(((count + len) / v.new as int + 1) * v.new),
        fits((count + len) / v.new as int + 1),
    ensures
        v.after_received(count, len).expected() == count + len + v.after_received(
            count,
            len,
        ).skip_left,
        1 <= v.after_received(count, len).skip_left <= v.new,
        !v.after_received(count, len).complete(),
{
    let (n, b) = (count + len, v.new as int);
    vstd::arithmetic::div_mod::lemma_fundamental_div_mod(n, b);
    assert((n / b + 1) * b == b * (n / b) + b) by (nonlinear_arith);
}

/// Without a loss, samples fill the block in order, and the block after it
/// begins to be filled with the sample that follows.
pub proof fn law_blocks_are_contiguous(v: RxBlocks, len: int)
    requires
        v.wf(),
        v.block_count < i64::MAX,
        0 <= len <= v.overlap + v.new - v.buffer_i,
    ensures
        v.after_received(v.expected(), len).expected() == v.expected() + len,
        v.complete() ==> v.after_begin().expected() == v.expected(),
{
    assert((v.block_count + 1) * v.new == v.block_count * v.new + v.new) by (nonlinear_arith);
}

/// What the demodulators of a carrier pair answer for a block: whether to go on.
#[derive(Clone, Copy, Debug, PartialEq, Eq, Structural)]
pub struct PairStatus {
    pub dl: bool,
    pub ul: Option<bool>,
}

/// A pair goes on as its uplink does, or as its downlink where it has none.
pub open spec fn pair_goes_on(p: PairStatus) -> bool {
    match p.ul {
        Some(ul) => ul,
        None => p.dl,
    }
}

/// Whether processing goes on: no demodulator that counts has a slot ready.
pub open spec fn all_go_on(pairs: Seq<PairStatus>, ul_demodulators: Seq<bool>) -> bool {
    &&& forall|i: int| 0 <= i < pairs.len() ==> pair_goes_on(#[trigger] pairs[i])
    &&& forall|i: int| 0 <= i < ul_demodulators.len() ==> #[trigger] ul_demodulators[i]
}

/// Whether processing goes on: no demodulator that counts has a slot ready.
pub fn continue_processing(pairs: &Vec<PairStatus>, ul_demodulators: &Vec<bool>) -> (r: bool)
    ensures
        r == all_go_on(pairs@, ul_demodulators@),
{
    let mut i: usize = 0;
    while i < pairs.len()
        invariant
            i <= pairs@.len(),
            forall|j: int| 0 <= j < i ==> pair_goes_on(#[trigger] pairs@[j]),
        decreases pairs@.len() - i,
    {
        let goes_on: bool = match pairs[i].ul {
            Some(ul) => ul,
            None => pairs[i].dl,
        };
        if !goes_on {
            assert(!pair_goes_on(pairs@[i as int]));
            return false;
        }
        i = i + 1;
    }
    let mut k: usize = 0;
    while k < ul_demodulators.len()
        invariant
            k <= ul_demodulators@.len(),
            forall|j: int| 0 <= j < k ==> #[trigger] ul_demodulators@[j],
        decreases ul_demodulators@.len() - k,
    {
        if !ul_demodulators[k] {
            assert(!ul_demodulators@[k as int]);
            return false;
        }
        k = k + 1;
    }
    true
}

/// The timing reference of the first demodulator that has one.
pub fn dl_reference_time(references: &Vec<Option<i64>>) -> (r: Option<i64>)
    ensures
        match r {
            Some(t) => exists|i: int|
                0 <= i < references@.len() && #[trigger] references@[i] == Some(t) && (forall|
                    j: int,
                |
                    0 <= j < i ==> #[trigger] references@[j] is None),
            None => forall|i: int|
                0 <= i < references@.len() ==> #[trigger] references@[i] is None,
        },
{
    let mut i: usize = 0;
    while i < references.len()
        invariant
            i <= references@.len(),
            forall|j: int| 0 <= j < i ==> #[trigger] references@[j] is None,
        decreases references@.len() - i,
    {
        if let Some(t) = references[i] {
            assert(references@[i as int] == Some(t));
            return Some(t);
        }
        i = i + 1;
    }
    None
}

/// The slots of a carrier pair.
#[derive(Debug)]
pub struct PairSlots<T> {
    pub dl: Option<T>,
    pub ul: Option<T>,
}

/// The slots of carrier pairs one after the other: downlink, then uplink.
pub open spec fn in_pairs<T>(pairs: Seq<PairSlots<T>>) -> Seq<Option<T>> {
    Seq::new(
        2 * pairs.len(),
        |i: int|
            if i % 2 == 0 {
                pairs[i / 2].dl
            } else {
                pairs[i / 2].ul
            },
    )
}

/// The demodulated slots in their order: those of the pairs, then those of the
/// uplink demodulators.
pub fn take_slot_bits<T>(pairs: Vec<PairSlots<T>>, ul_demodulators: Vec<Option<T>>) -> (r: Vec<
    Option<T>,
>)
    ensures
        r@ == in_pairs(pairs@) + ul_demodulators@,
{
    let mut pairs = pairs;
    let mut rest = ul_demodulators;
    let ghost all = pairs@;
    let mut out: Vec<Option<T>> = Vec::new();
    assert(all.skip(0) == all);
    let ghost mut done: int = 0;
    while pairs.len() > 0
        invariant
            0 <= done <= all.len(),
            pairs@ == all.skip(done),
            out@ == in_pairs(all.take(done)),
        decreases pairs@.len(),
    {
        let p = pairs.remove(0);
        proof {
            assert(p == all[done]);
            assert(all.take(done + 1).take(done) == all.take(done));
        }
        out.push(p.dl);
        out.push(p.ul);
        proof {
            let t = all.take(done + 1);
            assert forall|i: int| 0 <= i < out@.len() implies out@[i] == in_pairs(t)[i] by {
                if i < 2 * done {
                    assert(t[i / 2] == all.take(done)[i / 2]);
                } else {
                    assert(i / 2 == done);
                }
            }
            assert(out@ == in_pairs(t));
            done = done + 1;
        }
    }
    assert(all.take(done) == all);
    out.append(&mut rest);
    out
}

// ---------------------------------------------------------------------------
// Transmission
// ---------------------------------------------------------------------------

/// A modulator and the part of the next block that it has produced.
#[derive(Debug)]
pub struct ModulatorChannel {
    pub modulator: Modulator,
    /// Samples per block.
    pub block_len: usize,
    /// Phases of the block so far, `None` for silence.
    pub buffer: Vec<Option<u8>>,
}

/// Filling a block from `first`, the sample count of its first sample: the
/// modulator, the block so far, and whether it is complete.
pub open spec fn filled(
    m: Modulator,
    buffer: Seq<Option<u8>>,
    block_len: nat,
    first: int,
    time: TdmaTime,
    bits: Option<Seq<u8>>,
) -> (Modulator, Seq<Option<u8>>, bool)
    decreases block_len - buffer.len(),
{
    if buffer.len() >= block_len {
        (m, buffer, true)
    } else {
        let e = m.emission(first + buffer.len(), time, bits);
        match m.output(e) {
            Ok(x) => filled(m.after(e), buffer.push(x), block_len, first, time, bits),
            Err(_) => (m, buffer, false),
        }
    }
}

/// A block is completed exactly where its last sample still lies in the slot, or
/// before it.
pub proof fn law_block_is_completed_within_its_slot(
    m: Modulator,
    buffer: Seq<Option<u8>>,
    block_len: nat,
    first: int,
    time: TdmaTime,
    bits: Option<Seq<u8>>,
)
    requires
        buffer.len() < block_len,
    ensures
        filled(m, buffer, block_len, first, time, bits).2 == (first + block_len - 1 - m.slot_begin(
            time,
        ) < SAMPLES_SLOT),
        filled(m, buffer, block_len, first, time, bits).2 ==> filled(
            m,
            buffer,
            block_len,
            first,
            time,
            bits,
        ).1.len() == block_len,
    decreases block_len - buffer.len(),
{
    reveal_with_fuel(filled, 2);
    let e = m.emission(first + buffer.len(), time, bits);
    if m.output(e) is Ok {
        let x = m.output(e)->Ok_0;
        if buffer.len() + 1 < block_len {
            law_block_is_completed_within_its_slot(
                m.after(e),
                buffer.push(x),
                block_len,
                first,
                time,
                bits,
            );
        }
    }
}

impl ModulatorChannel {
    /// The block is not longer than it may be.
    pub open spec fn wf(self) -> bool {
        &&& self.modulator.wf()
        &&& self.buffer@.len() <= self.block_len
    }

    /// Sample count of the first sample of a block, behind the filter.
    pub open spec fn first(self, block_count: int, filter_delay: int) -> int {
        block_count * self.block_len + filter_delay
    }

    /// The sample counts of a block fit into their type.
    pub open spec fn in_range(self, block_count: int, filter_delay: int, time: TdmaTime) -> bool {
        let begin = self.modulator.slot_begin(time);
        let first = self.first(block_count, filter_delay);
        &&& fits(block_count * self.block_len)
        &&& fits(block_count * self.block_len + self.block_len)
        &&& fits(begin)
        &&& fits(first) && fits(first + self.block_len)
        &&& fits(first - begin) && fits(first + self.block_len - begin)
        &&& self.block_len <= i64::MAX
    }

    /// A channel with nothing produced.
    pub fn new(mode: Mode, block_len: usize) -> (r: ModulatorChannel)
        ensures
            r.wf(),
            r.modulator == (Modulator {
                mode,
                reference_time: 0,
                dqpsk: crate::phy::components::modulator::DqpskMapper { phase: 0 },
            }),
            r.block_len == block_len,
            r.buffer@ == Seq::<Option<u8>>::empty(),
    {
        ModulatorChannel { modulator: Modulator::new(mode), block_len, buffer: Vec::new() }
    }

    /// Produce a block: its phases once it is complete, `None` while data for
    /// another slot is needed. What has been produced is kept until then.
    pub fn process(&mut self, block_count: i64, filter_delay: i64, tx_slot: &TxSlotBits) -> (r:
        Option<Vec<Option<u8>>>)
        requires
            old(self).wf(),
            old(self).modulator.takes(tx_slot.bits()),
            old(self).in_range(block_count as int, filter_delay as int, tx_slot.time),
        ensures
            final(self).wf(),
            final(self).block_len == old(self).block_len,
            final(self).modulator.mode == old(self).modulator.mode,
            ({
                let (m, block, complete) = filled(
                    old(self).modulator,
                    old(self).buffer@,
                    old(self).block_len as nat,
                    old(self).first(block_count as int, filter_delay as int),
                    tx_slot.time,
                    tx_slot.bits(),
                );
                &&& final(self).modulator == m
                &&& if complete {
                    &&& r matches Some(b) && b@ == block
                    &&& final(self).buffer@ == Seq::<Option<u8>>::empty()
                } else {
                    &&& r is None
                    &&& final(self).buffer@ == block
                }
            }),
    {
        let ghost target = filled(
            self.modulator,
            self.buffer@,
            self.block_len as nat,
            self.first(block_count as int, filter_delay as int),
            tx_slot.time,
            tx_slot.bits(),
        );
        let base: i64 = block_count * self.block_len as i64;
        while self.buffer.len() < self.block_len
            invariant
                self.wf(),
                self.block_len == old(self).block_len,
                self.modulator.mode == old(self).modulator.mode,
                self.modulator.reference_time == old(self).modulator.reference_time,
                self.modulator.takes(tx_slot.bits()),
                old(self).in_range(block_count as int, filter_delay as int, tx_slot.time),
                base == block_count * old(self).block_len,
                target == filled(
                    self.modulator,
                    self.buffer@,
                    self.block_len as nat,
                    old(self).first(block_count as int, filter_delay as int),
                    tx_slot.time,
                    tx_slot.bits(),
                ),
                target == filled(
                    old(self).modulator,
                    old(self).buffer@,
                    old(self).block_len as nat,
                    old(self).first(block_count as int, filter_delay as int),
                    tx_slot.time,
                    tx_slot.bits(),
                ),
            decreases self.block_len - self.buffer@.len(),
        {
            let counter: i64 = base + self.buffer.len() as i64;
            match self.modulator.sample(counter, filter_delay, tx_slot) {
                Ok(phase) => {
                    self.buffer.push(phase);
                },
                Err(Error::NeedMoreData) => {
                    return None;
                },
            }
        }
        let mut block: Vec<Option<u8>> = Vec::new();
        std::mem::swap(&mut block, &mut self.buffer);
        Some(block)
    }
}

/// The transmit chain: its modulators, and the next block to produce.
#[derive(Debug)]
pub struct TxDsp {
    pub block_count: i64,
    pub modulators: Vec<ModulatorChannel>,
}

/// Where generation stands before a block, given the block that the hardware is
/// at: never closer to it than the minimum.
pub open spec fn caught_up(block_count: int, current_block: int) -> int {
    if block_count - current_block < TX_BLOCKS_AHEAD_MIN {
        current_block + TX_BLOCKS_AHEAD_MIN
    } else {
        block_count
    }
}

/// Whether a block may be produced: it is not too far ahead of the hardware, nor
/// of reception.
pub open spec fn may_produce(
    block_count: int,
    current_block: int,
    latest_rx_block: Option<i64>,
) -> bool {
    &&& block_count - current_block <= TX_BLOCKS_AHEAD_MAX
    &&& latest_rx_block matches Some(rx) ==> caught_up(block_count, current_block) - rx
        <= TX_BLOCKS_AHEAD_MAX
}

impl TxDsp {
    /// Where the next block stands in a transmit stream of blocks of `len` samples.
    pub open spec fn stream_position(self, len: int) -> int {
        len * self.block_count
    }

    /// Sample count of the next sample to be generated, where there is a modulator.
    pub open spec fn frontier(self) -> Option<i64> {
        if self.modulators@.len() > 0 {
            Some((self.block_count * self.modulators@[0].block_len) as i64)
        } else {
            None
        }
    }

    /// A chain with the given numbers of downlink and uplink modulators, the
    /// downlink ones first.
    pub fn new(dl_carriers: usize, ul_carriers: usize, block_len: usize) -> (r: TxDsp)
        requires
            dl_carriers + ul_carriers <= usize::MAX,
        ensures
            r.block_count == 0,
            r.modulators@.len() == dl_carriers + ul_carriers,
            forall|i: int|
                0 <= i < r.modulators@.len() ==> {
                    let c = #[trigger] r.modulators@[i];
                    &&& c.wf()
                    &&& c.modulator.mode == (if i < dl_carriers {
                        Mode::Dl
                    } else {
                        Mode::Ul
                    })
                    &&& c.modulator.reference_time == 0
                    &&& c.modulator.dqpsk.phase == 0
                    &&& c.block_len == block_len
                    &&& c.buffer@ == Seq::<Option<u8>>::empty()
                },
    {
        let mut modulators: Vec<ModulatorChannel> = Vec::new();
        let total: usize = dl_carriers + ul_carriers;
        let mut i: usize = 0;
        while i < total
            invariant
                i <= total,
                total == dl_carriers + ul_carriers,
                modulators@.len() == i,
                forall|j: int|
                    0 <= j < i ==> {
                        let c = #[trigger] modulators@[j];
                        &&& c.wf()
                        &&& c.modulator.mode == (if j < dl_carriers {
                            Mode::Dl
                        } else {
                            Mode::Ul
                        })
                        &&& c.modulator.reference_time == 0
                        &&& c.modulator.dqpsk.phase == 0
                        &&& c.block_len == block_len
                        &&& c.buffer@ == Seq::<Option<u8>>::empty()
                    },
            decreases total - i,
        {
            let mode = if i < dl_carriers {
                Mode::Dl
            } else {
                Mode::Ul
            };
            modulators.push(ModulatorChannel::new(mode, block_len));
            i = i + 1;
        }
        TxDsp { block_count: 0, modulators }
    }

    /// Align the uplink modulators with the recovered downlink timing, where
    /// there is one.
    pub fn align(&mut self, dl_reference: Option<i64>)
        ensures
            final(self).block_count == old(self).block_count,
            final(self).modulators@.len() == old(self).modulators@.len(),
            forall|i: int|
                0 <= i < final(self).modulators@.len() ==> {
                    let (a, b) = (old(self).modulators@[i], #[trigger] final(self).modulators@[i]);
                    &&& b.block_len == a.block_len
                    &&& b.buffer@ == a.buffer@
                    &&& b.modulator == (match dl_reference {
                        Some(t) => a.modulator.aligned(t),
                        None => a.modulator,
                    })
                },
    {
        if let Some(reference_time) = dl_reference {
            let aligned: i64 = reference_time + MS_TX_SAMPLE_DELAY;
            let n: usize = self.modulators.len();
            let mut i: usize = 0;
            while i < n
                invariant
                    i <= n,
                    n == self.modulators@.len(),
                    n == old(self).modulators@.len(),
                    aligned == reference_time,
                    self.block_count == old(self).block_count,
                    forall|j: int|
                        i <= j < n ==> #[trigger] self.modulators@[j] == old(self).modulators@[j],
                    forall|j: int|
                        0 <= j < i ==> {
                            let (a, b) = (old(self).modulators@[j], #[trigger] self.modulators@[j]);
                            &&& b.block_len == a.block_len
                            &&& b.buffer@ == a.buffer@
                            &&& b.modulator == a.modulator.aligned(aligned)
                        },
                decreases n - i,
            {
                self.modulators[i].modulator.set_reference_time(aligned);
                i = i + 1;
            }
        }
    }

    /// Before a block: catch up with the hardware, which is at sample
    /// `current_sample`, and tell whether the block may be produced.
    pub fn gate(
        &mut self,
        current_sample: i64,
        output_block_size: i64,
        latest_rx_block: Option<i64>,
    ) -> (r: bool)
        requires
            output_block_size > 0,
            fits(old(self).block_count - current_sample as int / output_block_size as int),
            fits(current_sample as int / output_block_size as int + TX_BLOCKS_AHEAD_MIN),
            latest_rx_block matches Some(rx) ==> fits(
                caught_up(
                    old(self).block_count as int,
                    current_sample as int / output_block_size as int,
                ) - rx,
            ),
        ensures
            ({
                let current_block = current_sample as int / output_block_size as int;
                &&& final(self).block_count == caught_up(
                    old(self).block_count as int,
                    current_block,
                )
                &&& r == may_produce(old(self).block_count as int, current_block, latest_rx_block)
            }),
            final(self).modulators@ == old(self).modulators@,
    {
        let current_block: i64 = floor_div(current_sample, output_block_size);
        let d: i64 = self.block_count - current_block;
        if d < TX_BLOCKS_AHEAD_MIN {
            self.block_count = current_block + TX_BLOCKS_AHEAD_MIN;
        }
        if d > TX_BLOCKS_AHEAD_MAX {
            return false;
        }
        if let Some(rx) = latest_rx_block {
            if self.block_count - rx > TX_BLOCKS_AHEAD_MAX {
                return false;
            }
        }
        true
    }

    /// Produce the next block of modulator `i`; see [`ModulatorChannel::process`].
    pub fn process_channel(&mut self, i: usize, filter_delay: i64, tx_slot: &TxSlotBits) -> (r:
        Option<Vec<Option<u8>>>)
        requires
            i < old(self).modulators@.len(),
            old(self).modulators@[i as int].wf(),
            old(self).modulators@[i as int].modulator.takes(tx_slot.bits()),
            old(self).modulators@[i as int].in_range(
                old(self).block_count as int,
                filter_delay as int,
                tx_slot.time,
            ),
        ensures
            final(self).block_count == old(self).block_count,
            final(self).modulators@ == old(self).modulators@.update(
                i as int,
                final(self).modulators@[i as int],
            ),
            ({
                let (a, b) = (old(self).modulators@[i as int], final(self).modulators@[i as int]);
                let (m, block, complete) = filled(
                    a.modulator,
                    a.buffer@,
                    a.block_len as nat,
                    a.first(old(self).block_count as int, filter_delay as int),
                    tx_slot.time,
                    tx_slot.bits(),
                );
                &&& b.wf()
                &&& b.block_len == a.block_len
                &&& b.modulator == m
                &&& if complete {
                    &&& r matches Some(x) && x@ == block
                    &&& b.buffer@ == Seq::<Option<u8>>::empty()
                } else {
                    &&& r is None
                    &&& b.buffer@ == block
                }
            }),
    {
        let n: i64 = self.block_count;
        self.modulators[i].process(n, filter_delay, tx_slot)
    }

    /// The block has been produced with `len` samples: its position in the
    /// transmit stream. It counts as produced whether or not it can be sent.
    pub fn produced(&mut self, len: i64) -> (r: i64)
        requires
            fits(len * old(self).block_count),
            old(self).block_count < i64::MAX,
        ensures
            r == old(self).stream_position(len as int),
            final(self).block_count == old(self).block_count + 1,
            final(self).modulators@ == old(self).modulators@,
    {
        let count: i64 = len * self.block_count;
        self.block_count = self.block_count + 1;
        count
    }

    /// Sample count of the next sample to be generated, where there is a
    /// modulator.
    pub fn generation_frontier(&self) -> (r: Option<i64>)
        requires
            self.modulators@.len() > 0 ==> self.modulators@[0].block_len <= i64::MAX && fits(
                self.block_count * self.modulators@[0].block_len,
            ),
        ensures
            r == self.frontier(),
    {
        if self.modulators.len() == 0 {
            return None;
        }
        let len: i64 = self.modulators[0].block_len as i64;
        Some(self.block_count * len)
    }
}

/// Generation is always ahead of the hardware by at least the minimum, and never
/// goes back.
pub proof fn law_generation_stays_ahead(block_count: int, current_block: int)
    ensures
        caught_up(block_count, current_block) - current_block >= TX_BLOCKS_AHEAD_MIN,
        caught_up(block_count, current_block) >= block_count,
{
}

/// The slot that the device generates now: the one that the frontier lies in,
/// while the downlink is followed and transmission is possible.
pub open spec fn air_time(
    reference_time: Option<i64>,
    tx_possible: bool,
    frontier: Option<i64>,
) -> Option<TdmaTime> {
    match (reference_time, frontier) {
        (Some(t), Some(f)) if tx_possible => Some(
            TdmaTime::at_slot((f - t) / (SAMPLES_SLOT as int)),
        ),
        _ => None,
    }
}

/// The slot that the device generates now.
pub fn tx_air_time(reference_time: Option<i64>, tx_possible: bool, frontier: Option<i64>) -> (r:
    Option<TdmaTime>)
    requires
        reference_time is Some && frontier is Some ==> fits(frontier->0 - reference_time->0),
    ensures
        r == air_time(reference_time, tx_possible, frontier),
{
    match reference_time {
        Some(t) => {
            if !tx_possible {
                return None;
            }
            match frontier {
                Some(f) => Some(TdmaTime::from_int(floor_div(f - t, SAMPLES_SLOT))),
                None => None,
            }
        },
        None => None,
    }
}

/// The slot that the device generates now is the slot that an aligned uplink
/// modulator places the frontier in.
pub proof fn law_air_time_agrees_with_the_modulator(m: Modulator, frontier: int)
    requires
        m.mode is Ul,
        0 <= (frontier - m.reference_time) / (SAMPLES_SLOT as int) < SLOT_COUNT_SPAN,
    ensures
        ({
            let now = TdmaTime::at_slot((frontier - m.reference_time) / (SAMPLES_SLOT as int));
            m.slot_begin(now) <= frontier < m.slot_begin(now) + SAMPLES_SLOT
        }),
{
    let n = (frontier - m.reference_time) / (SAMPLES_SLOT as int);
    crate::tdma::lemma_at_slot(n);
    vstd::arithmetic::div_mod::lemma_small_mod(n as nat, SLOT_COUNT_SPAN as nat);
    vstd::arithmetic::div_mod::lemma_fundamental_div_mod(
        frontier - m.reference_time,
        SAMPLES_SLOT as int,
    );
}

// ---------------------------------------------------------------------------
// What a block holds
// ---------------------------------------------------------------------------

proof fn lemma_filled_keeps(
    m: Modulator,
    buffer: Seq<Option<u8>>,
    block_len: nat,
    first: int,
    time: TdmaTime,
    bits: Option<Seq<u8>>,
)
    ensures
        ({
            let b = filled(m, buffer, block_len, first, time, bits).1;
            &&& b.len() >= buffer.len()
            &&& forall|i: int| 0 <= i < buffer.len() ==> #[trigger] b[i] == buffer[i]
        }),
    decreases block_len - buffer.len(),
{
    if buffer.len() < block_len {
        let e = m.emission(first + buffer.len(), time, bits);
        if let Ok(x) = m.output(e) {
            lemma_filled_keeps(m.after(e), buffer.push(x), block_len, first, time, bits);
            let b = filled(m.after(e), buffer.push(x), block_len, first, time, bits).1;
            assert forall|i: int| 0 <= i < buffer.len() implies #[trigger] b[i] == buffer[i] by {
                assert(b[i] == buffer.push(x)[i]);
            }
        }
    }
}

/// A block keeps what has been produced of it and goes on with what the modulator
/// emits at the next sample count, one sample after the other; it stops where the
/// slot has passed, and does nothing more once it is full.
pub proof fn law_block_is_filled_in_order(
    m: Modulator,
    buffer: Seq<Option<u8>>,
    block_len: nat,
    first: int,
    time: TdmaTime,
    bits: Option<Seq<u8>>,
)
    ensures
        ({
            let (n, b, complete) = filled(m, buffer, block_len, first, time, bits);
            let e = m.emission(first + buffer.len(), time, bits);
            &&& forall|i: int| 0 <= i < buffer.len() ==> #[trigger] b[i] == buffer[i]
            &&& buffer.len() >= block_len ==> n == m && b == buffer && complete
            &&& buffer.len() < block_len && m.output(e) is Err ==> n == m && b == buffer
                && !complete
            &&& buffer.len() < block_len ==> (m.output(e) matches Ok(x) ==> {
                &&& b.len() > buffer.len()
                &&& b[buffer.len() as int] == x
                &&& (n, b, complete) == filled(
                    m.after(e),
                    buffer.push(x),
                    block_len,
                    first,
                    time,
                    bits,
                )
            })
        }),
{
    lemma_filled_keeps(m, buffer, block_len, first, time, bits);
    if buffer.len() < block_len {
        let e = m.emission(first + buffer.len(), time, bits);
        if let Ok(x) = m.output(e) {
            lemma_filled_keeps(m.after(e), buffer.push(x), block_len, first, time, bits);
            let b = filled(m, buffer, block_len, first, time, bits).1;
            assert(b[buffer.len() as int] == buffer.push(x)[buffer.len() as int]);
        }
    }
}

/// Block `n` of the transmit stream begins `n` block lengths behind its start, and
/// the filter delay later for the modulator.
pub proof fn law_block_positions(c: ModulatorChannel, n: int, delay: int)
    ensures
        c.first(0, delay) == delay,
        c.first(n + 1, delay) == c.first(n, delay) + c.block_len,
{
    assert((n + 1) * c.block_len == n * c.block_len + c.block_len) by (nonlinear_arith);
}

/// Generation stands where it stood, unless it is less than two blocks ahead of
/// the hardware: then it stands exactly two ahead. A block may be produced while
/// generation is at most sixty blocks ahead of the hardware and, where something
/// was received, of reception.
pub proof fn law_generation_window(block: int, current: int, rx: Option<i64>)
    ensures
        block >= current + 2 ==> caught_up(block, current) == block,
        block < current + 2 ==> caught_up(block, current) == current + 2,
        rx is None ==> (may_produce(block, current, rx) <==> block <= current + 60),
        rx matches Some(r) ==> (may_produce(block, current, rx) <==> block <= current + 60
            && caught_up(block, current) <= r + 60),
{
}

/// A carrier pair goes on as its uplink says, and as its downlink says where it has
/// none.
pub proof fn law_uplink_decides_for_a_pair(dl: bool, ul: bool)
    ensures
        pair_goes_on(PairStatus { dl, ul: Some(ul) }) == ul,
        pair_goes_on(PairStatus { dl, ul: None }) == dl,
{
}

/// The slots of the pairs come in the order of the pairs, the downlink of each
/// before its uplink.
pub proof fn law_pairs_come_in_order<T>(pairs: Seq<PairSlots<T>>, i: int)
    requires
        0 <= i < pairs.len(),
    ensures
        in_pairs(pairs).len() == 2 * pairs.len(),
        in_pairs(pairs)[2 * i] == pairs[i].dl,
        in_pairs(pairs)[2 * i + 1] == pairs[i].ul,
{
}

/// The expected samples fill the block; any others move reception on to the first
/// block that begins behind them, with the samples up to there to be thrown away.
/// Block `n` begins at sample `n` times the new samples per block.
pub proof fn law_received_samples(v: RxBlocks, count: int, len: int)
    requires
        v.wf(),
        v.skip_left == 0,
        0 <= len <= v.overlap + v.new - v.buffer_i,
        fits(((count + len) / v.new as int + 1) * v.new),
        fits((count + len) / v.new as int + 1),
    ensures
        ({
            let w = v.after_received(count, len);
            &&& w.new == v.new && w.overlap == v.overlap
            &&& v.expected() == v.block_count * v.new + v.buffer_i
            &&& count == v.block_count * v.new + v.buffer_i ==> {
                &&& w.block_count == v.block_count
                &&& w.buffer_i == v.buffer_i + len
                &&& w.skip_left == 0
            }
            &&& count != v.block_count * v.new + v.buffer_i ==> {
                &&& w.buffer_i == 0
                &&& w.block_count * v.new == count + len + w.skip_left
                &&& 0 < w.skip_left <= v.new
            }
            &&& v.complete() <==> v.buffer_i == v.overlap + v.new
        }),
{
    let (n, b) = (count + len, v.new as int);
    vstd::arithmetic::div_mod::lemma_fundamental_div_mod(n, b);
    assert((n / b + 1) * b == b * (n / b) + b) by (nonlinear_arith);
}

/// The next block is one further, and its overlap is filled already.
pub proof fn law_next_block_begins_with_the_overlap(v: RxBlocks)
    requires
        v.wf(),
        v.block_count < i64::MAX,
    ensures
        v.after_begin().block_count == v.block_count + 1,
        v.after_begin().buffer_i == v.overlap,
        v.after_begin().new == v.new && v.after_begin().overlap == v.overlap,
        v.after_begin().skip_left == v.skip_left,
{
}

/// The next samples to read are those to be thrown away, or else those that the
/// block still lacks, behind the filled part.
pub proof fn law_next_samples(v: RxBlocks)
    requires
        v.wf(),
    ensures
        v.skip_left > 0 ==> v.wanted().offset == 0 && v.wanted().len == v.skip_left,
        v.skip_left == 0 ==> v.wanted().offset == v.buffer_i && v.wanted().offset + v.wanted().len
            == v.overlap + v.new,
{
}

/// The device generates a slot only while the downlink is followed, transmission is
/// possible and there is a frontier: the slot of 1020 samples, counted from the
/// reference time, that the frontier lies in.
pub proof fn law_air_time(reference_time: Option<i64>, possible: bool, frontier: Option<i64>)
    ensures
        air_time(reference_time, possible, frontier) is Some <==> reference_time is Some && possible
            && frontier is Some,
        air_time(reference_time, possible, frontier) matches Some(t) ==> {
            let n = frontier->0 - reference_time->0;
            0 <= n < 1020 * 283_115_520 ==> 1020 * t.slot_number() <= n < 1020 * t.slot_number()
                + 1020
        },
{
    if let (Some(t), Some(f)) = (reference_time, frontier) {
        let n = (f - t) / 1020;
        crate::tdma::lemma_at_slot(n);
        if 0 <= f - t < 1020 * 283_115_520 {
            vstd::arithmetic::div_mod::lemma_small_mod(n as nat, 283_115_520);
        }
    }
}

/// A mobile station follows the one downlink carrier and sends on the one uplink
/// carrier; any other mode sends on the downlink and listens on the uplink. A
/// transmit chain is needed where one of them is to be sent on.
pub proof fn law_carriers_of_a_mode<F>(c: PhyConfig<F>, mode: StackMode, dl: F, ul: F, tx: bool)
    requires
        c.serves(mode, dl, ul),
    ensures
        mode is Ms ==> {
            &&& c.monitor_frequencies@.len() == 1 && c.ms_ul_frequencies@.len() == 1
            &&& c.monitor_frequencies@[0] == (dl, None::<F>)
            &&& c.ms_ul_frequencies@[0] == ul
            &&& c.bs_dl_frequencies@.len() == 0 && c.bs_ul_frequencies@.len() == 0
        },
        mode !is Ms ==> {
            &&& c.bs_dl_frequencies@.len() == 1 && c.bs_ul_frequencies@.len() == 1
            &&& c.bs_dl_frequencies@[0] == dl
            &&& c.bs_ul_frequencies@[0] == ul
            &&& c.monitor_frequencies@.len() == 0 && c.ms_ul_frequencies@.len() == 0
        },
        c.transmits(tx) == tx,
{
}

/// A transmit chain takes a device that transmits and a carrier to send on, on
/// either side: without one of the two there is none.
pub proof fn law_transmit_chain_needs_a_carrier<F>(c: PhyConfig<F>, tx: bool)
    ensures
        c.bs_dl_frequencies@.len() == 0 && c.ms_ul_frequencies@.len() == 0 ==> !c.transmits(tx),
        c.bs_dl_frequencies@.len() != 0 || c.ms_ul_frequencies@.len() != 0 ==> c.transmits(tx)
            == tx,
{
}

/// One demodulator with a slot ready ends processing, wherever it stands; without
/// demodulators it goes on.
pub proof fn law_one_ready_slot_ends_processing(
    pairs: Seq<PairStatus>,
    uls: Seq<bool>,
    p: PairStatus,
    u: bool,
)
    ensures
        all_go_on(Seq::empty(), Seq::empty()),
        all_go_on(pairs.push(p), uls) <==> all_go_on(pairs, uls) && (match p.ul {
            Some(ul) => ul,
            None => p.dl,
        }),
        all_go_on(pairs, uls.push(u)) <==> all_go_on(pairs, uls) && u,
{
    let (a, b) = (pairs.push(p), uls.push(u));
    assert(a[pairs.len() as int] == p && b[uls.len() as int] == u);
    assert(forall|i: int| 0 <= i < pairs.len() ==> a[i] == #[trigger] pairs[i]);
    assert(forall|i: int| 0 <= i < uls.len() ==> b[i] == #[trigger] uls[i]);
}

/// Samples that are thrown away are no longer to be thrown away, and nothing else
/// changes; when none are left, the block begins where the stream stands.
pub proof fn law_skipped_samples(v: RxBlocks, len: int)
    requires
        v.wf(),
        0 <= len <= v.skip_left,
    ensures
        v.after_skipped(len).skip_left == v.skip_left - len,
        v.after_skipped(len) == (RxBlocks { skip_left: v.after_skipped(len).skip_left, ..v }),
{
}

/// Blocks of the transmit stream lie one behind the other; generation stands at the
/// first sample of the next one, where there is a modulator.
pub proof fn law_transmit_stream(d: TxDsp, e: TxDsp, len: int)
    requires
        e.block_count == d.block_count + 1,
        e.modulators@ == d.modulators@,
    ensures
        d.block_count == 0 ==> d.stream_position(len) == 0,
        e.stream_position(len) == d.stream_position(len) + len,
        d.frontier() is Some <==> d.modulators@.len() > 0,
        d.modulators@.len() > 0 && fits(d.block_count * d.modulators@[0].block_len) ==> d.frontier()
            == Some(d.stream_position(d.modulators@[0].block_len as int) as i64),
{
    assert(len * (d.block_count + 1) == len * d.block_count + len) by (nonlinear_arith);
    if d.modulators@.len() > 0 {
        let (a, b) = (d.block_count as int, d.modulators@[0].block_len as int);
        assert(a * b == b * a) by (nonlinear_arith);
    }
}

} // verus!
