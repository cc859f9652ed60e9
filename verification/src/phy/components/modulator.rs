//! Modulator: which symbol belongs to which sample of a slot.
//!
//! A symbol is named by its phase, in eighths of a turn; turning phases into
//! samples and shaping the pulse is left to the signal chain behind it.

use vstd::prelude::*;

use crate::tdma::TdmaTime;

verus! {

/// Samples per symbol.
pub const SPS: i64 = 4;

/// Samples per slot: 255 symbols.
pub const SAMPLES_SLOT: i64 = 1020;

/// Symbols from the start of an uplink slot to the first symbol of the burst
/// (cl. 9.4.3.4, table 9.2).
pub const BURST_DELAY_SYMS: i64 = 17;

/// What a modulator is used for.
#[derive(Clone, Copy, Debug, PartialEq, Eq, Structural)]
pub enum Mode {
    /// Continuous downlink: the burst fills the slot.
    Dl,
    /// Discontinuous uplink: a burst within the slot, silence around it.
    Ul,
}

/// Why no sample can be produced.
#[derive(Clone, Copy, Debug, PartialEq, Eq, Structural)]
pub enum Error {
    /// The slot has passed; data for another one is needed.
    NeedMoreData,
}

/// What to transmit in a slot: modulation bits, or silence.
#[derive(Debug)]
pub struct TxSlotBits {
    pub time: TdmaTime,
    pub slot: Option<Vec<u8>>,
}

impl TxSlotBits {
    /// The modulation bits.
    pub open spec fn bits(self) -> Option<Seq<u8>> {
        match self.slot {
            Some(b) => Some(b@),
            None => None,
        }
    }
}

/// Differential mapper: each pair of bits turns the phase.
#[derive(Clone, Copy, Debug, PartialEq, Eq, Structural)]
pub struct DqpskMapper {
    /// Accumulated phase, in eighths of a turn.
    pub phase: i8,
}

/// The turn for a pair of bits, in eighths.
pub open spec fn turn(bit0: bool, bit1: bool) -> int {
    if bit0 {
        if bit1 {
            -3
        } else {
            -1
        }
    } else {
        if bit1 {
            3
        } else {
            1
        }
    }
}

/// The phase after a pair of bits.
pub open spec fn turned(phase: int, bit0: bool, bit1: bool) -> int {
    (phase + turn(bit0, bit1)) % 8
}

/// The pair of bits can be told from the turn.
pub proof fn law_turn_identifies_bits(phase: int, a0: bool, a1: bool, b0: bool, b1: bool)
    requires
        turned(phase, a0, a1) == turned(phase, b0, b1),
    ensures
        a0 == b0,
        a1 == b1,
{
}

/// Every symbol leaves the four phases of the one before: even phases are
/// followed by odd ones, and odd ones by even ones.
pub proof fn law_phase_alternates(phase: int, bit0: bool, bit1: bool)
    requires
        0 <= phase < 8,
    ensures
        turned(phase, bit0, bit1) % 2 != phase % 2,
        0 <= turned(phase, bit0, bit1) < 8,
{
}

impl DqpskMapper {
    /// The phase is one of eight.
    pub open spec fn wf(self) -> bool {
        0 <= self.phase < 8
    }

    /// A mapper at phase zero.
    pub fn new() -> (r: DqpskMapper)
        ensures
            r.phase == 0,
            r.wf(),
    {
        DqpskMapper { phase: 0 }
    }

    /// Go back to phase zero.
    pub fn reset_phase(&mut self)
        ensures
            final(self).phase == 0,
    {
        self.phase = 0;
    }

    /// The current phase, without a turn.
    pub fn reference(&self) -> (r: u8)
        requires
            self.wf(),
        ensures
            r == self.phase,
    {
        self.phase as u8
    }

    /// The phase after a pair of bits.
    pub fn symbol(&mut self, bit0: bool, bit1: bool) -> (r: u8)
        requires
            old(self).wf(),
        ensures
            final(self).wf(),
            final(self).phase == turned(old(self).phase as int, bit0, bit1),
            r == final(self).phase,
    {
        let step: i8 = match (bit0, bit1) {
            (true, true) => -3,
            (true, false) => -1,
            (false, false) => 1,
            (false, true) => 3,
        };
        let sum: i8 = self.phase + step;
        self.phase = if sum < 0 {
            sum + 8
        } else if sum >= 8 {
            sum - 8
        } else {
            sum
        };
        self.phase as u8
    }
}

/// What belongs at a position of a slot.
pub enum Emission {
    Silence,
    /// The slot has passed.
    Passed,
    /// The phase reference in front of an uplink burst.
    Reference,
    Symbol(bool, bool),
}

/// Downlink: the bits fill the slot from its first sample on.
pub open spec fn downlink_emission(position: int, bits: Option<Seq<u8>>) -> Emission {
    if position < 0 {
        Emission::Silence
    } else if position >= SAMPLES_SLOT {
        Emission::Passed
    } else {
        match bits {
            Some(b) if position % (SPS as int) == 0 => {
                let n = position / (SPS as int);
                Emission::Symbol(b[2 * n] != 0, b[2 * n + 1] != 0)
            },
            _ => Emission::Silence,
        }
    }
}

/// Uplink: after the burst delay comes the phase reference, then the bits, then
/// silence.
pub open spec fn uplink_emission(position: int, bits: Option<Seq<u8>>) -> Emission {
    if position < BURST_DELAY_SYMS * SPS {
        Emission::Silence
    } else if position >= SAMPLES_SLOT {
        Emission::Passed
    } else {
        match bits {
            Some(b) if position % (SPS as int) == 0 => {
                let sn = position / (SPS as int) - BURST_DELAY_SYMS;
                if sn == 0 {
                    Emission::Reference
                } else if sn <= b.len() / 2 {
                    Emission::Symbol(b[2 * (sn - 1)] != 0, b[2 * (sn - 1) + 1] != 0)
                } else {
                    Emission::Silence
                }
            },
            _ => Emission::Silence,
        }
    }
}

/// Modulator of one carrier.
#[derive(Debug)]
pub struct Modulator {
    pub mode: Mode,
    /// Sample count at the start of hyperframe 0.
    pub reference_time: i64,
    pub dqpsk: DqpskMapper,
}

impl Modulator {
    /// The mapper is at one of its phases.
    pub open spec fn wf(self) -> bool {
        self.dqpsk.wf()
    }

    /// Sample count at the start of a slot.
    pub open spec fn slot_begin(self, time: TdmaTime) -> int {
        self.reference_time + time.slot_number() * SAMPLES_SLOT
    }

    /// What belongs at a sample count.
    pub open spec fn emission(self, counter: int, time: TdmaTime, bits: Option<Seq<u8>>) -> Emission {
        let position = counter - self.slot_begin(time);
        match self.mode {
            Mode::Dl => downlink_emission(position, bits),
            Mode::Ul => uplink_emission(position, bits),
        }
    }

    /// The modulator after an emission.
    pub open spec fn after(self, e: Emission) -> Modulator {
        match e {
            Emission::Reference => Modulator { dqpsk: DqpskMapper { phase: 0 }, ..self },
            Emission::Symbol(b0, b1) => Modulator {
                dqpsk: DqpskMapper { phase: turned(self.dqpsk.phase as int, b0, b1) as i8 },
                ..self
            },
            _ => self,
        }
    }

    /// What is handed to the pulse shaping filter for an emission: a phase, or
    /// nothing for silence.
    pub open spec fn output(self, e: Emission) -> Result<Option<u8>, Error> {
        match e {
            Emission::Silence => Ok(None),
            Emission::Passed => Err(Error::NeedMoreData),
            _ => Ok(Some(self.after(e).dqpsk.phase as u8)),
        }
    }

    /// A downlink slot that carries bits carries two for each symbol.
    pub open spec fn takes(self, bits: Option<Seq<u8>>) -> bool {
        self.mode is Dl ==> (bits matches Some(b) ==> b.len() >= 510)
    }

    /// The sample counts of a slot fit into their type.
    pub open spec fn in_range(self, counter: int, time: TdmaTime) -> bool {
        &&& i64::MIN <= counter <= i64::MAX
        &&& i64::MIN <= self.slot_begin(time) <= i64::MAX
        &&& i64::MIN <= counter - self.slot_begin(time) <= i64::MAX
    }

    /// Sample count at the start of a slot, for an uplink modulator.
    pub open spec fn uplink_begin(self, time: TdmaTime) -> Option<i64> {
        if self.mode is Ul {
            Some(self.slot_begin(time) as i64)
        } else {
            None
        }
    }

    /// The modulator with the recovered downlink timing, which only an uplink
    /// modulator follows.
    pub open spec fn aligned(self, reference_time: i64) -> Modulator {
        Modulator {
            reference_time: if self.mode is Ul {
                reference_time
            } else {
                self.reference_time
            },
            ..self
        }
    }

    /// A modulator whose time starts at sample zero.
    pub fn new(mode: Mode) -> (r: Modulator)
        ensures
            r.wf(),
            r == (Modulator { mode, reference_time: 0, dqpsk: DqpskMapper { phase: 0 } }),
    {
        Modulator { mode, reference_time: 0, dqpsk: DqpskMapper::new() }
    }

    /// Sample count at the start of a slot.
    fn begin_of(&self, time: TdmaTime) -> (r: i64)
        requires
            i64::MIN <= self.slot_begin(time) <= i64::MAX,
        ensures
            r == self.slot_begin(time),
    {
        let n: i64 = time.to_int() as i64;
        self.reference_time + n * SAMPLES_SLOT
    }

    /// The phase for one sample, `None` for silence. `filter_delay` is the delay
    /// of the pulse shaping filter in samples.
    pub fn sample(&mut self, sample_counter: i64, filter_delay: i64, tx_slot: &TxSlotBits) -> (r:
        Result<Option<u8>, Error>)
        requires
            old(self).wf(),
            old(self).takes(tx_slot.bits()),
            old(self).in_range(sample_counter + filter_delay, tx_slot.time),
        ensures
            final(self).wf(),
            ({
                let e = old(self).emission(
                    sample_counter + filter_delay,
                    tx_slot.time,
                    tx_slot.bits(),
                );
                &&& *final(self) == old(self).after(e)
                &&& r == old(self).output(e)
            }),
    {
        let counter: i64 = sample_counter + filter_delay;
        let position: i64 = counter - self.begin_of(tx_slot.time);
        match self.mode {
            Mode::Dl => {
                if position < 0 {
                    return Ok(None);
                }
                if position >= SAMPLES_SLOT {
                    return Err(Error::NeedMoreData);
                }
                if let Some(bits) = &tx_slot.slot {
                    if position % SPS == 0 {
                        let n: usize = (position / SPS) as usize;
                        let phase: u8 = self.dqpsk.symbol(bits[n * 2] != 0, bits[n * 2 + 1] != 0);
                        return Ok(Some(phase));
                    }
                }
                Ok(None)
            },
            Mode::Ul => {
                if position < BURST_DELAY_SYMS * SPS {
                    return Ok(None);
                }
                if position >= SAMPLES_SLOT {
                    return Err(Error::NeedMoreData);
                }
                if let Some(bits) = &tx_slot.slot {
                    if position % SPS == 0 {
                        let sn: i64 = position / SPS - BURST_DELAY_SYMS;
                        if sn == 0 {
                            self.dqpsk.reset_phase();
                            return Ok(Some(self.dqpsk.reference()));
                        }
                        let i: usize = (sn - 1) as usize;
                        if i < bits.len() / 2 {
                            let phase: u8 = self.dqpsk.symbol(
                                bits[i * 2] != 0,
                                bits[i * 2 + 1] != 0,
                            );
                            return Ok(Some(phase));
                        }
                    }
                }
                Ok(None)
            },
        }
    }

    /// Align an uplink modulator with the recovered downlink timing; a downlink
    /// modulator is the timing master and keeps its own.
    pub fn set_reference_time(&mut self, reference_time: i64)
        ensures
            *final(self) == old(self).aligned(reference_time),
    {
        if self.mode == Mode::Ul {
            self.reference_time = reference_time;
        }
    }

    /// Sample count at the start of a slot, for an uplink modulator.
    pub fn ul_slot_begin(&self, tx_slot: &TxSlotBits) -> (r: Option<i64>)
        requires
            self.mode is Ul ==> i64::MIN <= self.slot_begin(tx_slot.time) <= i64::MAX,
        ensures
            r == self.uplink_begin(tx_slot.time),
    {
        if self.mode == Mode::Ul {
            Some(self.begin_of(tx_slot.time))
        } else {
            None
        }
    }
}

// ---------------------------------------------------------------------------
// A whole slot
// ---------------------------------------------------------------------------

/// The modulator after the first `n` samples of a slot.
pub open spec fn swept(m: Modulator, time: TdmaTime, bits: Option<Seq<u8>>, n: nat) -> Modulator
    decreases n,
{
    if n == 0 {
        m
    } else {
        let w = swept(m, time, bits, (n - 1) as nat);
        w.after(w.emission(w.slot_begin(time) + n - 1, time, bits))
    }
}

/// The phase of symbol `n` of an uplink burst, from its phase reference on.
pub open spec fn burst_phase(bits: Seq<u8>, n: nat) -> int
    decreases n,
{
    if n == 0 {
        0
    } else {
        turned(burst_phase(bits, (n - 1) as nat), bits[2 * n - 2] != 0, bits[2 * n - 1] != 0)
    }
}

/// Symbols of an uplink burst that begin before sample `n` of the slot, the
/// phase reference not counted.
pub open spec fn symbols_before(n: int) -> int {
    if n <= BURST_DELAY_SYMS * SPS {
        0
    } else {
        (n - 1) / (SPS as int) - BURST_DELAY_SYMS
    }
}

/// An uplink burst is emitted whole and in order, whatever was sent before it:
/// at each sample of the slot after the reference, the modulator stands at the
/// phase of the last symbol that has begun.
pub proof fn law_uplink_burst_is_swept(m: Modulator, time: TdmaTime, bits: Seq<u8>, n: nat)
    requires
        m.wf(),
        m.mode is Ul,
        BURST_DELAY_SYMS * SPS < n <= SAMPLES_SLOT,
    ensures
        swept(m, time, Some(bits), n).mode is Ul,
        swept(m, time, Some(bits), n).reference_time == m.reference_time,
        swept(m, time, Some(bits), n).dqpsk.phase == burst_phase(
            bits,
            if symbols_before(n as int) <= bits.len() / 2 {
                symbols_before(n as int) as nat
            } else {
                bits.len() / 2
            },
        ),
    decreases n,
{
    reveal_with_fuel(swept, 2);
    let first = (BURST_DELAY_SYMS * SPS) as nat;
    if n == first + 1 {
        lemma_silent_before_burst(m, time, bits, first);
    } else {
        law_uplink_burst_is_swept(m, time, bits, (n - 1) as nat);
        let w = swept(m, time, Some(bits), (n - 1) as nat);
        let p = n - 1;
        assert(w.slot_begin(time) + n - 1 - w.slot_begin(time) == p);
        if p % 4 == 0 {
            assert(symbols_before(n as int) == symbols_before(n - 1) + 1);
        } else {
            assert(symbols_before(n as int) == symbols_before(n - 1));
        }
        lemma_burst_phase_bound(bits, symbols_before(n - 1) as nat);
    }
}

proof fn lemma_silent_before_burst(m: Modulator, time: TdmaTime, bits: Seq<u8>, n: nat)
    requires
        m.mode is Ul,
        n <= BURST_DELAY_SYMS * SPS,
    ensures
        swept(m, time, Some(bits), n) == m,
    decreases n,
{
    if n > 0 {
        lemma_silent_before_burst(m, time, bits, (n - 1) as nat);
    }
}

proof fn lemma_burst_phase_bound(bits: Seq<u8>, n: nat)
    ensures
        0 <= burst_phase(bits, n) < 8,
    decreases n,
{
    if n > 0 {
        lemma_burst_phase_bound(bits, (n - 1) as nat);
    }
}

/// Outside its active part, an uplink slot is silent: before the reference, and
/// after the last symbol.
pub proof fn law_uplink_is_silent_around_the_burst(position: int, bits: Seq<u8>)
    requires
        0 <= position < SAMPLES_SLOT,
        position < BURST_DELAY_SYMS * SPS || position >= (BURST_DELAY_SYMS + bits.len() / 2 + 1)
            * SPS,
    ensures
        uplink_emission(position, Some(bits)) is Silence,
{
}

/// A slot without bits is silent, and a slot that has passed asks for more data,
/// in either mode.
pub proof fn law_empty_slot_is_silent(position: int, bits: Option<Seq<u8>>)
    ensures
        0 <= position < SAMPLES_SLOT ==> downlink_emission(position, None) is Silence
            && uplink_emission(position, None) is Silence,
        position >= SAMPLES_SLOT ==> downlink_emission(position, bits) is Passed
            && uplink_emission(position, bits) is Passed,
        position < 0 ==> downlink_emission(position, bits) is Silence && uplink_emission(
            position,
            bits,
        ) is Silence,
{
}

/// Consecutive slots follow each other without a gap.
pub proof fn law_slots_are_contiguous(m: Modulator, a: TdmaTime, b: TdmaTime)
    requires
        b.slot_number() == a.slot_number() + 1,
    ensures
        m.slot_begin(b) == m.slot_begin(a) + SAMPLES_SLOT,
{
}

/// The phase turns by an eighth for 00, three eighths for 01, and by as much the
/// other way for 10 and 11; eight eighths are a full turn.
pub proof fn law_turns(phase: int)
    requires
        0 <= phase < 8,
    ensures
        turned(phase, false, false) == (phase + 1) % 8,
        turned(phase, false, true) == (phase + 3) % 8,
        turned(phase, true, true) == (phase + 5) % 8,
        turned(phase, true, false) == (phase + 7) % 8,
{
}

/// A downlink slot has 255 symbols of four samples each; symbol `n` begins with
/// sample `4 n` and carries bits `2 n` and `2 n + 1`. Between two symbols there is
/// nothing.
pub proof fn law_downlink_symbols(bits: Seq<u8>, n: int, k: int)
    requires
        0 <= n < 255,
        0 < k < 4,
    ensures
        downlink_emission(4 * n, Some(bits)) == Emission::Symbol(
            bits[2 * n] != 0,
            bits[2 * n + 1] != 0,
        ),
        downlink_emission(4 * n + k, Some(bits)) is Silence,
        downlink_emission(4 * n + k, None) is Silence,
        downlink_emission(1020, Some(bits)) is Passed,
        downlink_emission(-1, Some(bits)) is Silence,
{
}

/// An uplink burst starts 17 symbols into its slot with the phase reference;
/// symbol `n` behind it carries bits `2 n` and `2 n + 1`, as long as there are
/// bits. Everything else of the slot is silent.
pub proof fn law_uplink_symbols(bits: Seq<u8>, n: int, k: int)
    requires
        0 <= n < 237,
        0 < k < 4,
    ensures
        uplink_emission(68, Some(bits)) is Reference,
        2 * n + 1 < bits.len() ==> uplink_emission(72 + 4 * n, Some(bits)) == Emission::Symbol(
            bits[2 * n] != 0,
            bits[2 * n + 1] != 0,
        ),
        2 * n + 1 >= bits.len() ==> uplink_emission(72 + 4 * n, Some(bits)) is Silence,
        uplink_emission(68 + 4 * n + k, Some(bits)) is Silence,
        uplink_emission(67, Some(bits)) is Silence,
        uplink_emission(1020, Some(bits)) is Passed,
{
}

/// The position in a slot counts from its first sample: slot `s` of the time axis
/// begins 1020 samples per slot behind the reference time. A downlink modulator
/// emits by the downlink rule, an uplink modulator by the uplink rule.
pub proof fn law_position_in_the_slot(m: Modulator, p: int, time: TdmaTime, bits: Option<Seq<u8>>)
    ensures
        m.slot_begin(time) == m.reference_time + 1020 * time.slot_number(),
        m.mode is Dl ==> m.emission(m.slot_begin(time) + p, time, bits) == downlink_emission(
            p,
            bits,
        ),
        m.mode is Ul ==> m.emission(m.slot_begin(time) + p, time, bits) == uplink_emission(p, bits),
{
}

/// The reference is phase zero, a symbol turns the phase from where it stands, and
/// both hand the phase on; silence hands on nothing and leaves the phase alone, and
/// a slot that has passed is reported. Mode and reference time never change.
pub proof fn law_emission_moves_the_phase(m: Modulator, b0: bool, b1: bool)
    requires
        m.wf(),
    ensures
        m.after(Emission::Reference).dqpsk.phase == 0,
        m.output(Emission::Reference) == Ok::<Option<u8>, Error>(Some(0u8)),
        m.after(Emission::Symbol(b0, b1)).dqpsk.phase == turned(m.dqpsk.phase as int, b0, b1),
        m.output(Emission::Symbol(b0, b1)) matches Ok(Some(p)) && p == turned(
            m.dqpsk.phase as int,
            b0,
            b1,
        ),
        m.after(Emission::Silence) == m,
        m.after(Emission::Passed) == m,
        m.output(Emission::Silence) == Ok::<Option<u8>, Error>(None),
        m.output(Emission::Passed) == Err::<Option<u8>, Error>(Error::NeedMoreData),
        forall|e: Emission|
            (#[trigger] m.after(e)).mode == m.mode && m.after(e).reference_time
                == m.reference_time,
{
}

/// Only an uplink modulator follows the recovered timing; its mode and its phase
/// stay.
pub proof fn law_uplink_follows_the_downlink(m: Modulator, t: i64)
    ensures
        m.mode is Ul ==> m.aligned(t).reference_time == t,
        m.mode is Dl ==> m.aligned(t).reference_time == m.reference_time,
        m.aligned(t).mode == m.mode,
        m.aligned(t).dqpsk == m.dqpsk,
{
}

/// A slot to transmit has the bits that it holds, and none where it is empty.
pub proof fn law_slot_bits(s: TxSlotBits)
    ensures
        s.slot is None ==> s.bits() is None,
        s.slot matches Some(b) ==> s.bits() == Some(b@),
{
}

/// Only an uplink modulator tells where a slot begins: 1020 samples per slot behind
/// its reference time.
pub proof fn law_uplink_begin(m: Modulator, time: TdmaTime)
    requires
        i64::MIN <= m.reference_time + 1020 * time.slot_number() <= i64::MAX,
    ensures
        m.uplink_begin(time) is Some <==> m.mode is Ul,
        m.uplink_begin(time) matches Some(n) ==> n == m.reference_time + 1020 * time.slot_number(),
{
}

} // verus!
