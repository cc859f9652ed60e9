//! TDMA time of the air interface: timeslot, frame, multiframe, hyperframe
//! (ETSI TS 100 392-2 cl. 7 / 9).

use vstd::prelude::*;

verus! {

/// Timeslots counted before the 16-bit hyperframe number wraps to zero.
pub const SLOT_COUNT_SPAN: i64 = 283_115_520;

/// A position on the TDMA time axis.
#[derive(Clone, Copy, Debug, PartialEq, Eq, Structural)]
pub struct TdmaTime {
    /// Timeslot, 1 to 4.
    pub t: u8,
    /// Frame, 1 to 18.
    pub f: u8,
    /// Multiframe, 1 to 60.
    pub m: u8,
    /// Hyperframe.
    pub h: u16,
}

impl Default for TdmaTime {
    fn default() -> (r: TdmaTime)
        ensures
            r == (TdmaTime { t: 1, f: 1, m: 1, h: 0 }),
    {
        TdmaTime { t: 1, f: 1, m: 1, h: 0 }
    }
}

impl TdmaTime {
    /// The four counters are in their ranges.
    pub open spec fn wf(self) -> bool {
        &&& 1 <= self.t <= 4
        &&& 1 <= self.f <= 18
        &&& 1 <= self.m <= 60
    }

    /// Number of timeslots since the start of hyperframe 0.
    pub open spec fn slot_number(self) -> int {
        (self.t - 1) + 4 * (self.f - 1) + 72 * (self.m - 1) + 4320 * self.h
    }

    /// The time whose slot number is `n`, modulo the hyperframe wrap.
    pub open spec fn at_slot(n: int) -> TdmaTime {
        let s = n % (SLOT_COUNT_SPAN as int);
        TdmaTime {
            t: (s % 4 + 1) as u8,
            f: ((s / 4) % 18 + 1) as u8,
            m: ((s / 72) % 60 + 1) as u8,
            h: (s / 4320) as u16,
        }
    }

    /// The time `n` timeslots later (earlier where `n` is negative).
    pub open spec fn plus(self, n: int) -> TdmaTime {
        TdmaTime::at_slot(self.slot_number() + n)
    }

    /// The slot carries the mandatory common linearization channel: frame 18, in
    /// the timeslot that moves with the multiframe (cl. 9.5).
    pub open spec fn mandatory_clch(self) -> bool {
        self.f == 18 && self.t == 4 - (self.m + 1) % 4
    }

    /// Number of timeslots since the start of hyperframe 0.
    pub fn to_int(self) -> (r: i32)
        ensures
            r == self.slot_number(),
    {
        (self.t as i32 - 1) + 4 * (self.f as i32 - 1) + 72 * (self.m as i32 - 1) + 4320 * (
        self.h as i32)
    }

    /// The time with slot number `n`; a number outside one wrap of the
    /// hyperframe counter is taken modulo that wrap.
    pub fn from_int(n: i64) -> (r: TdmaTime)
        ensures
            r == TdmaTime::at_slot(n as int),
            r.wf(),
            r.slot_number() == n % SLOT_COUNT_SPAN,
    {
        let s: i64 = wrap_slot(n);
        proof {
            lemma_at_slot(n as int);
        }
        TdmaTime {
            t: (s % 4 + 1) as u8,
            f: ((s / 4) % 18 + 1) as u8,
            m: ((s / 72) % 60 + 1) as u8,
            h: (s / 4320) as u16,
        }
    }

    /// The time `n` timeslots later (earlier where `n` is negative).
    pub fn add_timeslots(self, n: i32) -> (r: TdmaTime)
        ensures
            r == self.plus(n as int),
            r.wf(),
    {
        let s: i64 = self.to_int() as i64 + n as i64;
        TdmaTime::from_int(s)
    }

    /// How many timeslots `self` is after `other`; negative where it is before.
    pub fn diff(self, other: TdmaTime) -> (r: i32)
        ensures
            r == self.slot_number() - other.slot_number(),
    {
        self.to_int() - other.to_int()
    }

    /// Whether the slot carries the mandatory common linearization channel.
    pub fn is_mandatory_clch(self) -> (r: bool)
        ensures
            r == self.mandatory_clch(),
    {
        let m: u16 = self.m as u16;
        self.f == 18 && self.t as u16 == 4 - (m + 1) % 4
    }
}

/// `n` modulo the hyperframe wrap.
fn wrap_slot(n: i64) -> (s: i64)
    ensures
        s == n as int % (SLOT_COUNT_SPAN as int),
        0 <= s < SLOT_COUNT_SPAN,
{
    let s: i64 = n % SLOT_COUNT_SPAN;
    if s < 0 {
        s + SLOT_COUNT_SPAN
    } else {
        s
    }
}

/// The time at a slot number is in range and has that slot number (modulo the
/// hyperframe wrap).
pub proof fn lemma_at_slot(n: int)
    ensures
        TdmaTime::at_slot(n).wf(),
        TdmaTime::at_slot(n).slot_number() == n % (SLOT_COUNT_SPAN as int),
{
    let s = n % (SLOT_COUNT_SPAN as int);
    vstd::arithmetic::div_mod::lemma_mod_bound(n, SLOT_COUNT_SPAN as int);
    let (a, b, c) = (s / 4, s / 72, s / 4320);
    vstd::arithmetic::div_mod::lemma_fundamental_div_mod(s, 4);
    vstd::arithmetic::div_mod::lemma_fundamental_div_mod(a, 18);
    vstd::arithmetic::div_mod::lemma_fundamental_div_mod(b, 60);
    vstd::arithmetic::div_mod::lemma_div_denominator(s, 4, 18);
    vstd::arithmetic::div_mod::lemma_div_denominator(s, 72, 60);
    assert(0 <= c < 65536);
    assert(0 <= s % 4 < 4 && 0 <= a % 18 < 18 && 0 <= b % 60 < 60);
    let r = TdmaTime::at_slot(n);
    assert(r.t == s % 4 + 1 && r.f == a % 18 + 1 && r.m == b % 60 + 1 && r.h == c);
}

/// A time in range is the time at its own slot number, so advancing by zero
/// slots changes nothing.
pub proof fn lemma_slot_number_identifies(a: TdmaTime)
    requires
        a.wf(),
    ensures
        0 <= a.slot_number() < SLOT_COUNT_SPAN,
        TdmaTime::at_slot(a.slot_number()) == a,
        a.plus(0) == a,
{
    let s = a.slot_number();
    let q1 = (a.f - 1) + 18 * (a.m - 1) + 1080 * a.h;
    let q2 = (a.m - 1) + 60 * a.h;
    assert(s == 4 * q1 + (a.t - 1) && q1 == 18 * q2 + (a.f - 1) && q2 == 60 * a.h + (a.m - 1));
    vstd::arithmetic::div_mod::lemma_fundamental_div_mod_converse(s, 4, q1, a.t - 1);
    vstd::arithmetic::div_mod::lemma_fundamental_div_mod_converse(q1, 18, q2, a.f - 1);
    vstd::arithmetic::div_mod::lemma_fundamental_div_mod_converse(q2, 60, a.h as int, a.m - 1);
    vstd::arithmetic::div_mod::lemma_fundamental_div_mod_converse(
        s,
        72,
        q2,
        4 * (a.f - 1) + (a.t - 1),
    );
    vstd::arithmetic::div_mod::lemma_fundamental_div_mod_converse(
        s,
        4320,
        a.h as int,
        72 * (a.m - 1) + 4 * (a.f - 1) + (a.t - 1),
    );
    vstd::arithmetic::div_mod::lemma_small_mod(s as nat, SLOT_COUNT_SPAN as nat);
}

/// Advancing by `x` and by `y` timeslots is advancing by their sum.
pub proof fn lemma_plus_plus(a: TdmaTime, x: int, y: int)
    ensures
        a.plus(x).plus(y) == a.plus(x + y),
{
    lemma_at_slot(a.slot_number() + x);
    let n = a.slot_number() + x;
    vstd::arithmetic::div_mod::lemma_add_mod_noop(n, y, SLOT_COUNT_SPAN as int);
    vstd::arithmetic::div_mod::lemma_add_mod_noop(
        n % (SLOT_COUNT_SPAN as int),
        y,
        SLOT_COUNT_SPAN as int,
    );
}

/// One TDMA frame later the timeslot number is the same and the frame number is
/// the next one.
pub proof fn lemma_next_frame_keeps_timeslot(a: TdmaTime)
    requires
        a.wf(),
    ensures
        a.plus(4).t == a.t,
        a.plus(4).f == a.f % 18 + 1,
{
    let b = if a.f < 18 {
        TdmaTime { f: (a.f + 1) as u8, ..a }
    } else if a.m < 60 {
        TdmaTime { f: 1, m: (a.m + 1) as u8, ..a }
    } else if a.h < 65535 {
        TdmaTime { f: 1, m: 1, h: (a.h + 1) as u16, ..a }
    } else {
        TdmaTime { f: 1, m: 1, h: 0, ..a }
    };
    lemma_slot_number_identifies(b);
    if a.f == 18 && a.m == 60 && a.h == 65535 {
        assert(a.slot_number() + 4 == SLOT_COUNT_SPAN + b.slot_number());
        vstd::arithmetic::div_mod::lemma_mod_add_multiples_vanish(
            b.slot_number(),
            SLOT_COUNT_SPAN as int,
        );
    } else {
        assert(a.slot_number() + 4 == b.slot_number());
    }
}

/// Time runs slot by slot: four slots make a frame, eighteen frames a multiframe,
/// sixty multiframes a hyperframe, and after the last hyperframe comes the first.
pub proof fn law_next_slot(a: TdmaTime)
    requires
        a.wf(),
    ensures
        a.plus(1) == (if a.t < 4 {
            TdmaTime { t: (a.t + 1) as u8, ..a }
        } else if a.f < 18 {
            TdmaTime { t: 1, f: (a.f + 1) as u8, ..a }
        } else if a.m < 60 {
            TdmaTime { t: 1, f: 1, m: (a.m + 1) as u8, ..a }
        } else if a.h < 65535 {
            TdmaTime { t: 1, f: 1, m: 1, h: (a.h + 1) as u16 }
        } else {
            TdmaTime { t: 1, f: 1, m: 1, h: 0 }
        }),
{
    let b = if a.t < 4 {
        TdmaTime { t: (a.t + 1) as u8, ..a }
    } else if a.f < 18 {
        TdmaTime { t: 1, f: (a.f + 1) as u8, ..a }
    } else if a.m < 60 {
        TdmaTime { t: 1, f: 1, m: (a.m + 1) as u8, ..a }
    } else if a.h < 65535 {
        TdmaTime { t: 1, f: 1, m: 1, h: (a.h + 1) as u16 }
    } else {
        TdmaTime { t: 1, f: 1, m: 1, h: 0 }
    };
    lemma_slot_number_identifies(b);
    if a.t == 4 && a.f == 18 && a.m == 60 && a.h == 65535 {
        assert(a.slot_number() + 1 == SLOT_COUNT_SPAN + b.slot_number());
        vstd::arithmetic::div_mod::lemma_mod_add_multiples_vanish(
            b.slot_number(),
            SLOT_COUNT_SPAN as int,
        );
    } else {
        assert(a.slot_number() + 1 == b.slot_number());
    }
}

/// The slot number counts slots: it is zero at the first slot of hyperframe 0,
/// and grows by one with each slot but the last before the wrap. Steps of one
/// slot add up to steps of any number.
pub proof fn law_slot_number_counts_slots(a: TdmaTime, n: int)
    requires
        a.wf(),
    ensures
        (TdmaTime { t: 1, f: 1, m: 1, h: 0 }).slot_number() == 0,
        a.slot_number() + 1 < 283_115_520 ==> a.plus(1).slot_number() == a.slot_number() + 1,
        a.slot_number() + 1 == 283_115_520 ==> a.plus(1).slot_number() == 0,
        a.plus(n).plus(1) == a.plus(n + 1),
        a.plus(0) == a,
        0 <= a.slot_number() < 283_115_520,
{
    lemma_slot_number_identifies(a);
    lemma_at_slot(a.slot_number() + 1);
    lemma_plus_plus(a, n, 1);
    if a.slot_number() + 1 < 283_115_520 {
        vstd::arithmetic::div_mod::lemma_small_mod((a.slot_number() + 1) as nat, 283_115_520);
    }
}

/// In frame 18 exactly one of the four slots is lost to linearization, another
/// one in each of four multiframes in a row; in no other frame is there one.
pub proof fn law_linearization_moves(a: TdmaTime)
    requires
        a.wf(),
    ensures
        a.mandatory_clch() <==> a.f == 18 && (a.t + a.m + 1) % 4 == 0,
{
}

} // verus!
