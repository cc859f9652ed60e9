//! What holds of registration as a whole.

use vstd::prelude::*;

use crate::mm::mm_ms::{
    demand_msg, group_demand, reject_action, MmMs, RegState, DETACH_DRAIN_SLOTS,
    MAX_REGISTRATION_ATTEMPTS, N351_MAX_SYSTEM_REJECTIONS, T351_TIMEOUT_SLOTS,
};
use crate::mm::pdu::{MmDownlinkPdu, MmMsgView, RejectCause};
use crate::sap::{LmmMleActivateConf, MsgView};

verus! {

/// A station that has left the system never sends a demand again, whatever
/// arrives and however long it runs.
pub proof fn law_leaving_is_for_good(v: MmMs, m: MsgView, pdu: MmDownlinkPdu)
    requires
        v.wf(),
        v.takes(m),
        v.left_system,
    ensures
        v.after_prim(m, pdu).0.left_system,
        v.after_prim(m, pdu).1 == Seq::<MmMsgView>::empty(),
        v.after_tick().0.left_system,
        v.after_tick().1 == Seq::<MmMsgView>::empty(),
        v.after_begin_deregistration().0.left_system,
{
}

/// A station that detaches stays so: nothing starts a registration, and nothing
/// is sent.
pub proof fn law_detaching_is_terminal(v: MmMs, m: MsgView, pdu: MmDownlinkPdu)
    requires
        v.takes(m),
        v.reg_state is Detaching,
    ensures
        v.after_prim(m, pdu) == (v, Seq::<MmMsgView>::empty()),
        v.after_tick().0.reg_state is Detaching,
        v.after_tick().1 == Seq::<MmMsgView>::empty(),
        v.after_begin_deregistration() == (v, Seq::<MmMsgView>::empty()),
{
}

/// `n` slots pass without a message.
pub open spec fn ticks(v: MmMs, n: nat) -> MmMs
    decreases n,
{
    if n == 0 {
        v
    } else {
        ticks(v, (n - 1) as nat).after_tick().0
    }
}

/// What is sent in `n` slots that pass without a message.
pub open spec fn sent(v: MmMs, n: nat) -> Seq<MmMsgView>
    decreases n,
{
    if n == 0 {
        Seq::empty()
    } else {
        sent(v, (n - 1) as nat) + ticks(v, (n - 1) as nat).after_tick().1
    }
}

/// While the timer runs, nothing is sent; it runs down slot by slot.
pub proof fn law_timer_runs_down(v: MmMs, n: nat)
    requires
        v.reg_state is Registering,
        n <= v.t351_countdown,
    ensures
        ticks(v, n) == (MmMs { t351_countdown: (v.t351_countdown - n) as u32, ..v }),
        sent(v, n) == Seq::<MmMsgView>::empty(),
    decreases n,
{
    if n > 0 {
        law_timer_runs_down(v, (n - 1) as nat);
    }
}

/// Without a response, the demand is sent again after the timer has expired, up
/// to the limit; then the attempt is given up.
pub proof fn law_demand_is_repeated(v: MmMs)
    requires
        v.wf(),
        v.reg_state is Registering,
        v.t351_countdown == T351_TIMEOUT_SLOTS,
        v.attempts < MAX_REGISTRATION_ATTEMPTS ==> v.config.ms is Some,
    ensures
        v.attempts < MAX_REGISTRATION_ATTEMPTS ==> {
            &&& ticks(v, (T351_TIMEOUT_SLOTS + 1) as nat) == (MmMs {
                attempts: (v.attempts + 1) as u8,
                ..v
            })
            &&& sent(v, (T351_TIMEOUT_SLOTS + 1) as nat) == seq![
                demand_msg(v.config.own_issi()->0, v.config.groups()),
            ]
        },
        v.attempts == MAX_REGISTRATION_ATTEMPTS ==> {
            &&& ticks(v, (T351_TIMEOUT_SLOTS + 1) as nat) == (MmMs {
                reg_state: RegState::Idle,
                t351_countdown: 0,
                ..v
            })
            &&& sent(v, (T351_TIMEOUT_SLOTS + 1) as nat) == Seq::<MmMsgView>::empty()
        },
{
    law_timer_runs_down(v, T351_TIMEOUT_SLOTS as nat);
}

/// Slots that pass one after the other pass in one go.
proof fn lemma_ticks_add(v: MmMs, a: nat, b: nat)
    ensures
        ticks(v, a + b) == ticks(ticks(v, a), b),
        sent(v, a + b) == sent(v, a) + sent(ticks(v, a), b),
    decreases b,
{
    if b > 0 {
        lemma_ticks_add(v, a, (b - 1) as nat);
        assert((a + b - 1) as nat == a + (b - 1) as nat);
    }
}

/// A registration that is never answered ends: counted from the first demand,
/// the station is idle again once the timer has expired for each demand that may
/// be sent, and it has sent exactly the demands that were left.
pub proof fn law_unanswered_registration_ends(v: MmMs)
    requires
        v.wf(),
        v.reg_state is Registering,
        v.t351_countdown == T351_TIMEOUT_SLOTS,
        v.attempts < MAX_REGISTRATION_ATTEMPTS ==> v.config.ms is Some,
    ensures
        ({
            let left = MAX_REGISTRATION_ATTEMPTS - v.attempts;
            let n = ((left + 1) * (T351_TIMEOUT_SLOTS + 1)) as nat;
            &&& ticks(v, n).reg_state is Idle
            &&& sent(v, n).len() == left
        }),
    decreases MAX_REGISTRATION_ATTEMPTS - v.attempts,
{
    law_demand_is_repeated(v);
    let t = (T351_TIMEOUT_SLOTS + 1) as nat;
    let left = (MAX_REGISTRATION_ATTEMPTS - v.attempts) as nat;
    if left == 0 {
        assert((left + 1) * t == t) by (nonlinear_arith)
            requires
                left == 0,
        ;
    } else {
        let w = MmMs { attempts: (v.attempts + 1) as u8, ..v };
        law_unanswered_registration_ends(w);
        assert((left + 1) * t == t + left * t) by (nonlinear_arith);
        lemma_ticks_add(v, t, left * t);
    }
}

/// An accepted registration is complete: the count of rejections is cleared, and
/// nothing is sent from then on, until the shutdown.
pub proof fn law_accept_completes(v: MmMs, n: nat)
    requires
        v.wf(),
        v.reg_state is Registering,
    ensures
        v.after_accept().reg_state is Registered,
        v.after_accept().system_rejection_count == 0,
        ticks(v.after_accept(), n) == v.after_accept(),
        sent(v.after_accept(), n) == Seq::<MmMsgView>::empty(),
    decreases n,
{
    if n > 0 {
        law_accept_completes(v, (n - 1) as nat);
    }
}

/// A confirmation of a cell is acted upon by a station that is neither
/// registered nor detaching, only where the cell requires registration.
pub proof fn law_registration_is_on_demand(v: MmMs, conf: LmmMleActivateConf)
    requires
        !conf.registration_required || v.reg_state is Registered,
    ensures
        v.after_activate(conf) == (v, Seq::<MmMsgView>::empty()),
{
}

/// A rejection while timer T351 does not run is ignored; so is a second one that
/// comes before the demand has been sent again.
pub proof fn law_stray_rejection_is_ignored(
    v: MmMs,
    cause: Option<RejectCause>,
    second: Option<RejectCause>,
)
    requires
        v.wf(),
    ensures
        v.reg_state !is Registering ==> v.after_reject(cause) == v,
        v.t351_countdown == 0 ==> v.after_reject(cause) == v,
        v.after_reject(cause).after_reject(second) == v.after_reject(cause),
{
}

/// A rejection that is awaited and allows another try leads to one, at the next slot, unless
/// the limit is reached; any other ends the attempt.
pub proof fn law_rejection_is_retried_or_ends(v: MmMs, cause: RejectCause)
    requires
        v.wf(),
        v.t351_countdown > 0,
        reject_action(cause) is Retry && v.attempts < MAX_REGISTRATION_ATTEMPTS
            ==> v.config.ms is Some,
    ensures
        reject_action(cause) is Retry && v.attempts < MAX_REGISTRATION_ATTEMPTS ==> {
            let w = v.after_reject(Some(cause));
            &&& w.after_tick().1 == seq![demand_msg(v.config.own_issi()->0, v.config.groups())]
            &&& w.after_tick().0.attempts == v.attempts + 1
            &&& w.after_tick().0.reg_state is Registering
        },
        !(reject_action(cause) is Retry && v.attempts < MAX_REGISTRATION_ATTEMPTS) ==> {
            let w = v.after_reject(Some(cause));
            &&& w.reg_state is Idle
            &&& w.after_tick() == (w, Seq::<MmMsgView>::empty())
        },
        reject_action(cause) !is SystemRejection ==> v.after_reject(
            Some(cause),
        ).system_rejection_count == v.system_rejection_count && v.after_reject(
            Some(cause),
        ).left_system == v.left_system,
{
}

/// A cell is selected and its network rejects the station as a system rejection,
/// `n` times.
pub open spec fn system_rejections(
    v: MmMs,
    conf: LmmMleActivateConf,
    cause: RejectCause,
    n: nat,
) -> MmMs
    decreases n,
{
    if n == 0 {
        v
    } else {
        system_rejections(v, conf, cause, (n - 1) as nat).after_activate(conf).0.after_reject(
            Some(cause),
        )
    }
}

/// The station leaves the system with the last system rejection that N351
/// allows, and not before.
pub proof fn law_leaves_after_n351(v: MmMs, conf: LmmMleActivateConf, cause: RejectCause, n: nat)
    requires
        v.wf(),
        v.reg_state is Idle,
        !v.left_system,
        v.system_rejection_count == 0,
        conf.registration_required,
        reject_action(cause) is SystemRejection,
        n <= N351_MAX_SYSTEM_REJECTIONS,
    ensures
        system_rejections(v, conf, cause, n).system_rejection_count == n,
        system_rejections(v, conf, cause, n).left_system == (n == N351_MAX_SYSTEM_REJECTIONS),
        system_rejections(v, conf, cause, n).reg_state is Idle,
    decreases n,
{
    if n > 0 {
        law_leaves_after_n351(v, conf, cause, (n - 1) as nat);
    }
}

/// The drain after a detach lasts for its number of slots and sends nothing.
pub proof fn law_drain_is_bounded(v: MmMs, n: nat)
    requires
        v.wf(),
        v.reg_state is Registered,
    ensures
        ({
            let w = ticks(v.after_begin_deregistration().0, n);
            &&& w.reg_state is Detaching
            &&& (w.detach_countdown > 0) == (n < DETACH_DRAIN_SLOTS)
            &&& n <= DETACH_DRAIN_SLOTS ==> w.detach_countdown == DETACH_DRAIN_SLOTS - n
            &&& sent(v.after_begin_deregistration().0, n) == Seq::<MmMsgView>::empty()
        }),
    decreases n,
{
    if n > 0 {
        law_drain_is_bounded(v, (n - 1) as nat);
    }
}

/// The demand attaches exactly the configured groups, in order, each by its
/// identity and as an attachment.
pub proof fn law_demand_names_the_groups(groups: Seq<u32>)
    ensures
        group_demand(groups) is None <==> groups.len() == 0,
        group_demand(groups) matches Some(d) ==> {
            &&& d.group_identity_uplink matches Some(l)
            &&& l.len() == groups.len()
            &&& forall|i: int|
                0 <= i < groups.len() ==> (#[trigger] l[i]).gssi == Some(groups[i])
                    && l[i].class_of_usage is Some && l[i].group_identity_detachment_uplink is None
        },
{
}

} // verus!
