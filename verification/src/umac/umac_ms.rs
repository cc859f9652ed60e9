//! State of the mobile station's upper MAC.

use std::collections::{BTreeSet, VecDeque};

use vstd::prelude::*;

use crate::bits::BitBuffer;
use crate::config::StackConfig;
use crate::sap::{LogicalChannel, ReceiptMark, StackMode, TxOutcome, TxReporter};
use crate::tdma::TdmaTime;
use crate::umac::mac_block::{FragEndKind, MacBlock};
use crate::umac::ms_random_access::AccessParamStore;

verus! {

/// The broadcast identity: the 24-bit SSI with all bits set.
pub const BROADCAST_SSI: u32 = 0xFF_FFFF;

/// TCH/S type-1 speech frame length in bits.
pub const TCH_S_TYPE1_BITS: usize = 274;

/// Most uplink speech frames that are buffered.
pub const UPLINK_AUDIO_MAX_FRAMES: usize = 4;

/// Most uplink transfers that wait behind the one in flight.
pub const MAX_UPLINK_QUEUE: usize = 16;

/// A MAC block built for uplink transmission, awaiting an access opportunity
/// (cl. 23.5).
#[derive(Debug)]
pub struct PendingUplink<B> {
    pub mac_block: MacBlock<B>,
    pub logical_channel: LogicalChannel,
    pub scrambling_code: u32,
    /// Receipt of the transfer; the first fragment of a fragmented transfer
    /// carries none, its remainder does.
    pub tx_reporter: Option<TxReporter>,
    /// Priority for the access gate (cl. 23.5.1.4.4); `None` means the least
    /// that the access code admits.
    pub pdu_priority: Option<u8>,
    pub is_emergency: bool,
}

impl View for PendingUplink<BitBuffer> {
    type V = PendingUplink<Seq<bool>>;

    open spec fn view(&self) -> PendingUplink<Seq<bool>> {
        PendingUplink {
            mac_block: self.mac_block@,
            logical_channel: self.logical_channel,
            scrambling_code: self.scrambling_code,
            tx_reporter: self.tx_reporter,
            pdu_priority: self.pdu_priority,
            is_emergency: self.is_emergency,
        }
    }
}

/// The rest of a TM-SDU whose first fragment is on its way, to be sent once the
/// network grants capacity (cl. 23.4.2.1.2).
#[derive(Debug)]
pub struct UplinkFragment<B> {
    pub remainder: B,
    pub scrambling_code: u32,
    pub end_kind: FragEndKind,
    pub tx_reporter: Option<TxReporter>,
}

impl View for UplinkFragment<BitBuffer> {
    type V = UplinkFragment<Seq<bool>>;

    open spec fn view(&self) -> UplinkFragment<Seq<bool>> {
        UplinkFragment {
            remainder: self.remainder@,
            scrambling_code: self.scrambling_code,
            end_kind: self.end_kind,
            tx_reporter: self.tx_reporter,
        }
    }
}

/// A multi-slot transfer under way: one block per reserved slot.
#[derive(Debug)]
pub struct ReservedTxPlan {
    pub blocks: VecDeque<MacBlock<BitBuffer>>,
    pub slots: VecDeque<TdmaTime>,
    pub scrambling_code: u32,
    pub tx_reporter: Option<TxReporter>,
}

/// What a multi-slot transfer still has to send, and where.
#[verifier::ext_equal]
pub struct ReservedView {
    pub blocks: Seq<MacBlock<Seq<bool>>>,
    pub slots: Seq<TdmaTime>,
    pub scrambling_code: u32,
    pub tx_reporter: Option<TxReporter>,
}

impl View for ReservedTxPlan {
    type V = ReservedView;

    open spec fn view(&self) -> ReservedView {
        ReservedView {
            blocks: self.blocks@.map_values(|b: MacBlock<BitBuffer>| b@),
            slots: self.slots@,
            scrambling_code: self.scrambling_code,
            tx_reporter: self.tx_reporter,
        }
    }
}

/// A complete transfer that waits behind the one in flight.
#[derive(Debug)]
pub struct QueuedUplink<B> {
    pub pending: PendingUplink<B>,
    pub fragment: Option<UplinkFragment<B>>,
}

impl View for QueuedUplink<BitBuffer> {
    type V = QueuedUplink<Seq<bool>>;

    open spec fn view(&self) -> QueuedUplink<Seq<bool>> {
        QueuedUplink { pending: self.pending@, fragment: opt_fragment(self.fragment) }
    }
}

/// Signalling that waits to steal a half-slot of the traffic channel (cl. 23).
#[derive(Debug)]
pub struct PendingStolenSignalling<B> {
    pub mac_block: MacBlock<B>,
    pub scrambling_code: u32,
    pub tx_reporter: Option<TxReporter>,
}

impl View for PendingStolenSignalling<BitBuffer> {
    type V = PendingStolenSignalling<Seq<bool>>;

    open spec fn view(&self) -> PendingStolenSignalling<Seq<bool>> {
        PendingStolenSignalling {
            mac_block: self.mac_block@,
            scrambling_code: self.scrambling_code,
            tx_reporter: self.tx_reporter,
        }
    }
}

/// The view of an optional block that awaits transmission.
pub open spec fn opt_pending(p: Option<PendingUplink<BitBuffer>>) -> Option<
    PendingUplink<Seq<bool>>,
> {
    match p {
        Some(x) => Some(x@),
        None => None,
    }
}

/// The view of an optional remainder.
pub open spec fn opt_fragment(p: Option<UplinkFragment<BitBuffer>>) -> Option<
    UplinkFragment<Seq<bool>>,
> {
    match p {
        Some(x) => Some(x@),
        None => None,
    }
}

/// The view of an optional multi-slot transfer.
pub open spec fn opt_reserved(p: Option<ReservedTxPlan>) -> Option<ReservedView> {
    match p {
        Some(x) => Some(x@),
        None => None,
    }
}

/// The upper MAC of a mobile station.
#[derive(Debug)]
pub struct UmacMs {
    /// Downlink time, free-running between SYNC bursts.
    pub dltime: TdmaTime,
    pub stack_mode: StackMode,
    /// Own identity as configured.
    pub configured_issi: Option<u32>,
    pub mcc: Option<u16>,
    pub mnc: Option<u16>,
    pub cc: Option<u8>,
    /// Scrambling code of the serving cell, once known.
    pub scrambling_code: Option<u32>,
    /// The block that contends for random access.
    pub pending_uplink: Option<PendingUplink<BitBuffer>>,
    /// Transfers behind it, oldest first.
    pub uplink_queue: VecDeque<QueuedUplink<BitBuffer>>,
    pub access_params: AccessParamStore,
    /// The remainder of a fragmented transfer, until capacity is granted.
    pub pending_fragment: Option<UplinkFragment<BitBuffer>>,
    /// The multi-slot transfer under way.
    pub reserved_tx: Option<ReservedTxPlan>,
    /// Own identity that the receive filter admits.
    pub valid_individual_ssi: Option<u32>,
    /// Groups that the receive filter admits.
    pub valid_group_ssis: BTreeSet<u32>,
    /// Uplink carrier last derived from SYSINFO, in Hz.
    pub derived_ul_freq: Option<u32>,
    /// Main carrier number of the serving cell.
    pub serving_carrier_num: Option<u16>,
    /// Timeslots assigned to the station as traffic channel.
    pub assigned_traffic_slots: [bool; 4],
    /// Whether the station is the current talker.
    pub uplink_tx_granted: bool,
    /// Speech frames to transmit, oldest first.
    pub uplink_audio: VecDeque<Vec<u8>>,
    /// Signalling that waits to steal a half-slot, oldest first.
    pub pending_stolen_signalling: VecDeque<PendingStolenSignalling<BitBuffer>>,
    /// Receipts to be marked, in the order in which their fate was settled.
    pub receipt_marks: Vec<ReceiptMark>,
}

/// The upper MAC as contracts speak of it.
#[verifier::ext_equal]
pub struct UmacView {
    pub dltime: TdmaTime,
    pub stack_mode: StackMode,
    pub configured_issi: Option<u32>,
    pub mcc: Option<u16>,
    pub mnc: Option<u16>,
    pub cc: Option<u8>,
    pub scrambling_code: Option<u32>,
    pub pending_uplink: Option<PendingUplink<Seq<bool>>>,
    pub uplink_queue: Seq<QueuedUplink<Seq<bool>>>,
    pub access_params: AccessParamStore,
    pub pending_fragment: Option<UplinkFragment<Seq<bool>>>,
    pub reserved_tx: Option<ReservedView>,
    pub valid_individual_ssi: Option<u32>,
    pub valid_group_ssis: Set<u32>,
    pub derived_ul_freq: Option<u32>,
    pub serving_carrier_num: Option<u16>,
    pub assigned_traffic_slots: Seq<bool>,
    pub uplink_tx_granted: bool,
    pub uplink_audio: Seq<Seq<u8>>,
    pub pending_stolen_signalling: Seq<PendingStolenSignalling<Seq<bool>>>,
    pub receipt_marks: Seq<ReceiptMark>,
}

impl View for UmacMs {
    type V = UmacView;

    open spec fn view(&self) -> UmacView {
        UmacView {
            dltime: self.dltime,
            stack_mode: self.stack_mode,
            configured_issi: self.configured_issi,
            mcc: self.mcc,
            mnc: self.mnc,
            cc: self.cc,
            scrambling_code: self.scrambling_code,
            pending_uplink: opt_pending(self.pending_uplink),
            uplink_queue: self.uplink_queue@.map_values(|q: QueuedUplink<BitBuffer>| q@),
            access_params: self.access_params,
            pending_fragment: opt_fragment(self.pending_fragment),
            reserved_tx: opt_reserved(self.reserved_tx),
            valid_individual_ssi: self.valid_individual_ssi,
            valid_group_ssis: self.valid_group_ssis@,
            derived_ul_freq: self.derived_ul_freq,
            serving_carrier_num: self.serving_carrier_num,
            assigned_traffic_slots: self.assigned_traffic_slots@,
            uplink_tx_granted: self.uplink_tx_granted,
            uplink_audio: self.uplink_audio@.map_values(|f: Vec<u8>| f@),
            pending_stolen_signalling: self.pending_stolen_signalling@.map_values(
                |s: PendingStolenSignalling<BitBuffer>| s@,
            ),
            receipt_marks: self.receipt_marks@,
        }
    }
}

impl UmacView {
    /// A multi-slot transfer has one slot for each block that it still has to
    /// send.
    pub open spec fn wf(self) -> bool {
        self.reserved_tx matches Some(plan) ==> plan.blocks.len() == plan.slots.len()
    }

    /// The state after the receipt, if there is one, is marked.
    pub open spec fn marked(self, receipt: Option<TxReporter>, outcome: TxOutcome) -> UmacView {
        match receipt {
            Some(receipt) => UmacView {
                receipt_marks: self.receipt_marks.push(ReceiptMark { receipt, outcome }),
                ..self
            },
            None => self,
        }
    }
}

impl UmacMs {
    /// An upper MAC that is not camped on a cell. The receive filter admits the
    /// configured identity and groups.
    pub fn new(config: &StackConfig) -> (r: UmacMs)
        ensures
            r@.orderly(),
            r.dltime == (TdmaTime { t: 1, f: 1, m: 1, h: 0 }),
            r.stack_mode == config.stack_mode,
            r.configured_issi == config.own_issi(),
            r.mcc is None && r.mnc is None && r.cc is None && r.scrambling_code is None,
            r.pending_uplink is None && r.pending_fragment is None && r.reserved_tx is None,
            r@.uplink_queue.len() == 0,
            r.access_params == AccessParamStore::no_definitions(),
            r.valid_individual_ssi == config.own_issi(),
            r.valid_group_ssis@ == config.groups().to_set(),
            r.derived_ul_freq is None && r.serving_carrier_num is None,
            r.assigned_traffic_slots@ == seq![false, false, false, false],
            !r.uplink_tx_granted,
            r@.uplink_audio.len() == 0,
            r@.pending_stolen_signalling.len() == 0,
            r@.receipt_marks.len() == 0,
    {
        let mut groups: BTreeSet<u32> = BTreeSet::new();
        let mut issi: Option<u32> = None;
        if let Some(ms) = &config.ms {
            issi = Some(ms.issi);
            groups = collect_groups(&ms.attach_groups);
        }
        assert(groups@ == config.groups().to_set());
        UmacMs {
            dltime: TdmaTime::default(),
            stack_mode: config.stack_mode,
            configured_issi: issi,
            mcc: None,
            mnc: None,
            cc: None,
            scrambling_code: None,
            pending_uplink: None,
            uplink_queue: VecDeque::new(),
            access_params: AccessParamStore::new(),
            pending_fragment: None,
            reserved_tx: None,
            valid_individual_ssi: issi,
            valid_group_ssis: groups,
            derived_ul_freq: None,
            serving_carrier_num: None,
            assigned_traffic_slots: [false, false, false, false],
            uplink_tx_granted: false,
            uplink_audio: VecDeque::new(),
            pending_stolen_signalling: VecDeque::new(),
            receipt_marks: Vec::new(),
        }
    }

    /// Note what became of the transfer behind a receipt.
    pub(crate) fn mark(&mut self, receipt: Option<TxReporter>, outcome: TxOutcome)
        ensures
            final(self)@ == old(self)@.marked(receipt, outcome),
    {
        if let Some(receipt) = receipt {
            self.receipt_marks.push(ReceiptMark { receipt, outcome });
        }
    }
}

/// The set of the identities in a list.
pub(crate) fn collect_groups(list: &Vec<u32>) -> (r: BTreeSet<u32>)
    ensures
        r@ == list@.to_set(),
{
    broadcast use vstd::std_specs::btree::group_btree_axioms;

    let mut groups: BTreeSet<u32> = BTreeSet::new();
    let mut i: usize = 0;
    while i < list.len()
        invariant
            i <= list@.len(),
            groups@ == list@.take(i as int).to_set(),
        decreases list@.len() - i,
    {
        groups.insert(list[i]);
        proof {
            assert(list@.take(i + 1) == list@.take(i as int).push(list@[i as int]));
            list@.take(i as int).lemma_push_to_set_commute(list@[i as int]);
        }
        i = i + 1;
    }
    assert(list@.take(i as int) == list@);
    groups
}

} // verus!
