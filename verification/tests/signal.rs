//! The modulator, and the bookkeeping of blocks and samples.

use tetra_entities::phy::components::modulator::{
    DqpskMapper, Error, Mode, Modulator, TxSlotBits, BURST_DELAY_SYMS, SAMPLES_SLOT, SPS,
};
use tetra_entities::phy::components::soapy_dev::{
    continue_processing, dl_reference_time, take_slot_bits, tx_air_time, ModulatorChannel,
    PairSlots, PairStatus, PhyConfig, RxBlocks, RxRead, TxDsp,
};
use tetra_entities::sap::StackMode;
use tetra_entities::tdma::TdmaTime;

#[test]
fn each_pair_of_bits_has_its_turn() {
    let mut m = DqpskMapper::new();
    assert_eq!(m.symbol(false, false), 1);
    assert_eq!(m.symbol(false, true), 4);
    assert_eq!(m.symbol(true, false), 3);
    assert_eq!(m.symbol(true, true), 0);
    assert_eq!(m.symbol(true, true), 5);
    assert_eq!(m.reference(), 5);
    m.reset_phase();
    assert_eq!(m.reference(), 0);
    // Even and odd phases alternate.
    for i in 0..40 {
        let before = m.reference();
        let after = m.symbol(i % 3 == 0, i % 5 == 0);
        assert!(after < 8 && after % 2 != before % 2);
    }
}

fn slot(time: TdmaTime, slot: Option<Vec<u8>>) -> TxSlotBits {
    TxSlotBits { time, slot }
}

#[test]
fn a_downlink_burst_fills_its_slot() {
    let mut m = Modulator::new(Mode::Dl);
    let s = slot(TdmaTime::default(), Some(vec![0; 510]));
    assert_eq!(m.sample(-1, 0, &s), Ok(None));
    for n in 0..SAMPLES_SLOT {
        let expected = if n % SPS == 0 { Some(((n / SPS + 1) % 8) as u8) } else { None };
        assert_eq!(m.sample(n, 0, &s), Ok(expected));
    }
    assert_eq!(m.sample(SAMPLES_SLOT, 0, &s), Err(Error::NeedMoreData));
    // The filter delay moves the slot.
    assert_eq!(m.sample(SAMPLES_SLOT - 10, 10, &s), Err(Error::NeedMoreData));
}

#[test]
fn an_uplink_burst_lies_within_its_slot() {
    let mut m = Modulator::new(Mode::Ul);
    m.dqpsk.phase = 5;
    m.set_reference_time(100_000);
    let time = TdmaTime::default().add_timeslots(3);
    let begin = 100_000 + 3 * SAMPLES_SLOT;
    let s = slot(time, Some(vec![1; 206]));
    assert_eq!(m.ul_slot_begin(&s), Some(begin));
    let first = BURST_DELAY_SYMS * SPS;
    let mut phases = vec![];
    for n in 0..SAMPLES_SLOT {
        let r = m.sample(begin + n, 0, &s).unwrap();
        if n < first || n >= first + 104 * SPS {
            assert_eq!(r, None, "silence around the burst");
        }
        phases.extend(r);
    }
    assert_eq!(phases.len(), 104, "the reference and 103 symbols");
    assert_eq!(&phases[..4], &[0, 5, 2, 7], "from the reference on");
    assert_eq!(m.sample(begin + SAMPLES_SLOT, 0, &s), Err(Error::NeedMoreData));
}

#[test]
fn an_empty_slot_is_silent() {
    for mode in [Mode::Dl, Mode::Ul] {
        let mut m = Modulator::new(mode);
        let s = slot(TdmaTime::default(), None);
        for n in -5..SAMPLES_SLOT {
            assert_eq!(m.sample(n, 0, &s), Ok(None));
        }
    }
}

#[test]
fn the_downlink_keeps_its_own_timing() {
    let mut m = Modulator::new(Mode::Dl);
    m.set_reference_time(77);
    assert_eq!(m.reference_time, 0);
    assert_eq!(m.ul_slot_begin(&slot(TdmaTime::default(), None)), None);
}

#[test]
fn carriers_per_mode() {
    let c = PhyConfig::for_mode(StackMode::Ms, 439.825e6, 430.425e6);
    assert_eq!(c.monitor_frequencies, vec![(439.825e6, None)]);
    assert_eq!(c.ms_ul_frequencies, vec![430.425e6]);
    assert!(c.bs_dl_frequencies.is_empty() && c.bs_ul_frequencies.is_empty());
    assert!(c.needs_tx(true) && !c.needs_tx(false));
    let c = PhyConfig::for_mode(StackMode::Bs, 439.825e6, 430.425e6);
    assert_eq!(c.bs_dl_frequencies, vec![439.825e6]);
    assert_eq!(c.bs_ul_frequencies, vec![430.425e6]);
    let none = PhyConfig::<f64> {
        monitor_frequencies: vec![],
        bs_dl_frequencies: vec![],
        bs_ul_frequencies: vec![1.0],
        ms_ul_frequencies: vec![],
    };
    assert!(!none.needs_tx(true));
}

#[test]
fn blocks_are_filled_in_order() {
    let mut b = RxBlocks::start(100, 20);
    b.begin_block();
    assert_eq!(b.next_read(), RxRead { offset: 20, len: 100 });
    assert!(!b.received(120, 60), "sample 120 is the one after the overlap");
    assert_eq!(b.next_read(), RxRead { offset: 80, len: 40 });
    assert!(b.received(180, 40));
    b.begin_block();
    assert_eq!(b.block_count, 2);
    assert!(b.received(220, 100));
}

#[test]
fn a_loss_is_realigned() {
    let mut b = RxBlocks::start(100, 20);
    b.begin_block();
    assert!(!b.received(537, 10), "samples are missing");
    assert_eq!((b.block_count, b.buffer_i, b.skip_left), (6, 0, 53));
    assert_eq!(b.next_read(), RxRead { offset: 0, len: 53 });
    b.skipped(50);
    b.skipped(3);
    assert_eq!(b.next_read(), RxRead { offset: 0, len: 120 });
    assert!(b.received(600, 120));
}

#[test]
fn a_loss_in_negative_time_is_realigned() {
    let mut b = RxBlocks::start(100, 20);
    assert!(!b.received(-237, 10));
    assert_eq!((b.block_count, b.skip_left), (-2, 27));
}

#[test]
fn processing_stops_at_a_slot() {
    let pair = |dl, ul| PairStatus { dl, ul };
    assert!(continue_processing(&vec![], &vec![]));
    assert!(continue_processing(&vec![pair(true, None)], &vec![true]));
    assert!(!continue_processing(&vec![pair(false, None)], &vec![true]));
    assert!(continue_processing(&vec![pair(false, Some(true))], &vec![]));
    assert!(!continue_processing(&vec![pair(true, Some(false))], &vec![]));
    assert!(!continue_processing(&vec![], &vec![true, false]));
}

#[test]
fn the_first_reference_counts() {
    assert_eq!(dl_reference_time(&vec![]), None);
    assert_eq!(dl_reference_time(&vec![None, Some(5), Some(6)]), Some(5));
    assert_eq!(dl_reference_time(&vec![None, None]), None);
}

#[test]
fn slots_are_ordered_by_carrier() {
    let r = take_slot_bits(
        vec![
            PairSlots { dl: Some('a'), ul: None },
            PairSlots { dl: None, ul: Some('b') },
        ],
        vec![Some('c'), None],
    );
    assert_eq!(r, vec![Some('a'), None, None, Some('b'), Some('c'), None]);
}

#[test]
fn a_block_goes_on_in_the_next_slot() {
    let mut c = ModulatorChannel::new(Mode::Dl, 100);
    let first = slot(TdmaTime::default(), Some(vec![0; 510]));
    for n in 0..10 {
        let block = c.process(n, 0, &first).expect("within the slot");
        assert_eq!(block.len(), 100);
        assert_eq!(block.iter().filter(|x| x.is_some()).count(), 25);
    }
    assert!(c.process(10, 0, &first).is_none(), "only 20 samples are left");
    assert_eq!(c.buffer.len(), 20);
    let second = slot(TdmaTime::default().add_timeslots(1), None);
    let block = c.process(10, 0, &second).expect("completed from the next slot");
    assert_eq!(block.len(), 100);
    assert_eq!(block[16], Some(7));
    assert!(block[17..].iter().all(|x| x.is_none()));
    assert!(c.buffer.is_empty());
}

#[test]
fn generation_stays_ahead() {
    let mut t = TxDsp::new(1, 1, 100);
    assert_eq!(t.modulators.len(), 2);
    assert_eq!(t.modulators[0].modulator.mode, Mode::Dl);
    assert_eq!(t.modulators[1].modulator.mode, Mode::Ul);
    // The hardware is at block 10.
    assert!(t.gate(1050, 100, None));
    assert_eq!(t.block_count, 12);
    // Too far ahead of the hardware, or of reception.
    t.block_count = 71;
    assert!(!t.gate(1050, 100, None));
    t.block_count = 70;
    assert!(t.gate(1050, 100, None));
    assert!(!t.gate(1050, 100, Some(9)));
    assert!(t.gate(1050, 100, Some(10)));
    assert_eq!(t.produced(100), 7000);
    assert_eq!(t.generation_frontier(), Some(7100));
    assert_eq!(TxDsp::new(0, 0, 100).generation_frontier(), None);
}

#[test]
fn only_the_uplink_is_aligned() {
    let mut t = TxDsp::new(1, 2, 100);
    t.align(None);
    assert_eq!(t.modulators[1].modulator.reference_time, 0);
    t.align(Some(333));
    let times: Vec<i64> = t.modulators.iter().map(|m| m.modulator.reference_time).collect();
    assert_eq!(times, vec![0, 333, 333]);
    let s = slot(TdmaTime::default(), None);
    assert_eq!(t.process_channel(0, 0, &s).map(|b| b.len()), Some(100));
}

#[test]
fn air_time_follows_the_frontier() {
    let t = |n| TdmaTime::default().add_timeslots(n);
    assert_eq!(tx_air_time(Some(500), true, Some(500 + 3 * 1020)), Some(t(3)));
    assert_eq!(tx_air_time(Some(500), true, Some(499 + 3 * 1020)), Some(t(2)));
    assert_eq!(tx_air_time(Some(500), true, Some(499)), Some(t(-1)));
    assert_eq!(tx_air_time(None, true, Some(1)), None);
    assert_eq!(tx_air_time(Some(500), false, Some(1)), None);
    assert_eq!(tx_air_time(Some(500), true, None), None);
}
