//! The fields of MLE PDUs that routing and cell selection read.

use vstd::prelude::*;

use crate::bits::{bits_value, BitBuffer};

verus! {

/// MLE protocol discriminator (cl. 18.5.21).
#[derive(Clone, Copy, Debug, PartialEq, Eq, Structural)]
pub enum MleProtocolDiscriminator {
    Mm,
    Cmce,
    Sndcp,
    Mle,
    TetraManagementEntity,
}

/// The 3-bit value of a discriminator.
pub open spec fn discriminator_value(d: MleProtocolDiscriminator) -> nat {
    match d {
        MleProtocolDiscriminator::Mm => 1,
        MleProtocolDiscriminator::Cmce => 2,
        MleProtocolDiscriminator::Sndcp => 4,
        MleProtocolDiscriminator::Mle => 5,
        MleProtocolDiscriminator::TetraManagementEntity => 6,
    }
}

/// The discriminator with a 3-bit value, if there is one.
pub open spec fn discriminator_of(v: nat) -> Option<MleProtocolDiscriminator> {
    if v == 1 {
        Some(MleProtocolDiscriminator::Mm)
    } else if v == 2 {
        Some(MleProtocolDiscriminator::Cmce)
    } else if v == 4 {
        Some(MleProtocolDiscriminator::Sndcp)
    } else if v == 5 {
        Some(MleProtocolDiscriminator::Mle)
    } else if v == 6 {
        Some(MleProtocolDiscriminator::TetraManagementEntity)
    } else {
        None
    }
}

/// The three bits of a discriminator.
pub open spec fn discriminator_bits(d: MleProtocolDiscriminator) -> Seq<bool> {
    let v = discriminator_value(d);
    seq![v >= 4, (v / 2) % 2 == 1, v % 2 == 1]
}

/// The discriminator in front of a TL-SDU, where there is one.
pub open spec fn leading_discriminator(sdu: Seq<bool>) -> Option<MleProtocolDiscriminator> {
    if sdu.len() < 3 {
        None
    } else {
        discriminator_of(bits_value(sdu.take(3)))
    }
}

/// Reading the discriminator undoes writing it.
pub proof fn law_discriminator_round_trip(d: MleProtocolDiscriminator, sdu: Seq<bool>)
    ensures
        leading_discriminator(discriminator_bits(d) + sdu) == Some(d),
        (discriminator_bits(d) + sdu).skip(3) == sdu,
{
    reveal_with_fuel(bits_value, 4);
    let b = discriminator_bits(d);
    let s = b + sdu;
    assert(s.take(3) == b);
    assert(b.drop_last() == seq![b[0], b[1]]);
    assert(b.drop_last().drop_last() == seq![b[0]]);
    assert(b.drop_last().drop_last().drop_last() == Seq::<bool>::empty());
    assert(s.skip(3) == sdu);
}

impl MleProtocolDiscriminator {
    /// The discriminator with a 3-bit value, if there is one.
    pub fn from_raw(v: u8) -> (r: Option<MleProtocolDiscriminator>)
        ensures
            r == discriminator_of(v as nat),
    {
        match v {
            1 => Some(MleProtocolDiscriminator::Mm),
            2 => Some(MleProtocolDiscriminator::Cmce),
            4 => Some(MleProtocolDiscriminator::Sndcp),
            5 => Some(MleProtocolDiscriminator::Mle),
            6 => Some(MleProtocolDiscriminator::TetraManagementEntity),
            _ => None,
        }
    }

    /// The 3-bit value.
    pub fn into_raw(self) -> (r: u8)
        ensures
            r == discriminator_value(self),
    {
        match self {
            MleProtocolDiscriminator::Mm => 1,
            MleProtocolDiscriminator::Cmce => 2,
            MleProtocolDiscriminator::Sndcp => 4,
            MleProtocolDiscriminator::Mle => 5,
            MleProtocolDiscriminator::TetraManagementEntity => 6,
        }
    }
}

/// A TL-SDU: the discriminator, then the SDU.
pub fn with_discriminator(d: MleProtocolDiscriminator, sdu: &BitBuffer) -> (r: BitBuffer)
    ensures
        r@ == discriminator_bits(d) + sdu@,
{
    let v: u8 = d.into_raw();
    let mut r = BitBuffer::new();
    r.bits.push(v >= 4);
    r.bits.push((v / 2) % 2 == 1);
    r.bits.push(v % 2 == 1);
    assert(r@ == discriminator_bits(d));
    r.append(sdu);
    r
}

/// The discriminator in front of a TL-SDU and the SDU behind it, or `None`
/// where there is no valid discriminator.
pub fn split_discriminator(sdu: &BitBuffer) -> (r: Option<(MleProtocolDiscriminator, BitBuffer)>)
    ensures
        match r {
            Some((d, rest)) => leading_discriminator(sdu@) == Some(d) && rest@ == sdu@.skip(3),
            None => leading_discriminator(sdu@) is None,
        },
{
    let v: u8 = match sdu.peek_bits(0, 3) {
        Some(v) => v,
        None => {
            return None;
        },
    };
    assert(sdu@.subrange(0, 3) == sdu@.take(3));
    match MleProtocolDiscriminator::from_raw(v) {
        Some(d) => Some((d, sdu.slice(3, sdu.len()))),
        None => None,
    }
}

/// Types of downlink MLE PDUs (cl. 18.5.20).
#[derive(Clone, Copy, Debug, PartialEq, Eq, Structural)]
pub enum MlePduTypeDl {
    DNewCell,
    DPrepareFail,
    DNwrkBroadcast,
    DNwrkBroadcastExt,
    DRestoreAck,
    DRestoreFail,
    DChannelResponse,
    ExtPdu,
}

/// The downlink MLE PDU type with a 3-bit value.
pub open spec fn mle_pdu_type_of(v: nat) -> MlePduTypeDl {
    if v == 0 {
        MlePduTypeDl::DNewCell
    } else if v == 1 {
        MlePduTypeDl::DPrepareFail
    } else if v == 2 {
        MlePduTypeDl::DNwrkBroadcast
    } else if v == 3 {
        MlePduTypeDl::DNwrkBroadcastExt
    } else if v == 4 {
        MlePduTypeDl::DRestoreAck
    } else if v == 5 {
        MlePduTypeDl::DRestoreFail
    } else if v == 6 {
        MlePduTypeDl::DChannelResponse
    } else {
        MlePduTypeDl::ExtPdu
    }
}

/// The type of a downlink MLE PDU, or `None` where the PDU is too short. None of
/// them is acted upon.
pub fn mle_pdu_type(sdu: &BitBuffer) -> (r: Option<MlePduTypeDl>)
    ensures
        r == (if sdu@.len() < 3 {
            None
        } else {
            Some(mle_pdu_type_of(bits_value(sdu@.take(3))))
        }),
{
    match sdu.peek_bits(0, 3) {
        None => None,
        Some(v) => {
            assert(sdu@.subrange(0, 3) == sdu@.take(3));
            Some(
                match v {
                    0 => MlePduTypeDl::DNewCell,
                    1 => MlePduTypeDl::DPrepareFail,
                    2 => MlePduTypeDl::DNwrkBroadcast,
                    3 => MlePduTypeDl::DNwrkBroadcastExt,
                    4 => MlePduTypeDl::DRestoreAck,
                    5 => MlePduTypeDl::DRestoreFail,
                    6 => MlePduTypeDl::DChannelResponse,
                    _ => MlePduTypeDl::ExtPdu,
                },
            )
        },
    }
}

/// D-MLE-SYNC (cl. 18.4.2.1).
#[derive(Clone, Copy, Debug, PartialEq, Eq, Structural)]
pub struct DMleSync {
    pub mcc: u16,
    pub mnc: u16,
    pub neighbor_cell_broadcast: u8,
    pub cell_load_ca: u8,
    pub late_entry_supported: bool,
}

/// D-MLE-SYSINFO (cl. 18.4.2.2), as far as cell selection reads it.
#[derive(Clone, Copy, Debug, PartialEq, Eq, Structural)]
pub struct DMleSysinfo {
    pub location_area: u16,
    /// Bit `n` set: class `n + 1` is permitted.
    pub subscriber_class: u16,
    /// Whether registration is required on the cell.
    pub registration: bool,
    /// False while system wide services are temporarily not supported.
    pub system_wide_services: bool,
}

} // verus!
