use vstd::prelude::*;

use crate::errors::EnumerationError;

verus! {

/// The fixed deadline of a connection attempt, in seconds.
pub const CONNECT_DEADLINE_SECS: u64 = 10;

/// One descriptor of a characteristic, as read from a connected device.
/// Identifiers are carried as their 128-bit values.
#[derive(Clone, Copy, Debug, PartialEq, Eq, Structural)]
pub struct GattDescriptor {
    pub uuid: u128,
    pub service: u128,
    pub characteristic: u128,
}

/// One characteristic as read from a connected device, descriptors still
/// attached in full.
pub struct GattCharacteristic {
    pub uuid: u128,
    pub service: u128,
    pub properties: u8,
    pub descriptors: Vec<GattDescriptor>,
}

#[verifier::ext_equal]
pub ghost struct GattCharacteristicV {
    pub uuid: u128,
    pub service: u128,
    pub properties: u8,
    pub descriptors: Seq<GattDescriptor>,
}

impl View for GattCharacteristic {
    type V = GattCharacteristicV;

    open spec fn view(&self) -> GattCharacteristicV {
        GattCharacteristicV {
            uuid: self.uuid,
            service: self.service,
            properties: self.properties,
            descriptors: self.descriptors@,
        }
    }
}

/// One record of an enumeration result: a characteristic's identifier, its
/// property bitset, the identifiers of its descriptors in order, and its
/// owning service.
pub struct Characteristic {
    pub uuid: u128,
    pub properties: u8,
    pub descriptors: Vec<u128>,
    pub service: u128,
}

#[verifier::ext_equal]
pub ghost struct CharacteristicV {
    pub uuid: u128,
    pub properties: u8,
    pub descriptors: Seq<u128>,
    pub service: u128,
}

impl View for Characteristic {
    type V = CharacteristicV;

    open spec fn view(&self) -> CharacteristicV {
        CharacteristicV {
            uuid: self.uuid,
            properties: self.properties,
            descriptors: self.descriptors@,
            service: self.service,
        }
    }
}

/// The flat record of one characteristic: each descriptor reduced to its
/// identifier, order preserved.
pub open spec fn flat_of(c: GattCharacteristicV) -> CharacteristicV {
    CharacteristicV {
        uuid: c.uuid,
        properties: c.properties,
        descriptors: c.descriptors.map_values(|d: GattDescriptor| d.uuid),
        service: c.service,
    }
}

pub open spec fn gatt_views(s: Seq<GattCharacteristic>) -> Seq<GattCharacteristicV> {
    s.map_values(|c: GattCharacteristic| c@)
}

pub open spec fn characteristic_views(s: Seq<Characteristic>) -> Seq<CharacteristicV> {
    s.map_values(|c: Characteristic| c@)
}

/// The flat records of a whole characteristic list, one per characteristic,
/// order preserved.
pub open spec fn flattened(s: Seq<GattCharacteristicV>) -> Seq<CharacteristicV> {
    s.map_values(|c: GattCharacteristicV| flat_of(c))
}

fn descriptor_ids(ds: &Vec<GattDescriptor>) -> (r: Vec<u128>)
    ensures
        r@ == ds@.map_values(|d: GattDescriptor| d.uuid),
{
    let mut r: Vec<u128> = Vec::new();
    let mut i: usize = 0;
    while i < ds.len()
        invariant
            i <= ds.len(),
            r@.len() == i,
            forall|j: int| 0 <= j < i ==> #[trigger] r@[j] == ds@[j].uuid,
        decreases ds.len() - i,
    {
        r.push(ds[i].uuid);
        i = i + 1;
    }
    proof {
        assert(r@ =~= ds@.map_values(|d: GattDescriptor| d.uuid));
    }
    r
}

/// Flattens a device's characteristic tree into one record per
/// characteristic, carrying its identifier, property bitset, descriptor
/// identifiers (order preserved) and owning service.
pub fn flatten_characteristics(cs: &Vec<GattCharacteristic>) -> (r: Vec<Characteristic>)
    ensures
        characteristic_views(r@) == flattened(gatt_views(cs@)),
{
    let mut r: Vec<Characteristic> = Vec::new();
    let mut i: usize = 0;
    while i < cs.len()
        invariant
            i <= cs.len(),
            r@.len() == i,
            forall|j: int| 0 <= j < i ==> #[trigger] r@[j]@ == flat_of(cs@[j]@),
        decreases cs.len() - i,
    {
        let ids = descriptor_ids(&cs[i].descriptors);
        r.push(
            Characteristic {
                uuid: cs[i].uuid,
                properties: cs[i].properties,
                descriptors: ids,
                service: cs[i].service,
            },
        );
        i = i + 1;
    }
    proof {
        assert(characteristic_views(r@) =~= flattened(gatt_views(cs@)));
    }
    r
}

/// How a deadline-bounded connection attempt came out.
#[derive(Clone, Copy, Debug, PartialEq, Eq, Structural)]
pub enum ConnectOutcome {
    /// The connection was established before the deadline.
    Connected,
    /// The connection was rejected or failed before the deadline.
    Failed,
    /// The deadline elapsed before the connection completed.
    TimedOut,
}

/// The enumeration result for one device, from the outcome of its bounded
/// connection attempt and the characteristic list read after connecting.
/// Nothing is enumerated unless the connection succeeded: a timeout yields
/// `ConnectTimeout`, a rejection `ConnectFailed`, and only a completed
/// connection yields the flattened list (an empty list is a valid result).
pub fn enumerate_connected(outcome: ConnectOutcome, raw: Vec<GattCharacteristic>) -> (r: Result<
    Vec<Characteristic>,
    EnumerationError,
>)
    ensures
        outcome == ConnectOutcome::TimedOut ==> r == Err::<Vec<Characteristic>, EnumerationError>(
            EnumerationError::ConnectTimeout,
        ),
        outcome == ConnectOutcome::Failed ==> r == Err::<Vec<Characteristic>, EnumerationError>(
            EnumerationError::ConnectFailed,
        ),
        outcome == ConnectOutcome::Connected ==> (r matches Ok(list) && characteristic_views(
            list@,
        ) == flattened(gatt_views(raw@))),
{
    match outcome {
        ConnectOutcome::TimedOut => Err(EnumerationError::ConnectTimeout),
        ConnectOutcome::Failed => Err(EnumerationError::ConnectFailed),
        ConnectOutcome::Connected => Ok(flatten_characteristics(&raw)),
    }
}

} // verus!
