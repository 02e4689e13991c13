use vstd::prelude::*;

use crate::supply::{PrinterSupply, TonerColor};

verus! {

/// Which field of a reading or of the device a fetched value fills.
#[derive(Clone, Copy, Debug, PartialEq, Eq, Structural)]
pub enum SlotKey {
    Level,
    MaxLevel,
    SerialNumber,
    TotalImpressions,
    MonoImpressions,
    ColorImpressions,
    MaintenanceBlob,
}

impl SlotKey {
    pub open spec fn key_spec(self) -> Seq<char> {
        match self {
            SlotKey::Level => "level"@,
            SlotKey::MaxLevel => "max_level"@,
            SlotKey::SerialNumber => "serial_number"@,
            SlotKey::TotalImpressions => "total_impressions"@,
            SlotKey::MonoImpressions => "mono_impressions"@,
            SlotKey::ColorImpressions => "color_impressions"@,
            SlotKey::MaintenanceBlob => "maintenance"@,
        }
    }

    /// The key under which a mapping document lists this field.
    pub fn key(&self) -> (r: &'static str)
        ensures
            r@ == self.key_spec(),
    {
        match self {
            SlotKey::Level => "level",
            SlotKey::MaxLevel => "max_level",
            SlotKey::SerialNumber => "serial_number",
            SlotKey::TotalImpressions => "total_impressions",
            SlotKey::MonoImpressions => "mono_impressions",
            SlotKey::ColorImpressions => "color_impressions",
            SlotKey::MaintenanceBlob => "maintenance",
        }
    }
}

/// A value location: the supply group, the color within it if any, and the
/// field.
#[derive(Clone, Copy, Debug, PartialEq, Eq, Structural)]
pub struct Slot {
    pub supply: PrinterSupply,
    pub color: Option<TonerColor>,
    pub key: SlotKey,
}

/// The OID of the device description, which names the device.
pub open spec fn printer_name_oid_spec() -> Seq<u64> {
    seq![1, 3, 6, 1, 2, 1, 25, 3, 2, 1, 3, 1]
}

/// The OID whose value names the device; a poll fetches it first.
pub fn printer_name_oid() -> (r: Vec<u64>)
    ensures
        r@ == printer_name_oid_spec(),
{
    let r: Vec<u64> = vec![1, 3, 6, 1, 2, 1, 25, 3, 2, 1, 3, 1];
    assert(r@ =~= printer_name_oid_spec());
    r
}

/// One value a driver needs: the slot it fills and the OID that holds it.
#[derive(Clone, Debug, PartialEq, Eq)]
pub struct FetchRequest {
    pub slot: Slot,
    pub oid: Vec<u64>,
}

} // verus!
