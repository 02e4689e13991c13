use vstd::prelude::*;

use crate::error::AppError;
use crate::fetch::{FetchRequest, Slot, SlotKey};
use crate::printer::Printer;
use crate::supply::{Drum, Drums, Fuser, PrinterSupply, Toner, Toners};
use crate::text::{contains, lower_of, lowercase, seq_contains};
use crate::value::{utf8_lossy, FromSnmpValue, SnmpValue};

verus! {

pub const BLACK_TONER_CODE: u8 = 0x6F;
pub const CYAN_TONER_CODE: u8 = 0x70;
pub const MAGENTA_TONER_CODE: u8 = 0x71;
pub const YELLOW_TONER_CODE: u8 = 0x72;

pub const BLACK_DRUM_CODE: u8 = 0x41;
pub const CYAN_DRUM_CODE: u8 = 0x79;
pub const MAGENTA_DRUM_CODE: u8 = 0x7a;
pub const YELLOW_DRUM_CODE: u8 = 0x7b;

pub const FUSER_CODE: u8 = 0x6a;

/// `code` followed by the marker `0x01 0x04` starts at `i`.
pub open spec fn marker_at(b: Seq<u8>, i: int, code: u8) -> bool {
    0 <= i && i + 3 <= b.len() && b[i] == code && b[i + 1] == 0x01 && b[i + 2] == 0x04
}

/// The first position at or after `i` where the marker of `code` starts.
pub open spec fn first_marker_from(b: Seq<u8>, code: u8, i: int) -> Option<int>
    decreases b.len() - i,
{
    if i < 0 || i + 3 > b.len() {
        None
    } else if marker_at(b, i, code) {
        Some(i)
    } else {
        first_marker_from(b, code, i + 1)
    }
}

/// The big-endian unsigned 32-bit number in the four bytes from `i`.
pub open spec fn be_u32_at(b: Seq<u8>, i: int) -> int {
    b[i] * 16777216 + b[i + 1] * 65536 + b[i + 2] * 256 + b[i + 3]
}

/// The percentage stored after the first marker of `code`: the next four
/// bytes as a big-endian number of hundredths, truncated. Nothing when the
/// marker is absent or the four bytes do not follow in full.
pub open spec fn brother_value(b: Seq<u8>, code: u8) -> Option<i64> {
    match first_marker_from(b, code, 0) {
        Some(p) => if p + 7 <= b.len() {
            Some((be_u32_at(b, p + 3) / 100) as i64)
        } else {
            None
        },
        None => None,
    }
}

/// Scans the maintenance blob for `toner_code` followed by `0x01 0x04` and
/// reads the level that follows.
pub fn find_value_in_brother_bytes(bytes: &[u8], toner_code: u8) -> (r: Option<i64>)
    ensures
        r == brother_value(bytes@, toner_code),
{
    let n = bytes.len();
    let mut i: usize = 0;
    while n >= 3 && i <= n - 3
        invariant
            n == bytes@.len(),
            i <= n,
            first_marker_from(bytes@, toner_code, 0) == first_marker_from(bytes@, toner_code, i as int),
        decreases n - i,
    {
        if bytes[i] == toner_code && bytes[i + 1] == 0x01 && bytes[i + 2] == 0x04 {
            let start = i + 3;
            if n - start >= 4 {
                let value: u32 = (bytes[start] as u32) * 16777216 + (bytes[start + 1] as u32) * 65536
                    + (bytes[start + 2] as u32) * 256 + (bytes[start + 3] as u32);
                return Some((value / 100) as i64);
            }
            return None;
        }
        i = i + 1;
    }
    assert(first_marker_from(bytes@, toner_code, i as int) is None);
    None
}

/// A blob without the marker of `code` gives no value; an empty blob gives
/// no value for any code.
pub proof fn lemma_absent_code_gives_none(b: Seq<u8>, code: u8)
    requires
        forall|i: int| !marker_at(b, i, code),
    ensures
        brother_value(b, code) is None,
        brother_value(Seq::<u8>::empty(), code) is None,
{
    assert forall|i: int| 0 <= i <= b.len() implies first_marker_from(b, code, i) is None by {
        lemma_no_marker_from(b, code, i);
    }
}

proof fn lemma_no_marker_from(b: Seq<u8>, code: u8, i: int)
    requires
        forall|j: int| !marker_at(b, j, code),
    ensures
        first_marker_from(b, code, i) is None,
    decreases b.len() - i,
{
    if i >= 0 && i + 3 <= b.len() {
        lemma_no_marker_from(b, code, i + 1);
    }
}

pub open spec fn toner_from(p: Option<i64>) -> Option<Toner> {
    match p {
        Some(v) => Some(Toner { level: 0, max_level: 0, level_percent: Some(v) }),
        None => None,
    }
}

pub open spec fn drum_from(p: Option<i64>) -> Option<Drum> {
    match p {
        Some(v) => Some(Drum { level: 0, max_level: 0, level_percent: Some(v) }),
        None => None,
    }
}

pub open spec fn fuser_from(p: Option<i64>) -> Option<Fuser> {
    match p {
        Some(v) => Some(Fuser { level: 0, max_level: 0, level_percent: Some(v) }),
        None => None,
    }
}

/// The OID of the device serial number.
pub open spec fn serial_oid_spec() -> Seq<u64> {
    seq![1, 3, 6, 1, 2, 1, 43, 5, 1, 1, 17, 1]
}

/// The OID of the maintenance blob; the legacy model keeps it elsewhere.
pub open spec fn blob_oid_spec(legacy: bool) -> Seq<u64> {
    if legacy {
        seq![1, 3, 6, 1, 4, 1, 2435, 2, 3, 9, 4, 2, 1, 5, 5, 11, 0]
    } else {
        seq![1, 3, 6, 1, 4, 1, 2435, 2, 3, 9, 4, 2, 1, 5, 5, 8, 0]
    }
}

/// Driver for the vendor family whose supply levels sit in an undocumented
/// maintenance blob.
#[derive(Clone, Copy, Debug, PartialEq, Eq, Structural)]
pub struct BrotherDriver;

impl BrotherDriver {
    /// The device name, lowercased, names the vendor.
    pub fn is_compatible(&self, printer_name: &str) -> (r: bool)
        ensures
            r == seq_contains(lower_of(printer_name@), "brother"@),
    {
        let lowered = lowercase(printer_name);
        Self::matches_lowered(lowered.as_str())
    }

    /// Whether an already lowercased device name names the vendor.
    pub fn matches_lowered(lowered: &str) -> (r: bool)
        ensures
            r == seq_contains(lowered@, "brother"@),
    {
        contains(lowered, "brother")
    }

    /// Whether the device is the legacy model with the other blob location.
    pub fn is_legacy_model(printer_name: &str) -> (r: bool)
        ensures
            r == seq_contains(printer_name@, "HL-5350DN"@),
    {
        contains(printer_name, "HL-5350DN")
    }

    /// The values to fetch, in order: the serial number, then the blob.
    pub fn plan(printer_name: &str) -> (r: Vec<FetchRequest>)
        ensures
            r@.len() == 2,
            r@[0].slot == (Slot { supply: PrinterSupply::Info, color: None, key: SlotKey::SerialNumber }),
            r@[0].oid@ == serial_oid_spec(),
            r@[1].slot == (Slot { supply: PrinterSupply::Info, color: None, key: SlotKey::MaintenanceBlob }),
            r@[1].oid@ == blob_oid_spec(seq_contains(printer_name@, "HL-5350DN"@)),
    {
        let blob_oid = if Self::is_legacy_model(printer_name) {
            vec![1, 3, 6, 1, 4, 1, 2435, 2, 3, 9, 4, 2, 1, 5, 5, 11, 0]
        } else {
            vec![1, 3, 6, 1, 4, 1, 2435, 2, 3, 9, 4, 2, 1, 5, 5, 8, 0]
        };
        let serial = FetchRequest {
            slot: Slot { supply: PrinterSupply::Info, color: None, key: SlotKey::SerialNumber },
            oid: vec![1, 3, 6, 1, 2, 1, 43, 5, 1, 1, 17, 1],
        };
        let blob = FetchRequest {
            slot: Slot { supply: PrinterSupply::Info, color: None, key: SlotKey::MaintenanceBlob },
            oid: blob_oid,
        };
        let r = vec![serial, blob];
        assert(r@[0].oid@ =~= serial_oid_spec());
        assert(r@[1].oid@ =~= blob_oid_spec(seq_contains(printer_name@, "HL-5350DN"@)));
        r
    }

    /// Builds the device snapshot from the fetched serial number and blob.
    ///
    /// Toners and the fuser are read from the blob, drums only when extra
    /// supplies are asked for; each reading carries its percentage and zero
    /// levels. Fails when either value is not an octet string.
    pub fn assemble(
        printer_name: String,
        serial: &SnmpValue,
        blob: &SnmpValue,
        extra_supplies: bool,
    ) -> (r: Result<Printer, AppError>)
        ensures
            r is Ok <==> (serial is OctetString && blob is OctetString),
            r is Ok ==> ({
                let p = r->Ok_0;
                let b = blob->OctetString_0@;
                &&& p.name == printer_name
                &&& p.serial_number is Some
                &&& p.serial_number->Some_0@ == utf8_lossy(serial->OctetString_0@)
                &&& p.toners == (Toners {
                    black_toner: toner_from(brother_value(b, BLACK_TONER_CODE)),
                    cyan_toner: toner_from(brother_value(b, CYAN_TONER_CODE)),
                    magenta_toner: toner_from(brother_value(b, MAGENTA_TONER_CODE)),
                    yellow_toner: toner_from(brother_value(b, YELLOW_TONER_CODE)),
                })
                &&& extra_supplies ==> p.drums == (Drums {
                    black_drum: drum_from(brother_value(b, BLACK_DRUM_CODE)),
                    cyan_drum: drum_from(brother_value(b, CYAN_DRUM_CODE)),
                    magenta_drum: drum_from(brother_value(b, MAGENTA_DRUM_CODE)),
                    yellow_drum: drum_from(brother_value(b, YELLOW_DRUM_CODE)),
                })
                &&& !extra_supplies ==> p.drums == (Drums {
                    black_drum: None,
                    cyan_drum: None,
                    magenta_drum: None,
                    yellow_drum: None,
                })
                &&& p.fuser == fuser_from(brother_value(b, FUSER_CODE))
                &&& p.reservoir is None
                &&& p.metrics is None
            }),
    {
        let serial_number = String::from_snmp_value(serial)?;
        let bytes = <Vec<u8>>::from_snmp_value(blob)?;
        let b = bytes.as_slice();
        let toners = Toners {
            black_toner: Self::toner(find_value_in_brother_bytes(b, BLACK_TONER_CODE)),
            cyan_toner: Self::toner(find_value_in_brother_bytes(b, CYAN_TONER_CODE)),
            magenta_toner: Self::toner(find_value_in_brother_bytes(b, MAGENTA_TONER_CODE)),
            yellow_toner: Self::toner(find_value_in_brother_bytes(b, YELLOW_TONER_CODE)),
        };
        let drums = if extra_supplies {
            Drums {
                black_drum: Self::drum(find_value_in_brother_bytes(b, BLACK_DRUM_CODE)),
                cyan_drum: Self::drum(find_value_in_brother_bytes(b, CYAN_DRUM_CODE)),
                magenta_drum: Self::drum(find_value_in_brother_bytes(b, MAGENTA_DRUM_CODE)),
                yellow_drum: Self::drum(find_value_in_brother_bytes(b, YELLOW_DRUM_CODE)),
            }
        } else {
            Drums::default()
        };
        let fuser = match find_value_in_brother_bytes(b, FUSER_CODE) {
            Some(p) => Some(Fuser::new(0, 0, Some(p))),
            None => None,
        };
        Ok(Printer::new(printer_name, Some(serial_number), toners, drums, fuser, None))
    }

    fn toner(percent: Option<i64>) -> (r: Option<Toner>)
        ensures
            r == toner_from(percent),
    {
        match percent {
            Some(p) => Some(Toner::new(0, 0, Some(p))),
            None => None,
        }
    }

    fn drum(percent: Option<i64>) -> (r: Option<Drum>)
        ensures
            r == drum_from(percent),
    {
        match percent {
            Some(p) => Some(Drum::new(0, 0, Some(p))),
            None => None,
        }
    }
}

} // verus!
