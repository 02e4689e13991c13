use vstd::prelude::*;

use crate::error::{AppError, ErrorKind};
use crate::fetch::{FetchRequest, Slot, SlotKey};
use crate::mapping::{lookup_spec, MappingDocument};
use crate::oid::{oid_spec, parse_oid_to_vec};
use crate::printer::Printer;
use crate::supply::{
    level_in_range, Drum, Drums, Fuser, Metrics, PrinterSupply, Reservoir, Toner, TonerColor, Toners,
};
use crate::value::{integer_of, utf8_lossy, FromSnmpValue, SnmpValue};
use crate::text::{first_word, first_word_spec};

verus! {

/// A unit of the fetch plan: a reading located by a level/max-level pair,
/// or a single value.
#[derive(Clone, Copy, Debug, PartialEq, Eq, Structural)]
pub enum SlotGroup {
    Pair(PrinterSupply, Option<TonerColor>),
    Single(PrinterSupply, SlotKey),
}

pub open spec fn pair_groups(supply: PrinterSupply) -> Seq<SlotGroup> {
    seq![
        SlotGroup::Pair(supply, Some(TonerColor::Black)),
        SlotGroup::Pair(supply, Some(TonerColor::Cyan)),
        SlotGroup::Pair(supply, Some(TonerColor::Magenta)),
        SlotGroup::Pair(supply, Some(TonerColor::Yellow)),
    ]
}

/// The groups a generic poll asks for, in fetch order: the toners; with
/// extra supplies the drums, fuser, reservoir and serial number; with
/// metrics the three page counters.
pub open spec fn wanted_groups(extra_supplies: bool, metrics: bool) -> Seq<SlotGroup> {
    pair_groups(PrinterSupply::Toner) + (if extra_supplies {
        pair_groups(PrinterSupply::Drum) + seq![
            SlotGroup::Pair(PrinterSupply::Fuser, None),
            SlotGroup::Pair(PrinterSupply::Reservoir, None),
            SlotGroup::Single(PrinterSupply::Info, SlotKey::SerialNumber),
        ]
    } else {
        Seq::empty()
    }) + (if metrics {
        seq![
            SlotGroup::Single(PrinterSupply::Metrics, SlotKey::TotalImpressions),
            SlotGroup::Single(PrinterSupply::Metrics, SlotKey::MonoImpressions),
            SlotGroup::Single(PrinterSupply::Metrics, SlotKey::ColorImpressions),
        ]
    } else {
        Seq::empty()
    })
}

pub open spec fn group_supply(g: SlotGroup) -> PrinterSupply {
    match g {
        SlotGroup::Pair(s, _) => s,
        SlotGroup::Single(s, _) => s,
    }
}

/// The OID text a document gives for a slot.
pub open spec fn oid_text(doc: MappingDocument, slot: Slot) -> Option<Seq<char>> {
    lookup_spec(
        doc.entries@,
        slot.supply.key_spec(),
        match slot.color {
            Some(c) => Some(c.key_spec()),
            None => None,
        },
        slot.key.key_spec(),
    )
}

/// An absent OID is fine; a present one must parse.
pub open spec fn slot_valid(doc: MappingDocument, slot: Slot) -> bool {
    match oid_text(doc, slot) {
        Some(t) => oid_spec(t) is Some,
        None => true,
    }
}

/// The OID of a slot; empty when the document has none.
pub open spec fn slot_arcs(doc: MappingDocument, slot: Slot) -> Seq<u64> {
    match oid_text(doc, slot) {
        Some(t) => oid_spec(t)->Some_0,
        None => Seq::empty(),
    }
}

pub open spec fn level_slot(supply: PrinterSupply, color: Option<TonerColor>) -> Slot {
    Slot { supply, color, key: SlotKey::Level }
}

pub open spec fn max_slot(supply: PrinterSupply, color: Option<TonerColor>) -> Slot {
    Slot { supply, color, key: SlotKey::MaxLevel }
}

pub open spec fn group_valid(doc: MappingDocument, g: SlotGroup) -> bool {
    match g {
        SlotGroup::Pair(s, c) => slot_valid(doc, level_slot(s, c)) && slot_valid(doc, max_slot(s, c)),
        SlotGroup::Single(s, k) => slot_valid(doc, Slot { supply: s, color: None, key: k }),
    }
}

/// The fetches of one group: both OIDs of a pair when both are non-empty,
/// a single OID when it is non-empty, and nothing otherwise.
pub open spec fn group_requests(doc: MappingDocument, g: SlotGroup) -> Seq<(Slot, Seq<u64>)> {
    match g {
        SlotGroup::Pair(s, c) => {
            let a = slot_arcs(doc, level_slot(s, c));
            let m = slot_arcs(doc, max_slot(s, c));
            if a.len() > 0 && m.len() > 0 {
                seq![(level_slot(s, c), a), (max_slot(s, c), m)]
            } else {
                Seq::empty()
            }
        },
        SlotGroup::Single(s, k) => {
            let slot = Slot { supply: s, color: None, key: k };
            let a = slot_arcs(doc, slot);
            if a.len() > 0 {
                seq![(slot, a)]
            } else {
                Seq::empty()
            }
        },
    }
}

pub open spec fn plan_requests(doc: MappingDocument, groups: Seq<SlotGroup>) -> Seq<(Slot, Seq<u64>)>
    decreases groups.len(),
{
    if groups.len() == 0 {
        Seq::empty()
    } else {
        plan_requests(doc, groups.drop_last()) + group_requests(doc, groups.last())
    }
}

pub open spec fn plan_valid(doc: MappingDocument, groups: Seq<SlotGroup>) -> bool {
    forall|k: int| 0 <= k < groups.len() ==> group_valid(doc, #[trigger] groups[k])
}

/// The requests match the planned slots and OIDs one for one.
pub open spec fn requests_match(r: Seq<FetchRequest>, plan: Seq<(Slot, Seq<u64>)>) -> bool {
    &&& r.len() == plan.len()
    &&& forall|k: int| 0 <= k < r.len() ==> (#[trigger] r[k]).slot == plan[k].0 && r[k].oid@ == plan[k].1
}

proof fn lemma_request_supply_from_group(doc: MappingDocument, groups: Seq<SlotGroup>, k: int)
    requires
        0 <= k < plan_requests(doc, groups).len(),
    ensures
        exists|j: int|
            0 <= j < groups.len() && plan_requests(doc, groups)[k].0.supply == group_supply(
                #[trigger] groups[j],
            ),
    decreases groups.len(),
{
    let prev = plan_requests(doc, groups.drop_last());
    if k < prev.len() {
        lemma_request_supply_from_group(doc, groups.drop_last(), k);
        let j = choose|j: int|
            0 <= j < groups.drop_last().len() && prev[k].0.supply == group_supply(
                #[trigger] groups.drop_last()[j],
            );
        assert(groups.drop_last()[j] == groups[j]);
    } else {
        let j = groups.len() - 1;
        assert(groups[j] == groups.last());
    }
}

/// The feature flags bound what a generic poll fetches: with extra supplies
/// off it asks only for toners and page counters, with metrics off for no
/// page counter, and with both off for toners alone.
pub proof fn lemma_plan_respects_flags(
    doc: MappingDocument,
    extra_supplies: bool,
    metrics: bool,
    k: int,
)
    requires
        0 <= k < plan_requests(doc, wanted_groups(extra_supplies, metrics)).len(),
    ensures
        ({
            let supply = plan_requests(doc, wanted_groups(extra_supplies, metrics))[k].0.supply;
            &&& !extra_supplies ==> (supply == PrinterSupply::Toner || supply == PrinterSupply::Metrics)
            &&& !metrics ==> supply != PrinterSupply::Metrics
            &&& (!extra_supplies && !metrics) ==> supply == PrinterSupply::Toner
        }),
{
    let groups = wanted_groups(extra_supplies, metrics);
    lemma_request_supply_from_group(doc, groups, k);
    let j = choose|j: int|
        0 <= j < groups.len() && plan_requests(doc, groups)[k].0.supply == group_supply(
            #[trigger] groups[j],
        );
    let toners = pair_groups(PrinterSupply::Toner);
    let extras = if extra_supplies {
        pair_groups(PrinterSupply::Drum) + seq![
            SlotGroup::Pair(PrinterSupply::Fuser, None),
            SlotGroup::Pair(PrinterSupply::Reservoir, None),
            SlotGroup::Single(PrinterSupply::Info, SlotKey::SerialNumber),
        ]
    } else {
        Seq::empty()
    };
    let counters = if metrics {
        seq![
            SlotGroup::Single(PrinterSupply::Metrics, SlotKey::TotalImpressions),
            SlotGroup::Single(PrinterSupply::Metrics, SlotKey::MonoImpressions),
            SlotGroup::Single(PrinterSupply::Metrics, SlotKey::ColorImpressions),
        ]
    } else {
        Seq::empty()
    };
    assert(groups == toners + extras + counters);
    if j < toners.len() {
        assert(groups[j] == toners[j]);
    } else if j < toners.len() + extras.len() {
        assert(groups[j] == extras[j - toners.len()]);
    } else {
        assert(groups[j] == counters[j - toners.len() - extras.len()]);
    }
}

pub open spec fn toner_set(r: Option<Toner>, key: SlotKey, x: i64) -> Option<Toner> {
    let base = match r {
        Some(t) => t,
        None => Toner { level: 0, max_level: 0, level_percent: None },
    };
    match key {
        SlotKey::Level => Some(Toner { level: x, ..base }),
        SlotKey::MaxLevel => Some(Toner { max_level: x, ..base }),
        _ => r,
    }
}

pub open spec fn drum_set(r: Option<Drum>, key: SlotKey, x: i64) -> Option<Drum> {
    let base = match r {
        Some(t) => t,
        None => Drum { level: 0, max_level: 0, level_percent: None },
    };
    match key {
        SlotKey::Level => Some(Drum { level: x, ..base }),
        SlotKey::MaxLevel => Some(Drum { max_level: x, ..base }),
        _ => r,
    }
}

pub open spec fn fuser_set(r: Option<Fuser>, key: SlotKey, x: i64) -> Option<Fuser> {
    let base = match r {
        Some(t) => t,
        None => Fuser { level: 0, max_level: 0, level_percent: None },
    };
    match key {
        SlotKey::Level => Some(Fuser { level: x, ..base }),
        SlotKey::MaxLevel => Some(Fuser { max_level: x, ..base }),
        _ => r,
    }
}

pub open spec fn reservoir_set(r: Option<Reservoir>, key: SlotKey, x: i64) -> Option<Reservoir> {
    let base = match r {
        Some(t) => t,
        None => Reservoir { level: 0, max_level: 0, level_percent: None },
    };
    match key {
        SlotKey::Level => Some(Reservoir { level: x, ..base }),
        SlotKey::MaxLevel => Some(Reservoir { max_level: x, ..base }),
        _ => r,
    }
}

pub open spec fn metrics_set(m: Option<Metrics>, key: SlotKey, x: i64) -> Option<Metrics> {
    let base = match m {
        Some(v) => v,
        None => Metrics { total_impressions: None, mono_impressions: None, color_impressions: None },
    };
    match key {
        SlotKey::TotalImpressions => Some(Metrics { total_impressions: Some(x), ..base }),
        SlotKey::MonoImpressions => Some(Metrics { mono_impressions: Some(x), ..base }),
        SlotKey::ColorImpressions => Some(Metrics { color_impressions: Some(x), ..base }),
        _ => m,
    }
}

pub open spec fn toners_set(t: Toners, c: TonerColor, key: SlotKey, x: i64) -> Toners {
    match c {
        TonerColor::Black => Toners { black_toner: toner_set(t.black_toner, key, x), ..t },
        TonerColor::Cyan => Toners { cyan_toner: toner_set(t.cyan_toner, key, x), ..t },
        TonerColor::Magenta => Toners { magenta_toner: toner_set(t.magenta_toner, key, x), ..t },
        TonerColor::Yellow => Toners { yellow_toner: toner_set(t.yellow_toner, key, x), ..t },
    }
}

pub open spec fn drums_set(d: Drums, c: TonerColor, key: SlotKey, x: i64) -> Drums {
    match c {
        TonerColor::Black => Drums { black_drum: drum_set(d.black_drum, key, x), ..d },
        TonerColor::Cyan => Drums { cyan_drum: drum_set(d.cyan_drum, key, x), ..d },
        TonerColor::Magenta => Drums { magenta_drum: drum_set(d.magenta_drum, key, x), ..d },
        TonerColor::Yellow => Drums { yellow_drum: drum_set(d.yellow_drum, key, x), ..d },
    }
}

/// The snapshot with the number `x` stored in the field that `slot` names.
pub open spec fn place_number(p: Printer, slot: Slot, x: i64) -> Printer {
    match slot.supply {
        PrinterSupply::Toner => match slot.color {
            Some(c) => Printer { toners: toners_set(p.toners, c, slot.key, x), ..p },
            None => p,
        },
        PrinterSupply::Drum => match slot.color {
            Some(c) => Printer { drums: drums_set(p.drums, c, slot.key, x), ..p },
            None => p,
        },
        PrinterSupply::Fuser => Printer { fuser: fuser_set(p.fuser, slot.key, x), ..p },
        PrinterSupply::Reservoir => Printer { reservoir: reservoir_set(p.reservoir, slot.key, x), ..p },
        PrinterSupply::Metrics => Printer { metrics: metrics_set(p.metrics, slot.key, x), ..p },
        PrinterSupply::Info => p,
    }
}

pub open spec fn is_numeric_key(k: SlotKey) -> bool {
    k != SlotKey::SerialNumber && k != SlotKey::MaintenanceBlob
}

/// A fetched value suits its slot: a level is an integer whose hundredfold
/// fits, another numeric field an integer, the serial number an octet string.
pub open spec fn value_ok(slot: Slot, v: SnmpValue) -> bool {
    match slot.key {
        SlotKey::Level => integer_of(v) is Some && level_in_range(integer_of(v)->Some_0),
        SlotKey::SerialNumber => v is OctetString,
        SlotKey::MaintenanceBlob => true,
        _ => integer_of(v) is Some,
    }
}

/// The numeric values stored in order into `p`.
pub open spec fn fold_numbers(p: Printer, reqs: Seq<FetchRequest>, vals: Seq<SnmpValue>) -> Printer
    decreases reqs.len(),
{
    if reqs.len() == 0 || vals.len() == 0 {
        p
    } else {
        let q = fold_numbers(p, reqs.drop_last(), vals.drop_last());
        let slot = reqs.last().slot;
        if is_numeric_key(slot.key) {
            place_number(q, slot, integer_of(vals.last())->Some_0)
        } else {
            q
        }
    }
}

/// The text of the last serial-number value, if any was fetched.
pub open spec fn fold_serial(reqs: Seq<FetchRequest>, vals: Seq<SnmpValue>) -> Option<Seq<char>>
    decreases reqs.len(),
{
    if reqs.len() == 0 || vals.len() == 0 {
        None
    } else if reqs.last().slot.key == SlotKey::SerialNumber {
        Some(utf8_lossy(vals.last()->OctetString_0@))
    } else {
        fold_serial(reqs.drop_last(), vals.drop_last())
    }
}

pub open spec fn empty_snapshot(name: String) -> Printer {
    Printer {
        name,
        serial_number: None,
        toners: Toners { black_toner: None, cyan_toner: None, magenta_toner: None, yellow_toner: None },
        drums: Drums { black_drum: None, cyan_drum: None, magenta_drum: None, yellow_drum: None },
        fuser: None,
        reservoir: None,
        metrics: None,
    }
}

pub open spec fn all_values_ok(reqs: Seq<FetchRequest>, vals: Seq<SnmpValue>) -> bool {
    forall|k: int| 0 <= k < reqs.len() ==> value_ok(#[trigger] reqs[k].slot, vals[k])
}

/// Every present reading has a level whose hundredfold fits.
pub open spec fn levels_fit(p: Printer) -> bool {
    &&& (p.toners.black_toner matches Some(r) ==> level_in_range(r.level))
    &&& (p.toners.cyan_toner matches Some(r) ==> level_in_range(r.level))
    &&& (p.toners.magenta_toner matches Some(r) ==> level_in_range(r.level))
    &&& (p.toners.yellow_toner matches Some(r) ==> level_in_range(r.level))
    &&& (p.drums.black_drum matches Some(r) ==> level_in_range(r.level))
    &&& (p.drums.cyan_drum matches Some(r) ==> level_in_range(r.level))
    &&& (p.drums.magenta_drum matches Some(r) ==> level_in_range(r.level))
    &&& (p.drums.yellow_drum matches Some(r) ==> level_in_range(r.level))
    &&& (p.fuser matches Some(r) ==> level_in_range(r.level))
    &&& (p.reservoir matches Some(r) ==> level_in_range(r.level))
}

proof fn lemma_pair_request_keys(doc: MappingDocument, groups: Seq<SlotGroup>, k: int)
    requires
        0 <= k < plan_requests(doc, groups).len(),
        forall|j: int| 0 <= j < groups.len() ==> (#[trigger] groups[j]) is Pair,
    ensures
        plan_requests(doc, groups)[k].0.key == SlotKey::Level || plan_requests(doc, groups)[k].0.key
            == SlotKey::MaxLevel,
    decreases groups.len(),
{
    let prev = plan_requests(doc, groups.drop_last());
    if k < prev.len() {
        assert forall|j: int| 0 <= j < groups.drop_last().len() implies (
        #[trigger] groups.drop_last()[j]) is Pair by {
            assert(groups.drop_last()[j] == groups[j]);
        }
        lemma_pair_request_keys(doc, groups.drop_last(), k);
    } else {
        assert(groups[groups.len() - 1] is Pair);
    }
}

proof fn lemma_fold_toners_only(p: Printer, reqs: Seq<FetchRequest>, vals: Seq<SnmpValue>)
    requires
        reqs.len() == vals.len(),
        forall|k: int|
            0 <= k < reqs.len() ==> (#[trigger] reqs[k]).slot.supply == PrinterSupply::Toner
                && reqs[k].slot.key != SlotKey::SerialNumber,
    ensures
        fold_numbers(p, reqs, vals).drums == p.drums,
        fold_numbers(p, reqs, vals).fuser == p.fuser,
        fold_numbers(p, reqs, vals).reservoir == p.reservoir,
        fold_numbers(p, reqs, vals).metrics == p.metrics,
        fold_numbers(p, reqs, vals).serial_number == p.serial_number,
        fold_serial(reqs, vals) is None,
    decreases reqs.len(),
{
    if reqs.len() > 0 {
        let r1 = reqs.drop_last();
        assert forall|k: int| 0 <= k < r1.len() implies (#[trigger] r1[k]).slot.supply
            == PrinterSupply::Toner && r1[k].slot.key != SlotKey::SerialNumber by {
            assert(r1[k] == reqs[k]);
        }
        lemma_fold_toners_only(p, r1, vals.drop_last());
        assert(reqs.last() == reqs[reqs.len() - 1]);
    }
}

/// With extra supplies and metrics off, the snapshot a generic poll builds
/// has no drum, fuser, reservoir, serial number or page counters, whatever
/// the document maps.
pub proof fn lemma_toner_only_snapshot(
    doc: MappingDocument,
    reqs: Seq<FetchRequest>,
    vals: Seq<SnmpValue>,
    name: String,
)
    requires
        reqs.len() == vals.len(),
        requests_match(reqs, plan_requests(doc, wanted_groups(false, false))),
    ensures
        ({
            let f = fold_numbers(empty_snapshot(name), reqs, vals).levels_calculated();
            &&& f.drums == (Drums {
                black_drum: None,
                cyan_drum: None,
                magenta_drum: None,
                yellow_drum: None,
            })
            &&& f.fuser is None
            &&& f.reservoir is None
            &&& f.metrics is None
            &&& f.serial_number is None
            &&& fold_serial(reqs, vals) is None
        }),
{
    let groups = wanted_groups(false, false);
    assert(groups =~= pair_groups(PrinterSupply::Toner));
    assert forall|j: int| 0 <= j < groups.len() implies (#[trigger] groups[j]) is Pair by {}
    assert forall|k: int| 0 <= k < reqs.len() implies (#[trigger] reqs[k]).slot.supply
        == PrinterSupply::Toner && reqs[k].slot.key != SlotKey::SerialNumber by {
        lemma_plan_respects_flags(doc, false, false, k);
        lemma_pair_request_keys(doc, groups, k);
    }
    lemma_fold_toners_only(empty_snapshot(name), reqs, vals);
}

/// Driver for every device: locates values through a per-model mapping
/// document. It matches any name, so it must be consulted last.
#[derive(Clone, Copy, Debug, PartialEq, Eq, Structural)]
pub struct GenericDriver;

impl GenericDriver {
    pub fn is_compatible(&self, _printer_name: &str) -> (r: bool)
        ensures
            r,
    {
        true
    }

    /// The brand token: the first whitespace-delimited word of the name.
    pub fn brand(printer_name: &str) -> (r: Result<String, AppError>)
        ensures
            r is Ok <==> first_word_spec(printer_name@) is Some,
            r is Ok ==> r->Ok_0@ == first_word_spec(printer_name@)->Some_0,
            r is Err ==> r->Err_0.kind is Parse,
    {
        match first_word(printer_name) {
            Some(w) => Ok(w),
            None => Err(
                AppError::new(ErrorKind::Parse(String::from_str("Could not determine printer brand"))),
            ),
        }
    }

    fn groups(extra_supplies: bool, metrics: bool) -> (r: Vec<SlotGroup>)
        ensures
            r@ == wanted_groups(extra_supplies, metrics),
    {
        let mut r: Vec<SlotGroup> = Vec::new();
        r.push(SlotGroup::Pair(PrinterSupply::Toner, Some(TonerColor::Black)));
        r.push(SlotGroup::Pair(PrinterSupply::Toner, Some(TonerColor::Cyan)));
        r.push(SlotGroup::Pair(PrinterSupply::Toner, Some(TonerColor::Magenta)));
        r.push(SlotGroup::Pair(PrinterSupply::Toner, Some(TonerColor::Yellow)));
        if extra_supplies {
            r.push(SlotGroup::Pair(PrinterSupply::Drum, Some(TonerColor::Black)));
            r.push(SlotGroup::Pair(PrinterSupply::Drum, Some(TonerColor::Cyan)));
            r.push(SlotGroup::Pair(PrinterSupply::Drum, Some(TonerColor::Magenta)));
            r.push(SlotGroup::Pair(PrinterSupply::Drum, Some(TonerColor::Yellow)));
            r.push(SlotGroup::Pair(PrinterSupply::Fuser, None));
            r.push(SlotGroup::Pair(PrinterSupply::Reservoir, None));
            r.push(SlotGroup::Single(PrinterSupply::Info, SlotKey::SerialNumber));
        }
        if metrics {
            r.push(SlotGroup::Single(PrinterSupply::Metrics, SlotKey::TotalImpressions));
            r.push(SlotGroup::Single(PrinterSupply::Metrics, SlotKey::MonoImpressions));
            r.push(SlotGroup::Single(PrinterSupply::Metrics, SlotKey::ColorImpressions));
        }
        assert(r@ =~= wanted_groups(extra_supplies, metrics));
        r
    }

    /// Resolves the OID of a slot: empty when the document has none.
    fn resolve(doc: &MappingDocument, slot: Slot) -> (r: Result<Vec<u64>, AppError>)
        ensures
            r is Ok <==> slot_valid(*doc, slot),
            r is Ok ==> r->Ok_0@ == slot_arcs(*doc, slot),
            r is Err ==> r->Err_0.kind == ErrorKind::InvalidOidFormat,
    {
        let color = match slot.color {
            Some(c) => Some(c.key()),
            None => None,
        };
        match doc.lookup(slot.supply.key(), color, slot.key.key()) {
            Some(text) => parse_oid_to_vec(text.as_str()),
            None => Ok(Vec::new()),
        }
    }

    fn request(slot: Slot, oid: Vec<u64>) -> (r: FetchRequest)
        ensures
            r.slot == slot,
            r.oid@ == oid@,
    {
        FetchRequest { slot, oid }
    }

    fn group_plan(
        doc: &MappingDocument,
        g: SlotGroup,
        out: &mut Vec<FetchRequest>,
        Ghost(prev): Ghost<Seq<(Slot, Seq<u64>)>>,
    ) -> (r: Result<(), AppError>)
        requires
            requests_match(old(out)@, prev),
        ensures
            r is Ok <==> group_valid(*doc, g),
            r is Ok ==> requests_match(final(out)@, prev + group_requests(*doc, g)),
            r is Err ==> r->Err_0.kind == ErrorKind::InvalidOidFormat,
    {
        match g {
            SlotGroup::Pair(s, c) => {
                let lslot = Slot { supply: s, color: c, key: SlotKey::Level };
                let mslot = Slot { supply: s, color: c, key: SlotKey::MaxLevel };
                assert(lslot == level_slot(s, c));
                assert(mslot == max_slot(s, c));
                let a = Self::resolve(doc, lslot)?;
                let m = Self::resolve(doc, mslot)?;
                if a.len() > 0 && m.len() > 0 {
                    out.push(Self::request(lslot, a));
                    out.push(Self::request(mslot, m));
                    assert(requests_match(out@, prev + group_requests(*doc, g))) by {
                        let add = group_requests(*doc, g);
                        assert forall|k: int| 0 <= k < out@.len() implies (#[trigger] out@[k]).slot
                            == (prev + add)[k].0 && out@[k].oid@ == (prev + add)[k].1 by {
                            if k < prev.len() {
                                assert(out@[k] == old(out)@[k]);
                            }
                        }
                    }
                }
                assert(group_requests(*doc, g).len() == 0 ==> prev + group_requests(*doc, g) =~= prev);
                Ok(())
            },
            SlotGroup::Single(s, k) => {
                let slot = Slot { supply: s, color: None, key: k };
                let a = Self::resolve(doc, slot)?;
                if a.len() > 0 {
                    out.push(Self::request(slot, a));
                    assert(requests_match(out@, prev + group_requests(*doc, g))) by {
                        let add = group_requests(*doc, g);
                        assert forall|j: int| 0 <= j < out@.len() implies (#[trigger] out@[j]).slot
                            == (prev + add)[j].0 && out@[j].oid@ == (prev + add)[j].1 by {
                            if j < prev.len() {
                                assert(out@[j] == old(out)@[j]);
                            }
                        }
                    }
                }
                assert(group_requests(*doc, g).len() == 0 ==> prev + group_requests(*doc, g) =~= prev);
                Ok(())
            },
        }
    }

    /// The fetches a generic poll issues, in order.
    ///
    /// Every group that the flags ask for is looked up in the document; a
    /// group whose OIDs are absent or empty is skipped, and an OID that does
    /// not parse fails the plan with `InvalidOidFormat`.
    pub fn plan(doc: &MappingDocument, extra_supplies: bool, metrics: bool) -> (r: Result<
        Vec<FetchRequest>,
        AppError,
    >)
        ensures
            r is Ok <==> plan_valid(*doc, wanted_groups(extra_supplies, metrics)),
            r is Ok ==> requests_match(
                r->Ok_0@,
                plan_requests(*doc, wanted_groups(extra_supplies, metrics)),
            ),
            r is Err ==> r->Err_0.kind == ErrorKind::InvalidOidFormat,
    {
        let groups = Self::groups(extra_supplies, metrics);
        let ghost gs = groups@;
        let mut out: Vec<FetchRequest> = Vec::new();
        let mut i: usize = 0;
        assert(gs.take(0) =~= Seq::<SlotGroup>::empty());
        while i < groups.len()
            invariant
                gs == groups@,
                gs == wanted_groups(extra_supplies, metrics),
                i <= gs.len(),
                plan_valid(*doc, gs.take(i as int)),
                requests_match(out@, plan_requests(*doc, gs.take(i as int))),
            decreases gs.len() - i,
        {
            assert(gs.take(i + 1).drop_last() =~= gs.take(i as int));
            let ghost prev = plan_requests(*doc, gs.take(i as int));
            match Self::group_plan(doc, groups[i], &mut out, Ghost(prev)) {
                Ok(()) => {
                    assert(plan_requests(*doc, gs.take(i + 1)) == prev + group_requests(
                        *doc,
                        gs[i as int],
                    ));
                    assert(plan_valid(*doc, gs.take(i + 1))) by {
                        assert forall|k: int| 0 <= k < i + 1 implies group_valid(
                            *doc,
                            #[trigger] gs.take(i + 1)[k],
                        ) by {
                            if k < i {
                                assert(gs.take(i + 1)[k] == gs.take(i as int)[k]);
                            }
                        }
                    }
                },
                Err(e) => {
                    assert(!group_valid(*doc, gs[i as int]));
                    return Err(e);
                },
            }
            i = i + 1;
        }
        assert(gs.take(gs.len() as int) =~= gs);
        Ok(out)
    }

    fn set_toner(r: Option<Toner>, key: SlotKey, x: i64) -> (o: Option<Toner>)
        ensures
            o == toner_set(r, key, x),
    {
        let base = match r {
            Some(t) => t,
            None => Toner::new(0, 0, None),
        };
        match key {
            SlotKey::Level => Some(Toner { level: x, ..base }),
            SlotKey::MaxLevel => Some(Toner { max_level: x, ..base }),
            _ => r,
        }
    }

    fn set_drum(r: Option<Drum>, key: SlotKey, x: i64) -> (o: Option<Drum>)
        ensures
            o == drum_set(r, key, x),
    {
        let base = match r {
            Some(t) => t,
            None => Drum::new(0, 0, None),
        };
        match key {
            SlotKey::Level => Some(Drum { level: x, ..base }),
            SlotKey::MaxLevel => Some(Drum { max_level: x, ..base }),
            _ => r,
        }
    }

    fn place(p: &mut Printer, slot: Slot, x: i64)
        requires
            levels_fit(*old(p)),
            slot.key == SlotKey::Level ==> level_in_range(x),
        ensures
            *final(p) == place_number(*old(p), slot, x),
            levels_fit(*final(p)),
    {
        match slot.supply {
            PrinterSupply::Toner => match slot.color {
                Some(TonerColor::Black) => {
                    p.toners.black_toner = Self::set_toner(p.toners.black_toner, slot.key, x);
                },
                Some(TonerColor::Cyan) => {
                    p.toners.cyan_toner = Self::set_toner(p.toners.cyan_toner, slot.key, x);
                },
                Some(TonerColor::Magenta) => {
                    p.toners.magenta_toner = Self::set_toner(p.toners.magenta_toner, slot.key, x);
                },
                Some(TonerColor::Yellow) => {
                    p.toners.yellow_toner = Self::set_toner(p.toners.yellow_toner, slot.key, x);
                },
                None => {},
            },
            PrinterSupply::Drum => match slot.color {
                Some(TonerColor::Black) => {
                    p.drums.black_drum = Self::set_drum(p.drums.black_drum, slot.key, x);
                },
                Some(TonerColor::Cyan) => {
                    p.drums.cyan_drum = Self::set_drum(p.drums.cyan_drum, slot.key, x);
                },
                Some(TonerColor::Magenta) => {
                    p.drums.magenta_drum = Self::set_drum(p.drums.magenta_drum, slot.key, x);
                },
                Some(TonerColor::Yellow) => {
                    p.drums.yellow_drum = Self::set_drum(p.drums.yellow_drum, slot.key, x);
                },
                None => {},
            },
            PrinterSupply::Fuser => {
                let base = match p.fuser {
                    Some(t) => t,
                    None => Fuser::new(0, 0, None),
                };
                match slot.key {
                    SlotKey::Level => {
                        p.fuser = Some(Fuser { level: x, ..base });
                    },
                    SlotKey::MaxLevel => {
                        p.fuser = Some(Fuser { max_level: x, ..base });
                    },
                    _ => {},
                }
            },
            PrinterSupply::Reservoir => {
                let base = match p.reservoir {
                    Some(t) => t,
                    None => Reservoir::new(0, 0, None),
                };
                match slot.key {
                    SlotKey::Level => {
                        p.reservoir = Some(Reservoir { level: x, ..base });
                    },
                    SlotKey::MaxLevel => {
                        p.reservoir = Some(Reservoir { max_level: x, ..base });
                    },
                    _ => {},
                }
            },
            PrinterSupply::Metrics => {
                let base = match p.metrics {
                    Some(v) => v,
                    None => Metrics {
                        total_impressions: None,
                        mono_impressions: None,
                        color_impressions: None,
                    },
                };
                match slot.key {
                    SlotKey::TotalImpressions => {
                        p.metrics = Some(Metrics { total_impressions: Some(x), ..base });
                    },
                    SlotKey::MonoImpressions => {
                        p.metrics = Some(Metrics { mono_impressions: Some(x), ..base });
                    },
                    SlotKey::ColorImpressions => {
                        p.metrics = Some(Metrics { color_impressions: Some(x), ..base });
                    },
                    _ => {},
                }
            },
            PrinterSupply::Info => {},
        }
    }

    /// Builds the device snapshot from the values fetched for a plan, one
    /// value per request, and derives every percentage.
    ///
    /// Fails when a value does not suit its slot: a numeric field that is
    /// not an integer, a level too large to scale, or a serial number that
    /// is not an octet string.
    pub fn assemble(
        printer_name: String,
        requests: &Vec<FetchRequest>,
        values: &Vec<SnmpValue>,
    ) -> (r: Result<Printer, AppError>)
        requires
            requests@.len() == values@.len(),
        ensures
            r is Ok <==> all_values_ok(requests@, values@),
            r is Err ==> (r->Err_0.kind is TypeMismatch || r->Err_0.kind is Parse),
            r is Ok ==> ({
                let p = r->Ok_0;
                let folded = fold_numbers(empty_snapshot(printer_name), requests@, values@);
                &&& levels_fit(folded)
                &&& Printer { serial_number: None, ..p } == folded.levels_calculated()
                &&& match fold_serial(requests@, values@) {
                    Some(t) => p.serial_number is Some && p.serial_number->Some_0@ == t,
                    None => p.serial_number is None,
                }
            }),
    {
        let ghost name = printer_name;
        let mut acc = Printer::new(printer_name, None, Toners::default(), Drums::default(), None, None);
        let mut serial: Option<String> = None;
        let mut i: usize = 0;
        assert(requests@.take(0) =~= Seq::<FetchRequest>::empty());
        while i < requests.len()
            invariant
                requests@.len() == values@.len(),
                i <= requests@.len(),
                all_values_ok(requests@.take(i as int), values@.take(i as int)),
                acc == fold_numbers(empty_snapshot(name), requests@.take(i as int), values@.take(i as int)),
                levels_fit(acc),
                acc.serial_number is None,
                acc.name == name,
                match fold_serial(requests@.take(i as int), values@.take(i as int)) {
                    Some(t) => serial is Some && serial->Some_0@ == t,
                    None => serial is None,
                },
            decreases requests@.len() - i,
        {
            let slot = requests[i].slot;
            let v = &values[i];
            assert(requests@.take(i + 1).drop_last() =~= requests@.take(i as int));
            assert(values@.take(i + 1).drop_last() =~= values@.take(i as int));
            if slot.key == SlotKey::SerialNumber {
                match String::from_snmp_value(v) {
                    Ok(text) => {
                        serial = Some(text);
                    },
                    Err(e) => {
                        assert(!value_ok(requests@[i as int].slot, values@[i as int]));
                        return Err(e);
                    },
                }
            } else if slot.key != SlotKey::MaintenanceBlob {
                match i64::from_snmp_value(v) {
                    Ok(x) => {
                        if slot.key == SlotKey::Level && !(x >= -92233720368547758 && x <= 92233720368547758) {
                            assert(!value_ok(requests@[i as int].slot, values@[i as int]));
                            return Err(AppError::new(ErrorKind::Parse(String::from_str("Supply level out of range"))));
                        }
                        Self::place(&mut acc, slot, x);
                    },
                    Err(e) => {
                        assert(!value_ok(requests@[i as int].slot, values@[i as int]));
                        return Err(e);
                    },
                }
            }
            assert(all_values_ok(requests@.take(i + 1), values@.take(i + 1))) by {
                assert forall|k: int| 0 <= k < i + 1 implies value_ok(
                    #[trigger] requests@.take(i + 1)[k].slot,
                    values@.take(i + 1)[k],
                ) by {
                    if k < i {
                        assert(requests@.take(i + 1)[k] == requests@.take(i as int)[k]);
                        assert(values@.take(i + 1)[k] == values@.take(i as int)[k]);
                    }
                }
            }
            i = i + 1;
        }
        assert(requests@.take(i as int) =~= requests@);
        assert(values@.take(i as int) =~= values@);
        acc.calculate_all_levels();
        acc.serial_number = serial;
        Ok(acc)
    }
}

} // verus!
