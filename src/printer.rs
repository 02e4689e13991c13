use vstd::prelude::*;

use crate::supply::{
    trunc_div, percent_spec, CalculateLevel, Drums, Fuser, Metrics, Reservoir, Toner, Toners,
};

verus! {

/// A snapshot of one polled device: its name, serial number, supplies and
/// page counters.
#[derive(Clone, Debug)]
pub struct Printer {
    pub name: String,
    pub serial_number: Option<String>,
    pub toners: Toners,
    pub drums: Drums,
    pub fuser: Option<Fuser>,
    pub reservoir: Option<Reservoir>,
    pub metrics: Option<Metrics>,
}

impl Printer {
    pub fn new(
        name: String,
        serial_number: Option<String>,
        toners: Toners,
        drums: Drums,
        fuser: Option<Fuser>,
        reservoir: Option<Reservoir>,
    ) -> (r: Self)
        ensures
            r.name == name,
            r.serial_number == serial_number,
            r.toners == toners,
            r.drums == drums,
            r.fuser == fuser,
            r.reservoir == reservoir,
            r.metrics is None,
    {
        Printer { name, serial_number, toners, drums, fuser, reservoir, metrics: None }
    }

    /// Every missing percentage can be derived without overflow.
    pub open spec fn can_calculate(self) -> bool {
        &&& self.toners.can_calculate()
        &&& self.drums.can_calculate()
        &&& self.fuser.can_calculate()
        &&& self.reservoir.can_calculate()
    }

    /// The snapshot once the level calculator has run over every supply.
    pub open spec fn levels_calculated(self) -> Self {
        Printer {
            toners: self.toners.calculated(),
            drums: self.drums.calculated(),
            fuser: self.fuser.calculated(),
            reservoir: self.reservoir.calculated(),
            ..self
        }
    }

    /// Derives the percentage of every supply reading that has none yet.
    pub fn calculate_all_levels(&mut self)
        requires
            old(self).can_calculate(),
        ensures
            *final(self) == old(self).levels_calculated(),
    {
        self.calc_and_update_toners_level_percent();
        self.calc_and_update_drums_level_percent();
        self.calc_and_update_fuser_level_percent();
        self.calc_and_update_reservoir_level_percent();
    }

    /// Derives the percentage of each toner that has none yet.
    pub fn calc_and_update_toners_level_percent(&mut self)
        requires
            old(self).toners.can_calculate(),
        ensures
            *final(self) == (Printer { toners: old(self).toners.calculated(), ..*old(self) }),
    {
        self.toners.black_toner.calculate_level_percent();
        self.toners.cyan_toner.calculate_level_percent();
        self.toners.magenta_toner.calculate_level_percent();
        self.toners.yellow_toner.calculate_level_percent();
    }

    /// Derives the percentage of each drum that has none yet.
    pub fn calc_and_update_drums_level_percent(&mut self)
        requires
            old(self).drums.can_calculate(),
        ensures
            *final(self) == (Printer { drums: old(self).drums.calculated(), ..*old(self) }),
    {
        self.drums.black_drum.calculate_level_percent();
        self.drums.cyan_drum.calculate_level_percent();
        self.drums.magenta_drum.calculate_level_percent();
        self.drums.yellow_drum.calculate_level_percent();
    }

    /// Derives the fuser percentage if it has none yet.
    pub fn calc_and_update_fuser_level_percent(&mut self)
        requires
            old(self).fuser.can_calculate(),
        ensures
            *final(self) == (Printer { fuser: old(self).fuser.calculated(), ..*old(self) }),
    {
        self.fuser.calculate_level_percent();
    }

    /// Derives the reservoir percentage if it has none yet.
    pub fn calc_and_update_reservoir_level_percent(&mut self)
        requires
            old(self).reservoir.can_calculate(),
        ensures
            *final(self) == (Printer { reservoir: old(self).reservoir.calculated(), ..*old(self) }),
    {
        self.reservoir.calculate_level_percent();
    }
}

/// Running the level calculator a second time changes nothing.
pub proof fn lemma_calculation_idempotent(p: Printer)
    requires
        p.can_calculate(),
    ensures
        p.levels_calculated().can_calculate(),
        p.levels_calculated().levels_calculated() == p.levels_calculated(),
{
}

/// A reading without a percentage and without a positive maximum stays
/// without a percentage; one with a positive maximum gets exactly
/// `(level * 100) / max_level`, truncated toward zero.
pub proof fn lemma_reading_percent(t: Toner)
    requires
        t.level_percent is None,
        t.computable(),
    ensures
        t.max_level <= 0 ==> t.finalized().level_percent is None,
        t.finalized().level_percent == percent_spec(t.level, t.max_level),
{
}

/// The calculator on a present reading: with no percentage yet and a
/// positive maximum it sets `(level * 100) / max_level`, truncated toward
/// zero; with no percentage and no positive maximum it leaves none; a
/// percentage already present is kept.
pub proof fn lemma_option_calculator(r: Toner)
    requires
        r.computable(),
    ensures
        r.level_percent is None && r.max_level > 0 ==> Some(r).calculated() == Some(
            Toner { level_percent: Some(trunc_div(r.level * 100, r.max_level as int) as i64), ..r },
        ),
        r.level_percent is None && r.max_level <= 0 ==> Some(r).calculated() == Some(r),
        r.level_percent is Some ==> Some(r).calculated() == Some(r),
{
}

} // verus!
