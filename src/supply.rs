use vstd::prelude::*;

verus! {

/// Quotient of `x` by a positive `d`, truncated toward zero.
pub open spec fn trunc_div(x: int, d: int) -> int
    recommends
        d > 0,
{
    if x >= 0 {
        x / d
    } else {
        -((-x) / d)
    }
}

/// A level whose hundredfold still fits in an `i64`.
pub open spec fn level_in_range(level: i64) -> bool {
    i64::MIN <= level * 100 <= i64::MAX
}

/// Remaining life in percent: `(level * 100) / max_level` truncated toward
/// zero when `max_level` is positive, and nothing otherwise.
pub open spec fn percent_spec(level: i64, max_level: i64) -> Option<i64> {
    if max_level > 0 {
        Some(trunc_div(level * 100, max_level as int) as i64)
    } else {
        None
    }
}

proof fn lemma_trunc_div_bounded(x: int, d: int)
    requires
        d > 0,
    ensures
        x >= 0 ==> 0 <= trunc_div(x, d) <= x,
        x < 0 ==> x <= trunc_div(x, d) <= 0,
{
    if x >= 0 {
        assert(x / d <= x) by (nonlinear_arith)
            requires
                x >= 0,
                d > 0,
        ;
        assert(x / d >= 0) by (nonlinear_arith)
            requires
                x >= 0,
                d > 0,
        ;
    } else {
        let y = -x;
        assert(y / d <= y) by (nonlinear_arith)
            requires
                y >= 0,
                d > 0,
        ;
        assert(y / d >= 0) by (nonlinear_arith)
            requires
                y >= 0,
                d > 0,
        ;
    }
}

/// Computes the remaining-life percentage of a supply from its current and
/// maximum readings.
pub fn calculate(level: i64, max_level: i64) -> (r: Option<i64>)
    requires
        max_level > 0 ==> level_in_range(level),
    ensures
        r == percent_spec(level, max_level),
        max_level > 0 ==> r == Some(trunc_div(level * 100, max_level as int) as i64),
        max_level <= 0 ==> r is None,
{
    if max_level > 0 {
        let scaled: i64 = level * 100;
        proof {
            lemma_trunc_div_bounded(scaled as int, max_level as int);
        }
        scaled.checked_div(max_level)
    } else {
        None
    }
}


/// Supplies whose level can be derived in place.
pub trait CalculateLevel: Sized {
    spec fn can_calculate(&self) -> bool;

    spec fn calculated(&self) -> Self;

    /// Sets the percentage of a present reading that has none yet.
    fn calculate_level_percent(&mut self)
        requires
            old(self).can_calculate(),
        ensures
            *final(self) == old(self).calculated(),
    ;
}

/// A toner cartridge reading: current level, maximum level and the derived percentage.
#[derive(Clone, Copy, Debug, PartialEq, Eq, Structural)]
pub struct Toner {
    pub level: i64,
    pub max_level: i64,
    pub level_percent: Option<i64>,
}

impl Toner {
    pub fn new(level: i64, max_level: i64, level_percent: Option<i64>) -> (r: Self)
        ensures
            r.level == level,
            r.max_level == max_level,
            r.level_percent == level_percent,
    {
        Toner { level, max_level, level_percent }
    }

    /// The percentage can be derived without overflow, or is already known.
    pub open spec fn computable(self) -> bool {
        self.level_percent is None && self.max_level > 0 ==> level_in_range(self.level)
    }

    /// The reading after the level calculator: a percentage already present
    /// is kept, a missing one is derived from the two levels.
    pub open spec fn finalized(self) -> Self {
        match self.level_percent {
            Some(_) => self,
            None => Toner { level_percent: percent_spec(self.level, self.max_level), ..self },
        }
    }

    fn finalize(&mut self)
        requires
            old(self).computable(),
        ensures
            *final(self) == old(self).finalized(),
    {
        if self.level_percent.is_none() {
            self.level_percent = calculate(self.level, self.max_level);
        }
    }
}

impl CalculateLevel for Option<Toner> {
    open spec fn can_calculate(&self) -> bool {
        match *self {
            Some(r) => r.computable(),
            None => true,
        }
    }

    open spec fn calculated(&self) -> Self {
        match *self {
            Some(r) => Some(r.finalized()),
            None => None,
        }
    }

    fn calculate_level_percent(&mut self) {
        if let Some(reading) = self {
            reading.finalize();
        }
    }
}

/// A drum unit reading: current level, maximum level and the derived percentage.
#[derive(Clone, Copy, Debug, PartialEq, Eq, Structural)]
pub struct Drum {
    pub level: i64,
    pub max_level: i64,
    pub level_percent: Option<i64>,
}

impl Drum {
    pub fn new(level: i64, max_level: i64, level_percent: Option<i64>) -> (r: Self)
        ensures
            r.level == level,
            r.max_level == max_level,
            r.level_percent == level_percent,
    {
        Drum { level, max_level, level_percent }
    }

    /// The percentage can be derived without overflow, or is already known.
    pub open spec fn computable(self) -> bool {
        self.level_percent is None && self.max_level > 0 ==> level_in_range(self.level)
    }

    /// The reading after the level calculator: a percentage already present
    /// is kept, a missing one is derived from the two levels.
    pub open spec fn finalized(self) -> Self {
        match self.level_percent {
            Some(_) => self,
            None => Drum { level_percent: percent_spec(self.level, self.max_level), ..self },
        }
    }

    fn finalize(&mut self)
        requires
            old(self).computable(),
        ensures
            *final(self) == old(self).finalized(),
    {
        if self.level_percent.is_none() {
            self.level_percent = calculate(self.level, self.max_level);
        }
    }
}

impl CalculateLevel for Option<Drum> {
    open spec fn can_calculate(&self) -> bool {
        match *self {
            Some(r) => r.computable(),
            None => true,
        }
    }

    open spec fn calculated(&self) -> Self {
        match *self {
            Some(r) => Some(r.finalized()),
            None => None,
        }
    }

    fn calculate_level_percent(&mut self) {
        if let Some(reading) = self {
            reading.finalize();
        }
    }
}

/// A fuser unit reading: current level, maximum level and the derived percentage.
#[derive(Clone, Copy, Debug, PartialEq, Eq, Structural)]
pub struct Fuser {
    pub level: i64,
    pub max_level: i64,
    pub level_percent: Option<i64>,
}

impl Fuser {
    pub fn new(level: i64, max_level: i64, level_percent: Option<i64>) -> (r: Self)
        ensures
            r.level == level,
            r.max_level == max_level,
            r.level_percent == level_percent,
    {
        Fuser { level, max_level, level_percent }
    }

    /// The percentage can be derived without overflow, or is already known.
    pub open spec fn computable(self) -> bool {
        self.level_percent is None && self.max_level > 0 ==> level_in_range(self.level)
    }

    /// The reading after the level calculator: a percentage already present
    /// is kept, a missing one is derived from the two levels.
    pub open spec fn finalized(self) -> Self {
        match self.level_percent {
            Some(_) => self,
            None => Fuser { level_percent: percent_spec(self.level, self.max_level), ..self },
        }
    }

    fn finalize(&mut self)
        requires
            old(self).computable(),
        ensures
            *final(self) == old(self).finalized(),
    {
        if self.level_percent.is_none() {
            self.level_percent = calculate(self.level, self.max_level);
        }
    }
}

impl CalculateLevel for Option<Fuser> {
    open spec fn can_calculate(&self) -> bool {
        match *self {
            Some(r) => r.computable(),
            None => true,
        }
    }

    open spec fn calculated(&self) -> Self {
        match *self {
            Some(r) => Some(r.finalized()),
            None => None,
        }
    }

    fn calculate_level_percent(&mut self) {
        if let Some(reading) = self {
            reading.finalize();
        }
    }
}

/// A waste toner reservoir reading: current level, maximum level and the derived percentage.
#[derive(Clone, Copy, Debug, PartialEq, Eq, Structural)]
pub struct Reservoir {
    pub level: i64,
    pub max_level: i64,
    pub level_percent: Option<i64>,
}

impl Reservoir {
    pub fn new(level: i64, max_level: i64, level_percent: Option<i64>) -> (r: Self)
        ensures
            r.level == level,
            r.max_level == max_level,
            r.level_percent == level_percent,
    {
        Reservoir { level, max_level, level_percent }
    }

    /// The percentage can be derived without overflow, or is already known.
    pub open spec fn computable(self) -> bool {
        self.level_percent is None && self.max_level > 0 ==> level_in_range(self.level)
    }

    /// The reading after the level calculator: a percentage already present
    /// is kept, a missing one is derived from the two levels.
    pub open spec fn finalized(self) -> Self {
        match self.level_percent {
            Some(_) => self,
            None => Reservoir { level_percent: percent_spec(self.level, self.max_level), ..self },
        }
    }

    fn finalize(&mut self)
        requires
            old(self).computable(),
        ensures
            *final(self) == old(self).finalized(),
    {
        if self.level_percent.is_none() {
            self.level_percent = calculate(self.level, self.max_level);
        }
    }
}

impl CalculateLevel for Option<Reservoir> {
    open spec fn can_calculate(&self) -> bool {
        match *self {
            Some(r) => r.computable(),
            None => true,
        }
    }

    open spec fn calculated(&self) -> Self {
        match *self {
            Some(r) => Some(r.finalized()),
            None => None,
        }
    }

    fn calculate_level_percent(&mut self) {
        if let Some(reading) = self {
            reading.finalize();
        }
    }
}


/// The four toner cartridges of a device; a missing one is `None`.
#[derive(Clone, Copy, Debug, PartialEq, Eq, Structural)]
pub struct Toners {
    pub black_toner: Option<Toner>,
    pub cyan_toner: Option<Toner>,
    pub magenta_toner: Option<Toner>,
    pub yellow_toner: Option<Toner>,
}

impl Default for Toners {
    fn default() -> (r: Self)
        ensures
            r == (Toners { black_toner: None, cyan_toner: None, magenta_toner: None, yellow_toner: None }),
    {
        Toners { black_toner: None, cyan_toner: None, magenta_toner: None, yellow_toner: None }
    }
}

impl Toners {
    pub open spec fn can_calculate(self) -> bool {
        &&& self.black_toner.can_calculate()
        &&& self.cyan_toner.can_calculate()
        &&& self.magenta_toner.can_calculate()
        &&& self.yellow_toner.can_calculate()
    }

    pub open spec fn calculated(self) -> Self {
        Toners {
            black_toner: self.black_toner.calculated(),
            cyan_toner: self.cyan_toner.calculated(),
            magenta_toner: self.magenta_toner.calculated(),
            yellow_toner: self.yellow_toner.calculated(),
        }
    }
}

/// The four drum units of a device; a missing one is `None`.
#[derive(Clone, Copy, Debug, PartialEq, Eq, Structural)]
pub struct Drums {
    pub black_drum: Option<Drum>,
    pub cyan_drum: Option<Drum>,
    pub magenta_drum: Option<Drum>,
    pub yellow_drum: Option<Drum>,
}

impl Default for Drums {
    fn default() -> (r: Self)
        ensures
            r == (Drums { black_drum: None, cyan_drum: None, magenta_drum: None, yellow_drum: None }),
    {
        Drums { black_drum: None, cyan_drum: None, magenta_drum: None, yellow_drum: None }
    }
}

impl Drums {
    pub open spec fn can_calculate(self) -> bool {
        &&& self.black_drum.can_calculate()
        &&& self.cyan_drum.can_calculate()
        &&& self.magenta_drum.can_calculate()
        &&& self.yellow_drum.can_calculate()
    }

    pub open spec fn calculated(self) -> Self {
        Drums {
            black_drum: self.black_drum.calculated(),
            cyan_drum: self.cyan_drum.calculated(),
            magenta_drum: self.magenta_drum.calculated(),
            yellow_drum: self.yellow_drum.calculated(),
        }
    }
}

/// Cumulative page counters reported by some devices.
#[derive(Clone, Copy, Debug, PartialEq, Eq, Structural)]
pub struct Metrics {
    pub total_impressions: Option<i64>,
    pub mono_impressions: Option<i64>,
    pub color_impressions: Option<i64>,
}

/// The colors of toner cartridges and drum units.
#[derive(Clone, Copy, Debug, PartialEq, Eq, Structural)]
pub enum TonerColor {
    Black,
    Cyan,
    Magenta,
    Yellow,
}

impl TonerColor {
    pub open spec fn key_spec(self) -> Seq<char> {
        match self {
            TonerColor::Black => "black"@,
            TonerColor::Cyan => "cyan"@,
            TonerColor::Magenta => "magenta"@,
            TonerColor::Yellow => "yellow"@,
        }
    }

    /// The display name of the color.
    pub fn name(&self) -> (r: &'static str)
        ensures
            r@ == match self {
                TonerColor::Black => "Black"@,
                TonerColor::Cyan => "Cyan"@,
                TonerColor::Magenta => "Magenta"@,
                TonerColor::Yellow => "Yellow"@,
            },
    {
        match self {
            TonerColor::Black => "Black",
            TonerColor::Cyan => "Cyan",
            TonerColor::Magenta => "Magenta",
            TonerColor::Yellow => "Yellow",
        }
    }

    /// The key under which a mapping document lists this color.
    pub fn key(&self) -> (r: &'static str)
        ensures
            r@ == self.key_spec(),
    {
        match self {
            TonerColor::Black => "black",
            TonerColor::Cyan => "cyan",
            TonerColor::Magenta => "magenta",
            TonerColor::Yellow => "yellow",
        }
    }
}

/// The groups of values a mapping document can locate.
#[derive(Clone, Copy, Debug, PartialEq, Eq, Structural)]
pub enum PrinterSupply {
    Toner,
    Drum,
    Fuser,
    Reservoir,
    Info,
    Metrics,
}

impl PrinterSupply {
    pub open spec fn key_spec(self) -> Seq<char> {
        match self {
            PrinterSupply::Toner => "toner"@,
            PrinterSupply::Drum => "drum"@,
            PrinterSupply::Fuser => "fuser"@,
            PrinterSupply::Reservoir => "reservoir"@,
            PrinterSupply::Info => "info"@,
            PrinterSupply::Metrics => "metrics"@,
        }
    }

    /// The display name of the group.
    pub fn name(&self) -> (r: &'static str)
        ensures
            r@ == match self {
                PrinterSupply::Toner => "Toner"@,
                PrinterSupply::Drum => "Drum"@,
                PrinterSupply::Fuser => "Fuser"@,
                PrinterSupply::Reservoir => "Reservoir"@,
                PrinterSupply::Info => "Info"@,
                PrinterSupply::Metrics => "Metrics"@,
            },
    {
        match self {
            PrinterSupply::Toner => "Toner",
            PrinterSupply::Drum => "Drum",
            PrinterSupply::Fuser => "Fuser",
            PrinterSupply::Reservoir => "Reservoir",
            PrinterSupply::Info => "Info",
            PrinterSupply::Metrics => "Metrics",
        }
    }

    /// The key under which a mapping document lists this group.
    pub fn key(&self) -> (r: &'static str)
        ensures
            r@ == self.key_spec(),
    {
        match self {
            PrinterSupply::Toner => "toner",
            PrinterSupply::Drum => "drum",
            PrinterSupply::Fuser => "fuser",
            PrinterSupply::Reservoir => "reservoir",
            PrinterSupply::Info => "info",
            PrinterSupply::Metrics => "metrics",
        }
    }
}

} // verus!
