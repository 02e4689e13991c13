use vstd::prelude::*;

use crate::brother::BrotherDriver;
use crate::error::{AppError, ErrorKind};
use crate::generic::GenericDriver;
use crate::text::{lower_of, seq_contains};

verus! {

/// The strategies that can poll a device.
#[derive(Clone, Copy, Debug, PartialEq, Eq, Structural)]
pub enum PrinterDriver {
    Brother(BrotherDriver),
    Generic(GenericDriver),
}

impl PrinterDriver {
    pub open spec fn compatible_spec(self, printer_name: Seq<char>) -> bool {
        match self {
            PrinterDriver::Brother(_) => seq_contains(lower_of(printer_name), "brother"@),
            PrinterDriver::Generic(_) => true,
        }
    }

    /// Whether this driver can poll a device of the given name.
    pub fn is_compatible(&self, printer_name: &str) -> (r: bool)
        ensures
            r == self.compatible_spec(printer_name@),
    {
        match self {
            PrinterDriver::Brother(d) => d.is_compatible(printer_name),
            PrinterDriver::Generic(d) => d.is_compatible(printer_name),
        }
    }
}

/// The first driver of `drivers` that is compatible with the name.
pub open spec fn first_compatible(drivers: Seq<PrinterDriver>, printer_name: Seq<char>) -> Option<
    PrinterDriver,
>
    decreases drivers.len(),
{
    if drivers.len() == 0 {
        None
    } else if drivers[0].compatible_spec(printer_name) {
        Some(drivers[0])
    } else {
        first_compatible(drivers.drop_first(), printer_name)
    }
}

/// The ordered list of drivers; the first compatible one is chosen, so
/// specific drivers stand before the catch-all.
pub struct DriverManager {
    drivers: Vec<PrinterDriver>,
}

impl View for DriverManager {
    type V = Seq<PrinterDriver>;

    closed spec fn view(&self) -> Seq<PrinterDriver> {
        self.drivers@
    }
}

impl DriverManager {
    /// The registry of every driver: the vendor driver, then the catch-all.
    pub fn new() -> (r: Self)
        ensures
            r@ == seq![
                PrinterDriver::Brother(BrotherDriver),
                PrinterDriver::Generic(GenericDriver),
            ],
    {
        let r = DriverManager {
            drivers: vec![PrinterDriver::Brother(BrotherDriver), PrinterDriver::Generic(GenericDriver)],
        };
        assert(r@ =~= seq![PrinterDriver::Brother(BrotherDriver), PrinterDriver::Generic(GenericDriver)]);
        r
    }

    /// The first registered driver compatible with the device name.
    pub fn get_driver(&self, printer_name: &str) -> (r: Option<PrinterDriver>)
        ensures
            r == first_compatible(self@, printer_name@),
    {
        let mut i: usize = 0;
        assert(self.drivers@.skip(0) =~= self.drivers@);
        while i < self.drivers.len()
            invariant
                i <= self.drivers@.len(),
                first_compatible(self@, printer_name@) == first_compatible(
                    self.drivers@.skip(i as int),
                    printer_name@,
                ),
            decreases self.drivers@.len() - i,
        {
            assert(self.drivers@.skip(i as int).drop_first() =~= self.drivers@.skip(i + 1));
            assert(self.drivers@.skip(i as int)[0] == self.drivers@[i as int]);
            let d = self.drivers[i];
            if d.is_compatible(printer_name) {
                return Some(d);
            }
            i = i + 1;
        }
        assert(self.drivers@.skip(i as int).len() == 0);
        None
    }

    /// The driver that polls the device, or an unsupported-device error
    /// carrying its name when none is compatible.
    pub fn select(&self, printer_name: &str) -> (r: Result<PrinterDriver, AppError>)
        ensures
            first_compatible(self@, printer_name@) matches Some(d) ==> r == Ok::<
                PrinterDriver,
                AppError,
            >(d),
            first_compatible(self@, printer_name@) is None ==> (r is Err && (r->Err_0.kind
                matches ErrorKind::UnsupportedPrinter(n) && n@ == printer_name@)),
    {
        match self.get_driver(printer_name) {
            Some(d) => Ok(d),
            None => Err(AppError::new(ErrorKind::UnsupportedPrinter(String::from_str(printer_name)))),
        }
    }
}

/// Selection follows registration order: a name that the vendor driver
/// accepts selects it although the catch-all accepts every name, and any
/// other name selects the catch-all.
pub proof fn lemma_specific_driver_first(printer_name: Seq<char>)
    ensures
        ({
            let drivers = seq![
                PrinterDriver::Brother(BrotherDriver),
                PrinterDriver::Generic(GenericDriver),
            ];
            &&& PrinterDriver::Generic(GenericDriver).compatible_spec(printer_name)
            &&& seq_contains(lower_of(printer_name), "brother"@) ==> first_compatible(
                drivers,
                printer_name,
            ) == Some(PrinterDriver::Brother(BrotherDriver))
            &&& !seq_contains(lower_of(printer_name), "brother"@) ==> first_compatible(
                drivers,
                printer_name,
            ) == Some(PrinterDriver::Generic(GenericDriver))
        }),
{
    let drivers = seq![PrinterDriver::Brother(BrotherDriver), PrinterDriver::Generic(GenericDriver)];
    reveal_with_fuel(first_compatible, 2);
    assert(drivers.drop_first() =~= seq![PrinterDriver::Generic(GenericDriver)]);
}

} // verus!
