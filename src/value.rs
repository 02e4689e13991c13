use vstd::prelude::*;

use crate::error::{AppError, ErrorKind};
use crate::oid::{oid_spec, parse_oid_to_vec};

verus! {

/// A scalar value as it arrives in a reply, with the wire kind it was
/// tagged with. Constructed and container kinds are `Other`.
#[derive(Clone, Debug, PartialEq, Eq)]
pub enum SnmpValue {
    Boolean(bool),
    Null,
    Integer(i64),
    OctetString(Vec<u8>),
    /// An object identifier in its canonical dotted form.
    ObjectIdentifier(String),
    IpAddress([u8; 4]),
    Counter32(u32),
    Unsigned32(u32),
    Timeticks(u32),
    Opaque(Vec<u8>),
    Counter64(u64),
    EndOfMibView,
    NoSuchObject,
    NoSuchInstance,
    Other,
}

/// What `String::from_utf8_lossy` makes of a byte sequence.
pub uninterp spec fn utf8_lossy(b: Seq<u8>) -> Seq<char>;

/// Relies on `String::from_utf8_lossy`: the text of the bytes, with each
/// invalid sequence replaced; the result depends on the bytes alone.
#[verifier::external_body]
fn text_from_bytes(b: &Vec<u8>) -> (r: String)
    ensures
        r@ == utf8_lossy(b@),
{
    String::from_utf8_lossy(b).into_owned()
}

pub open spec fn is_ascii_digit(b: u8) -> bool {
    48 <= b <= 57
}

/// The number that a sequence of ASCII decimal digits denotes.
pub open spec fn ascii_digits_value(s: Seq<u8>) -> int
    decreases s.len(),
{
    if s.len() == 0 {
        0
    } else {
        ascii_digits_value(s.drop_last()) * 10 + (s.last() - 48)
    }
}

pub open spec fn all_ascii_digits(s: Seq<u8>) -> bool {
    forall|i: int| 0 <= i < s.len() ==> is_ascii_digit(#[trigger] s[i])
}

/// The bytes read as a signed 64-bit decimal: an optional sign, then one or
/// more digits, with a value in range.
pub open spec fn decimal_i64(b: Seq<u8>) -> Option<i64> {
    let neg = b.len() > 0 && b[0] == 45;
    let d = if b.len() > 0 && (b[0] == 45 || b[0] == 43) {
        b.drop_first()
    } else {
        b
    };
    let v = if neg {
        -ascii_digits_value(d)
    } else {
        ascii_digits_value(d)
    };
    if d.len() > 0 && all_ascii_digits(d) && i64::MIN <= v <= i64::MAX {
        Some(v as i64)
    } else {
        None
    }
}

/// Reads the digits of `b` from `start` on; `None` when one is not a digit
/// or the value exceeds `u64::MAX`.
fn ascii_digits_u64(b: &Vec<u8>, start: usize) -> (r: Option<u64>)
    requires
        start <= b@.len(),
    ensures
        ({
            let d = b@.subrange(start as int, b@.len() as int);
            match r {
                Some(v) => all_ascii_digits(d) && v == ascii_digits_value(d),
                None => !all_ascii_digits(d) || ascii_digits_value(d) > u64::MAX,
            }
        }),
{
    let ghost d = b@.subrange(start as int, b@.len() as int);
    let mut i: usize = start;
    let mut value: u64 = 0;
    let mut overflow = false;
    while i < b.len()
        invariant
            start <= i <= b@.len(),
            d == b@.subrange(start as int, b@.len() as int),
            all_ascii_digits(d.take(i - start)),
            ascii_digits_value(d.take(i - start)) >= 0,
            !overflow ==> value == ascii_digits_value(d.take(i - start)),
            overflow ==> ascii_digits_value(d.take(i - start)) > u64::MAX,
        decreases b@.len() - i,
    {
        let c = b[i];
        let k: usize = i - start;
        if !(48 <= c && c <= 57) {
            assert(!is_ascii_digit(d[k as int]));
            return None;
        }
        let ghost prev = ascii_digits_value(d.take(k as int));
        assert(d.take(k + 1).drop_last() =~= d.take(k as int));
        assert(all_ascii_digits(d.take(k + 1))) by {
            assert forall|j: int| 0 <= j < k + 1 implies is_ascii_digit(
                #[trigger] d.take(k + 1)[j],
            ) by {
                if j < k {
                    assert(d.take(k + 1)[j] == d.take(k as int)[j]);
                }
            }
        }
        let digit: u64 = (c - 48) as u64;
        if !overflow {
            if value <= (u64::MAX - digit) / 10 {
                value = value * 10 + digit;
            } else {
                overflow = true;
            }
        }
        assert(prev * 10 >= prev) by (nonlinear_arith)
            requires
                prev >= 0,
        ;
        i = i + 1;
    }
    assert(d.take(d.len() as int) =~= d);
    if overflow {
        None
    } else {
        Some(value)
    }
}

/// Parses bytes as a signed decimal integer.
pub fn parse_decimal_i64(b: &Vec<u8>) -> (r: Option<i64>)
    ensures
        r == decimal_i64(b@),
{
    let neg = b.len() > 0 && b[0] == 45;
    let start: usize = if b.len() > 0 && (b[0] == 45 || b[0] == 43) {
        1
    } else {
        0
    };
    if start == b.len() {
        return None;
    }
    assert(b@.subrange(start as int, b@.len() as int) =~= (if b@.len() > 0 && (b@[0] == 45
        || b@[0] == 43) {
        b@.drop_first()
    } else {
        b@
    }));
    match ascii_digits_u64(b, start) {
        Some(m) => {
            if neg {
                if m <= 9223372036854775808 {
                    if m == 9223372036854775808 {
                        Some(i64::MIN)
                    } else {
                        Some(-(m as i64))
                    }
                } else {
                    None
                }
            } else if m <= 9223372036854775807 {
                Some(m as i64)
            } else {
                None
            }
        },
        None => None,
    }
}

/// The integer a value stands for in a numeric context: any integer-like
/// wire kind, or an octet string that reads as a decimal number.
pub open spec fn integer_of(v: SnmpValue) -> Option<i64> {
    match v {
        SnmpValue::Integer(i) => Some(i),
        SnmpValue::Counter32(u) => Some(u as i64),
        SnmpValue::Unsigned32(u) => Some(u as i64),
        SnmpValue::Timeticks(u) => Some(u as i64),
        SnmpValue::Counter64(u) => if u <= i64::MAX {
            Some(u as i64)
        } else {
            None
        },
        SnmpValue::OctetString(b) => decimal_i64(b@),
        _ => None,
    }
}

/// The name of the wire kind of a value.
pub open spec fn kind_name_spec(v: SnmpValue) -> Seq<char> {
    match v {
            SnmpValue::Boolean(_) => "Boolean"@,
            SnmpValue::Null => "Null"@,
            SnmpValue::Integer(_) => "Integer"@,
            SnmpValue::OctetString(_) => "OctetString"@,
            SnmpValue::ObjectIdentifier(_) => "ObjectIdentifier"@,
            SnmpValue::IpAddress(_) => "IpAddress"@,
            SnmpValue::Counter32(_) => "Counter32"@,
            SnmpValue::Unsigned32(_) => "Unsigned32"@,
            SnmpValue::Timeticks(_) => "Timeticks"@,
            SnmpValue::Opaque(_) => "Opaque"@,
            SnmpValue::Counter64(_) => "Counter64"@,
            SnmpValue::EndOfMibView => "EndOfMibView"@,
            SnmpValue::NoSuchObject => "NoSuchObject"@,
            SnmpValue::NoSuchInstance => "NoSuchInstance"@,
            SnmpValue::Other => "a constructed value"@,
        }
}

/// The message of a type mismatch: the expected and the received kind.
pub open spec fn mismatch_text(expected: Seq<char>, v: SnmpValue) -> Seq<char> {
    "Expected "@ + expected + ", but received "@ + kind_name_spec(v)
}

/// `r` is the type mismatch of `v` against the `expected` kind.
pub open spec fn is_mismatch_of(r: Result<impl Sized, AppError>, expected: Seq<char>, v: SnmpValue) -> bool {
    r is Err && (r->Err_0.kind matches ErrorKind::TypeMismatch(m) && m@ == mismatch_text(expected, v))
}

impl SnmpValue {
    /// The name of the wire kind of this value.
    pub fn kind_name(&self) -> (r: &'static str)
        ensures
            r@ == kind_name_spec(*self),
    {
        match self {
            SnmpValue::Boolean(_) => "Boolean",
            SnmpValue::Null => "Null",
            SnmpValue::Integer(_) => "Integer",
            SnmpValue::OctetString(_) => "OctetString",
            SnmpValue::ObjectIdentifier(_) => "ObjectIdentifier",
            SnmpValue::IpAddress(_) => "IpAddress",
            SnmpValue::Counter32(_) => "Counter32",
            SnmpValue::Unsigned32(_) => "Unsigned32",
            SnmpValue::Timeticks(_) => "Timeticks",
            SnmpValue::Opaque(_) => "Opaque",
            SnmpValue::Counter64(_) => "Counter64",
            SnmpValue::EndOfMibView => "EndOfMibView",
            SnmpValue::NoSuchObject => "NoSuchObject",
            SnmpValue::NoSuchInstance => "NoSuchInstance",
            SnmpValue::Other => "a constructed value",
        }
    }
}

/// A type-mismatch error naming the expected and the received wire kind.
fn mismatch(expected: &str, value: &SnmpValue) -> (e: AppError)
    ensures
        e.kind matches ErrorKind::TypeMismatch(m) && m@ == mismatch_text(expected@, *value),
{
    proof {
        reveal_strlit("Expected ");
        reveal_strlit(", but received ");
    }
    let text = String::from_str("Expected ").concat(expected).concat(", but received ").concat(
        value.kind_name(),
    );
    AppError::new(ErrorKind::TypeMismatch(text))
}

/// Conversion of a wire value into a Rust value of the implementing type.
pub trait FromSnmpValue: Sized {
    /// The conversion of `value` into `r` is the one this type documents.
    spec fn decodes(value: SnmpValue, r: Result<Self, AppError>) -> bool;

    fn from_snmp_value(value: &SnmpValue) -> (r: Result<Self, AppError>)
        ensures
            Self::decodes(*value, r),
    ;
}

impl FromSnmpValue for i64 {
    /// Integer-like kinds convert; an octet string converts when it reads
    /// as a decimal number; anything else is a type mismatch that names the
    /// received kind.
    open spec fn decodes(value: SnmpValue, r: Result<i64, AppError>) -> bool {
        match integer_of(value) {
            Some(i) => r == Ok::<i64, AppError>(i),
            None => is_mismatch_of(r, "Integer"@, value),
        }
    }

    fn from_snmp_value(value: &SnmpValue) -> (r: Result<i64, AppError>) {
        match value {
            SnmpValue::Integer(i) => Ok(*i),
            SnmpValue::Counter32(u) => Ok(*u as i64),
            SnmpValue::Unsigned32(u) => Ok(*u as i64),
            SnmpValue::Timeticks(u) => Ok(*u as i64),
            SnmpValue::Counter64(u) => {
                if *u <= 9223372036854775807 {
                    Ok(*u as i64)
                } else {
                    Err(mismatch("Integer", value))
                }
            },
            SnmpValue::OctetString(b) => match parse_decimal_i64(b) {
                Some(i) => Ok(i),
                None => Err(mismatch("Integer", value)),
            },
            _ => Err(mismatch("Integer", value)),
        }
    }
}

impl FromSnmpValue for String {
    /// An octet string converts to its text, invalid UTF-8 replaced.
    open spec fn decodes(value: SnmpValue, r: Result<String, AppError>) -> bool {
        match value {
            SnmpValue::OctetString(b) => r is Ok && r->Ok_0@ == utf8_lossy(b@),
            _ => is_mismatch_of(r, "OctetString"@, value),
        }
    }

    fn from_snmp_value(value: &SnmpValue) -> (r: Result<String, AppError>) {
        match value {
            SnmpValue::OctetString(b) => Ok(text_from_bytes(b)),
            _ => Err(mismatch("OctetString", value)),
        }
    }
}

impl FromSnmpValue for Vec<u8> {
    /// An octet string converts to its bytes.
    open spec fn decodes(value: SnmpValue, r: Result<Vec<u8>, AppError>) -> bool {
        match value {
            SnmpValue::OctetString(b) => r is Ok && r->Ok_0@ == b@,
            _ => is_mismatch_of(r, "OctetString"@, value),
        }
    }

    fn from_snmp_value(value: &SnmpValue) -> (r: Result<Vec<u8>, AppError>) {
        match value {
            SnmpValue::OctetString(b) => Ok(b.clone()),
            _ => Err(mismatch("OctetString", value)),
        }
    }
}

impl FromSnmpValue for Vec<u64> {
    /// An object identifier converts to the numbers of its dotted form.
    open spec fn decodes(value: SnmpValue, r: Result<Vec<u64>, AppError>) -> bool {
        match value {
            SnmpValue::ObjectIdentifier(s) => match oid_spec(s@) {
                Some(arcs) => r is Ok && r->Ok_0@ == arcs,
                None => r is Err && r->Err_0.kind is Parse,
            },
            _ => is_mismatch_of(r, "ObjectIdentifier"@, value),
        }
    }

    fn from_snmp_value(value: &SnmpValue) -> (r: Result<Vec<u64>, AppError>) {
        match value {
            SnmpValue::ObjectIdentifier(s) => match parse_oid_to_vec(s.as_str()) {
                Ok(arcs) => Ok(arcs),
                Err(_) => Err(
                    AppError::new(ErrorKind::Parse(String::from_str("ObjectIdentifier segment is not a number"))),
                ),
            },
            _ => Err(mismatch("ObjectIdentifier", value)),
        }
    }
}

impl FromSnmpValue for u32 {
    /// `Unsigned32`, `Counter32` and `Timeticks` convert.
    open spec fn decodes(value: SnmpValue, r: Result<u32, AppError>) -> bool {
        match value {
            SnmpValue::Unsigned32(u) => r == Ok::<u32, AppError>(u),
            SnmpValue::Counter32(u) => r == Ok::<u32, AppError>(u),
            SnmpValue::Timeticks(u) => r == Ok::<u32, AppError>(u),
            _ => is_mismatch_of(r, "Unsigned32, Counter32, or Timeticks"@, value),
        }
    }

    fn from_snmp_value(value: &SnmpValue) -> (r: Result<u32, AppError>) {
        match value {
            SnmpValue::Unsigned32(u) => Ok(*u),
            SnmpValue::Counter32(u) => Ok(*u),
            SnmpValue::Timeticks(u) => Ok(*u),
            _ => Err(
                mismatch("Unsigned32, Counter32, or Timeticks", value),
            ),
        }
    }
}

impl FromSnmpValue for u64 {
    /// `Counter64` converts.
    open spec fn decodes(value: SnmpValue, r: Result<u64, AppError>) -> bool {
        match value {
            SnmpValue::Counter64(u) => r == Ok::<u64, AppError>(u),
            _ => is_mismatch_of(r, "Counter64"@, value),
        }
    }

    fn from_snmp_value(value: &SnmpValue) -> (r: Result<u64, AppError>) {
        match value {
            SnmpValue::Counter64(u) => Ok(*u),
            _ => Err(mismatch("Counter64", value)),
        }
    }
}

impl FromSnmpValue for bool {
    /// `Boolean` converts.
    open spec fn decodes(value: SnmpValue, r: Result<bool, AppError>) -> bool {
        match value {
            SnmpValue::Boolean(v) => r == Ok::<bool, AppError>(v),
            _ => is_mismatch_of(r, "Boolean"@, value),
        }
    }

    fn from_snmp_value(value: &SnmpValue) -> (r: Result<bool, AppError>) {
        match value {
            SnmpValue::Boolean(v) => Ok(*v),
            _ => Err(mismatch("Boolean", value)),
        }
    }
}

} // verus!
