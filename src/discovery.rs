use vstd::prelude::*;

use crate::error::{AppError, ErrorKind};

verus! {

/// Seconds to wait for the reply to the discovery probe.
pub const DISCOVERY_TIMEOUT_SECS: u64 = 5;

/// The discovery request: a version-3 get request with an empty engine
/// identifier, empty user and no variable bindings, flagged reportable.
pub open spec fn probe_spec() -> Seq<u8> {
    seq![
        0x30, 0x3a, 0x02, 0x01, 0x03, 0x30, 0x0f, 0x02, 0x02, 0x4a, 0x69, 0x02, 0x03, 0x00, 0xff,
        0xe3, 0x04, 0x01, 0x04, 0x02, 0x01, 0x03, 0x04, 0x10, 0x30, 0x0e, 0x04, 0x00, 0x02, 0x01,
        0x00, 0x02, 0x01, 0x00, 0x04, 0x00, 0x04, 0x00, 0x04, 0x00, 0x30, 0x12, 0x04, 0x00, 0x04,
        0x00, 0xa0, 0x0c, 0x02, 0x02, 0x37, 0xf0, 0x02, 0x01, 0x00, 0x02, 0x01, 0x00, 0x30, 0x00,
    ]
}

/// The bytes of the discovery request.
pub fn discovery_probe() -> (r: Vec<u8>)
    ensures
        r@ == probe_spec(),
{
    let r: Vec<u8> = vec![
        0x30, 0x3a, 0x02, 0x01, 0x03, 0x30, 0x0f, 0x02, 0x02, 0x4a, 0x69, 0x02, 0x03, 0x00, 0xff,
        0xe3, 0x04, 0x01, 0x04, 0x02, 0x01, 0x03, 0x04, 0x10, 0x30, 0x0e, 0x04, 0x00, 0x02, 0x01,
        0x00, 0x02, 0x01, 0x00, 0x04, 0x00, 0x04, 0x00, 0x04, 0x00, 0x30, 0x12, 0x04, 0x00, 0x04,
        0x00, 0xa0, 0x0c, 0x02, 0x02, 0x37, 0xf0, 0x02, 0x01, 0x00, 0x02, 0x01, 0x00, 0x30, 0x00,
    ];
    assert(r@ =~= probe_spec());
    r
}

/// The identifier read at `i`: a sequence tag, its length byte, then an
/// octet-string tag and a length `n`, followed by `n` bytes. It counts only
/// when `n` exceeds 4 and its first byte has the high bit set, the mark of
/// an administratively assigned identifier.
pub open spec fn engine_id_at(b: Seq<u8>, i: int) -> Option<Seq<u8>> {
    if 0 <= i && i + 4 <= b.len() && b[i] == 0x30 && b[i + 2] == 0x04 {
        let n = b[i + 3] as int;
        if n > 4 && i + 4 + n <= b.len() && b[i + 4] >= 0x80 {
            Some(b.subrange(i + 4, i + 4 + n))
        } else {
            None
        }
    } else {
        None
    }
}

/// The first identifier found scanning from `i` on.
pub open spec fn scan_engine_id(b: Seq<u8>, i: int) -> Option<Seq<u8>>
    decreases b.len() - i,
{
    if i < 0 || i >= b.len() {
        None
    } else {
        match engine_id_at(b, i) {
            Some(id) => Some(id),
            None => scan_engine_id(b, i + 1),
        }
    }
}

fn copy_range(b: &[u8], start: usize, end: usize) -> (r: Vec<u8>)
    requires
        start <= end <= b@.len(),
    ensures
        r@ == b@.subrange(start as int, end as int),
{
    let mut r: Vec<u8> = Vec::new();
    let mut i: usize = start;
    while i < end
        invariant
            start <= i <= end <= b@.len(),
            r@ == b@.subrange(start as int, i as int),
        decreases end - i,
    {
        r.push(b[i]);
        i = i + 1;
        assert(r@ =~= b@.subrange(start as int, i as int));
    }
    r
}

/// Scans the reply to the discovery probe for the authoritative engine
/// identifier; `EngineDiscovery` when none is found.
pub fn find_engine_id(reply: &[u8]) -> (r: Result<Vec<u8>, AppError>)
    ensures
        r is Ok <==> scan_engine_id(reply@, 0) is Some,
        r is Ok ==> r->Ok_0@ == scan_engine_id(reply@, 0)->Some_0,
        r is Err ==> r->Err_0.kind == ErrorKind::EngineDiscovery,
{
    let n = reply.len();
    let mut i: usize = 0;
    while i < n
        invariant
            n == reply@.len(),
            i <= n,
            scan_engine_id(reply@, 0) == scan_engine_id(reply@, i as int),
        decreases n - i,
    {
        if n - i >= 4 && reply[i] == 0x30 && reply[i + 2] == 0x04 {
            let len = reply[i + 3] as usize;
            if len > 4 && n - (i + 4) >= len && reply[i + 4] >= 0x80 {
                return Ok(copy_range(reply, i + 4, i + 4 + len));
            }
        }
        i = i + 1;
    }
    Err(AppError::new(ErrorKind::EngineDiscovery))
}

} // verus!
