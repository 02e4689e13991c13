use vstd::prelude::*;

use crate::text::{lower_of, lowercase};

verus! {

/// One OID location of a mapping document: the supply group, the color
/// within it (absent for single-unit groups), the field and the OID text.
#[derive(Clone, Debug, PartialEq, Eq)]
pub struct MappingEntry {
    pub supply: String,
    pub color: Option<String>,
    pub key: String,
    pub oid: String,
}

/// A per-model table of value locations, read-only once loaded.
#[derive(Clone, Debug, PartialEq, Eq)]
pub struct MappingDocument {
    pub entries: Vec<MappingEntry>,
}

pub open spec fn entry_matches(
    e: MappingEntry,
    supply: Seq<char>,
    color: Option<Seq<char>>,
    key: Seq<char>,
) -> bool {
    &&& e.supply@ == supply
    &&& e.key@ == key
    &&& match (e.color, color) {
        (None, None) => true,
        (Some(c), Some(k)) => c@ == k,
        _ => false,
    }
}

/// The OID text of the first entry at the given location.
pub open spec fn lookup_spec(
    entries: Seq<MappingEntry>,
    supply: Seq<char>,
    color: Option<Seq<char>>,
    key: Seq<char>,
) -> Option<Seq<char>>
    decreases entries.len(),
{
    if entries.len() == 0 {
        None
    } else if entry_matches(entries[0], supply, color, key) {
        Some(entries[0].oid@)
    } else {
        lookup_spec(entries.drop_first(), supply, color, key)
    }
}

/// A file holds the mapping of a brand when its name is a non-empty stem
/// followed by `.json`, and the stem equals the brand once both are
/// lowercased.
pub open spec fn mapping_file_for(file_name: Seq<char>, brand: Seq<char>) -> bool {
    let n = file_name.len();
    &&& n > 5
    &&& file_name.subrange(n - 5, n as int) == ".json"@
    &&& lower_of(file_name.subrange(0, n - 5)) == lower_of(brand)
}

/// Whether the file `file_name` holds the mapping of `brand`.
pub fn is_mapping_file_for(file_name: &str, brand: &str) -> (r: bool)
    ensures
        r == mapping_file_for(file_name@, brand@),
{
    let n = file_name.unicode_len();
    if n <= 5 {
        return false;
    }
    let suffix = file_name.substring_char(n - 5, n);
    let json = String::from_str(".json");
    let suffix_s = String::from_str(suffix);
    proof {
        reveal_strlit(".json");
    }
    if !(suffix_s == json) {
        return false;
    }
    let stem = lowercase(file_name.substring_char(0, n - 5));
    let wanted = lowercase(brand);
    stem == wanted
}

impl MappingDocument {
    /// The OID text at a location, if the document has one.
    pub fn lookup(&self, supply: &str, color: Option<&str>, key: &str) -> (r: Option<String>)
        ensures
            r is Some <==> lookup_spec(
                self.entries@,
                supply@,
                match color {
                    Some(c) => Some(c@),
                    None => None,
                },
                key@,
            ) is Some,
            r is Some ==> r->Some_0@ == lookup_spec(
                self.entries@,
                supply@,
                match color {
                    Some(c) => Some(c@),
                    None => None,
                },
                key@,
            )->Some_0,
    {
        let ghost cv = match color {
            Some(c) => Some(c@),
            None => None::<Seq<char>>,
        };
        let supply_s = String::from_str(supply);
        let key_s = String::from_str(key);
        let color_s: Option<String> = match color {
            Some(c) => Some(String::from_str(c)),
            None => None,
        };
        let mut i: usize = 0;
        assert(self.entries@.skip(0) =~= self.entries@);
        while i < self.entries.len()
            invariant
                i <= self.entries@.len(),
                supply_s@ == supply@,
                key_s@ == key@,
                cv == match color {
                    Some(c) => Some(c@),
                    None => None::<Seq<char>>,
                },
                match color_s {
                    Some(c) => cv == Some(c@),
                    None => cv is None,
                },
                lookup_spec(self.entries@, supply@, cv, key@) == lookup_spec(
                    self.entries@.skip(i as int),
                    supply@,
                    cv,
                    key@,
                ),
            decreases self.entries@.len() - i,
        {
            let e = &self.entries[i];
            let color_ok = match &e.color {
                None => color_s.is_none(),
                Some(a) => match &color_s {
                    Some(b) => *a == *b,
                    None => false,
                },
            };
            assert(color_ok == match (e.color, cv) {
                (None, None) => true,
                (Some(c), Some(k)) => c@ == k,
                _ => false,
            });
            assert(self.entries@.skip(i as int).drop_first() =~= self.entries@.skip(i + 1));
            assert(self.entries@.skip(i as int)[0] == self.entries@[i as int]);
            if e.supply == supply_s && e.key == key_s && color_ok {
                assert(entry_matches(self.entries@[i as int], supply@, cv, key@));
                return Some(e.oid.clone());
            }
            i = i + 1;
        }
        assert(self.entries@.skip(i as int).len() == 0);
        None
    }
}

} // verus!
