use vstd::prelude::*;

verus! {

/// Network and protocol settings saved for one printer under an alias.
#[derive(Clone, Debug, PartialEq, Eq)]
pub struct PrinterConfig {
    pub alias: String,
    pub host: String,
    pub port: Option<u16>,
    pub snmp_version: Option<String>,
    pub community: Option<String>,
    pub security_level: Option<String>,
    pub context_name: Option<String>,
    pub username: Option<String>,
    pub auth_password: Option<String>,
    pub privacy_password: Option<String>,
    pub auth_protocol: Option<String>,
    pub privacy_protocol: Option<String>,
    pub extra_supplies: Option<bool>,
    pub metrics: Option<bool>,
    pub timeout: Option<u64>,
    pub retries: Option<u8>,
}

/// The saved printers.
#[derive(Clone, Debug, PartialEq, Eq)]
pub struct Config {
    pub printers: Vec<PrinterConfig>,
}

impl Default for Config {
    fn default() -> (r: Self)
        ensures
            r.printers@.len() == 0,
    {
        Config { printers: Vec::new() }
    }
}

/// The index of the first printer saved under `target`, if any.
pub open spec fn alias_index(printers: Seq<PrinterConfig>, target: Seq<char>) -> Option<int>
    decreases printers.len(),
{
    if printers.len() == 0 {
        None
    } else if printers.last().alias@ == target && alias_index(printers.drop_last(), target) is None {
        Some(printers.len() - 1)
    } else {
        alias_index(printers.drop_last(), target)
    }
}

proof fn lemma_alias_index(printers: Seq<PrinterConfig>, target: Seq<char>, i: int)
    requires
        0 <= i <= printers.len(),
    ensures
        alias_index(printers.take(i), target) is None <==> forall|k: int|
            0 <= k < i ==> (#[trigger] printers[k]).alias@ != target,
        alias_index(printers.take(i), target) matches Some(k) ==> 0 <= k < i && printers[k].alias@
            == target && alias_index(printers, target) == Some(k),
    decreases i,
{
    if i > 0 {
        assert(printers.take(i).drop_last() =~= printers.take(i - 1));
        lemma_alias_index(printers, target, i - 1);
    }
    if i == printers.len() {
        assert(printers.take(i) =~= printers);
    } else {
        lemma_alias_index_extends(printers, target, i);
    }
}

proof fn lemma_alias_index_extends(printers: Seq<PrinterConfig>, target: Seq<char>, i: int)
    requires
        0 <= i < printers.len(),
    ensures
        alias_index(printers.take(i), target) is Some ==> alias_index(printers, target)
            == alias_index(printers.take(i), target),
    decreases printers.len() - i,
{
    if alias_index(printers.take(i), target) is Some {
        if i + 1 < printers.len() {
            lemma_alias_index_extends(printers, target, i + 1);
        }
        assert(printers.take(i + 1).drop_last() =~= printers.take(i));
        if i + 1 == printers.len() {
            assert(printers.take(i + 1) =~= printers);
        }
    }
}

impl Config {
    /// The first printer saved under the alias `target`.
    pub fn find_by_alias(&self, target: &str) -> (r: Option<&PrinterConfig>)
        ensures
            r is None <==> alias_index(self.printers@, target@) is None,
            r matches Some(p) ==> *p == self.printers@[alias_index(self.printers@, target@)->Some_0],
    {
        let t = String::from_str(target);
        let mut i: usize = 0;
        while i < self.printers.len()
            invariant
                i <= self.printers@.len(),
                t@ == target@,
                forall|k: int| 0 <= k < i ==> (#[trigger] self.printers@[k]).alias@ != target@,
            decreases self.printers@.len() - i,
        {
            if self.printers[i].alias == t {
                proof {
                    lemma_alias_index(self.printers@, target@, i as int);
                    lemma_alias_index(self.printers@, target@, i + 1);
                    assert(self.printers@.take(i + 1).drop_last() =~= self.printers@.take(i as int));
                }
                return Some(&self.printers[i]);
            }
            i = i + 1;
        }
        proof {
            lemma_alias_index(self.printers@, target@, self.printers@.len() as int);
            assert(self.printers@.take(self.printers@.len() as int) =~= self.printers@);
        }
        None
    }
}

} // verus!
