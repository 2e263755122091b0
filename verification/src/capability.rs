//! Read-only model of a source's advertised power options.

use vstd::prelude::*;

verus! {

/// A fixed-voltage supply option advertised by a source.
#[derive(Clone, Copy, PartialEq, Eq, Structural, Debug)]
pub struct FixedSupply {
    /// The supply's fixed potential, in integer voltage units.
    pub voltage: u32,
    /// The largest current the supply can deliver, in integer current units.
    pub max_current: u32,
}

/// A battery supply option; informational to this core.
#[derive(Clone, Copy, PartialEq, Eq, Structural, Debug)]
pub struct Battery {
    pub min_voltage: u32,
    pub max_voltage: u32,
    pub max_power: u32,
}

/// A variable (non-fixed) supply option; informational to this core.
#[derive(Clone, Copy, PartialEq, Eq, Structural, Debug)]
pub struct VariableSupply {
    pub min_voltage: u32,
    pub max_voltage: u32,
    pub max_current: u32,
}

/// One power data object of a source-capabilities announcement. The variant
/// set is closed: the protocol fixes it, and only fixed supplies are
/// meaningful to the selection policy.
#[derive(Clone, Copy, PartialEq, Eq, Structural, Debug)]
pub enum PowerDataObject {
    FixedSupply(FixedSupply),
    Battery(Battery),
    VariableSupply(VariableSupply),
    /// An option this core does not interpret.
    Unknown,
}

/// An immutable snapshot of one source-capabilities announcement: an ordered
/// sequence of power data objects. An entry's position is its index, the
/// identifier the source uses to recognize which option was requested; a new
/// announcement fully replaces the previous one.
#[derive(Debug)]
pub struct CapabilitySet {
    pdos: Vec<PowerDataObject>,
}

impl View for CapabilitySet {
    type V = Seq<PowerDataObject>;

    closed spec fn view(&self) -> Seq<PowerDataObject> {
        self.pdos@
    }
}

/// Whether the announcement `s` holds at least one fixed-supply entry.
pub open spec fn has_fixed_supply(s: Seq<PowerDataObject>) -> bool {
    exists|i: int| 0 <= i < s.len() && s[i] is FixedSupply
}

/// The fixed-supply entries of `s`, each paired with its position in `s`.
pub open spec fn fixed_supplies_of(s: Seq<PowerDataObject>) -> Seq<(usize, FixedSupply)>
    decreases s.len(),
{
    if s.len() == 0 {
        Seq::empty()
    } else {
        let prefix = fixed_supplies_of(s.drop_last());
        match s.last() {
            PowerDataObject::FixedSupply(f) => prefix.push(((s.len() - 1) as usize, f)),
            _ => prefix,
        }
    }
}

impl CapabilitySet {
    /// Wraps one announcement's power data objects, in announcement order.
    pub fn new(pdos: Vec<PowerDataObject>) -> (s: Self)
        ensures
            s@ == pdos@,
    {
        CapabilitySet { pdos }
    }

    /// The number of advertised options.
    pub fn len(&self) -> (n: usize)
        ensures
            n == self@.len(),
    {
        self.pdos.len()
    }

    /// The option at position `i` of the announcement.
    pub fn get(&self, i: usize) -> (p: PowerDataObject)
        requires
            i < self@.len(),
        ensures
            p == self@[i as int],
    {
        self.pdos[i]
    }

    /// Projects the announcement onto its fixed-supply entries, each paired
    /// with its original index. Non-fixed entries are silently skipped: that
    /// is the deliberate filtering policy, not an error.
    pub fn fixed_supplies(&self) -> (r: Vec<(usize, FixedSupply)>)
        ensures
            r@ == fixed_supplies_of(self@),
    {
        let n: usize = self.pdos.len();
        let mut r: Vec<(usize, FixedSupply)> = Vec::new();
        let mut k: usize = 0;
        while k < n
            invariant
                n == self@.len(),
                k <= n,
                r@ == fixed_supplies_of(self@.take(k as int)),
            decreases n - k,
        {
            proof {
                let t = self@.take(k as int + 1);
                assert(t.drop_last() =~= self@.take(k as int));
                assert(t.last() == self@[k as int]);
            }
            match self.pdos[k] {
                PowerDataObject::FixedSupply(f) => {
                    r.push((k, f));
                }
                _ => {}
            }
            k = k + 1;
        }
        proof {
            assert(self@.take(n as int) =~= self@);
        }
        r
    }
}

/// Every projected pair carries the entry itself and its position in the
/// original announcement, not its position among the fixed entries alone.
pub proof fn lemma_fixed_supplies_of_sound(s: Seq<PowerDataObject>, k: int)
    requires
        s.len() <= usize::MAX,
        0 <= k < fixed_supplies_of(s).len(),
    ensures
        fixed_supplies_of(s)[k].0 < s.len(),
        s[fixed_supplies_of(s)[k].0 as int] == PowerDataObject::FixedSupply(
            fixed_supplies_of(s)[k].1,
        ),
    decreases s.len(),
{
    if s.len() > 0 {
        let prefix = fixed_supplies_of(s.drop_last());
        if k < prefix.len() {
            lemma_fixed_supplies_of_sound(s.drop_last(), k);
            assert(fixed_supplies_of(s)[k] == prefix[k]);
            assert(s.drop_last()[prefix[k].0 as int] == s[prefix[k].0 as int]);
        }
    }
}

/// The projection is empty exactly when the announcement has no fixed-supply
/// entry: a battery- or variable-only set offers no selectable candidate.
pub proof fn lemma_no_fixed_supply_no_candidate(s: Seq<PowerDataObject>)
    ensures
        fixed_supplies_of(s).len() == 0 <==> !has_fixed_supply(s),
    decreases s.len(),
{
    if s.len() == 0 {
        assert(!has_fixed_supply(s));
    } else {
        lemma_no_fixed_supply_no_candidate(s.drop_last());
        if s.last() is FixedSupply {
            assert(s[s.len() - 1] is FixedSupply);
        } else {
            if has_fixed_supply(s) {
                let i = choose|i: int| 0 <= i < s.len() && s[i] is FixedSupply;
                assert(i < s.len() - 1);
                assert(s.drop_last()[i] is FixedSupply);
            }
        }
    }
}

} // verus!
