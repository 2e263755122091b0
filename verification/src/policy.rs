//! Selection policy: maps a capability set to the single best request, or to
//! none at all.

use vstd::prelude::*;
use crate::capability::{CapabilitySet, PowerDataObject, has_fixed_supply};

verus! {

/// A sink-to-source message. Requesting power at a chosen entry is the only
/// message this core produces; a request is built, submitted once, then
/// discarded.
#[derive(Clone, Copy, PartialEq, Eq, Structural, Debug)]
pub enum Request {
    RequestPower {
        /// Position of the chosen entry in the announcement that triggered
        /// the decision.
        index: usize,
        /// Current to draw, never above the chosen entry's `max_current`.
        current: u32,
    },
}

/// The fixed potential of a fixed-supply entry.
pub open spec fn voltage_of(p: PowerDataObject) -> u32
    recommends
        p is FixedSupply,
{
    match p {
        PowerDataObject::FixedSupply(f) => f.voltage,
        _ => arbitrary(),
    }
}

/// The advertised current ceiling of a fixed-supply entry.
pub open spec fn max_current_of(p: PowerDataObject) -> u32
    recommends
        p is FixedSupply,
{
    match p {
        PowerDataObject::FixedSupply(f) => f.max_current,
        _ => arbitrary(),
    }
}

/// Position `j` holds the entry the policy must choose in `s`: a fixed supply
/// whose voltage no fixed entry exceeds, and the first position among those of
/// that maximal voltage (the deterministic tie-break).
pub open spec fn is_chosen_index(s: Seq<PowerDataObject>, j: int) -> bool {
    &&& 0 <= j < s.len()
    &&& s[j] is FixedSupply
    &&& forall|i: int|
        0 <= i < s.len() && s[i] is FixedSupply ==> voltage_of(#[trigger] s[i]) <= voltage_of(s[j])
    &&& forall|i: int|
        0 <= i < j && s[i] is FixedSupply ==> voltage_of(#[trigger] s[i]) < voltage_of(s[j])
}

/// What a selection for announcement `s` must be: the request at the chosen
/// entry, drawing its full advertised current, or nothing when no entry is a
/// fixed supply.
pub open spec fn valid_selection(s: Seq<PowerDataObject>, r: Option<Request>) -> bool {
    match r {
        Some(Request::RequestPower { index, current }) => {
            &&& is_chosen_index(s, index as int)
            &&& current == max_current_of(s[index as int])
        },
        None => !has_fixed_supply(s),
    }
}

/// Chooses the fixed-supply entry with the highest voltage — on a tie, the
/// first such entry — and requests its full advertised current.
///
/// An announcement with no fixed-supply entry yields `None`: the cycle is
/// skipped gracefully and the sink waits for the next announcement, rather
/// than treating a battery- or variable-only source as fatal.
pub fn select_request(caps: &CapabilitySet) -> (r: Option<Request>)
    ensures
        valid_selection(caps@, r),
        r is Some <==> has_fixed_supply(caps@),
{
    let n: usize = caps.len();
    let mut best: Option<(usize, u32, u32)> = None;
    let mut k: usize = 0;
    while k < n
        invariant
            n == caps@.len(),
            k <= n,
            match best {
                None => forall|i: int| 0 <= i < k ==> !(#[trigger] caps@[i] is FixedSupply),
                Some((j, v, c)) => {
                    &&& j < k
                    &&& caps@[j as int] is FixedSupply
                    &&& v == voltage_of(caps@[j as int])
                    &&& c == max_current_of(caps@[j as int])
                    &&& forall|i: int|
                        0 <= i < k && caps@[i] is FixedSupply ==> voltage_of(
                            #[trigger] caps@[i],
                        ) <= v
                    &&& forall|i: int|
                        0 <= i < j && caps@[i] is FixedSupply ==> voltage_of(#[trigger] caps@[i]) < v
                },
            },
        decreases n - k,
    {
        match caps.get(k) {
            PowerDataObject::FixedSupply(f) => {
                match best {
                    None => {
                        best = Some((k, f.voltage, f.max_current));
                    }
                    Some((_, v, _)) => {
                        if f.voltage > v {
                            best = Some((k, f.voltage, f.max_current));
                        }
                    }
                }
            }
            _ => {}
        }
        k = k + 1;
    }
    match best {
        Some((j, _, c)) => {
            proof {
                assert(has_fixed_supply(caps@)) by {
                    assert(caps@[j as int] is FixedSupply);
                }
            }
            Some(Request::RequestPower { index: j, current: c })
        }
        None => None,
    }
}

/// The chosen entry is unique: the policy's decision is fully determined by
/// the announcement.
pub proof fn lemma_chosen_index_unique(s: Seq<PowerDataObject>, j1: int, j2: int)
    requires
        is_chosen_index(s, j1),
        is_chosen_index(s, j2),
    ensures
        j1 == j2,
{
    if j1 < j2 {
        assert(voltage_of(s[j1]) < voltage_of(s[j2]));
        assert(voltage_of(s[j2]) <= voltage_of(s[j1]));
    }
    if j2 < j1 {
        assert(voltage_of(s[j2]) < voltage_of(s[j1]));
        assert(voltage_of(s[j1]) <= voltage_of(s[j2]));
    }
}

/// Selection correctness: the chosen entry's voltage is at least that of
/// every fixed-supply entry of the announcement.
pub proof fn lemma_selection_correct(s: Seq<PowerDataObject>, j: int, i: int)
    requires
        is_chosen_index(s, j),
        0 <= i < s.len(),
        s[i] is FixedSupply,
    ensures
        voltage_of(s[i]) <= voltage_of(s[j]),
{
}

/// The policy is a function of the announcement alone: any two valid
/// selections for the same capability set agree.
pub proof fn lemma_selection_deterministic(
    s: Seq<PowerDataObject>,
    r1: Option<Request>,
    r2: Option<Request>,
)
    requires
        valid_selection(s, r1),
        valid_selection(s, r2),
    ensures
        r1 == r2,
{
    match (r1, r2) {
        (Some(Request::RequestPower { index: i1, .. }), Some(Request::RequestPower { index: i2, .. })) => {
            lemma_chosen_index_unique(s, i1 as int, i2 as int);
        }
        (Some(Request::RequestPower { index, .. }), None) => {
            assert(s[index as int] is FixedSupply);
        }
        (None, Some(Request::RequestPower { index, .. })) => {
            assert(s[index as int] is FixedSupply);
        }
        (None, None) => {}
    }
}

} // verus!
