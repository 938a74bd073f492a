//! Device discovery: picking the one eligible actuator among the devices
//! that the registry enumerates for the well-known device class.
//!
//! A candidate is eligible when its property set could be read, the
//! product-name, actuation-supported and built-in properties are all
//! present and non-null, and the device-identifier property is present,
//! non-null and denotes an unsigned 64-bit integer.  Discovery always
//! selects the first eligible candidate in enumeration order.

use vstd::prelude::*;

use crate::decimal::{dec_val, digit_part, is_u64_numeral, lemma_dec_val_nonneg, parse_u64};

verus! {

/// A dynamically typed registry property value, as the host hands it to
/// the library: a closed union of the shapes the registry can deliver.
#[derive(Clone, Debug, PartialEq, Eq)]
pub enum Variant {
    /// A textual value, or the textual description of a value of unknown
    /// class.
    Text(String),
    /// A boolean value.
    Flag(bool),
    /// An unsigned integral value.
    Number(u64),
    /// A value of a class the host could not project into any of the
    /// shapes above.
    Unknown,
}

/// Presence and nullness of one registry property.
#[derive(Clone, Debug, PartialEq, Eq)]
pub enum Property {
    /// The property set has no entry under the property's name.
    Missing,
    /// The entry is present but holds a null reference.
    Null,
    /// The entry is present and non-null.
    Value(Variant),
}

/// What discovery reads from one enumerated device: the four properties
/// the eligibility test looks at.
#[derive(Clone, Debug, PartialEq, Eq)]
pub struct DeviceDescriptor {
    /// The product-name property.
    pub product: Property,
    /// The actuation-supported property.
    pub actuation_supported: Property,
    /// The built-in property.
    pub built_in: Property,
    /// The device-identifier property; its text denotes an unsigned
    /// 64-bit integer in decimal.
    pub multitouch_id: Property,
}

/// One enumerated device, as discovery sees it.
#[derive(Clone, Debug, PartialEq, Eq)]
pub enum Candidate {
    /// The device's property set could not be read; the candidate is
    /// skipped with a diagnostic.
    Unreadable,
    /// The device's property set was read.
    Readable(DeviceDescriptor),
}

/// The outcome of a successful selection: which candidate was chosen and
/// the device identifier parsed from its properties.
#[derive(Clone, Copy, Debug, PartialEq, Eq, Structural)]
pub struct Selected {
    /// Position of the chosen candidate in enumeration order.
    pub index: usize,
    /// The parsed device identifier, ready for the actuation service.
    pub device_id: u64,
}

/// The device identifier denoted by a property value: a number as it
/// stands, a text by its decimal reading, nothing otherwise.
pub open spec fn spec_variant_id(v: Variant) -> Option<u64> {
    match v {
        Variant::Text(s) => if is_u64_numeral(s@) {
            Some(dec_val(digit_part(s@)) as u64)
        } else {
            None
        },
        Variant::Number(n) => Some(n),
        Variant::Flag(_) => None,
        Variant::Unknown => None,
    }
}

/// True when the three required properties are all present and non-null.
pub open spec fn spec_required_present(d: DeviceDescriptor) -> bool {
    &&& d.product is Value
    &&& d.actuation_supported is Value
    &&& d.built_in is Value
}

/// The device identifier of an eligible candidate, `None` when the
/// candidate is to be skipped.
pub open spec fn spec_candidate_id(c: Candidate) -> Option<u64> {
    match c {
        Candidate::Unreadable => None,
        Candidate::Readable(d) => if spec_required_present(d) {
            match d.multitouch_id {
                Property::Value(v) => spec_variant_id(v),
                _ => None,
            }
        } else {
            None
        },
    }
}

/// True when discovery would accept candidate `c`.
pub open spec fn eligible(c: Candidate) -> bool {
    spec_candidate_id(c) is Some
}

/// Position of the first eligible candidate, if any.
pub open spec fn first_eligible(cands: Seq<Candidate>) -> Option<int>
    decreases cands.len(),
{
    if cands.len() == 0 {
        None
    } else if eligible(cands[0]) {
        Some(0)
    } else {
        match first_eligible(cands.drop_first()) {
            None => None,
            Some(i) => Some(i + 1),
        }
    }
}

/// What discovery selects from an enumerated candidate sequence: the
/// first eligible candidate together with its parsed device identifier.
pub open spec fn spec_selection(cands: Seq<Candidate>) -> Option<Selected> {
    match first_eligible(cands) {
        None => None,
        Some(i) => Some(
            Selected { index: i as usize, device_id: spec_candidate_id(cands[i])->0 },
        ),
    }
}

/// The position of the first eligible candidate is an eligible position,
/// and every earlier position is ineligible; when there is none, no
/// position is eligible.
pub proof fn lemma_first_eligible(cands: Seq<Candidate>)
    ensures
        match first_eligible(cands) {
            Some(i) => {
                &&& 0 <= i < cands.len()
                &&& eligible(cands[i])
                &&& forall|j: int| 0 <= j < i ==> !eligible(cands[j])
            },
            None => forall|j: int| 0 <= j < cands.len() ==> !eligible(cands[j]),
        },
    decreases cands.len(),
{
    if cands.len() > 0 && !eligible(cands[0]) {
        lemma_first_eligible(cands.drop_first());
        assert(forall|j: int| 0 <= j < cands.len() - 1 ==> cands.drop_first()[j] == cands[j + 1]);
        match first_eligible(cands.drop_first()) {
            Some(i) => {
                assert(cands[i + 1] == cands.drop_first()[i]);
                assert(forall|j: int| 1 <= j < i + 1 ==> cands[j] == cands.drop_first()[j - 1]);
            },
            None => {
                assert(forall|j: int| 1 <= j < cands.len() ==> cands[j] == cands.drop_first()[j - 1]);
            },
        }
    }
}

/// Discovery is first-match-wins: when a selection exists it points at an
/// eligible candidate and every earlier candidate is ineligible; when none
/// exists, no candidate is eligible.
pub proof fn lemma_selection_first_match(cands: Seq<Candidate>)
    requires
        cands.len() <= usize::MAX,
    ensures
        match spec_selection(cands) {
            Some(sel) => {
                &&& sel.index < cands.len()
                &&& spec_candidate_id(cands[sel.index as int]) == Some(sel.device_id)
                &&& forall|j: int| 0 <= j < sel.index ==> !eligible(cands[j])
            },
            None => forall|j: int| 0 <= j < cands.len() ==> !eligible(cands[j]),
        },
{
    lemma_first_eligible(cands);
}

/// Convert one property value to the device identifier it denotes.
///
/// This is the single conversion point for the textual fallback: a text
/// value is read as a decimal `u64` numeral.
pub fn variant_id(v: &Variant) -> (r: Option<u64>)
    ensures
        r == spec_variant_id(*v),
{
    match v {
        Variant::Text(s) => {
            let r = parse_u64(s.as_str());
            proof {
                if is_u64_numeral(s@) {
                    lemma_dec_val_nonneg(digit_part(s@));
                }
            }
            r
        },
        Variant::Number(n) => Some(*n),
        Variant::Flag(_) => None,
        Variant::Unknown => None,
    }
}

/// The eligibility test for one candidate: the parsed device identifier,
/// or `None` when the candidate is to be skipped.
pub fn candidate_id(c: &Candidate) -> (r: Option<u64>)
    ensures
        r == spec_candidate_id(*c),
{
    match c {
        Candidate::Unreadable => None,
        Candidate::Readable(d) => {
            if !(matches!(d.product, Property::Value(_)) && matches!(
                d.actuation_supported,
                Property::Value(_),
            ) && matches!(d.built_in, Property::Value(_))) {
                return None;
            }
            match &d.multitouch_id {
                Property::Value(v) => variant_id(v),
                _ => None,
            }
        },
    }
}

/// Select the device to open: the first candidate, in enumeration order,
/// whose required properties are present and non-null and whose identifier
/// parses; `None` when no candidate qualifies.
pub fn select_device(candidates: &Vec<Candidate>) -> (r: Option<Selected>)
    ensures
        r == spec_selection(candidates@),
{
    let n = candidates.len();
    let mut i: usize = 0;
    while i < n
        invariant
            i <= n,
            n == candidates@.len(),
            forall|j: int| 0 <= j < i ==> !eligible(candidates@[j]),
        decreases n - i,
    {
        match candidate_id(&candidates[i]) {
            Some(device_id) => {
                proof {
                    lemma_selection_first_match(candidates@);
                    match spec_selection(candidates@) {
                        Some(sel) => {
                            if sel.index < i {
                                assert(eligible(candidates@[sel.index as int]));
                            }
                            if i < sel.index {
                                assert(!eligible(candidates@[i as int]));
                            }
                        },
                        None => {
                            assert(!eligible(candidates@[i as int]));
                        },
                    }
                }
                return Some(Selected { index: i, device_id });
            },
            None => {
                i = i + 1;
            },
        }
    }
    proof {
        lemma_selection_first_match(candidates@);
        if spec_selection(candidates@) is Some {
            let sel = spec_selection(candidates@)->0;
            assert(eligible(candidates@[sel.index as int]));
        }
    }
    None
}

} // verus!
