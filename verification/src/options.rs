//! Option negotiation: deciding, for each device option, what to try to
//! set, in which order, before a scan starts.
//!
//! The device exposes a sequence of option descriptors, already decoded
//! into plain records. For each named option the negotiator builds an
//! ordered list of attempts: the desired resolution where the option is
//! the resolution option, then a configured override where one exists,
//! then the device's automatic value where the option supports one - and
//! nothing where none applies, leaving the option untouched. Each attempt
//! is pre-checked against the option's type and constraint; a failed
//! attempt on the device falls through to the next weaker one, and no
//! single unsettable option ever blocks scanning.

use vstd::prelude::*;

verus! {

/// The value type of a device option.
#[derive(Clone, Copy, Debug, PartialEq, Eq, Structural)]
pub enum OptionType {
    Bool,
    Int,
    Fixed,
    Text,
    Button,
    Group,
}

impl OptionType {
    /// Decodes the backend's option-type code; a code outside the
    /// vocabulary yields `None`.
    pub fn from_code(code: u32) -> (r: Option<OptionType>)
        ensures
            r == spec_option_type_from_code(code),
    {
        match code {
            0 => Some(OptionType::Bool),
            1 => Some(OptionType::Int),
            2 => Some(OptionType::Fixed),
            3 => Some(OptionType::Text),
            4 => Some(OptionType::Button),
            5 => Some(OptionType::Group),
            _ => None,
        }
    }
}

/// The option-type decoding, stated once for callers.
pub open spec fn spec_option_type_from_code(code: u32) -> Option<OptionType> {
    if code == 0 {
        Some(OptionType::Bool)
    } else if code == 1 {
        Some(OptionType::Int)
    } else if code == 2 {
        Some(OptionType::Fixed)
    } else if code == 3 {
        Some(OptionType::Text)
    } else if code == 4 {
        Some(OptionType::Button)
    } else if code == 5 {
        Some(OptionType::Group)
    } else {
        None
    }
}

/// The physical unit of a device option.
#[derive(Clone, Copy, Debug, PartialEq, Eq, Structural)]
pub enum OptionUnit {
    Unitless,
    Pixel,
    Bit,
    Mm,
    Dpi,
    Percent,
    Microsecond,
}

impl OptionUnit {
    /// Decodes the backend's unit code; a code outside the vocabulary
    /// yields `None`.
    pub fn from_code(code: u32) -> (r: Option<OptionUnit>)
        ensures
            r == spec_option_unit_from_code(code),
    {
        match code {
            0 => Some(OptionUnit::Unitless),
            1 => Some(OptionUnit::Pixel),
            2 => Some(OptionUnit::Bit),
            3 => Some(OptionUnit::Mm),
            4 => Some(OptionUnit::Dpi),
            5 => Some(OptionUnit::Percent),
            6 => Some(OptionUnit::Microsecond),
            _ => None,
        }
    }
}

/// The unit decoding, stated once for callers.
pub open spec fn spec_option_unit_from_code(code: u32) -> Option<OptionUnit> {
    if code == 0 {
        Some(OptionUnit::Unitless)
    } else if code == 1 {
        Some(OptionUnit::Pixel)
    } else if code == 2 {
        Some(OptionUnit::Bit)
    } else if code == 3 {
        Some(OptionUnit::Mm)
    } else if code == 4 {
        Some(OptionUnit::Dpi)
    } else if code == 5 {
        Some(OptionUnit::Percent)
    } else if code == 6 {
        Some(OptionUnit::Microsecond)
    } else {
        None
    }
}

/// The capability flags of a device option, decoded into plain booleans.
#[derive(Clone, Copy, Debug, PartialEq, Eq, Structural)]
pub struct Capabilities {
    pub soft_select: bool,
    pub hard_select: bool,
    pub soft_detect: bool,
    pub emulated: bool,
    pub automatic: bool,
    pub inactive: bool,
    pub advanced: bool,
}

impl Capabilities {
    /// Decodes the backend's capability bit set.
    pub fn from_bits(bits: u32) -> (r: Capabilities)
        ensures
            r.soft_select == (bits & 1u32 != 0),
            r.hard_select == (bits & 2u32 != 0),
            r.soft_detect == (bits & 4u32 != 0),
            r.emulated == (bits & 8u32 != 0),
            r.automatic == (bits & 16u32 != 0),
            r.inactive == (bits & 32u32 != 0),
            r.advanced == (bits & 64u32 != 0),
    {
        Capabilities {
            soft_select: bits & 1 != 0,
            hard_select: bits & 2 != 0,
            soft_detect: bits & 4 != 0,
            emulated: bits & 8 != 0,
            automatic: bits & 16 != 0,
            inactive: bits & 32 != 0,
            advanced: bits & 64 != 0,
        }
    }

    /// Whether the option can be set by software.
    pub fn is_settable(&self) -> (r: bool)
        ensures
            r == self.soft_select,
    {
        self.soft_select
    }

    /// Whether the option supports the device's automatic value.
    pub fn is_auto_settable(&self) -> (r: bool)
        ensures
            r == self.automatic,
    {
        self.automatic
    }
}

/// The constraint a device option puts on its values.
#[derive(Clone, Debug)]
pub enum OptionConstraint {
    /// Any value of the right type.
    Unconstrained,
    /// An integer range with an optional quantisation step.
    Range { min: i32, max: i32, quant: i32 },
    /// One of an enumerated list of strings.
    StringList(Vec<String>),
}

/// A value to hand to the device for one option: a tagged union selected
/// at runtime by the descriptor's type.
#[derive(Clone, Debug)]
pub enum OptionValue {
    Bool(bool),
    Int(i32),
    Text(String),
}

/// One device option as reported during discovery, already decoded.
#[derive(Clone, Debug)]
pub struct OptionDescriptor {
    /// The option's index in the device's option list.
    pub number: i32,
    /// The option's name; unnamed options are skipped entirely.
    pub name: Option<String>,
    pub title: String,
    pub description: String,
    pub ty: OptionType,
    pub unit: OptionUnit,
    pub capabilities: Capabilities,
    pub constraint: OptionConstraint,
}

/// Whether a value fits an option: the value's tag must match the
/// option's type, and the value must satisfy the option's constraint.
/// This is the explicit check made before any set attempt.
pub open spec fn spec_admissible(desc: OptionDescriptor, value: OptionValue) -> bool {
    &&& match (desc.ty, value) {
        (OptionType::Bool, OptionValue::Bool(_)) => true,
        (OptionType::Int, OptionValue::Int(_)) => true,
        (OptionType::Fixed, OptionValue::Int(_)) => true,
        (OptionType::Text, OptionValue::Text(_)) => true,
        _ => false,
    }
    &&& match desc.constraint {
        OptionConstraint::Unconstrained => true,
        OptionConstraint::Range { min, max, quant } => {
            &&& value matches OptionValue::Int(v)
            &&& min <= value->Int_0 <= max
            &&& (quant <= 0 || (value->Int_0 - min) as int % (quant as int) == 0)
        },
        OptionConstraint::StringList(ss) => {
            &&& value matches OptionValue::Text(t)
            &&& exists|i: int| 0 <= i < ss@.len() && ss@[i]@ == value->Text_0@
        },
    }
}

/// Whether a value fits an option.
#[verifier::loop_isolation(false)]
pub fn value_admissible(desc: &OptionDescriptor, value: &OptionValue) -> (r: bool)
    ensures
        r == spec_admissible(*desc, *value),
{
    let type_ok = match (&desc.ty, value) {
        (OptionType::Bool, OptionValue::Bool(_)) => true,
        (OptionType::Int, OptionValue::Int(_)) => true,
        (OptionType::Fixed, OptionValue::Int(_)) => true,
        (OptionType::Text, OptionValue::Text(_)) => true,
        _ => false,
    };
    if !type_ok {
        return false;
    }
    match &desc.constraint {
        OptionConstraint::Unconstrained => true,
        OptionConstraint::Range { min, max, quant } => {
            match value {
                OptionValue::Int(v) => {
                    if !(*min <= *v && *v <= *max) {
                        false
                    } else if *quant <= 0 {
                        true
                    } else {
                        let delta = (*v as i64) - (*min as i64);
                        delta % (*quant as i64) == 0
                    }
                },
                _ => false,
            }
        },
        OptionConstraint::StringList(ss) => {
            match value {
                OptionValue::Text(t) => {
                    let mut i: usize = 0;
                    while i < ss.len()
                        invariant
                            i <= ss@.len(),
                            forall|j: int| 0 <= j < i ==> ss@[j]@ != t@,
                        decreases ss@.len() - i,
                    {
                        if ss[i] == *t {
                            proof {
                                assert(0 <= i < ss@.len() && ss@[i as int]@ == (*value)->Text_0@);
                            }
                            return true;
                        }
                        i += 1;
                    }
                    false
                },
                _ => false,
            }
        },
    }
}

/// The first value of the association list whose key is `name`, if any.
pub open spec fn spec_assoc(entries: Seq<(String, String)>, name: Seq<char>) -> Option<String>
    decreases entries.len(),
{
    if entries.len() == 0 {
        None
    } else if entries[0].0@ == name {
        Some(entries[0].1)
    } else {
        spec_assoc(entries.skip(1), name)
    }
}

/// The override configured for an option name: a per-device entry wins
/// over a common one.
pub open spec fn spec_override_value(
    device: Seq<(String, String)>,
    common: Seq<(String, String)>,
    name: Seq<char>,
) -> Option<String> {
    match spec_assoc(device, name) {
        Some(v) => Some(v),
        None => spec_assoc(common, name),
    }
}

/// If every key before `i` misses and the key at `i` hits, the first
/// match is at `i`.
proof fn lemma_assoc_hit(entries: Seq<(String, String)>, name: Seq<char>, i: int)
    requires
        0 <= i < entries.len(),
        forall|j: int| 0 <= j < i ==> entries[j].0@ != name,
        entries[i].0@ == name,
    ensures
        spec_assoc(entries, name) == Some(entries[i].1),
    decreases i,
{
    if i > 0 {
        lemma_assoc_hit(entries.skip(1), name, i - 1);
    }
}

/// If no key matches, the lookup misses.
proof fn lemma_assoc_miss(entries: Seq<(String, String)>, name: Seq<char>)
    requires
        forall|j: int| 0 <= j < entries.len() ==> entries[j].0@ != name,
    ensures
        spec_assoc(entries, name) is None,
    decreases entries.len(),
{
    if entries.len() > 0 {
        lemma_assoc_miss(entries.skip(1), name);
    }
}

/// Finds the first entry of the list whose key is `name` and clones its
/// value.
fn assoc_find(entries: &Vec<(String, String)>, name: &String) -> (r: Option<String>)
    ensures
        r == spec_assoc(entries@, name@),
{
    let mut i: usize = 0;
    while i < entries.len()
        invariant
            i <= entries@.len(),
            forall|j: int| 0 <= j < i ==> entries@[j].0@ != name@,
        decreases entries@.len() - i,
    {
        if entries[i].0 == *name {
            proof {
                lemma_assoc_hit(entries@, name@, i as int);
            }
            return Some(entries[i].1.clone());
        }
        i += 1;
    }
    proof {
        lemma_assoc_miss(entries@, name@);
    }
    None
}

/// Looks up the override configured for an option name: the per-device
/// list wins over the common list.
pub fn lookup_override(
    device: &Vec<(String, String)>,
    common: &Vec<(String, String)>,
    name: &String,
) -> (r: Option<String>)
    ensures
        r == spec_override_value(device@, common@, name@),
{
    match assoc_find(device, name) {
        Some(v) => Some(v),
        None => assoc_find(common, name),
    }
}

/// One attempt of the negotiation plan for an option.
#[derive(Clone, Debug)]
pub enum SetAttempt {
    /// Set this explicit value.
    Explicit(OptionValue),
    /// Request the device's automatic value.
    Auto,
}

/// The name under which an option is negotiated: `None` when the option
/// is unnamed or its name is empty, which skips it entirely.
pub open spec fn spec_option_name(desc: OptionDescriptor) -> Option<Seq<char>> {
    match desc.name {
        Some(n) => if n@.len() == 0 {
            None
        } else {
            Some(n@)
        },
        None => None,
    }
}

/// The ordered attempts to negotiate one option: the desired resolution
/// where the option is the resolution option, then the configured
/// override where one exists, then the automatic value where supported;
/// an unnamed option, and one where no attempt is admissible, is left
/// untouched. Each explicit value is pre-checked against the option's
/// type and constraint, and only a soft-settable option is set.
pub open spec fn spec_negotiation_plan(
    desc: OptionDescriptor,
    resolution: i32,
    device: Seq<(String, String)>,
    common: Seq<(String, String)>,
) -> Seq<SetAttempt> {
    match spec_option_name(desc) {
        None => Seq::<SetAttempt>::empty(),
        Some(name) => {
            let plan0 = Seq::<SetAttempt>::empty();
            let plan1 = if name == "resolution"@ && desc.capabilities.soft_select
                && spec_admissible(desc, OptionValue::Int(resolution)) {
                plan0.push(SetAttempt::Explicit(OptionValue::Int(resolution)))
            } else {
                plan0
            };
            let plan2 = match spec_override_value(device, common, name) {
                Some(v) => if desc.capabilities.soft_select && spec_admissible(
                    desc,
                    OptionValue::Text(v),
                ) {
                    plan1.push(SetAttempt::Explicit(OptionValue::Text(v)))
                } else {
                    plan1
                },
                None => plan1,
            };
            if desc.capabilities.automatic {
                plan2.push(SetAttempt::Auto)
            } else {
                plan2
            }
        },
    }
}

/// Builds the ordered negotiation attempts for one option. The caller
/// tries them in order and stops at the first the device accepts; a
/// device-side failure falls through to the next attempt, and an empty
/// plan leaves the option untouched. Negotiation is best-effort: nothing
/// here escalates to a pipeline error.
pub fn negotiation_plan(
    desc: &OptionDescriptor,
    resolution: i32,
    device: &Vec<(String, String)>,
    common: &Vec<(String, String)>,
) -> (r: Vec<SetAttempt>)
    ensures
        r@ == spec_negotiation_plan(*desc, resolution, device@, common@),
{
    let mut plan: Vec<SetAttempt> = Vec::new();
    let name = match &desc.name {
        None => {
            proof {
                assert(plan@ =~= spec_negotiation_plan(*desc, resolution, device@, common@));
            }
            return plan;
        },
        Some(n) => {
            if n.as_str().is_empty() {
                proof {
                    assert(plan@ =~= spec_negotiation_plan(*desc, resolution, device@, common@));
                }
                return plan;
            }
            n
        },
    };
    let resolution_name: String = "resolution".to_owned();
    if *name == resolution_name {
        let value = OptionValue::Int(resolution);
        if desc.capabilities.is_settable() && value_admissible(desc, &value) {
            plan.push(SetAttempt::Explicit(value));
        }
    }
    match lookup_override(device, common, name) {
        Some(v) => {
            let value = OptionValue::Text(v);
            if desc.capabilities.is_settable() && value_admissible(desc, &value) {
                plan.push(SetAttempt::Explicit(value));
            }
        },
        None => {},
    }
    if desc.capabilities.is_auto_settable() {
        plan.push(SetAttempt::Auto);
    }
    proof {
        assert(plan@ =~= spec_negotiation_plan(*desc, resolution, device@, common@));
    }
    plan
}

/// Builds the negotiation plans of a whole descriptor sequence, one per
/// option, in option order. The caller walks the options and tries each
/// option's attempts in order against the device.
pub fn negotiation_plans(
    descriptors: &Vec<OptionDescriptor>,
    resolution: i32,
    device: &Vec<(String, String)>,
    common: &Vec<(String, String)>,
) -> (r: Vec<Vec<SetAttempt>>)
    ensures
        r@.len() == descriptors@.len(),
        forall|i: int|
            0 <= i < descriptors@.len() ==> #[trigger] r@[i]@ == spec_negotiation_plan(
                descriptors@[i],
                resolution,
                device@,
                common@,
            ),
{
    let mut r: Vec<Vec<SetAttempt>> = Vec::new();
    let mut i: usize = 0;
    while i < descriptors.len()
        invariant
            i <= descriptors@.len(),
            r@.len() == i,
            forall|j: int|
                0 <= j < i ==> #[trigger] r@[j]@ == spec_negotiation_plan(
                    descriptors@[j],
                    resolution,
                    device@,
                    common@,
                ),
        decreases descriptors@.len() - i,
    {
        r.push(negotiation_plan(&descriptors[i], resolution, device, common));
        i += 1;
    }
    r
}

} // verus!
