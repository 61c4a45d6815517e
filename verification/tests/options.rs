use scanpipe::options::{
    lookup_override, negotiation_plan, negotiation_plans, value_admissible, Capabilities, OptionConstraint,
    OptionDescriptor, OptionType, OptionUnit, OptionValue, SetAttempt,
};

fn caps(soft_select: bool, automatic: bool) -> Capabilities {
    Capabilities {
        soft_select,
        hard_select: false,
        soft_detect: true,
        emulated: false,
        automatic,
        inactive: false,
        advanced: false,
    }
}

fn descriptor(name: Option<&str>, ty: OptionType, c: Capabilities, k: OptionConstraint)
    -> OptionDescriptor {
    OptionDescriptor {
        number: 1,
        name: name.map(str::to_string),
        title: "t".to_string(),
        description: "d".to_string(),
        ty,
        unit: OptionUnit::Dpi,
        capabilities: c,
        constraint: k,
    }
}

fn pairs(entries: &[(&str, &str)]) -> Vec<(String, String)> {
    entries.iter().map(|(k, v)| (k.to_string(), v.to_string())).collect()
}

#[test]
fn capabilities_decode_from_bits() {
    let c = Capabilities::from_bits(1 | 16);
    assert!(c.soft_select && c.automatic);
    assert!(!c.hard_select && !c.inactive && !c.advanced && !c.emulated);
    assert!(c.is_settable());
    assert!(c.is_auto_settable());
    let c = Capabilities::from_bits(2 | 4 | 32 | 64);
    assert!(!c.is_settable());
    assert!(!c.is_auto_settable());
    assert!(c.hard_select && c.soft_detect && c.inactive && c.advanced);
}

#[test]
fn resolution_option_tries_the_desired_resolution_first() {
    let d = descriptor(
        Some("resolution"),
        OptionType::Int,
        caps(true, true),
        OptionConstraint::Range { min: 75, max: 1200, quant: 0 },
    );
    let plan = negotiation_plan(&d, 300, &pairs(&[]), &pairs(&[]));
    assert_eq!(plan.len(), 2);
    assert!(matches!(plan[0], SetAttempt::Explicit(OptionValue::Int(300))));
    assert!(matches!(plan[1], SetAttempt::Auto));
}

#[test]
fn out_of_range_resolution_falls_back_to_automatic() {
    let d = descriptor(
        Some("resolution"),
        OptionType::Int,
        caps(true, true),
        OptionConstraint::Range { min: 75, max: 200, quant: 0 },
    );
    let plan = negotiation_plan(&d, 300, &pairs(&[]), &pairs(&[]));
    assert_eq!(plan.len(), 1);
    assert!(matches!(plan[0], SetAttempt::Auto));
}

#[test]
fn device_override_wins_over_common() {
    let d = descriptor(Some("mode"), OptionType::Text, caps(true, false),
        OptionConstraint::Unconstrained);
    let device = pairs(&[("mode", "Color")]);
    let common = pairs(&[("mode", "Gray"), ("source", "Flatbed")]);
    assert_eq!(lookup_override(&device, &common, &"mode".to_string()), Some("Color".to_string()));
    assert_eq!(
        lookup_override(&device, &common, &"source".to_string()),
        Some("Flatbed".to_string())
    );
    assert_eq!(lookup_override(&device, &common, &"depth".to_string()), None);
    let plan = negotiation_plan(&d, 300, &device, &common);
    assert_eq!(plan.len(), 1);
    match &plan[0] {
        SetAttempt::Explicit(OptionValue::Text(v)) => assert_eq!(v, "Color"),
        other => panic!("expected the device override, got {:?}", other),
    }
}

#[test]
fn unnamed_options_are_skipped_entirely() {
    let d = descriptor(None, OptionType::Int, caps(true, true), OptionConstraint::Unconstrained);
    assert!(negotiation_plan(&d, 300, &pairs(&[]), &pairs(&[])).is_empty());
    let d = descriptor(Some(""), OptionType::Int, caps(true, true),
        OptionConstraint::Unconstrained);
    assert!(negotiation_plan(&d, 300, &pairs(&[]), &pairs(&[])).is_empty());
}

#[test]
fn read_only_option_without_automatic_is_left_untouched() {
    let d = descriptor(Some("lamp"), OptionType::Bool, caps(false, false),
        OptionConstraint::Unconstrained);
    let common = pairs(&[("lamp", "on")]);
    assert!(negotiation_plan(&d, 300, &pairs(&[]), &common).is_empty());
}

#[test]
fn inadmissible_override_falls_back_to_automatic() {
    // A string override on an integer-typed option cannot be set.
    let d = descriptor(Some("depth"), OptionType::Int, caps(true, true),
        OptionConstraint::Unconstrained);
    let common = pairs(&[("depth", "8")]);
    let plan = negotiation_plan(&d, 300, &pairs(&[]), &common);
    assert_eq!(plan.len(), 1);
    assert!(matches!(plan[0], SetAttempt::Auto));
}

#[test]
fn range_constraint_checks_bounds_and_quantisation() {
    let d = descriptor(Some("resolution"), OptionType::Int, caps(true, false),
        OptionConstraint::Range { min: 75, max: 1200, quant: 25 });
    assert!(value_admissible(&d, &OptionValue::Int(75)));
    assert!(value_admissible(&d, &OptionValue::Int(100)));
    assert!(!value_admissible(&d, &OptionValue::Int(110)));
    assert!(!value_admissible(&d, &OptionValue::Int(74)));
    assert!(!value_admissible(&d, &OptionValue::Int(1201)));
    assert!(!value_admissible(&d, &OptionValue::Text("100".to_string())));
}

#[test]
fn string_list_constraint_admits_only_listed_values() {
    let d = descriptor(Some("source"), OptionType::Text, caps(true, false),
        OptionConstraint::StringList(vec!["Flatbed".to_string(), "ADF".to_string()]));
    assert!(value_admissible(&d, &OptionValue::Text("ADF".to_string())));
    assert!(!value_admissible(&d, &OptionValue::Text("Duplex".to_string())));
    assert!(!value_admissible(&d, &OptionValue::Int(3)));
}

#[test]
fn option_type_and_unit_decode_from_codes() {
    assert_eq!(OptionType::from_code(0), Some(OptionType::Bool));
    assert_eq!(OptionType::from_code(3), Some(OptionType::Text));
    assert_eq!(OptionType::from_code(5), Some(OptionType::Group));
    assert_eq!(OptionType::from_code(6), None);
    assert_eq!(OptionUnit::from_code(4), Some(OptionUnit::Dpi));
    assert_eq!(OptionUnit::from_code(6), Some(OptionUnit::Microsecond));
    assert_eq!(OptionUnit::from_code(7), None);
}

#[test]
fn plans_cover_every_descriptor_in_order() {
    let descriptors = vec![
        descriptor(
            Some("resolution"),
            OptionType::Int,
            caps(true, false),
            OptionConstraint::Unconstrained,
        ),
        descriptor(None, OptionType::Group, caps(false, false), OptionConstraint::Unconstrained),
        descriptor(Some("mode"), OptionType::Text, caps(true, true),
            OptionConstraint::Unconstrained),
    ];
    let plans = negotiation_plans(&descriptors, 150, &pairs(&[]), &pairs(&[("mode", "Gray")]));
    assert_eq!(plans.len(), 3);
    assert!(matches!(plans[0][..], [SetAttempt::Explicit(OptionValue::Int(150))]));
    assert!(plans[1].is_empty());
    assert_eq!(plans[2].len(), 2);
    assert!(matches!(&plans[2][0], SetAttempt::Explicit(OptionValue::Text(v)) if v == "Gray"));
    assert!(matches!(plans[2][1], SetAttempt::Auto));
}
