use std::collections::BTreeMap;

use mcl_rs::os::{Os, OsSelector};
use mcl_rs::rules::{Argument, Arguments, OsDescription, Rule, RuleAction, Rules};

fn os_rule(action: RuleAction, name: Option<&str>, version: Option<&str>, arch: Option<&str>) -> Rule {
    Rule {
        action,
        os: OsDescription {
            name: name.map(String::from),
            version: version.map(String::from),
            arch: arch.map(String::from),
        },
        features: Vec::new(),
    }
}

fn feature_rule(action: RuleAction, feature: &str, value: bool) -> Rule {
    Rule {
        action,
        os: OsDescription::default(),
        features: vec![(feature.to_string(), value)],
    }
}

#[test]
fn empty_rules_allow_everything() {
    let rules = Rules(Vec::new());
    let mut features = BTreeMap::new();
    features.insert("is_demo", true);
    for os in [OsSelector::empty(), OsSelector::all(), OsSelector::single(Os::OSX32)] {
        assert!(rules.is_allowed(&features, os));
        assert!(rules.is_allowed(&BTreeMap::new(), os));
    }
}

#[test]
fn linux_rule_allows_only_linux_selections() {
    let rules = Rules(vec![os_rule(RuleAction::Allow, Some("linux"), None, None)]);
    let features = BTreeMap::new();
    assert!(rules.is_allowed(&features, OsSelector::single(Os::Linux64)));
    assert!(rules.is_allowed(&features, OsSelector::single(Os::Linux32)));
    assert!(rules.is_allowed(&features, OsSelector::single(Os::Windows64).with(Os::Linux32)));
    assert!(!rules.is_allowed(&features, OsSelector::single(Os::Windows64)));
    assert!(!rules.is_allowed(&features, OsSelector::single(Os::MacOS64).with(Os::OSX32)));
    assert!(!rules.is_allowed(&features, OsSelector::empty()));
}

#[test]
fn osx_disallow_and_demo_allow_on_linux() {
    let rules = Rules(vec![
        os_rule(RuleAction::Disallow, Some("osx"), None, None),
        feature_rule(RuleAction::Allow, "is_demo", true),
    ]);
    let mut features = BTreeMap::new();
    features.insert("is_demo", true);
    assert!(rules.is_allowed(&features, OsSelector::single(Os::Linux64)));
    assert!(!rules.is_allowed(&features, OsSelector::single(Os::OSX64)));
}

#[test]
fn missing_feature_counts_as_off() {
    let rules = Rules(vec![feature_rule(RuleAction::Allow, "has_custom_resolution", true)]);
    assert!(!rules.is_allowed(&BTreeMap::new(), OsSelector::all()));
    let mut features = BTreeMap::new();
    features.insert("has_custom_resolution", true);
    assert!(rules.is_allowed(&features, OsSelector::all()));
}

#[test]
fn matched_systems_follow_the_table() {
    let bits = |name: Option<&str>, version: Option<&str>, arch: Option<&str>| {
        os_rule(RuleAction::Allow, name, version, arch).os.matched().bits
    };
    let b = |list: &[Os]| list.iter().fold(OsSelector::empty(), |s, o| s.with(*o)).bits;
    assert_eq!(bits(Some("linux"), None, Some("x86")), b(&[Os::Linux32]));
    assert_eq!(bits(Some("linux"), None, None), b(&[Os::Linux32, Os::Linux64]));
    assert_eq!(bits(Some("windows"), Some("^10\\."), Some("x86")), b(&[Os::Windows10_32]));
    assert_eq!(
        bits(Some("windows"), Some("^10\\."), None),
        b(&[Os::Windows10_32, Os::Windows10_64])
    );
    assert_eq!(
        bits(Some("windows"), None, Some("x86")),
        b(&[Os::Windows32, Os::Windows10_32])
    );
    assert_eq!(
        bits(Some("windows"), None, None),
        b(&[Os::Windows32, Os::Windows64, Os::Windows10_32, Os::Windows10_64])
    );
    assert_eq!(bits(Some("osx"), Some("^10\\.5"), Some("x86")), b(&[Os::OSX32]));
    assert_eq!(bits(Some("osx"), Some("^10\\.5"), None), b(&[Os::OSX32, Os::OSX64]));
    assert_eq!(bits(Some("osx"), None, Some("x86")), b(&[Os::MacOS32, Os::OSX32]));
    assert_eq!(
        bits(Some("osx"), None, None),
        b(&[Os::OSX32, Os::OSX64, Os::MacOS32, Os::MacOS64])
    );
    assert_eq!(bits(None, None, None), OsSelector::all().bits);
    assert_eq!(bits(Some("haiku"), None, None), 0);
}

#[test]
fn rule_action_value_and_invert() {
    assert!(RuleAction::Allow.value());
    assert!(!RuleAction::Disallow.value());
    assert_eq!(RuleAction::Allow.invert(), RuleAction::Disallow);
    assert_eq!(RuleAction::Disallow.invert(), RuleAction::Allow);
}

#[test]
fn disallowed_rule_on_non_matching_os_allows() {
    let rule = os_rule(RuleAction::Disallow, Some("windows"), None, None);
    assert!(rule.is_allowed(&BTreeMap::new(), OsSelector::single(Os::Linux64)));
    assert!(!rule.is_allowed(&BTreeMap::new(), OsSelector::single(Os::Windows10_64)));
}

fn modern() -> Arguments {
    Arguments::Modern {
        game: vec![
            Argument::Plain("--username".to_string()),
            Argument::Plain("${auth_player_name}".to_string()),
            Argument::RuleSpecific {
                value: vec!["--width".to_string(), "${resolution_width}".to_string()],
                rules: Rules(vec![feature_rule(RuleAction::Allow, "has_custom_resolution", true)]),
            },
        ],
        jvm: vec![
            Argument::RuleSpecific {
                value: vec!["-XstartOnFirstThread".to_string()],
                rules: Rules(vec![os_rule(RuleAction::Allow, Some("osx"), None, None)]),
            },
            Argument::Plain("-cp".to_string()),
        ],
    }
}

#[test]
fn modern_arguments_are_filtered_by_rules() {
    let args = modern();
    let linux = OsSelector::single(Os::Linux64);
    assert_eq!(args.iter_game_args(&BTreeMap::new(), linux), vec!["--username", "${auth_player_name}"]);
    let mut features = BTreeMap::new();
    features.insert("has_custom_resolution", true);
    assert_eq!(
        args.iter_game_args(&features, linux),
        vec!["--username", "${auth_player_name}", "--width", "${resolution_width}"]
    );
    assert_eq!(args.iter_jvm_args(&features, linux), vec!["-cp"]);
    assert_eq!(
        args.iter_jvm_args(&features, OsSelector::single(Os::OSX64)),
        vec!["-XstartOnFirstThread", "-cp"]
    );
}

#[test]
fn legacy_arguments_are_verbatim_and_have_no_jvm_part() {
    let args = Arguments::Legacy(vec!["--username".to_string(), "${auth_player_name}".to_string()]);
    let all = OsSelector::all();
    assert_eq!(args.iter_game_args(&BTreeMap::new(), all), vec!["--username", "${auth_player_name}"]);
    assert!(args.iter_jvm_args(&BTreeMap::new(), all).is_empty());
}

#[test]
fn plain_argument_yields_itself() {
    let arg = Argument::Plain("-Xmx2G".to_string());
    assert_eq!(arg.iter_strings(&BTreeMap::new(), OsSelector::empty()), vec!["-Xmx2G"]);
}
