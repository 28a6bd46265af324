use tacky_borders::config::{EnableMode, MatchKind, MatchStrategy, WindowRule};
use tacky_borders::window_rules::{
    decide_border, get_window_rule, lowered_names_match, names_match, search_after, BorderDecision,
    RuleOutcome, RuleSearch, WindowNames,
};

fn rule(kind: MatchKind, name: &str, strategy: Option<MatchStrategy>) -> WindowRule {
    WindowRule {
        kind: Some(kind),
        name: Some(name.to_string()),
        strategy,
        ..WindowRule::default()
    }
}

fn names(title: &str, class: &str, process: &str) -> WindowNames {
    let mut names = WindowNames::new();
    names.supply(MatchKind::Title, title.to_string());
    names.supply(MatchKind::Class, class.to_string());
    names.supply(MatchKind::Process, process.to_string());
    names
}

#[test]
fn equality_ignores_case() {
    assert_eq!(names_match(Some(MatchStrategy::Equals), "Firefox", "FIREFOX"), Some(true));
    assert_eq!(names_match(None, "Firefox", "firefox"), Some(true));
    assert_eq!(names_match(None, "Firefox ", "firefox"), Some(false));
    assert_eq!(names_match(None, "ÄRGER", "ärger"), Some(true));
}

#[test]
fn containment_ignores_case() {
    let contains = Some(MatchStrategy::Contains);
    assert_eq!(names_match(contains, "Mozilla Firefox", "FIRE"), Some(true));
    assert_eq!(names_match(contains, "Mozilla", ""), Some(true));
    assert_eq!(names_match(contains, "fire", "firefox"), Some(false));
    assert_eq!(names_match(contains, "aaab", "aab"), Some(true));
}

#[test]
fn equal_names_are_contained() {
    for name in ["", "Code", "Straße"] {
        assert_eq!(names_match(Some(MatchStrategy::Equals), name, name), Some(true));
        assert_eq!(names_match(Some(MatchStrategy::Contains), name, name), Some(true));
    }
}

#[test]
fn patterns_are_searched_with_case() {
    let regex = Some(MatchStrategy::Regex);
    assert_eq!(names_match(regex, "Notepad", "^Note"), Some(true));
    assert_eq!(names_match(regex, "Notepad", "^note"), Some(false));
    assert_eq!(names_match(regex, "a1b22", "[0-9]{2}"), Some(true));
    assert_eq!(names_match(regex, "a1b2", "[0-9]{2}"), Some(false));
    assert_eq!(names_match(regex, "anything", "("), None);
}

#[test]
fn lowered_names_are_compared_as_they_are() {
    assert!(lowered_names_match(false, "code", "code"));
    assert!(!lowered_names_match(false, "Code", "code"));
    assert!(lowered_names_match(true, "vs code", "code"));
    assert!(!lowered_names_match(true, "code", "vs code"));
}

#[test]
fn the_first_matching_rule_applies() {
    let rules = vec![
        rule(MatchKind::Class, "other", None),
        rule(MatchKind::Title, "term", Some(MatchStrategy::Contains)),
        rule(MatchKind::Process, "wezterm", None),
    ];
    assert_eq!(
        get_window_rule(&rules, &names("Terminal", "x", "wezterm")),
        RuleSearch::Found(1)
    );
    assert_eq!(
        get_window_rule(&rules, &names("Shell", "x", "wezterm")),
        RuleSearch::Found(2)
    );
    assert_eq!(get_window_rule(&rules, &names("Shell", "x", "y")), RuleSearch::NoMatch);
    assert_eq!(get_window_rule(&vec![], &WindowNames::new()), RuleSearch::NoMatch);
}

#[test]
fn names_are_asked_for_once_they_are_needed() {
    let rules = vec![
        rule(MatchKind::Class, "a", None),
        rule(MatchKind::Class, "b", None),
        rule(MatchKind::Process, "c", None),
    ];
    let mut known = WindowNames::new();
    assert_eq!(get_window_rule(&rules, &known), RuleSearch::NeedName(MatchKind::Class));
    known.supply(MatchKind::Class, "z".to_string());
    assert_eq!(get_window_rule(&rules, &known), RuleSearch::NeedName(MatchKind::Process));
    known.supply(MatchKind::Process, "C".to_string());
    assert_eq!(get_window_rule(&rules, &known), RuleSearch::Found(2));
    known.supply(MatchKind::Title, "not needed".to_string());
    assert_eq!(get_window_rule(&rules, &known), RuleSearch::Found(2));

    let mut early = WindowNames::new();
    early.supply(MatchKind::Class, "B".to_string());
    assert_eq!(get_window_rule(&rules, &early), RuleSearch::Found(1));
}

#[test]
fn incomplete_rules_are_passed_over() {
    let rules = vec![
        WindowRule { name: Some("a".to_string()), ..WindowRule::default() },
        WindowRule { kind: Some(MatchKind::Title), ..WindowRule::default() },
        rule(MatchKind::Title, "a", None),
    ];
    assert_eq!(
        get_window_rule(&rules, &WindowNames::new()),
        RuleSearch::NeedName(MatchKind::Title)
    );
    assert_eq!(get_window_rule(&rules, &names("a", "", "")), RuleSearch::Found(2));
}

#[test]
fn a_bad_pattern_stops_the_search_where_it_is_reached() {
    let rules = vec![
        rule(MatchKind::Title, "first", None),
        rule(MatchKind::Title, "(", Some(MatchStrategy::Regex)),
        rule(MatchKind::Title, "third", None),
    ];
    assert_eq!(get_window_rule(&rules, &names("first", "", "")), RuleSearch::Found(0));
    assert_eq!(get_window_rule(&rules, &names("third", "", "")), RuleSearch::InvalidRegex(1));
}

#[test]
fn rules_go_before_styles() {
    assert_eq!(decide_border(None, false), BorderDecision::Create);
    assert_eq!(decide_border(None, true), BorderDecision::Filtered);
    assert_eq!(decide_border(Some(EnableMode::Auto), false), BorderDecision::Create);
    assert_eq!(decide_border(Some(EnableMode::Auto), true), BorderDecision::Filtered);
    assert_eq!(decide_border(Some(EnableMode::Bool(true)), true), BorderDecision::Create);
    assert_eq!(decide_border(Some(EnableMode::Bool(false)), false), BorderDecision::Disabled);
}

#[test]
fn the_first_decisive_rule_ends_the_search() {
    assert_eq!(search_after(RuleOutcome::Skipped, 4), None);
    assert_eq!(search_after(RuleOutcome::Decided(false), 4), None);
    assert_eq!(search_after(RuleOutcome::Decided(true), 4), Some(RuleSearch::Found(4)));
    assert_eq!(search_after(RuleOutcome::BadPattern, 4), Some(RuleSearch::InvalidRegex(4)));
    assert_eq!(
        search_after(RuleOutcome::Needs(MatchKind::Title), 4),
        Some(RuleSearch::NeedName(MatchKind::Title))
    );
}
