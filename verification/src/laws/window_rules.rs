//! Laws about the rules for windows.
use crate::config::{EnableMode, MatchKind, MatchStrategy, WindowRule};
use crate::text::{ascii_lowercase, lowercased};
use crate::window_rules::{
    all_passed, border_decision, is_passed, is_search_result, lowered_match, name_match,
    pattern_language, rule_outcome, BorderDecision, RuleOutcome, RuleSearch, WindowNames,
};
use vstd::prelude::*;

verus! {

// ---------------------------------------------------------------------------------------------
// Names
// ---------------------------------------------------------------------------------------------

/// Whether two characters are equal, or the small and the capital form of a letter from A to Z.
pub open spec fn same_letter(c: char, d: char) -> bool {
    ||| c == d
    ||| 'A' <= c <= 'Z' && d as u32 == c as u32 + 32
    ||| 'A' <= d <= 'Z' && c as u32 == d as u32 + 32
}

proof fn lemma_same_letter(c: char, d: char)
    ensures
        ascii_lowercase(c) == ascii_lowercase(d) <==> same_letter(c, d),
{
}

/// A text with all its letters from A to Z lowered.
pub open spec fn lowered(text: Seq<char>) -> Seq<char> {
    text.map_values(|c: char| ascii_lowercase(c))
}

/// Names of ASCII characters are equal exactly if they have the same length and agree letter by
/// letter, small or capital.
pub proof fn equal_names_agree_letter_by_letter(window: Seq<char>, wanted: Seq<char>)
    ensures
        lowered_match(false, lowered(window), lowered(wanted)) <==> window.len() == wanted.len()
            && forall|i: int|
            0 <= i < window.len() ==> same_letter(#[trigger] window[i], wanted[i]),
{
    let w = lowered(window);
    let p = lowered(wanted);
    if window.len() == wanted.len() && (forall|i: int|
        0 <= i < window.len() ==> same_letter(#[trigger] window[i], wanted[i])) {
        assert forall|i: int| 0 <= i < w.len() implies w[i] == p[i] by {
            assert(same_letter(window[i], wanted[i]));
            lemma_same_letter(window[i], wanted[i]);
        }
        assert(w =~= p);
    }
    if lowered_match(false, w, p) {
        assert(w =~= p);
        assert forall|i: int| 0 <= i < window.len() implies same_letter(
            #[trigger] window[i],
            wanted[i],
        ) by {
            assert(w[i] == p[i]);
            lemma_same_letter(window[i], wanted[i]);
        }
    }
}

/// Under equality, and without a strategy, names match exactly if they are the same text once both
/// are lowered. It does not matter which of them is the window's.
pub proof fn equality_is_of_whole_names(window: Seq<char>, wanted: Seq<char>)
    ensures
        name_match(Some(MatchStrategy::Equals), window, wanted) == Some(
            lowercased(window) == lowercased(wanted),
        ),
        name_match(None, window, wanted) == Some(lowercased(window) == lowercased(wanted)),
        name_match(Some(MatchStrategy::Equals), window, wanted) == name_match(
            Some(MatchStrategy::Equals),
            wanted,
            window,
        ),
        name_match(None, window, wanted) == name_match(None, wanted, window),
        name_match(None, window, window) == Some(true),
        lowered_match(false, window, wanted) <==> window == wanted,
{
}

/// A name contains another one exactly if it is that one with something before it and something
/// behind it, both lowered.
pub proof fn containment_is_of_a_part(window: Seq<char>, wanted: Seq<char>)
    ensures
        lowered_match(true, window, wanted) <==> exists|before: Seq<char>, after: Seq<char>|
            window == #[trigger] (before + wanted + after),
        name_match(Some(MatchStrategy::Contains), window, wanted) == Some(
            exists|before: Seq<char>, after: Seq<char>|
                lowercased(window) == #[trigger] (before + lowercased(wanted) + after),
        ),
        name_match(Some(MatchStrategy::Contains), window, window) == Some(true),
{
    crate::laws::text::parts_stand_between_two_texts(wanted, window);
    crate::laws::text::parts_stand_between_two_texts(lowercased(wanted), lowercased(window));
    let w = lowercased(window);
    let none = Seq::<char>::empty();
    assert(w =~= none + w + none);
    crate::laws::text::parts_stand_between_two_texts(w, w);
}

/// A pattern is searched in the name as it is. One that does not compile decides nothing.
pub proof fn patterns_are_searched_in_the_name(window: Seq<char>, wanted: Seq<char>)
    ensures
        name_match(Some(MatchStrategy::Regex), window, wanted) is None <==> pattern_language(
            wanted,
            usize::BITS as int,
        ) is None,
        pattern_language(wanted, usize::BITS as int) matches Some(texts) ==> name_match(
            Some(MatchStrategy::Regex),
            window,
            wanted,
        ) == Some(texts.contains(window)),
{
}

// ---------------------------------------------------------------------------------------------
// Rules
// ---------------------------------------------------------------------------------------------

/// Each kind of name is its own entry.
pub proof fn names_are_kept_apart(names: WindowNames)
    ensures
        names.known(MatchKind::Title) == (match names.title {
            Some(text) => Some(text@),
            None => None,
        }),
        names.known(MatchKind::Class) == (match names.class {
            Some(text) => Some(text@),
            None => None,
        }),
        names.known(MatchKind::Process) == (match names.process {
            Some(text) => Some(text@),
            None => None,
        }),
{
}

/// A rule looks at the name of its own kind, and at no other: a name that it does not look at may
/// be anything.
pub proof fn rules_look_at_one_name(rule: WindowRule, names: WindowNames, other: WindowNames)
    ensures
        rule.kind == Some(MatchKind::Title) && names.title == other.title ==> rule_outcome(
            rule,
            names,
        ) == rule_outcome(rule, other),
        rule.kind == Some(MatchKind::Class) && names.class == other.class ==> rule_outcome(
            rule,
            names,
        ) == rule_outcome(rule, other),
        rule.kind == Some(MatchKind::Process) && names.process == other.process ==> rule_outcome(
            rule,
            names,
        ) == rule_outcome(rule, other),
{
}

/// A rule with a name, for a window whose name of that kind is known, says whether the two match by
/// the rule's strategy.
pub proof fn complete_rules_compare_names(
    rule: WindowRule,
    names: WindowNames,
    window: Seq<char>,
)
    requires
        rule.kind matches Some(kind) && names.known(kind) == Some(window),
        rule.name is Some,
    ensures
        name_match(rule.strategy, window, rule.name->0@) == Some(true) ==> rule_outcome(
            rule,
            names,
        ) == RuleOutcome::Decided(true),
        name_match(rule.strategy, window, rule.name->0@) == Some(false) ==> rule_outcome(
            rule,
            names,
        ) == RuleOutcome::Decided(false),
        name_match(rule.strategy, window, rule.name->0@) is None ==> rule_outcome(rule, names)
            == RuleOutcome::BadPattern,
{
}

/// A rule without a kind says nothing, one whose kind of name is not known asks for it, and one
/// without a name of its own says nothing once the window's is known.
pub proof fn incomplete_rules_say_nothing(rule: WindowRule, names: WindowNames)
    ensures
        rule.kind is None ==> rule_outcome(rule, names) == RuleOutcome::Skipped,
        rule.kind matches Some(kind) ==> (names.known(kind) is None ==> rule_outcome(rule, names)
            == RuleOutcome::Needs(kind)),
        rule.kind matches Some(kind) ==> (names.known(kind) is Some && rule.name is None
            ==> rule_outcome(rule, names) == RuleOutcome::Skipped),
{
}

/// What a search came to: a rule that matches, behind rules that all say nothing or do not match;
/// no rule, where none matches; or a stop at the first rule that cannot be decided.
pub proof fn searches_stop_at_the_first_decision(
    rules: Seq<WindowRule>,
    names: WindowNames,
    result: RuleSearch,
)
    requires
        is_search_result(rules, names, result),
    ensures
        result matches RuleSearch::Found(at) ==> {
            &&& at < rules.len()
            &&& rule_outcome(rules[at as int], names) == RuleOutcome::Decided(true)
            &&& forall|i: int|
                0 <= i < at ==> #[trigger] rule_outcome(rules[i], names) == RuleOutcome::Skipped
                    || rule_outcome(rules[i], names) == RuleOutcome::Decided(false)
        },
        result is NoMatch ==> forall|i: int|
            0 <= i < rules.len() ==> #[trigger] rule_outcome(rules[i], names)
                == RuleOutcome::Skipped || rule_outcome(rules[i], names) == RuleOutcome::Decided(
                false,
            ),
        result matches RuleSearch::InvalidRegex(at) ==> {
            &&& at < rules.len()
            &&& rule_outcome(rules[at as int], names) == RuleOutcome::BadPattern
            &&& forall|i: int|
                0 <= i < at ==> #[trigger] rule_outcome(rules[i], names) == RuleOutcome::Skipped
                    || rule_outcome(rules[i], names) == RuleOutcome::Decided(false)
        },
        result matches RuleSearch::NeedName(kind) ==> exists|at: int|
            0 <= at < rules.len() && #[trigger] rule_outcome(rules[at], names)
                == RuleOutcome::Needs(kind) && forall|i: int|
                0 <= i < at ==> #[trigger] rule_outcome(rules[i], names) == RuleOutcome::Skipped
                    || rule_outcome(rules[i], names) == RuleOutcome::Decided(false),
{
    assert forall|at: int, i: int|
        0 <= i < at && #[trigger] all_passed(rules, names, at) implies #[trigger] rule_outcome(
        rules[i],
        names,
    ) == RuleOutcome::Skipped || rule_outcome(rules[i], names) == RuleOutcome::Decided(false) by {
        assert(is_passed(rules[i], names));
    }
    if let RuleSearch::NeedName(kind) = result {
        let at = choose|at: int|
            {
                &&& 0 <= at < rules.len()
                &&& #[trigger] all_passed(rules, names, at)
                &&& rule_outcome(rules[at], names) == RuleOutcome::Needs(kind)
            };
        assert(rule_outcome(rules[at], names) == RuleOutcome::Needs(kind));
    }
}

/// A rule that matches is found if every rule before it says nothing or does not match, whatever
/// follows it.
pub proof fn matching_rules_are_found(
    before: Seq<WindowRule>,
    rule: WindowRule,
    after: Seq<WindowRule>,
    names: WindowNames,
    result: RuleSearch,
)
    requires
        before.len() <= usize::MAX,
        forall|i: int|
            0 <= i < before.len() ==> #[trigger] rule_outcome(before[i], names)
                == RuleOutcome::Skipped || rule_outcome(before[i], names) == RuleOutcome::Decided(
                false,
            ),
        rule_outcome(rule, names) == RuleOutcome::Decided(true),
        is_search_result(before.push(rule) + after, names, result),
    ensures
        result == RuleSearch::Found(before.len() as usize),
{
    let rules = before.push(rule) + after;
    let at = before.len() as int;
    assert(rules[at] == rule);
    assert forall|i: int| 0 <= i < at implies is_passed(#[trigger] rules[i], names) by {
        assert(rules[i] == before[i]);
        assert(rule_outcome(before[i], names) == rule_outcome(rules[i], names));
    }
    assert(is_search_result(rules, names, RuleSearch::Found(before.len() as usize)));
    crate::window_rules::search_result_is_unique(
        rules,
        names,
        result,
        RuleSearch::Found(before.len() as usize),
    );
}

// ---------------------------------------------------------------------------------------------
// Borders
// ---------------------------------------------------------------------------------------------

/// A rule that switches borders on or off is obeyed, whatever the style of the window. Without one
/// the style decides.
pub proof fn rules_go_before_styles(filtered: bool)
    ensures
        border_decision(Some(EnableMode::Bool(true)), filtered) == BorderDecision::Create,
        border_decision(Some(EnableMode::Bool(false)), filtered) == BorderDecision::Disabled,
        border_decision(Some(EnableMode::Auto), filtered) == border_decision(None, filtered),
        border_decision(None, false) == BorderDecision::Create,
        border_decision(None, true) == BorderDecision::Filtered,
{
}

} // verus!
