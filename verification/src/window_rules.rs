//! Finding the rule that applies to a window.
use crate::config::{EnableMode, MatchKind, MatchStrategy, WindowRule};
use crate::text::{contains_text, lowercase, same_text};
use vstd::prelude::*;

verus! {

// ---------------------------------------------------------------------------------------------
// Comparing names
// ---------------------------------------------------------------------------------------------

#[verifier::external_type_specification]
#[verifier::external_body]
pub struct ExRegexError(regex::Error);

#[verifier::external_type_specification]
#[verifier::external_body]
pub struct ExRegex(regex::Regex);

/// The texts in which a compiled pattern finds a match.
pub uninterp spec fn regex_language(compiled: regex::Regex) -> Set<Seq<char>>;

/// The texts in which the pattern that `regex::Regex::new` makes of a text finds a match; nothing
/// where it refuses the pattern. It refuses those that are ill-formed, and those whose program
/// takes too many bytes, which depends on the width of a machine word too.
pub uninterp spec fn pattern_language(pattern: Seq<char>, word_bits: int) -> Option<Set<Seq<char>>>;

/// Calls `regex::Regex::new`. The contract claims that the pattern and the width of a machine word
/// decide whether it compiles and what it matches then; what a pattern means is left to the crate.
#[verifier::external_body]
pub(crate) fn compile_regex(pattern: &str) -> (result: Result<regex::Regex, regex::Error>)
    ensures
        result is Ok <==> pattern_language(pattern@, usize::BITS as int) is Some,
        result matches Ok(compiled) ==> pattern_language(pattern@, usize::BITS as int) == Some(
            regex_language(compiled),
        ),
{
    regex::Regex::new(pattern)
}

/// Calls `regex::Regex::captures`, and asks no more of its answer than whether there is one. The
/// contract claims that the compiled pattern and the text decide it.
#[verifier::external_body]
pub(crate) fn regex_captures(compiled: &regex::Regex, text: &str) -> (found: bool)
    ensures
        found == regex_language(*compiled).contains(text@),
{
    compiled.captures(text).is_some()
}

/// Whether a name matches under a strategy that ignores case, both texts being in lower case.
pub open spec fn lowered_match(contains: bool, window: Seq<char>, wanted: Seq<char>) -> bool {
    if contains {
        crate::text::occurs_in(wanted, window)
    } else {
        window == wanted
    }
}

/// Whether a name matches under a strategy that ignores case, both texts being in lower case.
pub fn lowered_names_match(contains: bool, window: &str, wanted: &str) -> (matched: bool)
    ensures
        matched == lowered_match(contains, window@, wanted@),
{
    if contains {
        contains_text(window, wanted)
    } else {
        same_text(window, wanted)
    }
}

/// Whether the name of a window matches the name in a rule; nothing where that is a pattern that
/// does not compile. Without a strategy names have to be equal.
pub open spec fn name_match(
    strategy: Option<MatchStrategy>,
    window: Seq<char>,
    wanted: Seq<char>,
) -> Option<bool> {
    match strategy {
        Some(MatchStrategy::Regex) => match pattern_language(wanted, usize::BITS as int) {
            Some(texts) => Some(texts.contains(window)),
            None => None,
        },
        _ => Some(
            lowered_match(
                strategy == Some(MatchStrategy::Contains),
                crate::text::lowercased(window),
                crate::text::lowercased(wanted),
            ),
        ),
    }
}

/// Whether the name of a window matches the name in a rule; nothing where that is a pattern that
/// does not compile.
pub fn names_match(strategy: Option<MatchStrategy>, window: &str, wanted: &str) -> (matched: Option<
    bool,
>)
    ensures
        matched == name_match(strategy, window@, wanted@),
        strategy != Some(MatchStrategy::Regex) && window.is_ascii() && wanted.is_ascii()
            ==> matched == Some(
            lowered_match(
                strategy == Some(MatchStrategy::Contains),
                window@.map_values(|c: char| crate::text::ascii_lowercase(c)),
                wanted@.map_values(|c: char| crate::text::ascii_lowercase(c)),
            ),
        ),
{
    let contains = match strategy {
        Some(MatchStrategy::Regex) => {
            return match compile_regex(wanted) {
                Ok(compiled) => Some(regex_captures(&compiled, window)),
                Err(_) => None,
            };
        },
        Some(MatchStrategy::Contains) => true,
        Some(MatchStrategy::Equals) | None => false,
    };
    let window_lower = lowercase(window);
    let wanted_lower = lowercase(wanted);
    Some(lowered_names_match(contains, window_lower.as_str(), wanted_lower.as_str()))
}

/// A name that equals another one also contains it.
pub proof fn equal_names_contain_each_other(window: Seq<char>, wanted: Seq<char>)
    requires
        name_match(Some(MatchStrategy::Equals), window, wanted) == Some(true),
    ensures
        name_match(Some(MatchStrategy::Contains), window, wanted) == Some(true),
{
    let w = crate::text::lowercased(window);
    assert(w.subrange(0, w.len() as int) =~= w);
    assert(crate::text::occurs_at(w, w, 0));
}

/// A rule without a strategy compares like one that asks for equality.
pub proof fn equality_is_the_default(window: Seq<char>, wanted: Seq<char>)
    ensures
        name_match(None, window, wanted) == name_match(
            Some(MatchStrategy::Equals),
            window,
            wanted,
        ),
{
}

// ---------------------------------------------------------------------------------------------
// Searching
// ---------------------------------------------------------------------------------------------

/// The names of a window, as far as they have been asked for.
#[derive(Debug, Clone)]
pub struct WindowNames {
    pub title: Option<String>,
    pub class: Option<String>,
    pub process: Option<String>,
}

/// What a search for a rule came to.
#[derive(Debug, Clone, Copy, PartialEq, Eq, Structural)]
pub enum RuleSearch {
    /// The rule at this place applies.
    Found(usize),
    /// No rule applies.
    NoMatch,
    /// The search cannot go on before this name of the window is known.
    NeedName(MatchKind),
    /// The rule at this place holds a pattern that does not compile.
    InvalidRegex(usize),
}

/// What a rule says of a window.
#[derive(Debug, Clone, Copy, PartialEq, Eq, Structural)]
pub enum RuleOutcome {
    /// Nothing: a part of the rule is missing.
    Skipped,
    /// It depends on a name of the window that is not known.
    Needs(MatchKind),
    /// Whether the rule matches.
    Decided(bool),
    /// Nothing: its pattern does not compile.
    BadPattern,
}

impl WindowNames {
    /// The name of a kind, where it is known.
    pub open spec fn known(&self, kind: MatchKind) -> Option<Seq<char>> {
        let name = match kind {
            MatchKind::Title => self.title,
            MatchKind::Class => self.class,
            MatchKind::Process => self.process,
        };
        match name {
            Some(text) => Some(text@),
            None => None,
        }
    }

    /// Whether everything that is known here is known there too, and the same.
    pub open spec fn known_in(&self, other: &WindowNames) -> bool {
        forall|kind: MatchKind|
            (#[trigger] self.known(kind)) is Some ==> other.known(kind) == self.known(kind)
    }

    /// No names.
    pub fn new() -> (names: Self)
        ensures
            forall|kind: MatchKind| (#[trigger] names.known(kind)) is None,
    {
        WindowNames { title: None, class: None, process: None }
    }

    /// Takes note of a name.
    pub fn supply(&mut self, kind: MatchKind, name: String)
        ensures
            final(self).known(kind) == Some(name@),
            forall|other: MatchKind|
                other != kind ==> #[trigger] final(self).known(other) == old(self).known(other),
    {
        match kind {
            MatchKind::Title => {
                self.title = Some(name);
            },
            MatchKind::Class => {
                self.class = Some(name);
            },
            MatchKind::Process => {
                self.process = Some(name);
            },
        }
    }

    fn name(&self, kind: MatchKind) -> (name: Option<&String>)
        ensures
            name is Some <==> self.known(kind) is Some,
            name matches Some(text) ==> self.known(kind) == Some(text@),
    {
        match kind {
            MatchKind::Title => self.title.as_ref(),
            MatchKind::Class => self.class.as_ref(),
            MatchKind::Process => self.process.as_ref(),
        }
    }
}

/// What a rule says of a window. A rule without a kind or without a name is passed over, the
/// latter only once the window's name is known.
pub open spec fn rule_outcome(rule: WindowRule, names: WindowNames) -> RuleOutcome {
    match rule.kind {
        None => RuleOutcome::Skipped,
        Some(kind) => match names.known(kind) {
            None => RuleOutcome::Needs(kind),
            Some(window) => match rule.name {
                None => RuleOutcome::Skipped,
                Some(wanted) => match name_match(rule.strategy, window, wanted@) {
                    Some(matched) => RuleOutcome::Decided(matched),
                    None => RuleOutcome::BadPattern,
                },
            },
        },
    }
}

/// Whether a rule lets the search go on to the next one.
pub open spec fn is_passed(rule: WindowRule, names: WindowNames) -> bool {
    rule_outcome(rule, names) is Skipped || rule_outcome(rule, names) == RuleOutcome::Decided(false)
}

/// Whether all rules before `end` let the search go on.
pub open spec fn all_passed(rules: Seq<WindowRule>, names: WindowNames, end: int) -> bool {
    forall|i: int| 0 <= i < end ==> is_passed(#[trigger] rules[i], names)
}

/// Whether a search came to the right result: the first rule that does not let the search go on
/// decides.
pub open spec fn is_search_result(
    rules: Seq<WindowRule>,
    names: WindowNames,
    result: RuleSearch,
) -> bool {
    match result {
        RuleSearch::Found(at) => {
            &&& at < rules.len()
            &&& all_passed(rules, names, at as int)
            &&& rule_outcome(rules[at as int], names) == RuleOutcome::Decided(true)
        },
        RuleSearch::NoMatch => all_passed(rules, names, rules.len() as int),
        RuleSearch::NeedName(kind) => exists|at: int|
            {
                &&& 0 <= at < rules.len()
                &&& #[trigger] all_passed(rules, names, at)
                &&& rule_outcome(rules[at], names) == RuleOutcome::Needs(kind)
            },
        RuleSearch::InvalidRegex(at) => {
            &&& at < rules.len()
            &&& all_passed(rules, names, at as int)
            &&& rule_outcome(rules[at as int], names) is BadPattern
        },
    }
}

fn check_rule(rule: &WindowRule, names: &WindowNames) -> (outcome: RuleOutcome)
    ensures
        outcome == rule_outcome(*rule, *names),
{
    let kind = match rule.kind {
        Some(kind) => kind,
        None => return RuleOutcome::Skipped,
    };
    let window = match names.name(kind) {
        Some(window) => window,
        None => return RuleOutcome::Needs(kind),
    };
    match &rule.name {
        Some(wanted) => match names_match(rule.strategy, window.as_str(), wanted.as_str()) {
            Some(matched) => RuleOutcome::Decided(matched),
            None => RuleOutcome::BadPattern,
        },
        None => RuleOutcome::Skipped,
    }
}

/// What a search comes to at the rule at `at`, given what that rule says; nothing where the search
/// goes on to the next one.
pub fn search_after(outcome: RuleOutcome, at: usize) -> (result: Option<RuleSearch>)
    ensures
        result == (match outcome {
            RuleOutcome::Skipped => None,
            RuleOutcome::Needs(kind) => Some(RuleSearch::NeedName(kind)),
            RuleOutcome::Decided(matched) => if matched {
                Some(RuleSearch::Found(at))
            } else {
                None
            },
            RuleOutcome::BadPattern => Some(RuleSearch::InvalidRegex(at)),
        }),
{
    match outcome {
        RuleOutcome::Skipped => None,
        RuleOutcome::Needs(kind) => Some(RuleSearch::NeedName(kind)),
        RuleOutcome::Decided(matched) => if matched {
            Some(RuleSearch::Found(at))
        } else {
            None
        },
        RuleOutcome::BadPattern => Some(RuleSearch::InvalidRegex(at)),
    }
}

/// Looks for the first rule that matches a window. Names are asked for only once they are needed:
/// the caller supplies the one that is missing and searches again.
pub fn get_window_rule(rules: &Vec<WindowRule>, names: &WindowNames) -> (result: RuleSearch)
    ensures
        is_search_result(rules@, *names, result),
{
    let mut at: usize = 0;
    while at < rules.len()
        invariant
            at <= rules@.len(),
            all_passed(rules@, *names, at as int),
        decreases rules@.len() - at,
    {
        if let Some(result) = search_after(check_rule(&rules[at], names), at) {
            return result;
        }
        at = at + 1;
    }
    RuleSearch::NoMatch
}

/// A search has one result only.
pub proof fn search_result_is_unique(
    rules: Seq<WindowRule>,
    names: WindowNames,
    first: RuleSearch,
    second: RuleSearch,
)
    requires
        is_search_result(rules, names, first),
        is_search_result(rules, names, second),
    ensures
        first == second,
{
    let a = lemma_stop(rules, names, first);
    let b = lemma_stop(rules, names, second);
    if a < b {
        assert(is_passed(rules[a], names));
    }
    if b < a {
        assert(is_passed(rules[b], names));
    }
}

/// Where a search stopped.
proof fn lemma_stop(rules: Seq<WindowRule>, names: WindowNames, result: RuleSearch) -> (at: int)
    requires
        is_search_result(rules, names, result),
    ensures
        0 <= at <= rules.len(),
        all_passed(rules, names, at),
        at == rules.len() <==> result is NoMatch,
        at < rules.len() ==> !is_passed(rules[at], names),
        result matches RuleSearch::Found(i) ==> at == i,
        result matches RuleSearch::InvalidRegex(i) ==> at == i && rule_outcome(
            rules[at],
            names,
        ) is BadPattern,
        result matches RuleSearch::Found(i) ==> rule_outcome(rules[at], names)
            == RuleOutcome::Decided(true),
        result matches RuleSearch::NeedName(kind) ==> rule_outcome(rules[at], names)
            == RuleOutcome::Needs(kind),
{
    match result {
        RuleSearch::Found(i) => i as int,
        RuleSearch::InvalidRegex(i) => i as int,
        RuleSearch::NoMatch => rules.len() as int,
        RuleSearch::NeedName(kind) => choose|at: int|
            {
                &&& 0 <= at < rules.len()
                &&& #[trigger] all_passed(rules, names, at)
                &&& rule_outcome(rules[at], names) == RuleOutcome::Needs(kind)
            },
    }
}

/// Names that were not needed do not matter: a search that came to an end comes to the same one
/// however many more names are known.
pub proof fn more_names_change_nothing(
    rules: Seq<WindowRule>,
    names: WindowNames,
    more: WindowNames,
    result: RuleSearch,
)
    requires
        is_search_result(rules, names, result),
        !(result is NeedName),
        names.known_in(&more),
    ensures
        is_search_result(rules, more, result),
{
    let at = lemma_stop(rules, names, result);
    assert forall|i: int| 0 <= i < rules.len() && !(rule_outcome(
        #[trigger] rules[i],
        names,
    ) is Needs) implies rule_outcome(rules[i], more) == rule_outcome(rules[i], names) by {
        match rules[i].kind {
            Some(kind) => {
                assert(names.known(kind) is Some);
            },
            None => {},
        }
    }
    assert forall|i: int| 0 <= i < at implies is_passed(#[trigger] rules[i], more) by {
        assert(is_passed(rules[i], names));
    }
}

/// A name is asked for only while it is not known, so that no more than one question is asked per
/// kind of name.
pub proof fn known_names_are_not_asked_for(
    rules: Seq<WindowRule>,
    names: WindowNames,
    kind: MatchKind,
)
    requires
        is_search_result(rules, names, RuleSearch::NeedName(kind)),
    ensures
        names.known(kind) is None,
{
}

/// The first of all matching rules applies.
pub proof fn first_match_wins(rules: Seq<WindowRule>, names: WindowNames, at: usize, other: int)
    requires
        is_search_result(rules, names, RuleSearch::Found(at)),
        0 <= other < rules.len(),
        rule_outcome(rules[other], names) == RuleOutcome::Decided(true),
    ensures
        at <= other,
{
    if other < at {
        assert(is_passed(rules[other], names));
    }
}

// ---------------------------------------------------------------------------------------------
// Whether a window gets a border
// ---------------------------------------------------------------------------------------------

/// What a rule means for a window without a border.
#[derive(Debug, Clone, Copy, PartialEq, Eq, Structural)]
pub enum BorderDecision {
    /// Make a border.
    Create,
    /// The rule forbids a border.
    Disabled,
    /// The window's style forbids a border.
    Filtered,
}

/// Whether a window gets a border: a rule that says so goes before the window's style.
pub open spec fn border_decision(
    enabled: Option<EnableMode>,
    has_filtered_style: bool,
) -> BorderDecision {
    if enabled == Some(EnableMode::Bool(false)) {
        BorderDecision::Disabled
    } else if enabled == Some(EnableMode::Bool(true)) || !has_filtered_style {
        BorderDecision::Create
    } else {
        BorderDecision::Filtered
    }
}

/// Whether a window gets a border: a rule that says so goes before the window's style.
pub fn decide_border(enabled: Option<EnableMode>, has_filtered_style: bool) -> (decision:
    BorderDecision)
    ensures
        decision == border_decision(enabled, has_filtered_style),
{
    match enabled {
        Some(EnableMode::Bool(false)) => BorderDecision::Disabled,
        Some(EnableMode::Bool(true)) => BorderDecision::Create,
        _ => if has_filtered_style {
            BorderDecision::Filtered
        } else {
            BorderDecision::Create
        },
    }
}

} // verus!
