use crate::content_detection::{content_sums_fit, matches_fit, matches_view};
use crate::syntax::{is_blank, spec_is_blank, spec_strip_utf8_bom, strip_utf8_bom, SyntaxRequest, SyntaxRequestView};
use crate::syntax_select::{
    opt_choice_view, select_syntax, select_syntax_early, spec_request_early_choice, spec_select_syntax, SyntaxAssets,
    SyntaxChoice,
};
use crate::text::join_newline;
use crate::syntax_select::{has_language, names_view, opt_names_view, spec_language_definition};
use vstd::prelude::*;

verus! {

/// A rule of linguist's content heuristics: it holds of a text when all of
/// its `and` rules hold, its named pattern and one of its patterns match, and
/// none of its negative patterns does. When it holds, the text is in one of
/// its languages.
pub struct ContentRule {
    pub and: Option<Vec<ContentRule>>,
    pub named_pattern: Option<String>,
    pub pattern: Option<Vec<String>>,
    pub negative_pattern: Option<Vec<String>>,
    pub language: Option<Vec<String>>,
}

/// Whether one of the regex patterns matches somewhere in the text, as
/// linguist's `utils::matches_pattern` decides it (each pattern in multi-line
/// mode); `None` when a pattern does not compile or its search fails.
pub uninterp spec fn spec_patterns_match(patterns: Seq<Seq<char>>, content: Seq<char>) -> Option<bool>;

/// The patterns that linguist's bundled heuristics give under a name.
pub uninterp spec fn spec_named_patterns(name: Seq<char>) -> Option<Seq<Seq<char>>>;

/// Calls `linguist::utils::matches_pattern`. Trusted: the result, with an
/// error read as `None`, is named `spec_patterns_match`; with no patterns it
/// is `Some(false)`, since the loop over them finds nothing.
#[verifier::external_body]
fn patterns_match(patterns: &Vec<String>, content: &str) -> (r: Option<bool>)
    ensures
        r == spec_patterns_match(names_view(*patterns), content@),
        patterns@.len() == 0 ==> r == Some(false),
{
    linguist::utils::matches_pattern(patterns, content).ok()
}

/// Looks a name up among the named patterns of linguist's bundled
/// heuristics (`definitions::HEURISTICS.named_patterns`). Trusted: the
/// result is named `spec_named_patterns`.
#[verifier::external_body]
fn named_patterns(name: &str) -> (r: Option<Vec<String>>)
    ensures
        opt_names_view(r) == spec_named_patterns(name@),
{
    linguist::definitions::HEURISTICS.named_patterns.get(name).cloned()
}

#[verifier::external_type_specification]
#[verifier::external_body]
pub struct ExLinguistRule(linguist_types::HeuristicRule);

/// Copies one of linguist's rules, and its `and` rules, field by field.
/// Nothing is stated of the copy: the bundled rule table is read as is.
#[verifier::external_body]
fn copy_rule(rule: &linguist_types::HeuristicRule) -> ContentRule {
    ContentRule {
        and: rule.and.as_ref().map(|rules| rules.iter().map(copy_rule).collect()),
        named_pattern: rule.named_pattern.clone(),
        pattern: rule.pattern.clone(),
        negative_pattern: rule.negative_pattern.clone(),
        language: rule.language.clone(),
    }
}

/// The rules of linguist's bundled heuristics
/// (`definitions::HEURISTICS.disambiguations`), one list per
/// disambiguation, in order. Nothing is stated of the table.
#[verifier::external_body]
pub fn bundled_heuristics() -> Vec<Vec<ContentRule>> {
    linguist::definitions::HEURISTICS.disambiguations.iter().map(|d| d.rules.iter().map(copy_rule).collect()).collect()
}

/// Whether a rule holds of `content`: its `and` rules are tried first, in
/// order, then its named pattern, its patterns and its negative patterns.
/// `None` when a pattern it reaches fails or its named pattern is missing.
pub open spec fn spec_rule_holds(rule: ContentRule, content: Seq<char>) -> Option<bool>
    decreases rule, 1int,
{
    let and_result = match rule.and {
        Some(rules) => spec_all_hold(rules@, content),
        None => Some(true),
    };
    match and_result {
        None => None,
        Some(false) => Some(false),
        Some(true) => {
            let named = match rule.named_pattern {
                Some(n) => match spec_named_patterns(n@) {
                    Some(ps) => spec_patterns_match(ps, content),
                    None => None,
                },
                None => Some(true),
            };
            match named {
                None => None,
                Some(false) => Some(false),
                Some(true) => {
                    let positive = match rule.pattern {
                        Some(ps) => spec_patterns_match(names_view(ps), content),
                        None => Some(true),
                    };
                    match positive {
                        None => None,
                        Some(false) => Some(false),
                        Some(true) => match rule.negative_pattern {
                            Some(ps) => match spec_patterns_match(names_view(ps), content) {
                                None => None,
                                Some(b) => Some(!b),
                            },
                            None => Some(true),
                        },
                    }
                },
            }
        },
    }
}

/// Whether all the rules hold, tried in order up to the first that does not.
pub open spec fn spec_all_hold(rules: Seq<ContentRule>, content: Seq<char>) -> Option<bool>
    decreases rules, 0int,
{
    if rules.len() == 0 {
        Some(true)
    } else {
        match spec_rule_holds(rules[0], content) {
            None => None,
            Some(false) => Some(false),
            Some(true) => spec_all_hold(rules.drop_first(), content),
        }
    }
}

/// Whether a rule holds of `content`, as `spec_rule_holds` states it.
pub fn rule_holds(rule: &ContentRule, content: &str) -> (r: Option<bool>)
    ensures
        r == spec_rule_holds(*rule, content@),
    decreases rule,
{
    match &rule.and {
        Some(rules) => {
            let mut i: usize = 0;
            proof {
                assert(rules@.skip(0) =~= rules@);
            }
            while i < rules.len()
                invariant
                    0 <= i <= rules@.len(),
                    rule.and == Some(*rules),
                    spec_all_hold(rules@, content@) == spec_all_hold(rules@.skip(i as int), content@),
                decreases rules@.len() - i,
            {
                proof {
                    assert(rules@.skip(i as int)[0] == rules@[i as int]);
                    assert(rules@.skip(i as int).drop_first() =~= rules@.skip(i + 1));
                    assert(decreases_to!(*rule => rules@[i as int]));
                }
                match rule_holds(&rules[i], content) {
                    None => {
                        return None;
                    },
                    Some(false) => {
                        return Some(false);
                    },
                    Some(true) => {},
                }
                i += 1;
            }
            proof {
                assert(rules@.skip(i as int) =~= Seq::<ContentRule>::empty());
            }
        },
        None => {},
    }
    match &rule.named_pattern {
        Some(n) => match named_patterns(n.as_str()) {
            Some(ps) => match patterns_match(&ps, content) {
                None => {
                    return None;
                },
                Some(false) => {
                    return Some(false);
                },
                Some(true) => {},
            },
            None => {
                return None;
            },
        },
        None => {},
    }
    match &rule.pattern {
        Some(ps) => match patterns_match(ps, content) {
            None => {
                return None;
            },
            Some(false) => {
                return Some(false);
            },
            Some(true) => {},
        },
        None => {},
    }
    match &rule.negative_pattern {
        Some(ps) => match patterns_match(ps, content) {
            None => None,
            Some(b) => Some(!b),
        },
        None => Some(true),
    }
}

/// How many entries an optional list holds.
pub open spec fn opt_len(v: Option<Vec<String>>) -> int {
    match v {
        Some(l) => l@.len() as int,
        None => 0,
    }
}

/// The score of a rule: one, two per pattern, one per negative pattern, two
/// for a named pattern, and the scores of its `and` rules.
pub open spec fn spec_rule_score(rule: ContentRule) -> int
    decreases rule, 1int,
{
    1 + 2 * opt_len(rule.pattern) + opt_len(rule.negative_pattern) + (if rule.named_pattern is Some {
        2int
    } else {
        0
    }) + match rule.and {
        Some(rules) => spec_scores_sum(rules@),
        None => 0,
    }
}

/// The summed scores of the rules.
pub open spec fn spec_scores_sum(rules: Seq<ContentRule>) -> int
    decreases rules, 0int,
{
    if rules.len() == 0 {
        0
    } else {
        spec_rule_score(rules[0]) + spec_scores_sum(rules.drop_first())
    }
}

/// Scores are positive, sums of them not negative.
proof fn lemma_score_positive(rule: ContentRule)
    ensures
        spec_rule_score(rule) >= 1,
    decreases rule, 1int,
{
    match rule.and {
        Some(rules) => {
            assert(decreases_to!(rule => rules@));
            lemma_sum_nonnegative(rules@);
        },
        None => {},
    }
}

proof fn lemma_sum_nonnegative(rules: Seq<ContentRule>)
    ensures
        spec_scores_sum(rules) >= 0,
    decreases rules, 0int,
{
    if rules.len() > 0 {
        lemma_score_positive(rules[0]);
        lemma_sum_nonnegative(rules.drop_first());
    }
}

/// The score of a rule, or `None` when it does not fit in a machine word.
pub fn rule_score(rule: &ContentRule) -> (r: Option<usize>)
    ensures
        match r {
            Some(n) => n == spec_rule_score(*rule),
            None => spec_rule_score(*rule) > usize::MAX,
        },
    decreases rule,
{
    let mut score: usize = 1;
    let ghost named: int = if rule.named_pattern is Some { 2 } else { 0 };
    proof {
        if rule.and is Some {
            lemma_sum_nonnegative(rule.and->0@);
        }
    }
    match &rule.pattern {
        Some(ps) => {
            if ps.len() > (usize::MAX - score) / 2 {
                return None;
            }
            score = score + 2 * ps.len();
        },
        None => {},
    }
    match &rule.negative_pattern {
        Some(ps) => {
            if ps.len() > usize::MAX - score {
                return None;
            }
            score = score + ps.len();
        },
        None => {},
    }
    if rule.named_pattern.is_some() {
        if score > usize::MAX - 2 {
            return None;
        }
        score = score + 2;
    }
    assert(score == 1 + 2 * opt_len(rule.pattern) + opt_len(rule.negative_pattern) + named);
    match &rule.and {
        Some(rules) => {
            let mut i: usize = 0;
            proof {
                assert(rules@.skip(0) =~= rules@);
            }
            while i < rules.len()
                invariant
                    0 <= i <= rules@.len(),
                    rule.and == Some(*rules),
                    score + spec_scores_sum(rules@.skip(i as int)) == spec_rule_score(*rule),
                decreases rules@.len() - i,
            {
                proof {
                    assert(rules@.skip(i as int)[0] == rules@[i as int]);
                    assert(rules@.skip(i as int).drop_first() =~= rules@.skip(i + 1));
                    assert(decreases_to!(*rule => rules@[i as int]));
                    lemma_sum_nonnegative(rules@.skip(i + 1));
                }
                match rule_score(&rules[i]) {
                    Some(n) => {
                        if n > usize::MAX - score {
                            return None;
                        }
                        score = score + n;
                    },
                    None => {
                        return None;
                    },
                }
                i += 1;
            }
            proof {
                assert(rules@.skip(i as int) =~= Seq::<ContentRule>::empty());
            }
        },
        None => {},
    }
    Some(score)
}

/// The first rule, in order, that holds of `content`; `None` when a rule
/// tried before it fails to evaluate.
pub open spec fn spec_first_match(rules: Seq<ContentRule>, content: Seq<char>) -> Option<Option<ContentRule>>
    decreases rules.len(),
{
    if rules.len() == 0 {
        Some(None)
    } else {
        match spec_rule_holds(rules[0], content) {
            None => None,
            Some(true) => Some(Some(rules[0])),
            Some(false) => spec_first_match(rules.drop_first(), content),
        }
    }
}

/// The names linguist knows, in order.
pub open spec fn known_languages(names: Seq<Seq<char>>) -> Seq<Seq<char>>
    decreases names.len(),
{
    if names.len() == 0 {
        Seq::empty()
    } else {
        known_languages(names.drop_last()) + if spec_language_definition(names.last()) is Some {
            seq![names.last()]
        } else {
            Seq::empty()
        }
    }
}

/// The languages a rule names.
pub open spec fn rule_languages(rule: ContentRule) -> Seq<Seq<char>> {
    match rule.language {
        Some(l) => names_view(l),
        None => Seq::empty(),
    }
}

/// For every disambiguation, in order, that has a rule holding of `content`:
/// the first such rule's score and the languages it names that linguist
/// knows. `None` when a rule fails to evaluate (a bundled pattern does not
/// compile or a named pattern is missing) or a score does not fit in a
/// machine word.
pub open spec fn spec_heuristic_matches(ds: Seq<Vec<ContentRule>>, content: Seq<char>) -> Option<
    Seq<(usize, Seq<Seq<char>>)>,
>
    decreases ds.len(),
{
    if ds.len() == 0 {
        Some(Seq::empty())
    } else {
        match spec_heuristic_matches(ds.drop_last(), content) {
            None => None,
            Some(m) => match spec_first_match(ds.last()@, content) {
                None => None,
                Some(None) => Some(m),
                Some(Some(r)) => if spec_rule_score(r) <= usize::MAX {
                    Some(m.push((spec_rule_score(r) as usize, known_languages(rule_languages(r)))))
                } else {
                    None
                },
            },
        }
    }
}

proof fn lemma_matches_prefix_fails(ds: Seq<Vec<ContentRule>>, content: Seq<char>, i: int)
    requires
        0 <= i <= ds.len(),
        spec_heuristic_matches(ds.take(i), content) is None,
    ensures
        spec_heuristic_matches(ds, content) is None,
    decreases ds.len() - i,
{
    if i < ds.len() {
        assert(ds.take(i + 1).drop_last() =~= ds.take(i));
        lemma_matches_prefix_fails(ds, content, i + 1);
    } else {
        assert(ds.take(i) =~= ds);
    }
}

/// The index of the first rule that holds of `content`, as
/// `spec_first_match` states it.
fn first_matching_rule(rules: &Vec<ContentRule>, content: &str) -> (r: Option<Option<usize>>)
    ensures
        match r {
            None => spec_first_match(rules@, content@) is None,
            Some(None) => spec_first_match(rules@, content@) == Some(None::<ContentRule>),
            Some(Some(k)) => k < rules@.len() && spec_first_match(rules@, content@) == Some(Some(rules@[k as int])),
        },
{
    let mut i: usize = 0;
    proof {
        assert(rules@.skip(0) =~= rules@);
    }
    while i < rules.len()
        invariant
            0 <= i <= rules@.len(),
            spec_first_match(rules@, content@) == spec_first_match(rules@.skip(i as int), content@),
        decreases rules@.len() - i,
    {
        proof {
            assert(rules@.skip(i as int)[0] == rules@[i as int]);
            assert(rules@.skip(i as int).drop_first() =~= rules@.skip(i + 1));
        }
        match rule_holds(&rules[i], content) {
            None => {
                return None;
            },
            Some(true) => {
                return Some(Some(i));
            },
            Some(false) => {},
        }
        i += 1;
    }
    proof {
        assert(rules@.skip(i as int) =~= Seq::<ContentRule>::empty());
    }
    Some(None)
}

/// The languages a rule names that linguist knows.
fn known_rule_languages(rule: &ContentRule) -> (r: Vec<String>)
    ensures
        names_view(r) == known_languages(rule_languages(*rule)),
{
    let mut out: Vec<String> = Vec::new();
    match &rule.language {
        Some(names) => {
            let mut i: usize = 0;
            while i < names.len()
                invariant
                    0 <= i <= names@.len(),
                    rule.language == Some(*names),
                    names_view(out) == known_languages(names_view(*names).take(i as int)),
                decreases names@.len() - i,
            {
                proof {
                    assert(names_view(*names).take(i + 1).drop_last() =~= names_view(*names).take(i as int));
                    assert(names_view(*names).take(i + 1).last() == names@[i as int]@);
                }
                if has_language(names[i].as_str()) {
                    let ghost before = names_view(out);
                    out.push(names[i].clone());
                    proof {
                        assert(names_view(out) =~= before + seq![names@[i as int]@]);
                    }
                }
                i += 1;
            }
            proof {
                assert(names_view(*names).take(i as int) =~= names_view(*names));
            }
        },
        None => {
            proof {
                assert(names_view(out) =~= known_languages(Seq::empty()));
            }
        },
    }
    out
}

/// For every disambiguation that has a rule holding of `content`, the first
/// such rule's score and the languages it names that linguist knows, as
/// `spec_heuristic_matches` states it.
pub fn heuristic_matches(rules: &Vec<Vec<ContentRule>>, content: &str) -> (m: Option<Vec<(usize, Vec<String>)>>)
    ensures
        match m {
            Some(v) => spec_heuristic_matches(rules@, content@) == Some(matches_view(v)),
            None => spec_heuristic_matches(rules@, content@) is None,
        },
{
    let mut out: Vec<(usize, Vec<String>)> = Vec::new();
    let mut d: usize = 0;
    proof {
        assert(rules@.take(0) =~= Seq::<Vec<ContentRule>>::empty());
        assert(matches_view(out) =~= Seq::<(usize, Seq<Seq<char>>)>::empty());
    }
    while d < rules.len()
        invariant
            0 <= d <= rules@.len(),
            spec_heuristic_matches(rules@.take(d as int), content@) == Some(matches_view(out)),
        decreases rules@.len() - d,
    {
        proof {
            assert(rules@.take(d + 1).drop_last() =~= rules@.take(d as int));
            assert(rules@.take(d + 1).last() == rules@[d as int]);
        }
        match first_matching_rule(&rules[d], content) {
            None => {
                proof {
                    lemma_matches_prefix_fails(rules@, content@, d + 1);
                }
                return None;
            },
            Some(None) => {},
            Some(Some(k)) => {
                let rule = &rules[d][k];
                match rule_score(rule) {
                    Some(score) => {
                        let languages = known_rule_languages(rule);
                        let ghost before = matches_view(out);
                        out.push((score, languages));
                        proof {
                            assert(matches_view(out) =~= before.push((score, names_view(languages))));
                        }
                    },
                    None => {
                        proof {
                            lemma_matches_prefix_fails(rules@, content@, d + 1);
                        }
                        return None;
                    },
                }
            },
        }
        d += 1;
    }
    proof {
        assert(rules@.take(d as int) =~= rules@);
    }
    Some(out)
}

/// The heuristic matches of a request's text: none for a blank text, else
/// those of the text without a leading byte order mark.
pub open spec fn spec_content_matches(rules: Seq<Vec<ContentRule>>, r: SyntaxRequestView) -> Option<
    Seq<(usize, Seq<Seq<char>>)>,
> {
    let text = join_newline(r.lines);
    if spec_is_blank(text) {
        Some(Seq::empty())
    } else {
        spec_heuristic_matches(rules, spec_strip_utf8_bom(text))
    }
}

/// The heuristic matches of a request's text, as `spec_content_matches`
/// states them.
pub fn content_matches_for(rules: &Vec<Vec<ContentRule>>, request: &SyntaxRequest) -> (m: Option<Vec<(usize, Vec<String>)>>)
    ensures
        match m {
            Some(v) => spec_content_matches(rules@, request@) == Some(matches_view(v)),
            None => spec_content_matches(rules@, request@) is None,
        },
{
    let text = request.joined_text();
    if is_blank(text.as_str()) {
        let empty: Vec<(usize, Vec<String>)> = Vec::new();
        assert(matches_view(empty) =~= Seq::<(usize, Seq<Seq<char>>)>::empty());
        return Some(empty);
    }
    heuristic_matches(rules, strip_utf8_bom(text.as_str()))
}

/// The syntax a request is highlighted with and the language shown for it:
/// the early choice when one decides; otherwise the choice with the content
/// heuristics of `rules` read off the request's text. `None` where those
/// heuristics are needed and cannot be evaluated or their sums do not fit in
/// a machine word.
pub open spec fn spec_detected_choice(rules: Seq<Vec<ContentRule>>, request: &SyntaxRequest) -> Option<
    (Option<Seq<char>>, Seq<char>),
> {
    match spec_request_early_choice(request) {
        Some(c) => Some(c),
        None => match spec_content_matches(rules, request@) {
            Some(m) => if content_sums_fit(m) {
                Some(spec_select_syntax(request, m))
            } else {
                None
            },
            None => None,
        },
    }
}

/// The syntax a request is highlighted with, as `spec_detected_choice`
/// states it; the heuristics are evaluated only when no earlier step
/// decides.
pub fn detect_syntax(assets: &SyntaxAssets, rules: &Vec<Vec<ContentRule>>, request: &SyntaxRequest) -> (c: Option<SyntaxChoice>)
    ensures
        opt_choice_view(c) == spec_detected_choice(rules@, request),
{
    match select_syntax_early(assets, request) {
        Some(c) => {
            return Some(c);
        },
        None => {},
    }
    match content_matches_for(rules, request) {
        Some(m) => if matches_fit(&m) {
            Some(select_syntax(assets, request, &m))
        } else {
            None
        },
        None => None,
    }
}

} // verus!
