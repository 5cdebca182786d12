//! Pattern compiler: turns user-supplied filter strings into pre-compiled
//! matchers. A metric filter is a set of alternatives, each derived from a
//! user pattern by prefixing `^(\S*)\s`, so it anchors on the metric-name
//! token of a `"<name> <rest-of-line>"` subject. A selector is a single
//! pattern derived by prefixing `^`, anchored at the start only.
use vstd::prelude::*;

use crate::msg::join2;

verus! {

/// Whether a pattern is valid regular-expression syntax, that is, whether
/// `regex::Regex::new` accepts it.
pub uninterp spec fn regex_valid(pattern: Seq<char>) -> bool;

/// Whether the regular expression `pattern` matches somewhere in `subject`,
/// that is, what `regex::Regex::is_match` returns for them.
pub uninterp spec fn regex_match(pattern: Seq<char>, subject: Seq<char>) -> bool;

/// Whether a sequence of patterns compiles together into one multi-pattern
/// matcher, that is, whether `regex::RegexSet::new` accepts it. This is not
/// the conjunction of single-pattern validity: the joint compilation has
/// its own overall size limit, and it configures the engine differently
/// from compiling each member alone.
pub uninterp spec fn regex_set_valid(patterns: Seq<Seq<char>>) -> bool;

#[verifier::external_type_specification]
#[verifier::external_body]
pub struct ExRegex(regex::Regex);

#[verifier::external_type_specification]
#[verifier::external_body]
pub struct ExRegexSet(regex::RegexSet);

/// A single pre-compiled pattern together with the text it was compiled
/// from; its mathematical image is that text.
#[derive(Debug)]
pub struct CompiledPattern {
    pattern: String,
    re: regex::Regex,
}

impl View for CompiledPattern {
    type V = Seq<char>;

    closed spec fn view(&self) -> Seq<char> {
        self.pattern@
    }
}

/// A pre-compiled multi-pattern matcher together with the texts it was
/// compiled from; its mathematical image is that sequence of texts.
#[derive(Debug)]
pub struct MetricFilter {
    patterns: Vec<String>,
    set: regex::RegexSet,
}

impl View for MetricFilter {
    type V = Seq<Seq<char>>;

    closed spec fn view(&self) -> Seq<Seq<char>> {
        self.patterns@.map_values(|p: String| p@)
    }
}

/// Relies on `regex::Regex::new`: compilation succeeds exactly when the
/// pattern is valid regular-expression syntax (which `regex_valid` names),
/// and the compiled value matches as that pattern text does. The pattern
/// text is retained beside the compiled value; the two fields are private,
/// so every `CompiledPattern` ties them together.
#[verifier::external_body]
fn regex_compile(pattern: &str) -> (r: Option<CompiledPattern>)
    ensures
        r is Some <==> regex_valid(pattern@),
        r matches Some(cp) ==> cp@ == pattern@,
{
    match regex::Regex::new(pattern) {
        Ok(re) => Some(CompiledPattern { pattern: pattern.to_owned(), re }),
        Err(_) => None,
    }
}

/// Relies on `regex::Regex::is_match`: returns whether the pattern this
/// value was compiled from matches somewhere in the subject, which
/// `regex_match` names.
#[verifier::external_body]
fn regex_is_match(cp: &CompiledPattern, subject: &str) -> (r: bool)
    ensures
        r == regex_match(cp@, subject@),
{
    cp.re.is_match(subject)
}

/// Relies on `regex::RegexSet::new`: at the fixed default configuration,
/// joint compilation succeeds or fails deterministically in the pattern
/// texts alone, which `regex_set_valid` names. The pattern texts are
/// retained beside the compiled set; the fields are private, so every
/// `MetricFilter` ties them together.
#[verifier::external_body]
fn regex_set_compile(patterns: Vec<String>) -> (r: Option<MetricFilter>)
    ensures
        r is Some <==> regex_set_valid(patterns@.map_values(|p: String| p@)),
        r matches Some(f) ==> f@ == patterns@.map_values(|p: String| p@),
{
    match regex::RegexSet::new(patterns.iter().map(|p| p.as_str())) {
        Ok(set) => Some(MetricFilter { patterns, set }),
        Err(_) => None,
    }
}

/// Relies on `regex::RegexSet::is_match`: returns whether at least one
/// member pattern matches somewhere in the subject, member matching being
/// what `regex_match` names.
#[verifier::external_body]
fn regex_set_is_match(f: &MetricFilter, subject: &str) -> (r: bool)
    ensures
        r == (exists|i: int| 0 <= i < f@.len() && regex_match(#[trigger] f@[i], subject@)),
{
    f.set.is_match(subject)
}

/// The pattern a metric filter alternative is compiled from: the user
/// pattern prefixed with a capture of the leading name token.
pub open spec fn metric_pattern_of(user: Seq<char>) -> Seq<char> {
    "^(\\S*)\\s"@ + user
}

/// The pattern a sink selector is compiled from: the user pattern anchored
/// at the start of the subject.
pub open spec fn selector_pattern_of(user: Seq<char>) -> Seq<char> {
    "^"@ + user
}

/// The transformed texts a metric filter is compiled from, one per user
/// pattern.
pub open spec fn metric_patterns_of(users: Seq<Seq<char>>) -> Seq<Seq<char>> {
    users.map_values(|u: Seq<char>| metric_pattern_of(u))
}

impl CompiledPattern {
    /// Whether this pattern matches the subject.
    pub fn matches(&self, subject: &str) -> (r: bool)
        ensures
            r == regex_match(self@, subject@),
    {
        regex_is_match(self, subject)
    }
}

impl MetricFilter {
    /// Whether any alternative of this filter matches the subject.
    pub fn matches(&self, subject: &str) -> (r: bool)
        ensures
            r == (exists|i: int| 0 <= i < self@.len() && regex_match(#[trigger] self@[i], subject@)),
    {
        regex_set_is_match(self, subject)
    }
}

/// Compiles a sink selector from a user pattern, anchoring it at the start.
pub fn compile_selector(user: &str) -> (r: Option<CompiledPattern>)
    ensures
        r is Some <==> regex_valid(selector_pattern_of(user@)),
        r matches Some(cp) ==> cp@ == selector_pattern_of(user@),
{
    let anchored = join2("^", user);
    regex_compile(anchored.as_str())
}

/// Compiles the metric filter of a source from its user patterns: each is
/// prefixed with the name-token anchor, and all are compiled together into
/// a single any-of matcher.
pub fn compile_metric_filters(user: &Vec<String>) -> (r: Option<MetricFilter>)
    ensures
        r is Some <==> regex_set_valid(metric_patterns_of(user@.map_values(|p: String| p@))),
        r matches Some(f) ==> f@ == metric_patterns_of(user@.map_values(|p: String| p@)),
{
    let mut transformed: Vec<String> = Vec::new();
    let mut i: usize = 0;
    while i < user.len()
        invariant
            i <= user@.len(),
            transformed@.len() == i,
            forall|j: int|
                0 <= j < i ==> transformed@[j]@ == metric_pattern_of(#[trigger] user@[j]@),
        decreases user@.len() - i,
    {
        transformed.push(join2("^(\\S*)\\s", user[i].as_str()));
        i += 1;
    }
    let ghost tv = transformed@;
    let r = regex_set_compile(transformed);
    proof {
        assert(tv.map_values(|p: String| p@) =~= metric_patterns_of(
            user@.map_values(|p: String| p@),
        ));
    }
    r
}

} // verus!
