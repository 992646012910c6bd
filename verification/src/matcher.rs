//! The pattern predicate over module specifier strings.
//!
//! A [`Matcher`] is either `Null` (matches nothing), a single regular
//! expression `Pattern`, or `Any`, the logical OR over a list of matchers.
//! Matching is a pure function of the input string.

use vstd::prelude::*;

use crate::config::ConfigError;

verus! {

/// Whether the regex engine accepts `pat` as a valid regular expression.
pub uninterp spec fn pattern_ok(pat: Seq<char>) -> bool;

/// Whether the regular expression compiled from `pat` matches anywhere
/// (unanchored) in `text`.
pub uninterp spec fn regex_match(pat: Seq<char>, text: Seq<char>) -> bool;

/// Relies on `swc_cached::regex::CachedRegex::new`, which returns `Ok` exactly
/// when `regex::Regex::new` accepts the pattern. Its cache only ever holds
/// patterns that compiled before, so success is a function of the pattern alone.
#[verifier::external_body]
fn pattern_compiles(pat: &str) -> (r: bool)
    ensures
        r == pattern_ok(pat@),
{
    swc_cached::regex::CachedRegex::new(pat).is_ok()
}

/// Relies on `swc_cached::regex::CachedRegex::new` and `regex::Regex::is_match`
/// (reached through `CachedRegex`'s `Deref`): `is_match` returns true if and
/// only if the compiled pattern matches somewhere in `text`, a deterministic
/// function of the pattern and the text alone.
#[verifier::external_body]
fn pattern_is_match(pat: &str, text: &str) -> (r: bool)
    ensures
        r == (pattern_ok(pat@) && regex_match(pat@, text@)),
{
    match swc_cached::regex::CachedRegex::new(pat) {
        Ok(re) => re.is_match(text),
        Err(_) => false,
    }
}

/// A pattern predicate over specifier strings.
#[derive(Debug)]
pub enum Matcher {
    /// Matches no string at all (the default, empty configuration).
    Null,
    /// Matches iff the regular expression matches the input anywhere.
    Pattern(String),
    /// Matches iff at least one child matcher matches (logical OR).
    Any(Vec<Matcher>),
}

/// What [`Matcher::matches`] returns: the mathematical matching relation.
///
/// A `Pattern` whose string the regex engine rejects matches nothing; such a
/// matcher is never built by this crate's constructors, which reject the
/// pattern up front instead.
pub open spec fn spec_matches(m: Matcher, text: Seq<char>) -> bool
    decreases m,
{
    match m {
        Matcher::Null => false,
        Matcher::Pattern(p) => pattern_ok(p@) && regex_match(p@, text),
        Matcher::Any(ms) => exists|i: int|
            0 <= i < ms@.len() && spec_matches(#[trigger] ms@[i], text),
    }
}

/// Whether at least one matcher in `ms` matches `text`.
pub open spec fn any_of(ms: Seq<Matcher>, text: Seq<char>) -> bool {
    exists|i: int| 0 <= i < ms.len() && spec_matches(#[trigger] ms[i], text)
}

impl Matcher {
    /// Build a single-pattern matcher, rejecting a string the regex engine
    /// does not accept. Construction is the only failure point: matching
    /// itself is total.
    pub fn new(input: &str) -> (r: Result<Matcher, ConfigError>)
        ensures
            r is Ok <==> pattern_ok(input@),
            r is Ok ==> r->Ok_0 is Pattern && r->Ok_0->Pattern_0@ == input@,
            r is Ok ==> forall|t: Seq<char>|
                spec_matches(r->Ok_0, t) == regex_match(input@, t),
            r is Err ==> r->Err_0 == ConfigError::InvalidPattern,
    {
        if pattern_compiles(input) {
            Ok(Matcher::Pattern(input.to_owned()))
        } else {
            Err(ConfigError::InvalidPattern)
        }
    }

    /// Whether this matcher matches `text`: `Null` never, `Pattern` per the
    /// regular expression, `Any` iff some child matches.
    pub fn matches(&self, text: &str) -> (r: bool)
        ensures
            r == spec_matches(*self, text@),
        decreases *self,
    {
        match self {
            Matcher::Null => false,
            Matcher::Pattern(p) => pattern_is_match(p.as_str(), text),
            Matcher::Any(ms) => {
                let mut i: usize = 0;
                while i < ms.len()
                    invariant
                        *self == Matcher::Any(*ms),
                        i <= ms.len(),
                        forall|j: int| 0 <= j < i ==> !spec_matches(#[trigger] ms@[j], text@),
                    decreases ms.len() - i,
                {
                    proof {
                        assert(decreases_to!(*self => (*self)->Any_0));
                        assert((*self)->Any_0 == *ms);
                        assert(decreases_to!(*ms => ms@));
                        assert(decreases_to!(ms@ => ms@[i as int]));
                    }
                    if ms[i].matches(text) {
                        return true;
                    }
                    i = i + 1;
                }
                false
            },
        }
    }
}

/// `Any` over no matchers matches nothing.
pub proof fn lemma_any_empty(ms: Seq<Matcher>, text: Seq<char>)
    requires
        ms.len() == 0,
    ensures
        !any_of(ms, text),
{
}

/// `Any` over a single matcher behaves exactly like that matcher.
pub proof fn lemma_any_singleton(m: Matcher, ms: Seq<Matcher>, text: Seq<char>)
    requires
        ms.len() == 1,
        ms[0] == m,
    ensures
        any_of(ms, text) == spec_matches(m, text),
{
}

/// OR over a concatenation is the OR of the two parts; with the commutativity
/// and associativity of boolean OR this makes the result of `Any` independent
/// of how its children are grouped or ordered.
pub proof fn lemma_any_concat(a: Seq<Matcher>, b: Seq<Matcher>, text: Seq<char>)
    ensures
        any_of(a + b, text) == (any_of(a, text) || any_of(b, text)),
{
    if any_of(a + b, text) {
        let i = choose|i: int| 0 <= i < (a + b).len() && spec_matches((a + b)[i], text);
        if i < a.len() {
            assert(a[i] == (a + b)[i]);
        } else {
            assert(b[i - a.len()] == (a + b)[i]);
        }
    }
    if any_of(a, text) {
        let i = choose|i: int| 0 <= i < a.len() && spec_matches(a[i], text);
        assert((a + b)[i] == a[i]);
    }
    if any_of(b, text) {
        let i = choose|i: int| 0 <= i < b.len() && spec_matches(b[i], text);
        assert((a + b)[a.len() + i] == b[i]);
    }
}

/// The boolean result of `Any` is commutative: swapping two groups of
/// children never changes it.
pub proof fn lemma_any_commutative(a: Seq<Matcher>, b: Seq<Matcher>, text: Seq<char>)
    ensures
        any_of(a + b, text) == any_of(b + a, text),
{
    lemma_any_concat(a, b, text);
    lemma_any_concat(b, a, text);
}

/// The boolean result of `Any` is associative: regrouping children never
/// changes it.
pub proof fn lemma_any_associative(
    a: Seq<Matcher>,
    b: Seq<Matcher>,
    c: Seq<Matcher>,
    text: Seq<char>,
)
    ensures
        any_of((a + b) + c, text) == any_of(a + (b + c), text),
{
    lemma_any_concat(a + b, c, text);
    lemma_any_concat(a, b, text);
    lemma_any_concat(a, b + c, text);
    lemma_any_concat(b, c, text);
}

/// An `Any` matcher matches iff one of its children does.
pub proof fn lemma_any_unfold(m: Matcher, text: Seq<char>)
    requires
        m is Any,
    ensures
        spec_matches(m, text) == any_of(m->Any_0@, text),
{
}

} // verus!
