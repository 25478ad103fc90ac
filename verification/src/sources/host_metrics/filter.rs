//! Lists of glob patterns that say which names are wanted.

use vstd::prelude::*;

verus! {

/// Why a pattern was refused.
#[derive(Clone, Copy, Debug)]
pub struct PatternError {
    /// Roughly where in the pattern the error is, in characters.
    pub pos: usize,
    /// What is wrong there.
    pub msg: &'static str,
}

/// What `glob::Pattern::new` finds wrong with a pattern: where, and what. None where the pattern
/// compiles.
pub uninterp spec fn glob_syntax_error(pattern: Seq<char>) -> Option<(usize, Seq<char>)>;

/// Whether the compiled pattern matches a text, as `glob::Pattern::matches` has it.
pub uninterp spec fn glob_match(pattern: Seq<char>, value: Seq<char>) -> bool;

/// A pattern in which every character stands for itself.
pub open spec fn literal_pattern(pattern: Seq<char>) -> bool {
    forall|i: int|
        0 <= i < pattern.len() ==> {
            &&& #[trigger] pattern[i] != '?'
            &&& pattern[i] != '*'
            &&& pattern[i] != '['
        }
}

/// A pattern that is literal but for one `*` at its end.
pub open spec fn prefix_pattern(pattern: Seq<char>) -> bool {
    &&& pattern.len() > 0
    &&& pattern.last() == '*'
    &&& literal_pattern(pattern.drop_last())
}

/// A pattern of one of these two shapes.
pub open spec fn simple_pattern(pattern: Seq<char>) -> bool {
    literal_pattern(pattern) || prefix_pattern(pattern)
}

/// What a pattern of these shapes matches: the text itself, or the texts that start with what
/// stands before the `*`.
pub open spec fn simple_match(pattern: Seq<char>, value: Seq<char>) -> bool {
    if literal_pattern(pattern) {
        pattern == value
    } else {
        pattern.drop_last().is_prefix_of(value)
    }
}

/// `glob::Pattern::new`: compiles a pattern, or says where and why it does not compile. Patterns
/// without `?`, `[` and more than a closing `*` compile.
#[verifier::external_body]
fn glob_check(pattern: &str) -> (checked: Result<(), PatternError>)
    ensures
        match checked {
            Ok(_) => glob_syntax_error(pattern@) is None,
            Err(e) => glob_syntax_error(pattern@) == Some((e.pos, e.msg@)),
        },
        simple_pattern(pattern@) ==> checked is Ok,
{
    match glob::Pattern::new(pattern) {
        Ok(_) => Ok(()),
        Err(e) => Err(PatternError { pos: e.pos, msg: e.msg }),
    }
}

/// `glob::Pattern::matches` on a pattern that compiles. A literal pattern matches itself alone,
/// and one with a closing `*` every text that starts with what stands before it.
#[verifier::external_body]
fn glob_matches(pattern: &str, value: &str) -> (matched: bool)
    requires
        glob_syntax_error(pattern@) is None,
    ensures
        matched == glob_match(pattern@, value@),
        simple_pattern(pattern@) ==> matched == simple_match(pattern@, value@),
{
    glob::Pattern::new(pattern).unwrap().matches(value)
}

/// A glob pattern that is known to compile.
#[derive(Debug)]
pub struct PatternWrapper {
    pattern: String,
}

impl View for PatternWrapper {
    type V = Seq<char>;

    closed spec fn view(&self) -> Seq<char> {
        self.pattern@
    }
}

impl PatternWrapper {
    #[verifier::type_invariant]
    spec fn well_formed(self) -> bool {
        glob_syntax_error(self.pattern@) is None
    }

    /// Takes a pattern, if it compiles.
    pub fn try_from(pattern: String) -> (wrapped: Result<PatternWrapper, PatternError>)
        ensures
            match wrapped {
                Ok(p) => glob_syntax_error(pattern@) is None && p@ == pattern@,
                Err(e) => glob_syntax_error(pattern@) == Some((e.pos, e.msg@)),
            },
            simple_pattern(pattern@) ==> wrapped is Ok,
    {
        match glob_check(pattern.as_str()) {
            Ok(_) => Ok(PatternWrapper { pattern }),
            Err(e) => Err(e),
        }
    }

    /// Whether the pattern matches all of `value`.
    pub fn matches_str(&self, value: &str) -> (matched: bool)
        ensures
            matched == glob_match(self@, value@),
            simple_pattern(self@) ==> matched == simple_match(self@, value@),
    {
        proof {
            use_type_invariant(&*self);
        }
        glob_matches(self.pattern.as_str(), value)
    }
}

impl Clone for PatternWrapper {
    fn clone(&self) -> (copy: PatternWrapper)
        ensures
            copy@ == self@,
    {
        proof {
            use_type_invariant(&*self);
        }
        PatternWrapper { pattern: self.pattern.clone() }
    }
}

/// Whether one of the patterns matches.
pub open spec fn some_match(patterns: Seq<PatternWrapper>, value: Seq<char>) -> bool {
    exists|i: int| 0 <= i < patterns.len() && glob_match((#[trigger] patterns[i])@, value)
}

/// Whether all patterns are literal but for a closing `*`.
pub open spec fn all_simple(patterns: Seq<PatternWrapper>) -> bool {
    forall|i: int| 0 <= i < patterns.len() ==> simple_pattern((#[trigger] patterns[i])@)
}

/// `some_match`, for such patterns.
pub open spec fn some_simple_match(patterns: Seq<PatternWrapper>, value: Seq<char>) -> bool {
    exists|i: int| 0 <= i < patterns.len() && simple_match((#[trigger] patterns[i])@, value)
}

/// Lists of patterns to include or exclude. The patterns are matched using globbing.
#[derive(Debug)]
pub struct FilterList {
    /// Any patterns which should be included. Without a list, everything is.
    pub includes: Option<Vec<PatternWrapper>>,
    /// Any patterns which should be excluded.
    pub excludes: Option<Vec<PatternWrapper>>,
}

impl FilterList {
    /// Whether the filter lets a name through. A name that is not known is let through only
    /// where nothing has to match.
    #[verifier::opaque]
    pub open spec fn admits(self, value: Option<Seq<char>>) -> bool {
        &&& match (self.includes, value) {
            (None, _) => true,
            (Some(_), None) => false,
            (Some(patterns), Some(name)) => some_match(patterns@, name),
        }
        &&& match (self.excludes, value) {
            (None, _) => true,
            (Some(_), None) => true,
            (Some(patterns), Some(name)) => !some_match(patterns@, name),
        }
    }

    /// Whether all its patterns are literal but for a closing `*`.
    #[verifier::opaque]
    pub open spec fn simple(self) -> bool {
        &&& self.includes matches Some(patterns) ==> all_simple(patterns@)
        &&& self.excludes matches Some(patterns) ==> all_simple(patterns@)
    }

    /// `admits`, for such a filter.
    #[verifier::opaque]
    pub open spec fn simply_admits(self, value: Option<Seq<char>>) -> bool {
        &&& match (self.includes, value) {
            (None, _) => true,
            (Some(_), None) => false,
            (Some(patterns), Some(name)) => some_simple_match(patterns@, name),
        }
        &&& match (self.excludes, value) {
            (None, _) => true,
            (Some(_), None) => true,
            (Some(patterns), Some(name)) => !some_simple_match(patterns@, name),
        }
    }

    /// Whether one of the patterns matches.
    fn any_matches(patterns: &Vec<PatternWrapper>, value: &str) -> (found: bool)
        ensures
            found == some_match(patterns@, value@),
            all_simple(patterns@) ==> found == some_simple_match(patterns@, value@),
    {
        let mut i: usize = 0;
        while i < patterns.len()
            invariant
                i <= patterns@.len(),
                forall|j: int| 0 <= j < i ==> !glob_match((#[trigger] patterns@[j])@, value@),
                all_simple(patterns@) ==> forall|j: int|
                    0 <= j < i ==> !simple_match((#[trigger] patterns@[j])@, value@),
            decreases patterns@.len() - i,
        {
            if patterns[i].matches_str(value) {
                return true;
            }
            i = i + 1;
        }
        false
    }

    /// Whether the filter lets `value` through.
    pub fn contains_str(&self, value: Option<&str>) -> (contained: bool)
        ensures
            contained == self.admits(
                match value {
                    Some(v) => Some(v@),
                    None => None,
                },
            ),
            self.simple() ==> contained == self.simply_admits(
                match value {
                    Some(v) => Some(v@),
                    None => None,
                },
            ),
    {
        proof {
            reveal(FilterList::admits);
            reveal(FilterList::simply_admits);
            reveal(FilterList::simple);
        }
        let included: bool = match (&self.includes, value) {
            (None, _) => true,
            (Some(_), None) => false,
            (Some(patterns), Some(v)) => FilterList::any_matches(patterns, v),
        };
        let excluded: bool = match (&self.excludes, value) {
            (None, _) => false,
            (Some(_), None) => false,
            (Some(patterns), Some(v)) => FilterList::any_matches(patterns, v),
        };
        included && !excluded
    }
}

/// The texts of a list of patterns.
pub open spec fn pattern_texts(patterns: Option<Vec<PatternWrapper>>) -> Option<Seq<Seq<char>>> {
    match patterns {
        Some(patterns) => Some(patterns@.map_values(|pattern: PatternWrapper| pattern@)),
        None => None,
    }
}

fn clone_patterns(patterns: &Option<Vec<PatternWrapper>>) -> (copy: Option<Vec<PatternWrapper>>)
    ensures
        pattern_texts(copy) == pattern_texts(*patterns),
{
    let list: &Vec<PatternWrapper> = match patterns {
        Some(list) => list,
        None => {
            return None;
        },
    };
    let mut copy: Vec<PatternWrapper> = Vec::new();
    let mut i: usize = 0;
    while i < list.len()
        invariant
            i <= list@.len(),
            copy@.len() == i,
            forall|j: int| 0 <= j < i ==> (#[trigger] copy@[j])@ == list@[j]@,
        decreases list@.len() - i,
    {
        copy.push(list[i].clone());
        i = i + 1;
    }
    assert(copy@.map_values(|pattern: PatternWrapper| pattern@) =~= list@.map_values(
        |pattern: PatternWrapper| pattern@,
    ));
    Some(copy)
}

impl Clone for FilterList {
    fn clone(&self) -> (copy: FilterList)
        ensures
            pattern_texts(copy.includes) == pattern_texts(self.includes),
            pattern_texts(copy.excludes) == pattern_texts(self.excludes),
    {
        FilterList {
            includes: clone_patterns(&self.includes),
            excludes: clone_patterns(&self.excludes),
        }
    }
}

impl Default for FilterList {
    fn default() -> (filter: FilterList)
        ensures
            filter == (FilterList { includes: None, excludes: None }),
    {
        FilterList { includes: None, excludes: None }
    }
}

/// An empty filter lets everything through.
pub proof fn empty_filter_admits_all(value: Option<Seq<char>>)
    ensures
        (FilterList { includes: None, excludes: None }).admits(value),
{
    reveal(FilterList::admits);
}

/// What an exclude pattern matches is not let through, whatever is included.
pub proof fn excludes_win(filter: FilterList, name: Seq<char>)
    requires
        filter.excludes matches Some(patterns) && some_match(patterns@, name),
    ensures
        !filter.admits(Some(name)),
{
    reveal(FilterList::admits);
}

proof fn lemma_same_match(
    first: Option<Vec<PatternWrapper>>,
    second: Option<Vec<PatternWrapper>>,
    name: Seq<char>,
)
    requires
        pattern_texts(first) == pattern_texts(second),
        first is Some,
    ensures
        second is Some,
        some_match(first->0@, name) == some_match(second->0@, name),
{
    let a = first->0@;
    let b = second->0@;
    let texts = a.map_values(|pattern: PatternWrapper| pattern@);
    assert(texts == b.map_values(|pattern: PatternWrapper| pattern@));
    assert(a.len() == texts.len() && b.len() == texts.len());
    assert forall|i: int| 0 <= i < a.len() implies (#[trigger] a[i])@ == b[i]@ by {
        assert(texts[i] == a[i]@);
        assert(texts[i] == b[i]@);
    }
    if some_match(a, name) {
        let i = choose|i: int| 0 <= i < a.len() && glob_match((#[trigger] a[i])@, name);
        assert(glob_match(b[i]@, name));
    }
    if some_match(b, name) {
        let i = choose|i: int| 0 <= i < b.len() && glob_match((#[trigger] b[i])@, name);
        assert(a[i]@ == b[i]@);
        assert(glob_match(a[i]@, name));
    }
}

/// Filters with the same patterns let the same names through.
pub proof fn same_patterns_admit_the_same(
    first: FilterList,
    second: FilterList,
    value: Option<Seq<char>>,
)
    requires
        pattern_texts(first.includes) == pattern_texts(second.includes),
        pattern_texts(first.excludes) == pattern_texts(second.excludes),
    ensures
        first.admits(value) == second.admits(value),
{
    reveal(FilterList::admits);
    if let Some(name) = value {
        if first.includes is Some {
            lemma_same_match(first.includes, second.includes, name);
        }
        if first.excludes is Some {
            lemma_same_match(first.excludes, second.excludes, name);
        }
    }
}

/// A filter lets a known name through exactly where one of its include patterns matches, if it has
/// a list of them, and none of its exclude patterns does. It lets an unknown name through exactly
/// where it has no list of include patterns.
pub proof fn patterns_decide(filter: FilterList, name: Seq<char>)
    ensures
        filter.admits(Some(name)) <==> {
            &&& filter.includes matches Some(patterns) ==> exists|i: int|
                0 <= i < patterns@.len() && glob_match((#[trigger] patterns@[i])@, name)
            &&& filter.excludes matches Some(patterns) ==> forall|i: int|
                0 <= i < patterns@.len() ==> !glob_match((#[trigger] patterns@[i])@, name)
        },
        filter.admits(None) <==> filter.includes is None,
{
    reveal(FilterList::admits);
}

/// The same of a filter whose patterns are literal but for a closing `*`.
pub proof fn simple_patterns_decide(filter: FilterList, name: Seq<char>)
    ensures
        filter.simply_admits(Some(name)) <==> {
            &&& filter.includes matches Some(patterns) ==> exists|i: int|
                0 <= i < patterns@.len() && simple_match((#[trigger] patterns@[i])@, name)
            &&& filter.excludes matches Some(patterns) ==> forall|i: int|
                0 <= i < patterns@.len() ==> !simple_match((#[trigger] patterns@[i])@, name)
        },
        filter.simply_admits(None) <==> filter.includes is None,
{
    reveal(FilterList::simply_admits);
}

/// Whether a filter is simple is decided by all its patterns.
pub proof fn simple_filters_have_simple_patterns(filter: FilterList)
    ensures
        filter.simple() <==> {
            &&& filter.includes matches Some(patterns) ==> forall|i: int|
                0 <= i < patterns@.len() ==> simple_pattern((#[trigger] patterns@[i])@)
            &&& filter.excludes matches Some(patterns) ==> forall|i: int|
                0 <= i < patterns@.len() ==> simple_pattern((#[trigger] patterns@[i])@)
        },
{
    reveal(FilterList::simple);
}

/// Whether a text has none of the characters that stand for others in a pattern.
pub open spec fn is_literal(text: Seq<char>) -> bool {
    !text.contains('?') && !text.contains('*') && !text.contains('[')
}

/// A pattern without special characters matches just itself.
pub proof fn literal_patterns_match_themselves(pattern: Seq<char>, value: Seq<char>)
    requires
        is_literal(pattern),
    ensures
        simple_pattern(pattern),
        simple_match(pattern, value) <==> value == pattern,
{
    assert(literal_pattern(pattern)) by {
        assert forall|i: int| 0 <= i < pattern.len() implies {
            &&& #[trigger] pattern[i] != '?'
            &&& pattern[i] != '*'
            &&& pattern[i] != '['
        } by {
            assert(pattern.contains(pattern[i]));
        }
    }
}

/// A text without special characters and a closing `*` match just what starts with the text.
pub proof fn closing_stars_match_all_that_starts_so(prefix: Seq<char>, value: Seq<char>)
    requires
        is_literal(prefix),
    ensures
        simple_pattern(prefix.push('*')),
        simple_match(prefix.push('*'), value) <==> {
            &&& value.len() >= prefix.len()
            &&& forall|i: int| 0 <= i < prefix.len() ==> #[trigger] value[i] == prefix[i]
        },
{
    let pattern = prefix.push('*');
    literal_patterns_match_themselves(prefix, value);
    assert(pattern.drop_last() =~= prefix);
    assert(literal_pattern(prefix)) by {
        assert forall|i: int| 0 <= i < prefix.len() implies {
            &&& #[trigger] prefix[i] != '?'
            &&& prefix[i] != '*'
            &&& prefix[i] != '['
        } by {
            assert(prefix.contains(prefix[i]));
        }
    }
    assert(pattern[prefix.len() as int] == '*');
    assert(!literal_pattern(pattern));
    if prefix.is_prefix_of(value) {
        assert forall|i: int| 0 <= i < prefix.len() implies #[trigger] value[i] == prefix[i] by {
            assert(value.subrange(0, prefix.len() as int)[i] == prefix[i]);
        }
    }
    if value.len() >= prefix.len() && (forall|i: int|
        0 <= i < prefix.len() ==> #[trigger] value[i] == prefix[i]) {
        assert(value.subrange(0, prefix.len() as int) =~= prefix);
    }
}

/// The texts of a list of patterns are those of all its patterns, in their order.
pub proof fn pattern_texts_are_complete(patterns: Option<Vec<PatternWrapper>>)
    ensures
        patterns is None <==> pattern_texts(patterns) is None,
        patterns matches Some(list) ==> {
            &&& pattern_texts(patterns)->0.len() == list@.len()
            &&& forall|i: int|
                0 <= i < list@.len() ==> (#[trigger] pattern_texts(patterns)->0[i]) == list@[i]@
        },
{
}

/// A pattern is seen as it is.
proof fn lemma_view_is_whole(wrapper: PatternWrapper)
    ensures
        wrapper@ == wrapper.pattern@,
{
}

/// A known name is contained exactly where one of the include patterns matches it, if there is a
/// list of them, and none of the exclude patterns does. An unknown one is contained exactly where
/// there is no list of include patterns.
pub proof fn patterns_decide_what_is_contained(
    filter: FilterList,
    value: Option<&str>,
    contained: bool,
)
    requires
        call_ensures(FilterList::contains_str, (&filter, value), contained),
    ensures
        value is None ==> (contained <==> filter.includes is None),
        value matches Some(name) ==> (contained <==> {
            &&& filter.includes matches Some(patterns) ==> exists|i: int|
                0 <= i < patterns@.len() && glob_match((#[trigger] patterns@[i])@, name@)
            &&& filter.excludes matches Some(patterns) ==> forall|i: int|
                0 <= i < patterns@.len() ==> !glob_match((#[trigger] patterns@[i])@, name@)
        }),
{
    match value {
        Some(name) => {
            patterns_decide(filter, name@);
        },
        None => {
            patterns_decide(filter, Seq::empty());
        },
    }
}

}
