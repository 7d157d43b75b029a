//! Composable string filters.
//!
//! A [`Filter`] holds an ordered set of patterns and matches a subject when
//! at least one pattern matches it. Patterns are anything implementing
//! [`FilterFn`]; a `String` pattern matches by substring containment, and a
//! `Filter` is itself a pattern, so filters nest with flattened
//! any-of-them semantics. An empty filter matches nothing.

use vstd::prelude::*;

use crate::text::{spec_contains, str_contains};

verus! {

/// A predicate over strings with a specification-level meaning.
pub trait FilterFn: Sized {
    /// What this pattern means: the subjects it accepts.
    spec fn spec_filter(&self, input: Seq<char>) -> bool;

    /// Decide whether the subject is accepted.
    fn filter(&self, input: &str) -> (r: bool)
        ensures
            r == self.spec_filter(input@),
    ;
}

impl FilterFn for String {
    /// A string pattern accepts every subject that contains it.
    open spec fn spec_filter(&self, input: Seq<char>) -> bool {
        spec_contains(input, self@)
    }

    fn filter(&self, input: &str) -> (r: bool) {
        str_contains(input, self.as_str())
    }
}

/// An ordered set of patterns, matching a subject when any pattern does.
#[derive(Clone)]
pub struct Filter<F: FilterFn> {
    filter: Vec<F>,
}

impl<F: FilterFn> Filter<F> {
    /// The stored pattern sequence.
    pub closed spec fn patterns(&self) -> Seq<F> {
        self.filter@
    }

    /// The filter accepts a subject when at least one stored pattern does.
    /// With no patterns stored, nothing is accepted.
    pub open spec fn spec_matches(&self, input: Seq<char>) -> bool {
        exists|i: int| 0 <= i < self.patterns().len() && self.patterns()[i].spec_filter(input)
    }

    /// An empty filter, which matches nothing.
    pub fn new() -> (r: Self)
        ensures
            r.patterns() =~= Seq::<F>::empty(),
    {
        Filter { filter: Vec::new() }
    }

    /// A filter holding exactly the given patterns, in order.
    pub fn with_filter(filter: Vec<F>) -> (r: Filter<F>)
        ensures
            r.patterns() == filter@,
    {
        Filter { filter }
    }

    /// The same filter with one pattern appended.
    pub fn add_filter(self, filter: F) -> (r: Filter<F>)
        ensures
            r.patterns() == self.patterns().push(filter),
    {
        let mut filters = self.filter;
        filters.push(filter);
        Filter { filter: filters }
    }

    /// Replace the whole pattern set.
    pub fn replace_filter(&mut self, filter: Vec<F>)
        ensures
            final(self).patterns() == filter@,
    {
        self.filter = filter;
    }

    /// Read access to the stored patterns.
    pub fn get_filter(&self) -> (r: &Vec<F>)
        ensures
            r@ == self.patterns(),
    {
        &self.filter
    }
}

impl<F: FilterFn> FilterFn for Filter<F> {
    /// A filter of filters accepts whatever any nested filter accepts.
    open spec fn spec_filter(&self, input: Seq<char>) -> bool {
        self.spec_matches(input)
    }

    fn filter(&self, input: &str) -> (r: bool) {
        let mut i: usize = 0;
        while i < self.filter.len()
            invariant
                0 <= i <= self.filter.len(),
                forall|j: int| 0 <= j < i ==> !self.patterns()[j].spec_filter(input@),
            decreases self.filter.len() - i,
        {
            if self.filter[i].filter(input) {
                assert(self.patterns()[i as int].spec_filter(input@));
                return true;
            }
            i = i + 1;
        }
        false
    }
}

} // verus!
