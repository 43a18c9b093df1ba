//! Rules that values are checked against, and what a check finds.

use vstd::prelude::*;

verus! {

/// What validation found wrong with a value. Each flag stands for one rule;
/// a value is valid when no flag is set.
#[derive(Clone, Copy, Debug, PartialEq, Eq, Structural)]
pub struct ValidationErrors {
    /// Some sparse vector has a different number of values than of indices.
    pub values_length: bool,
    /// Some sparse vector has indices that are not strictly ascending.
    pub indices_order: bool,
}

/// A rule that a value can break.
#[derive(Clone, Copy, Debug, PartialEq, Eq, Structural)]
pub enum Rule {
    /// A sparse vector has as many values as indices.
    ValuesLength,
    /// The indices of a sparse vector are unique and ascending.
    IndicesOrder,
}

impl ValidationErrors {
    /// Whether `rule` is broken.
    pub open spec fn has(self, rule: Rule) -> bool {
        match rule {
            Rule::ValuesLength => self.values_length,
            Rule::IndicesOrder => self.indices_order,
        }
    }

    /// No rule is broken.
    pub open spec fn none() -> Self {
        ValidationErrors { values_length: false, indices_order: false }
    }

    /// Whether no rule is broken.
    pub open spec fn is_clean(self) -> bool {
        !self.values_length && !self.indices_order
    }

    /// The rules broken by either of two findings.
    pub open spec fn union(self, other: Self) -> Self {
        ValidationErrors {
            values_length: self.values_length || other.values_length,
            indices_order: self.indices_order || other.indices_order,
        }
    }

    /// What a validation returns on these findings: success when clean, else
    /// the findings as the error.
    pub open spec fn outcome(self) -> Result<(), ValidationErrors> {
        if self.is_clean() {
            Ok(())
        } else {
            Err(self)
        }
    }

    /// Findings with no rule broken.
    pub fn new() -> (errors: Self)
        ensures
            errors == Self::none(),
    {
        ValidationErrors { values_length: false, indices_order: false }
    }

    /// Whether no rule is broken.
    pub fn is_empty(&self) -> (clean: bool)
        ensures
            clean == self.is_clean(),
    {
        !self.values_length && !self.indices_order
    }

    /// Adds the findings of `other` to these.
    pub fn merge(self, other: Self) -> (merged: Self)
        ensures
            merged == self.union(other),
    {
        ValidationErrors {
            values_length: self.values_length || other.values_length,
            indices_order: self.indices_order || other.indices_order,
        }
    }

    /// Turns findings into the result of a validation.
    pub fn into_result(self) -> (result: Result<(), ValidationErrors>)
        ensures
            result == self.outcome(),
    {
        if self.is_empty() {
            Ok(())
        } else {
            Err(self)
        }
    }
}

/// A value that can be checked against the rules of its type.
pub trait Validate {
    /// The rules that the value breaks.
    spec fn errors(&self) -> ValidationErrors;

    /// Checks the value: `Ok` when it breaks no rule, else every broken rule.
    fn validate(&self) -> (result: Result<(), ValidationErrors>)
        ensures
            result == self.errors().outcome(),
    ;
}

/// An entry of a map by name is checked as its value is.
impl<V: Validate> Validate for (String, V) {
    open spec fn errors(&self) -> ValidationErrors {
        self.1.errors()
    }

    fn validate(&self) -> (result: Result<(), ValidationErrors>)
        ensures
            result == self.errors().outcome(),
    {
        self.1.validate()
    }
}

/// Whether some item of a sequence breaks `rule`.
pub open spec fn some_item_breaks<T: Validate>(items: Seq<T>, rule: Rule) -> bool {
    exists|i: int| 0 <= i < items.len() && (#[trigger] items[i]).errors().has(rule)
}

/// The rules broken by at least one item of a sequence.
pub open spec fn errors_of_all<T: Validate>(items: Seq<T>) -> ValidationErrors {
    ValidationErrors {
        values_length: some_item_breaks(items, Rule::ValuesLength),
        indices_order: some_item_breaks(items, Rule::IndicesOrder),
    }
}

/// Findings that agree on every rule are the same findings.
pub proof fn lemma_same_findings(a: ValidationErrors, b: ValidationErrors)
    requires
        forall|rule: Rule| a.has(rule) == b.has(rule),
    ensures
        a == b,
{
    assert(a.has(Rule::ValuesLength) == b.has(Rule::ValuesLength));
    assert(a.has(Rule::IndicesOrder) == b.has(Rule::IndicesOrder));
}

/// The findings over one more item are those over the items before it
/// together with its own.
pub proof fn lemma_errors_of_all_next<T: Validate>(items: Seq<T>, n: int)
    requires
        0 <= n < items.len(),
    ensures
        errors_of_all(items.take(n + 1)) == errors_of_all(items.take(n)).union(
            items[n].errors(),
        ),
{
    let short = items.take(n);
    let long = items.take(n + 1);
    assert forall|rule: Rule|
        some_item_breaks(long, rule) == (some_item_breaks(short, rule) || items[n].errors().has(
            rule,
        )) by {
        if some_item_breaks(short, rule) {
            let i = choose|i: int| 0 <= i < short.len() && (#[trigger] short[i]).errors().has(rule);
            assert(long[i].errors().has(rule));
        }
        if items[n].errors().has(rule) {
            assert(long[n].errors().has(rule));
        }
        if some_item_breaks(long, rule) {
            let i = choose|i: int| 0 <= i < long.len() && (#[trigger] long[i]).errors().has(rule);
            if i < n {
                assert(short[i].errors().has(rule));
            }
        }
    }
    lemma_same_findings(
        errors_of_all(long),
        errors_of_all(short).union(items[n].errors()),
    );
}

/// Validates every item and collects all findings.
pub fn validate_iter<T: Validate>(items: &[T]) -> (result: Result<(), ValidationErrors>)
    ensures
        result == errors_of_all(items@).outcome(),
{
    let mut found = ValidationErrors::new();
    let mut i: usize = 0;
    proof {
        lemma_same_findings(found, errors_of_all(items@.take(0)));
    }
    while i < items.len()
        invariant
            i <= items.len(),
            found == errors_of_all(items@.take(i as int)),
        decreases items.len() - i,
    {
        let next = match items[i].validate() {
            Ok(_) => ValidationErrors::new(),
            Err(e) => e,
        };
        proof {
            lemma_errors_of_all_next(items@, i as int);
        }
        found = found.merge(next);
        i += 1;
    }
    proof {
        assert(items@.take(items@.len() as int) =~= items@);
    }
    found.into_result()
}

} // verus!
