//! Validated keys: a key can only be constructed through [`make_key`], so
//! every key in existence satisfies the predicate it was validated against.

use vstd::prelude::*;

verus! {

/// A validation rule for raw keys of type `K`: a pure predicate over the
/// key's abstract value, together with a human-readable rule description.
pub trait Validator<K: View> {
    /// The predicate that this validator decides.
    spec fn valid(&self, k: K::V) -> bool;

    /// The abstract content of the rule description.
    spec fn rule_desc(&self) -> Seq<char>;

    /// Decide the predicate on a concrete key.
    fn check(&self, k: &K) -> (r: bool)
        ensures
            r == self.valid(k@),
    ;

    /// The human-readable description of the rule.
    fn rule(&self) -> (r: String)
        ensures
            r@ == self.rule_desc(),
    ;
}

/// A raw key was rejected at construction: it broke the validator's rule.
#[derive(Debug)]
pub struct ValidationError<K> {
    /// The raw key that failed.
    pub raw: K,
    /// The description of the rule that it broke.
    pub rule: String,
}

/// A key that satisfies its validation predicate for its entire lifetime.
///
/// The raw key is private and the only constructor is [`make_key`], which
/// re-evaluates the predicate exactly once, at construction.
pub struct ValidatedKey<K: View> {
    raw: K,
    pred: Ghost<spec_fn(K::V) -> bool>,
}

impl<K: View> ValidatedKey<K> {
    /// The abstract value of the underlying raw key.
    pub closed spec fn key(self) -> K::V {
        self.raw@
    }

    /// The predicate this key was validated against.
    pub closed spec fn pred(self) -> spec_fn(K::V) -> bool {
        self.pred@
    }

    /// The invariant: the key satisfies the predicate it was validated
    /// against. Constructed keys always carry it.
    pub open spec fn wf(self) -> bool {
        (self.pred())(self.key())
    }

    /// Borrow the raw key.
    pub fn raw(&self) -> (r: &K)
        ensures
            r@ == self.key(),
    {
        &self.raw
    }
}

/// Construct a validated key, or reject the raw key together with the rule
/// it broke. Succeeds exactly when the validator accepts the raw key.
pub fn make_key<K: View, Va: Validator<K>>(raw: K, validator: &Va) -> (r: Result<
    ValidatedKey<K>,
    ValidationError<K>,
>)
    ensures
        r is Ok <==> validator.valid(raw@),
        r matches Ok(k) ==> {
            &&& k.key() == raw@
            &&& k.wf()
            &&& forall|x: K::V| #[trigger] (k.pred())(x) <==> validator.valid(x)
        },
        r matches Err(e) ==> e.raw == raw && e.rule@ == validator.rule_desc(),
{
    if validator.check(&raw) {
        let ghost p = |x: K::V| validator.valid(x);
        Ok(ValidatedKey { raw, pred: Ghost(p) })
    } else {
        Err(ValidationError { raw, rule: validator.rule() })
    }
}

/// Accepts exactly the non-empty strings; its rule reads "non-empty".
pub struct NonEmptyValidator;

impl Validator<String> for NonEmptyValidator {
    open spec fn valid(&self, k: Seq<char>) -> bool {
        k.len() > 0
    }

    open spec fn rule_desc(&self) -> Seq<char> {
        "non-empty"@
    }

    fn check(&self, k: &String) -> (r: bool) {
        k.as_str().unicode_len() > 0
    }

    fn rule(&self) -> (r: String) {
        String::from_str("non-empty")
    }
}

/// Accepts exactly the integers between `lo` and `hi`, both inclusive; its
/// rule reads "in-range".
pub struct RangeValidator {
    /// The smallest accepted value.
    pub lo: i32,
    /// The largest accepted value.
    pub hi: i32,
}

impl Validator<i32> for RangeValidator {
    open spec fn valid(&self, k: i32) -> bool {
        self.lo <= k <= self.hi
    }

    open spec fn rule_desc(&self) -> Seq<char> {
        "in-range"@
    }

    fn check(&self, k: &i32) -> (r: bool) {
        self.lo <= *k && *k <= self.hi
    }

    fn rule(&self) -> (r: String) {
        String::from_str("in-range")
    }
}

} // verus!
