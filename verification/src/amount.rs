//! Amounts of credit.

use vstd::prelude::*;
use crate::double::Double;
use crate::json::{as_double, double, json_tree, unsigned, JsonNumber, JsonTree};
use crate::nearest::{is_nearest_double, lemma_nearest_to_zero};

verus! {

/// An amount of credit: a double, kept as the JSON number that is written to the cache. The
/// crate carries amounts and never computes with them.
#[derive(Debug)]
pub struct Amount {
    value: serde_json::Value,
}

impl View for Amount {
    type V = Double;

    /// The amount as a double.
    closed spec fn view(&self) -> Double {
        Double { bits: json_tree(self.value).as_double().unwrap() }
    }
}

impl Amount {
    #[verifier::type_invariant]
    closed spec fn is_float(self) -> bool {
        json_tree(self.value) matches JsonTree::Number(n) && n is Float
    }

    /// No credit at all.
    pub fn zero() -> (a: Amount)
        ensures
            a@ == (Double { bits: 0 }),
    {
        let integer = unsigned(0);
        // The double nearest to the integer zero has no bit set.
        let nearest = as_double(&integer);
        proof {
            lemma_nearest_to_zero(nearest->0);
        }
        match double(&integer) {
            Some(value) => Amount { value },
            None => Amount { value: integer },
        }
    }

    /// The amount that a JSON number stands for; nothing else stands for one.
    pub fn from_json(v: &serde_json::Value) -> (r: Option<Amount>)
        ensures
            match json_tree(*v).as_double() {
                Some(bits) => r is Some && r->0@ == (Double { bits }),
                None => r is None,
            },
            r is Some <==> json_tree(*v) is Number,
            json_tree(*v) matches JsonTree::Number(JsonNumber::Float(bits)) ==> r->0@.bits == bits,
            json_tree(*v) matches JsonTree::Number(JsonNumber::Unsigned(n)) ==> is_nearest_double(
                r->0@,
                n as int,
            ),
            json_tree(*v) matches JsonTree::Number(JsonNumber::Negative(n)) ==> is_nearest_double(
                r->0@,
                n as int,
            ),
    {
        match double(v) {
            Some(value) => Some(Amount { value }),
            None => None,
        }
    }

    /// The JSON number that stands for the amount.
    pub fn to_json(&self) -> (v: serde_json::Value)
        ensures
            json_tree(v) == JsonTree::Number(JsonNumber::Float(self@.bits)),
    {
        proof {
            use_type_invariant(self);
        }
        self.value.clone()
    }

    /// The amount as a double.
    pub fn to_double(&self) -> (d: Double)
        ensures
            d == self@,
    {
        proof {
            use_type_invariant(self);
        }
        match as_double(&self.value) {
            Some(d) => d,
            None => Double { bits: 0 },
        }
    }
}

impl Clone for Amount {
    fn clone(&self) -> (a: Amount)
        ensures
            a@ == self@,
    {
        proof {
            use_type_invariant(self);
        }
        Amount { value: self.value.clone() }
    }
}

}
