//! What the generated conversions compute.
//!
//! The conversion to the integer gives each variant its discriminant. The
//! conversion from an integer goes through the variants in their order and
//! takes the first whose discriminant equals the integer; it compares
//! values and does not go by position.
//!
//! A [`Table`] holds an enumeration with the integer of every variant, and
//! computes on it what the generated code computes on the enumeration
//! itself. There is one for every resolved enumeration whose discriminants
//! the engine could all evaluate.

use vstd::prelude::*;
use crate::error::IntEnumError;
use crate::input::Input;
use crate::repr::IntType;
use crate::text::str_eq;
use crate::value::{lemma_value_injective, Value};

verus! {

/// The first position from `from` on at which `values` holds `n`.
pub open spec fn first_match(values: Seq<int>, n: int, from: int) -> Option<int>
    decreases values.len() - from,
{
    if from < 0 || from >= values.len() {
        None
    } else if values[from] == n {
        Some(from)
    } else {
        first_match(values, n, from + 1)
    }
}

/// The first position from `from` on at which `names` holds `name`.
pub open spec fn first_match_name(names: Seq<Seq<char>>, name: Seq<char>, from: int) -> Option<
    int,
>
    decreases names.len() - from,
{
    if from < 0 || from >= names.len() {
        None
    } else if names[from] == name {
        Some(from)
    } else {
        first_match_name(names, name, from + 1)
    }
}

/// Whether no two positions of `values` hold the same integer.
pub open spec fn distinct(values: Seq<int>) -> bool {
    forall|i: int, j: int|
        0 <= i < values.len() && 0 <= j < values.len() && i != j ==> values[i] != values[j]
}

/// What `first_match` finds is the least position that holds `n`, and it
/// finds nothing only where no position holds `n`.
pub proof fn lemma_first_match(values: Seq<int>, n: int, from: int)
    requires
        0 <= from,
    ensures
        match first_match(values, n, from) {
            Some(i) => from <= i < values.len() && values[i] == n && forall|j: int|
                from <= j < i ==> values[j] != n,
            None => forall|j: int| from <= j < values.len() ==> values[j] != n,
        },
    decreases values.len() - from,
{
    if from < values.len() && values[from] != n {
        lemma_first_match(values, n, from + 1);
    }
}

/// An enumeration with the integer of every variant.
#[derive(Debug, PartialEq, Eq)]
pub struct Table {
    target: String,
    repr: String,
    ty: IntType,
    names: Vec<String>,
    values: Vec<Value>,
}

impl Table {
    #[verifier::type_invariant]
    spec fn inv(self) -> bool {
        self.wf()
    }

    /// The name of the enumeration.
    pub closed spec fn target(&self) -> Seq<char> {
        self.target@
    }

    /// The representation as it is written in the declaration.
    pub closed spec fn repr(&self) -> Seq<char> {
        self.repr@
    }

    /// The integer type that represents the enumeration.
    pub closed spec fn ty(&self) -> IntType {
        self.ty
    }

    /// The names of the variants, in their order.
    pub closed spec fn names(&self) -> Seq<Seq<char>> {
        Seq::new(self.names@.len(), |i: int| self.names@[i]@)
    }

    /// The integers that the variants stand for, in the order of the
    /// variants.
    pub closed spec fn values(&self) -> Seq<int> {
        Seq::new(self.values@.len(), |i: int| self.values@[i]@)
    }

    /// Whether every variant has a name and an integer, and the integer is
    /// one of the representation.
    pub open spec fn wf(&self) -> bool {
        &&& self.names().len() == self.values().len()
        &&& forall|i: int|
            0 <= i < self.values().len() ==> self.ty().holds(#[trigger] self.values()[i])
    }

    /// The integer that the variant at position `variant` converts to.
    pub open spec fn spec_int_value(&self, variant: int) -> int {
        self.values()[variant]
    }

    /// The position of the variant that `n` converts to, if any.
    pub open spec fn spec_from_int(&self, n: int) -> Option<int> {
        first_match(self.values(), n, 0)
    }

    /// The position of the first variant called `name`, if any.
    pub open spec fn spec_variant_named(&self, name: Seq<char>) -> Option<int> {
        first_match_name(self.names(), name, 0)
    }

    /// The integer type that represents the enumeration.
    pub fn int_type(&self) -> (t: IntType)
        ensures
            t == self.ty(),
    {
        self.ty
    }

    /// The name of the enumeration.
    pub fn name(&self) -> (s: &str)
        ensures
            s@ == self.target(),
    {
        self.target.as_str()
    }

    /// The representation as it is written in the declaration.
    pub fn repr_name(&self) -> (s: &str)
        ensures
            s@ == self.repr(),
    {
        self.repr.as_str()
    }

    /// How many variants the enumeration has.
    pub fn len(&self) -> (n: usize)
        ensures
            n == self.values().len(),
            self.wf(),
    {
        proof {
            use_type_invariant(self);
        }
        self.values.len()
    }

    /// The name of the variant at position `variant`.
    pub fn variant_name(&self, variant: usize) -> (s: &str)
        requires
            variant < self.values().len(),
        ensures
            s@ == self.names()[variant as int],
    {
        proof {
            use_type_invariant(self);
        }
        self.names[variant].as_str()
    }

    /// The position of the first variant called `name`, if any.
    pub fn variant_named(&self, name: &str) -> (r: Option<usize>)
        ensures
            match r {
                Some(i) => self.spec_variant_named(name@) == Some(i as int),
                None => self.spec_variant_named(name@) is None,
            },
            r matches Some(i) ==> i < self.values().len(),
    {
        proof {
            use_type_invariant(self);
        }
        let mut i: usize = 0;
        while i < self.names.len()
            invariant
                0 <= i <= self.names@.len(),
                self.names@.len() == self.values().len(),
                first_match_name(self.names(), name@, 0) == first_match_name(
                    self.names(),
                    name@,
                    i as int,
                ),
            decreases self.names@.len() - i,
        {
            if str_eq(self.names[i].as_str(), name) {
                return Some(i);
            }
            i = i + 1;
        }
        None
    }

    /// The conversion to the integer: the discriminant of the variant at
    /// position `variant`.
    pub fn int_value(&self, variant: usize) -> (v: Value)
        requires
            variant < self.values().len(),
        ensures
            v@ == self.spec_int_value(variant as int),
            self.ty().holds(v@),
    {
        proof {
            use_type_invariant(self);
            assert(self.ty().holds(self.values()[variant as int]));
        }
        self.values[variant]
    }

    /// The conversion from an integer: the position of the first variant
    /// whose discriminant is `n`, or else the error that carries `n`.
    pub fn from_int(&self, n: Value) -> (r: Result<usize, IntEnumError>)
        ensures
            match r {
                Ok(i) => self.spec_from_int(n@) == Some(i as int),
                Err(e) => self.spec_from_int(n@) is None && e.spec_value() == n
                    && e.spec_target() == self.target(),
            },
            r is Ok <==> exists|i: int| 0 <= i < self.values().len() && self.values()[i] == n@,
            r matches Ok(i) ==> i < self.values().len() && self.values()[i as int] == n@,
    {
        proof {
            lemma_first_match(self.values(), n@, 0);
        }
        let mut i: usize = 0;
        while i < self.values.len()
            invariant
                0 <= i <= self.values@.len(),
                first_match(self.values(), n@, 0) == first_match(self.values(), n@, i as int),
            decreases self.values@.len() - i,
        {
            let candidate: Value = self.values[i];
            proof {
                lemma_value_injective(candidate, n);
            }
            if candidate == n {
                return Ok(i);
            }
            i = i + 1;
        }
        Err(IntEnumError::new(self.target.as_str(), n))
    }

    /// Whether no two variants stand for the same integer.
    pub fn is_injective(&self) -> (r: bool)
        ensures
            r == distinct(self.values()),
    {
        let mut i: usize = 0;
        while i < self.values.len()
            invariant
                0 <= i <= self.values@.len(),
                forall|a: int, b: int|
                    0 <= a < i && 0 <= b < self.values().len() && a != b ==> self.values()[a]
                        != self.values()[b],
            decreases self.values@.len() - i,
        {
            let mut j: usize = 0;
            while j < self.values.len()
                invariant
                    0 <= i < self.values@.len(),
                    0 <= j <= self.values@.len(),
                    forall|b: int| 0 <= b < j && i != b ==> self.values()[i as int] != self.values()[b],
                decreases self.values@.len() - j,
            {
                if i != j {
                    let a: Value = self.values[i];
                    let b: Value = self.values[j];
                    proof {
                        lemma_value_injective(a, b);
                    }
                    if a == b {
                        assert(self.values()[i as int] == self.values()[j as int]);
                        return false;
                    }
                }
                j = j + 1;
            }
            i = i + 1;
        }
        true
    }
}

impl Input {
    /// Whether the engine knows the integer of every variant, and each is
    /// an integer of the representation.
    pub open spec fn evaluated(&self) -> bool {
        forall|i: int|
            0 <= i < self.variants@.len() ==> ((#[trigger] self.variants@[i]).value matches Some(
                v,
            ) && self.ty().holds(v@))
    }

    /// The integers that the variants stand for, in the order of the
    /// variants, where the engine knows them all.
    pub open spec fn known_values(&self) -> Seq<int>
        recommends
            self.evaluated(),
    {
        Seq::new(self.variants@.len(), |i: int| self.variants@[i].value->0@)
    }

    /// The names of the variants, in their order.
    pub open spec fn names(&self) -> Seq<Seq<char>> {
        Seq::new(self.variants@.len(), |i: int| self.variants@[i].ident.name@)
    }

    /// The enumeration with the integer of every variant, where the engine
    /// knows them all.
    pub fn table(&self) -> (r: Option<Table>)
        ensures
            r is Some <==> self.evaluated(),
            r matches Some(t) ==> t.wf() && t.target() == self.ident.name@ && t.repr()
                == self.repr.ident.name@ && t.ty() == self.ty() && t.names() == self.names()
                && t.values() == self.known_values(),
    {
        let ty: IntType = self.repr.int_type();
        let mut names: Vec<String> = Vec::new();
        let mut values: Vec<Value> = Vec::new();
        let mut i: usize = 0;
        while i < self.variants.len()
            invariant
                0 <= i <= self.variants@.len(),
                ty == self.ty(),
                names@.len() == i,
                values@.len() == i,
                forall|k: int|
                    0 <= k < i ==> ((#[trigger] self.variants@[k]).value matches Some(v)
                        && self.ty().holds(v@) && values@[k] == v && names@[k]@
                        == self.variants@[k].ident.name@),
                forall|k: int| 0 <= k < i ==> ty.holds((#[trigger] values@[k])@),
            decreases self.variants@.len() - i,
        {
            match self.variants[i].value {
                Some(v) => {
                    if !ty.contains(v) {
                        return None;
                    }
                    values.push(v);
                    names.push(self.variants[i].ident.name.clone());
                },
                None => {
                    return None;
                },
            }
            i = i + 1;
        }
        let t: Table = Table {
            target: self.ident.name.clone(),
            repr: self.repr.ident.name.clone(),
            ty,
            names,
            values,
        };
        Some(t)
    }
}

} // verus!
