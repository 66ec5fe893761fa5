use vstd::prelude::*;
use vstd::string::StringExecFns;
use crate::keyed::KeyedList;

verus! {

/// Why a detection could not be made.
#[derive(Debug)]
pub enum DetectorError {
    ParameterMapNone(String),
    BernoulliParameterNotFound(String),
    PoissonParameterNotFound(String),
}

/// The description of `e`.
pub open spec fn detector_error_text(e: DetectorError) -> Seq<char> {
    match e {
        DetectorError::ParameterMapNone(s) => "Parameter map is none for parameter type: "@ + s@,
        DetectorError::BernoulliParameterNotFound(s) => "Bernoulli parameter not found for key: "@
            + s@,
        DetectorError::PoissonParameterNotFound(s) => "Poisson parameter not found for key: "@
            + s@,
    }
}

impl DetectorError {
    /// The description of this error.
    pub fn message(&self) -> (r: String)
        ensures
            r@ == detector_error_text(*self),
    {
        match self {
            DetectorError::ParameterMapNone(s) => String::from_str(
                "Parameter map is none for parameter type: ",
            ).concat(s.as_str()),
            DetectorError::BernoulliParameterNotFound(s) => String::from_str(
                "Bernoulli parameter not found for key: ",
            ).concat(s.as_str()),
            DetectorError::PoissonParameterNotFound(s) => String::from_str(
                "Poisson parameter not found for key: ",
            ).concat(s.as_str()),
        }
    }
}

/// One observed feature: a yes/no fact or a count.
#[derive(Debug, Clone, Copy, PartialEq, Eq, Structural)]
pub enum DetectorValue {
    Bernoulli(bool),
    Poisson(u32),
}

/// Collects observed features by name; a later value for a name replaces
/// the earlier one.
pub struct DetectorDataBuilder {
    data_map: KeyedList<DetectorValue>,
}

impl View for DetectorDataBuilder {
    type V = Map<Seq<char>, DetectorValue>;

    closed spec fn view(&self) -> Map<Seq<char>, DetectorValue> {
        self.data_map@
    }
}

impl DetectorDataBuilder {
    pub closed spec fn wf(&self) -> bool {
        self.data_map.wf()
    }

    /// A builder with no features.
    pub fn new() -> (r: DetectorDataBuilder)
        ensures
            r.wf(),
            r@ == Map::<Seq<char>, DetectorValue>::empty(),
    {
        DetectorDataBuilder { data_map: KeyedList::new() }
    }

    /// Records the yes/no feature `key`.
    pub fn add_bernoulli_value(self, key: &str, value: bool) -> (r: DetectorDataBuilder)
        requires
            self.wf(),
        ensures
            r.wf(),
            r@ == self@.insert(key@, DetectorValue::Bernoulli(value)),
    {
        let mut b = self;
        b.data_map.set(key.to_owned(), DetectorValue::Bernoulli(value));
        b
    }

    /// Records the count feature `key`.
    pub fn add_poisson_value(self, key: &str, value: u32) -> (r: DetectorDataBuilder)
        requires
            self.wf(),
        ensures
            r.wf(),
            r@ == self@.insert(key@, DetectorValue::Poisson(value)),
    {
        let mut b = self;
        b.data_map.set(key.to_owned(), DetectorValue::Poisson(value));
        b
    }

    /// The recorded features, each name once, in the order first recorded.
    pub fn build(self) -> (r: Vec<(String, DetectorValue)>)
        requires
            self.wf(),
        ensures
            forall|i: int, j: int| 0 <= i < j < r@.len() ==> r@[i].0@ != r@[j].0@,
            forall|i: int|
                0 <= i < r@.len() ==> self@.contains_key(#[trigger] r@[i].0@) && self@[r@[i].0@]
                    == r@[i].1,
            forall|k: Seq<char>|
                #[trigger] self@.contains_key(k) ==> exists|i: int| 0 <= i < r@.len() && r@[i].0@ == k,
    {
        self.data_map.into_entries()
    }
}

/// `n!`.
pub open spec fn fact(n: nat) -> nat
    decreases n,
{
    if n == 0 {
        1
    } else {
        n * fact((n - 1) as nat)
    }
}

/// `num!`; it fits in a `u32` up to `12!`.
pub fn factorial(num: u32) -> (r: u32)
    requires
        num <= 12,
    ensures
        r == fact(num as nat),
{
    let mut acc: u32 = 1;
    let mut i: u32 = 0;
    while i < num
        invariant
            i <= num <= 12,
            acc == fact(i as nat),
        decreases num - i,
    {
        i = i + 1;
        proof {
            lemma_fact_bound(i as nat);
        }
        acc = acc * i;
    }
    acc
}

proof fn lemma_fact_bound(n: nat)
    requires
        1 <= n <= 12,
    ensures
        fact((n - 1) as nat) * n <= 479001600,
        fact(n) == fact((n - 1) as nat) * n,
{
    assert(fact(0) == 1);
    assert(fact(1) == 1);
    assert(fact(2) == 2);
    assert(fact(3) == 6);
    assert(fact(4) == 24);
    assert(fact(5) == 120);
    assert(fact(6) == 720);
    assert(fact(7) == 5040);
    assert(fact(8) == 40320);
    assert(fact(9) == 362880);
    assert(fact(10) == 3628800);
    assert(fact(11) == 39916800);
    assert(fact(12) == 479001600);
    assert(n == 1 || n == 2 || n == 3 || n == 4 || n == 5 || n == 6 || n == 7 || n == 8 || n == 9
        || n == 10 || n == 11 || n == 12);
}

} // verus!
