//! Bound kinds and the integer codes by which the integration routine knows them.
//!
//! The table lives in one place, [`BoundType::spec_code`], and is read in both
//! directions: [`BoundType::code`] encodes, [`BoundType::from_code`] decodes.

use vstd::prelude::*;
use vstd::std_specs::convert::IntoSpecImpl;

verus! {

/// Which limits of an integration interval are active.
#[derive(Clone, Debug, Copy, PartialEq, Eq, Structural)]
pub enum BoundType {
    /// Neither limit is active: the interval is the whole real line.
    Unbounded,
    /// The interval is bounded above only: the lower limit is ignored.
    Above,
    /// The interval is bounded below only: the upper limit is ignored.
    Below,
    /// Both limits are active.
    Both,
}

impl BoundType {
    /// The integer by which the integration routine knows this bound kind.
    pub open spec fn spec_code(self) -> i32 {
        match self {
            BoundType::Unbounded => -1i32,
            BoundType::Above => 0i32,
            BoundType::Below => 1i32,
            BoundType::Both => 2i32,
        }
    }

    /// The bound kind that a code stands for, if it stands for one.
    pub open spec fn spec_from_code(code: i32) -> Option<BoundType> {
        if code == -1 {
            Some(BoundType::Unbounded)
        } else if code == 0 {
            Some(BoundType::Above)
        } else if code == 1 {
            Some(BoundType::Below)
        } else if code == 2 {
            Some(BoundType::Both)
        } else {
            None
        }
    }

    /// Encodes the bound kind for the integration routine.
    #[verifier::when_used_as_spec(spec_code)]
    pub fn code(self) -> (c: i32)
        ensures
            c == self.spec_code(),
    {
        match self {
            BoundType::Unbounded => -1,
            BoundType::Above => 0,
            BoundType::Below => 1,
            BoundType::Both => 2,
        }
    }

    /// Decodes a code of the integration routine; `None` for an integer
    /// that is no code.
    pub fn from_code(code: i32) -> (kind: Option<BoundType>)
        ensures
            kind == Self::spec_from_code(code),
            kind is Some <==> -1 <= code <= 2,
            kind matches Some(k) ==> k.spec_code() == code,
    {
        if code == -1 {
            Some(BoundType::Unbounded)
        } else if code == 0 {
            Some(BoundType::Above)
        } else if code == 1 {
            Some(BoundType::Below)
        } else if code == 2 {
            Some(BoundType::Both)
        } else {
            None
        }
    }

    /// Decoding undoes encoding, and no two bound kinds share a code.
    pub proof fn lemma_code_round_trip(self)
        ensures
            Self::spec_from_code(self.spec_code()) == Some(self),
            forall|other: BoundType| other.spec_code() == self.spec_code() ==> other == self,
    {
    }

    /// The codes are the integers from -1 to 2, and encoding undoes decoding.
    pub proof fn lemma_from_code_round_trip(code: i32)
        ensures
            Self::spec_from_code(code) is Some <==> -1 <= code <= 2,
            Self::spec_from_code(code) matches Some(kind) ==> kind.spec_code() == code,
    {
    }
}

/// A bound kind turns into its code.
impl Into<i32> for BoundType {
    fn into(self) -> (c: i32) {
        self.code()
    }
}

impl IntoSpecImpl<i32> for BoundType {
    open spec fn obeys_into_spec() -> bool {
        true
    }

    open spec fn into_spec(self) -> i32 {
        self.spec_code()
    }
}

/// The codes of a sequence of bound kinds, in the same order.
pub open spec fn encode(kinds: Seq<BoundType>) -> Seq<i32> {
    kinds.map_values(|k: BoundType| k.spec_code())
}

/// Whether every element of `codes` is the code of a bound kind.
pub open spec fn decodable(codes: Seq<i32>) -> bool {
    forall|i: int| 0 <= i < codes.len() ==> (#[trigger] BoundType::spec_from_code(codes[i])) is Some
}

/// The bound kinds that a sequence of codes stands for, if each element is a code.
pub open spec fn decode(codes: Seq<i32>) -> Option<Seq<BoundType>> {
    if decodable(codes) {
        Some(codes.map_values(|c: i32| BoundType::spec_from_code(c).unwrap()))
    } else {
        None
    }
}

/// Encodes bound kinds for the integration routine, one code per kind, in order.
pub fn encode_bounds(kinds: &Vec<BoundType>) -> (codes: Vec<i32>)
    ensures
        codes@ == encode(kinds@),
        codes@.len() == kinds@.len(),
        forall|i: int| 0 <= i < kinds@.len() ==> codes@[i] == (#[trigger] kinds@[i]).spec_code(),
{
    let mut codes: Vec<i32> = Vec::with_capacity(kinds.len());
    let mut i: usize = 0;
    while i < kinds.len()
        invariant
            i <= kinds@.len(),
            codes@.len() == i,
            forall|j: int| 0 <= j < i ==> codes@[j] == (#[trigger] kinds@[j]).spec_code(),
        decreases kinds@.len() - i,
    {
        codes.push(kinds[i].code());
        i += 1;
    }
    codes
}

/// Decodes a sequence of codes; `None` as soon as one element is no code.
pub fn decode_bounds(codes: &Vec<i32>) -> (kinds: Option<Vec<BoundType>>)
    ensures
        kinds is Some <==> decodable(codes@),
        match kinds {
            Some(k) => Some(k@) == decode(codes@) && encode(k@) == codes@,
            None => decode(codes@) is None,
        },
{
    let mut kinds: Vec<BoundType> = Vec::with_capacity(codes.len());
    let mut i: usize = 0;
    while i < codes.len()
        invariant
            i <= codes@.len(),
            kinds@.len() == i,
            forall|j: int|
                0 <= j < i ==> (#[trigger] BoundType::spec_from_code(codes@[j])) == Some(kinds@[j]),
        decreases codes@.len() - i,
    {
        match BoundType::from_code(codes[i]) {
            Some(k) => {
                kinds.push(k);
            },
            None => {
                return None;
            },
        }
        i += 1;
    }
    proof {
        assert forall|j: int| 0 <= j < codes@.len() implies (#[trigger] encode(kinds@)[j])
            == codes@[j] by {
            assert(BoundType::spec_from_code(codes@[j]) == Some(kinds@[j]));
        }
    }
    Some(kinds)
}

/// Encoding a sequence of bound kinds and decoding the codes gives the
/// sequence back, whatever the sequence.
pub proof fn lemma_encode_decode_round_trip(kinds: Seq<BoundType>)
    ensures
        decodable(encode(kinds)),
        decode(encode(kinds)) == Some(kinds),
{
    let codes = encode(kinds);
    assert forall|i: int| 0 <= i < codes.len() implies (#[trigger] BoundType::spec_from_code(
        codes[i],
    )) is Some by {
        kinds[i].lemma_code_round_trip();
    }
    assert forall|i: int| 0 <= i < kinds.len() implies (#[trigger] decode(codes).unwrap()[i])
        == kinds[i] by {
        kinds[i].lemma_code_round_trip();
    }
}

} // verus!
