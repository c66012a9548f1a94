//! Identifiers for the metrics collaborator.
//!
//! The core records latency and throughput observations against an external
//! metrics registry; that registry is out of scope here and only the typed
//! identifiers keying those observations are defined. A metric or label name
//! is its identifier's ULID form behind a letter prefix, because registries
//! commonly refuse names that start with a digit.

use crate::ulid::{
    crockford_value, lemma_ulid_round_trip, ulid_chars, ulid_u128, ulid_u128_from_str,
    ulid_u128_into_string, valid_ulid_chars, DecodingError, ULID,
};
use vstd::prelude::*;

verus! {

/// The name of a metric identified by `v`: the ULID form prefixed with `M`.
pub open spec fn metric_name_chars(v: u128) -> Seq<char> {
    seq!['M'].add(ulid_chars(v))
}

/// The name of a label identified by `v`: the ULID form prefixed with `L`.
pub open spec fn label_name_chars(v: u128) -> Seq<char> {
    seq!['L'].add(ulid_chars(v))
}

/// Metric Id
#[derive(Debug, Clone, Copy, PartialEq, Eq, Structural, Hash, PartialOrd, Ord)]
pub struct MetricId(pub u128);

impl MetricId {
    /// Generates a new unique MetricId.
    pub fn generate() -> MetricId {
        MetricId(ulid_u128())
    }

    /// ID getter.
    pub fn id(&self) -> (v: u128)
        ensures
            v == self.0,
    {
        self.0
    }

    /// Returns the ID as a ULID.
    pub fn ulid(&self) -> (u: ULID)
        ensures
            u == ULID(self.0),
    {
        ULID(self.0)
    }

    /// The fully qualified metric name: the ULID prefixed with `M`, so that
    /// it never starts with a number.
    pub fn name(&self) -> (s: String)
        ensures
            s@ == metric_name_chars(self.0),
    {
        let mut s = String::from_str("M");
        proof {
            reveal_strlit("M");
            assert(s@ =~= seq!['M']);
        }
        let ulid_str = ulid_u128_into_string(self.0);
        s.append(ulid_str.as_str());
        s
    }

    /// Reads a metric identifier back from its name: the one-character
    /// prefix is skipped and the rest is decoded as a ULID.
    pub fn parse(s: &str) -> (r: Result<MetricId, DecodingError>)
        ensures
            s@.len() == 0 ==> r == Err::<MetricId, DecodingError>(DecodingError::InvalidLength),
            s@.len() >= 1 && valid_ulid_chars(s@.skip(1)) ==> (r matches Ok(id) && id.0 as int
                == crockford_value(s@.skip(1))),
            s@.len() >= 1 && !valid_ulid_chars(s@.skip(1)) ==> r is Err,
    {
        match parse_prefixed_ulid(s) {
            Ok(v) => Ok(MetricId(v)),
            Err(e) => Err(e),
        }
    }
}

/// Law (name round trip): a metric identifier is recovered from its own
/// name — the characters after the prefix are a valid ULID string holding
/// exactly the identifier's value.
pub proof fn lemma_metric_name_round_trip(id: MetricId)
    ensures
        metric_name_chars(id.0).len() == 27,
        valid_ulid_chars(metric_name_chars(id.0).skip(1)),
        crockford_value(metric_name_chars(id.0).skip(1)) == id.0 as int,
{
    assert(metric_name_chars(id.0).skip(1) =~= ulid_chars(id.0));
    lemma_ulid_round_trip(id.0);
}

/// Decodes the ULID behind a one-character prefix, as metric and label
/// names are written.
fn parse_prefixed_ulid(s: &str) -> (r: Result<u128, DecodingError>)
    ensures
        s@.len() == 0 ==> r == Err::<u128, DecodingError>(DecodingError::InvalidLength),
        s@.len() >= 1 && valid_ulid_chars(s@.skip(1)) ==> (r matches Ok(v) && v as int
            == crockford_value(s@.skip(1))),
        s@.len() >= 1 && !valid_ulid_chars(s@.skip(1)) ==> r is Err,
{
    let len = s.unicode_len();
    if len == 0 {
        return Err(DecodingError::InvalidLength);
    }
    let rest = s.substring_char(1, len);
    proof {
        assert(rest@ =~= s@.skip(1));
    }
    ulid_u128_from_str(rest)
}

/// Label Id
#[derive(Debug, Clone, Copy, PartialEq, Eq, Structural, Hash, PartialOrd, Ord)]
pub struct LabelId(pub u128);

impl LabelId {
    /// Generates a new unique LabelId.
    pub fn generate() -> LabelId {
        LabelId(ulid_u128())
    }

    /// Returns the label name: the ULID prefixed with `L`, so that it never
    /// starts with a number.
    pub fn name(&self) -> (s: String)
        ensures
            s@ == label_name_chars(self.0),
    {
        let mut s = String::from_str("L");
        proof {
            reveal_strlit("L");
            assert(s@ =~= seq!['L']);
        }
        let ulid_str = ulid_u128_into_string(self.0);
        s.append(ulid_str.as_str());
        s
    }

    /// Reads a label identifier back from its name: the one-character prefix
    /// is skipped and the rest is decoded as a ULID.
    pub fn parse(s: &str) -> (r: Result<LabelId, DecodingError>)
        ensures
            s@.len() == 0 ==> r == Err::<LabelId, DecodingError>(DecodingError::InvalidLength),
            s@.len() >= 1 && valid_ulid_chars(s@.skip(1)) ==> (r matches Ok(id) && id.0 as int
                == crockford_value(s@.skip(1))),
            s@.len() >= 1 && !valid_ulid_chars(s@.skip(1)) ==> r is Err,
    {
        match parse_prefixed_ulid(s) {
            Ok(v) => Ok(LabelId(v)),
            Err(e) => Err(e),
        }
    }
}

/// Law (name round trip): a label identifier is recovered from its own
/// name — the characters after the prefix are a valid ULID string holding
/// exactly the identifier's value.
pub proof fn lemma_label_name_round_trip(id: LabelId)
    ensures
        label_name_chars(id.0).len() == 27,
        valid_ulid_chars(label_name_chars(id.0).skip(1)),
        crockford_value(label_name_chars(id.0).skip(1)) == id.0 as int,
{
    assert(label_name_chars(id.0).skip(1) =~= ulid_chars(id.0));
    lemma_ulid_round_trip(id.0);
}

} // verus!
