//! Token counts: running totals, what they grow by, and how two counts are told
//! apart.

use vstd::prelude::*;
use crate::json;
use crate::json::{Json, JsonView};

verus! {

/// Running totals.
#[derive(Debug, Clone, Copy, PartialEq, Eq, Structural)]
pub struct CumulativeTokens {
    pub input: u64,
    pub cached_input: u64,
    pub output: u64,
}

/// What one call used.
#[derive(Debug, Clone, Copy, PartialEq, Eq, Structural)]
pub struct DeltaTokens {
    pub input: u32,
    pub cached_input: u32,
    pub output: u32,
}

/// Token counts by which a `token_count` event is recognised.
#[derive(Debug, Clone, Copy, PartialEq, Eq, Structural)]
pub struct TokenCountersSignature {
    pub input: Option<u64>,
    pub cached_input: Option<u64>,
    pub output: Option<u64>,
    pub reasoning_output: Option<u64>,
    pub total: Option<u64>,
}

/// What a `token_count` event is recognised by.
#[derive(Debug, Clone, Copy, PartialEq, Eq, Structural)]
pub struct TokenUsageSignature {
    pub total: Option<TokenCountersSignature>,
    pub last: Option<TokenCountersSignature>,
}

/// The low 32 bits of a number.
pub open spec fn low32(n: u64) -> u32 {
    (n as int % 0x1_0000_0000) as u32
}

/// How much a count has grown; nothing where it has not.
pub open spec fn growth(from: u64, to: u64) -> u64 {
    if from < to {
        (to - from) as u64
    } else {
        0
    }
}

/// What has been used since the totals were `prev`, each count by its low 32 bits.
pub open spec fn delta_since(prev: Option<CumulativeTokens>, current: CumulativeTokens) -> DeltaTokens {
    let base = match prev {
        Some(p) => p,
        None => CumulativeTokens { input: 0, cached_input: 0, output: 0 },
    };
    DeltaTokens {
        input: low32(growth(base.input, current.input)),
        cached_input: low32(growth(base.cached_input, current.cached_input)),
        output: low32(growth(base.output, current.output)),
    }
}

/// The delta with no more cached input than input.
pub open spec fn clamped(delta: DeltaTokens) -> DeltaTokens {
    DeltaTokens {
        cached_input: if delta.cached_input <= delta.input {
            delta.cached_input
        } else {
            delta.input
        },
        ..delta
    }
}

/// Whether nothing has been used.
pub open spec fn nothing_used(delta: DeltaTokens) -> bool {
    delta.input == 0 && delta.cached_input == 0 && delta.output == 0
}

/// The low 32 bits of a number.
pub fn low_bits(n: u64) -> (r: u32)
    ensures
        r == low32(n),
{
    assert(#[verifier::truncate] (n as u32) == n % 0x1_0000_0000) by (bit_vector);
    n as u32
}

impl DeltaTokens {
    /// Whether nothing has been used.
    pub fn is_zero(&self) -> (r: bool)
        ensures
            r == nothing_used(*self),
    {
        self.input == 0 && self.cached_input == 0 && self.output == 0
    }

    /// The delta with no more cached input than input.
    pub fn clamp_cached(self) -> (r: DeltaTokens)
        ensures
            r == clamped(self),
    {
        DeltaTokens {
            input: self.input,
            cached_input: if self.cached_input <= self.input {
                self.cached_input
            } else {
                self.input
            },
            output: self.output,
        }
    }
}

/// What has been used since the totals were `prev`.
pub fn compute_delta(prev: &Option<CumulativeTokens>, current: &CumulativeTokens) -> (r: DeltaTokens)
    ensures
        r == delta_since(*prev, *current),
{
    match prev {
        None => DeltaTokens {
            input: low_bits(current.input),
            cached_input: low_bits(current.cached_input),
            output: low_bits(current.output),
        },
        Some(p) => DeltaTokens {
            input: low_bits(current.input.saturating_sub(p.input)),
            cached_input: low_bits(current.cached_input.saturating_sub(p.cached_input)),
            output: low_bits(current.output.saturating_sub(p.output)),
        },
    }
}

/// The count of cached input, under either of its names.
pub open spec fn cached_count(usage: JsonView) -> Option<u64> {
    match usage.field("cached_input_tokens"@) {
        Some(count) => count.unsigned(),
        None => json::field_unsigned(usage, "cache_read_input_tokens"@),
    }
}

/// A count, or zero.
pub open spec fn or_zero(count: Option<u64>) -> u64 {
    match count {
        Some(count) => count,
        None => 0,
    }
}

/// The totals that an object gives; a count that it does not give is zero.
pub open spec fn cumulative_of(usage: JsonView) -> Option<CumulativeTokens> {
    if usage is Object {
        Some(
            CumulativeTokens {
                input: or_zero(json::field_unsigned(usage, "input_tokens"@)),
                cached_input: or_zero(cached_count(usage)),
                output: or_zero(json::field_unsigned(usage, "output_tokens"@)),
            },
        )
    } else {
        None
    }
}

/// The counts that an object gives.
pub open spec fn counters_of(usage: Option<JsonView>) -> Option<TokenCountersSignature> {
    match usage {
        Some(usage) => if usage is Object {
            Some(
                TokenCountersSignature {
                    input: json::field_unsigned(usage, "input_tokens"@),
                    cached_input: cached_count(usage),
                    output: json::field_unsigned(usage, "output_tokens"@),
                    reasoning_output: json::field_unsigned(usage, "reasoning_output_tokens"@),
                    total: json::field_unsigned(usage, "total_tokens"@),
                },
            )
        } else {
            None
        },
        None => None,
    }
}

/// The signature of the `info` of a `token_count` event, where it gives any
/// counts.
pub open spec fn signature_of(info: JsonView) -> Option<TokenUsageSignature> {
    let total = counters_of(info.field("total_token_usage"@));
    let last = counters_of(info.field("last_token_usage"@));
    if total is Some || last is Some {
        Some(TokenUsageSignature { total, last })
    } else {
        None
    }
}

/// The count of cached input, under either of its names.
fn cached_input_count(usage: &Json) -> (r: Option<u64>)
    ensures
        r == cached_count(usage@),
{
    match usage.get("cached_input_tokens") {
        Some(count) => count.as_u64(),
        None => usage.get_u64("cache_read_input_tokens"),
    }
}

/// The totals that an object gives.
pub fn parse_cumulative_tokens(total_usage: &Json) -> (r: Option<CumulativeTokens>)
    ensures
        r == cumulative_of(total_usage@),
{
    if !total_usage.is_object() {
        return None;
    }
    Some(
        CumulativeTokens {
            input: total_usage.get_u64("input_tokens").unwrap_or(0),
            cached_input: cached_input_count(total_usage).unwrap_or(0),
            output: total_usage.get_u64("output_tokens").unwrap_or(0),
        },
    )
}

/// The counts that an object gives.
pub fn parse_signature_counters(usage: Option<&Json>) -> (r: Option<TokenCountersSignature>)
    ensures
        r == counters_of(json::option_model(usage)),
{
    match usage {
        Some(usage) => if usage.is_object() {
            Some(
                TokenCountersSignature {
                    input: usage.get_u64("input_tokens"),
                    cached_input: cached_input_count(usage),
                    output: usage.get_u64("output_tokens"),
                    reasoning_output: usage.get_u64("reasoning_output_tokens"),
                    total: usage.get_u64("total_tokens"),
                },
            )
        } else {
            None
        },
        None => None,
    }
}

/// The signature of the `info` of a `token_count` event.
pub fn parse_token_signature(info: &Json) -> (r: Option<TokenUsageSignature>)
    ensures
        r == signature_of(info@),
{
    let total = parse_signature_counters(info.get("total_token_usage"));
    let last = parse_signature_counters(info.get("last_token_usage"));
    if total.is_some() || last.is_some() {
        Some(TokenUsageSignature { total, last })
    } else {
        None
    }
}

/// What is used from one of the totals to the next.
pub open spec fn deltas(prev: Option<CumulativeTokens>, totals: Seq<CumulativeTokens>) -> Seq<DeltaTokens>
    decreases totals.len(),
{
    if totals.len() == 0 {
        Seq::empty()
    } else {
        let before = totals.drop_last();
        let last = if before.len() == 0 {
            prev
        } else {
            Some(before.last())
        };
        deltas(prev, before).push(delta_since(last, totals.last()))
    }
}

/// The sum of a list of deltas, count by count.
pub open spec fn total_used(list: Seq<DeltaTokens>) -> (nat, nat, nat)
    decreases list.len(),
{
    if list.len() == 0 {
        (0, 0, 0)
    } else {
        let before = total_used(list.drop_last());
        let last = list.last();
        (
            before.0 + last.input as nat,
            before.1 + last.cached_input as nat,
            before.2 + last.output as nat,
        )
    }
}

/// Whether totals never fall and fit 32 bits.
pub open spec fn totals_grow(totals: Seq<CumulativeTokens>) -> bool {
    &&& forall|i: int, j: int|
        0 <= i <= j < totals.len() ==> {
            &&& (#[trigger] totals[i]).input <= (#[trigger] totals[j]).input
            &&& totals[i].cached_input <= totals[j].cached_input
            &&& totals[i].output <= totals[j].output
        }
    &&& forall|i: int|
        0 <= i < totals.len() ==> {
            &&& (#[trigger] totals[i]).input < 0x1_0000_0000
            &&& totals[i].cached_input < 0x1_0000_0000
            &&& totals[i].output < 0x1_0000_0000
        }
}

/// Where the totals never fall, what is used from each to the next adds up to the
/// last of them.
pub proof fn law_deltas_add_up_to_the_last_total(totals: Seq<CumulativeTokens>)
    requires
        totals.len() > 0,
        totals_grow(totals),
    ensures
        total_used(deltas(None, totals)) == (
            totals.last().input as nat,
            totals.last().cached_input as nat,
            totals.last().output as nat,
        ),
    decreases totals.len(),
{
    let before = totals.drop_last();
    let list = deltas(None, totals);
    let n = totals.len();
    assert(list.drop_last() =~= deltas(None, before));
    assert(totals.last() == totals[n - 1]);
    assert(totals[n - 1].input < 0x1_0000_0000);
    if before.len() > 0 {
        assert forall|i: int, j: int| 0 <= i <= j < before.len() implies {
            &&& (#[trigger] before[i]).input <= (#[trigger] before[j]).input
            &&& before[i].cached_input <= before[j].cached_input
            &&& before[i].output <= before[j].output
        } by {
            assert(totals[i].input <= totals[j].input);
        }
        law_deltas_add_up_to_the_last_total(before);
        assert(before.last() == totals[n - 2]);
        assert(totals[n - 2].input <= totals[n - 1].input);
    } else {
        assert(deltas(None, before) =~= Seq::empty());
        assert(list.last() == delta_since(None, totals.last()));
        assert(total_used(list.drop_last()) == (0nat, 0nat, 0nat));
    }
}

/// A count that is given as a whole number.
pub open spec fn given(usage: JsonView, name: Seq<char>) -> Option<u64> {
    match usage.field(name) {
        Some(JsonView::Number(n)) => n.unsigned,
        _ => None,
    }
}

/// Whether two objects of counts give the same counts.
pub open spec fn give_the_same(a: JsonView, b: JsonView) -> bool {
    &&& given(a, "input_tokens"@) == given(b, "input_tokens"@)
    &&& given(a, "output_tokens"@) == given(b, "output_tokens"@)
    &&& given(a, "reasoning_output_tokens"@) == given(b, "reasoning_output_tokens"@)
    &&& given(a, "total_tokens"@) == given(b, "total_tokens"@)
    &&& a.field("cached_input_tokens"@) is Some && b.field("cached_input_tokens"@) is Some ==> given(
        a,
        "cached_input_tokens"@,
    ) == given(b, "cached_input_tokens"@)
    &&& a.field("cached_input_tokens"@) is None && b.field("cached_input_tokens"@) is None ==> given(
        a,
        "cache_read_input_tokens"@,
    ) == given(b, "cache_read_input_tokens"@)
}

/// Two events are taken for the same only where all of their counts are the same, those of
/// the running totals and those of the last call.
pub proof fn law_the_same_event_has_the_same_counts(a: JsonView, b: JsonView)
    requires
        signature_of(a) is Some,
        signature_of(a) == signature_of(b),
    ensures
        match (a.field("total_token_usage"@), b.field("total_token_usage"@)) {
            (Some(x), Some(y)) => x is Object == y is Object && (x is Object ==> give_the_same(x, y)),
            (Some(x), None) => !(x is Object),
            (None, Some(y)) => !(y is Object),
            (None, None) => true,
        },
        match (a.field("last_token_usage"@), b.field("last_token_usage"@)) {
            (Some(x), Some(y)) => x is Object == y is Object && (x is Object ==> give_the_same(x, y)),
            (Some(x), None) => !(x is Object),
            (None, Some(y)) => !(y is Object),
            (None, None) => true,
        },
{
}

/// Totals are read from the fields that are named for them; a count that is not given is
/// zero.
pub proof fn law_totals_are_read_where_they_stand(usage: JsonView)
    requires
        usage is Object,
    ensures
        cumulative_of(usage) matches Some(totals) && {
            &&& given(usage, "input_tokens"@) matches Some(n) ==> totals.input == n
            &&& given(usage, "output_tokens"@) matches Some(n) ==> totals.output == n
            &&& given(usage, "cached_input_tokens"@) matches Some(n) ==> totals.cached_input == n
            &&& usage.field("cached_input_tokens"@) is None ==> (given(
                usage,
                "cache_read_input_tokens"@,
            ) matches Some(n) ==> totals.cached_input == n)
            &&& given(usage, "input_tokens"@) is None ==> totals.input == 0
            &&& given(usage, "output_tokens"@) is None ==> totals.output == 0
        },
{
}

} // verus!
