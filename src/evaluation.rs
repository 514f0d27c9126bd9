//! Strategy evaluation: each strategy type maps to a plan of comparisons
//! between an encrypted bound and the public price, combined by OR. The plan
//! is carried out homomorphically by the caller, one tfhe comparison per step.
use vstd::prelude::*;
use crate::hex_text::{bytes_of_hex, decode_hex, is_hex_text};

verus! {

/// The strategy types that can be evaluated.
#[derive(Debug, Clone, Copy, PartialEq, Eq, Structural)]
pub enum StrategyType {
    LimitOrder,
    BracketOrderShort,
    LimitBuyDip,
    LimitSellRally,
}

/// Why an evaluation request was rejected.
#[derive(Debug, Clone, Copy, PartialEq, Eq, Structural)]
pub enum EvalError {
    UnknownStrategyType,
    DecodingError,
}

/// A bound of a strategy.
#[derive(Debug, Clone, Copy, PartialEq, Eq, Structural)]
pub enum Bound {
    Upper,
    Lower,
}

/// One comparison of an encrypted bound with the public price.
#[derive(Debug, Clone, Copy, PartialEq, Eq, Structural)]
pub enum Comparison {
    /// `bound <= price`
    BoundAtMostPrice(Bound),
    /// `bound >= price`
    BoundAtLeastPrice(Bound),
}

/// A trigger: one comparison, or two joined by OR.
#[derive(Debug, Clone, Copy, PartialEq, Eq, Structural)]
pub struct EvaluationPlan {
    pub first: Comparison,
    pub or_else: Option<Comparison>,
}

/// The strategy type that a name stands for.
pub open spec fn strategy_of(name: Seq<char>) -> Option<StrategyType> {
    if name == "LIMIT_ORDER"@ {
        Some(StrategyType::LimitOrder)
    } else if name == "BRACKET_ORDER_SHORT"@ {
        Some(StrategyType::BracketOrderShort)
    } else if name == "LIMIT_BUY_DIP"@ {
        Some(StrategyType::LimitBuyDip)
    } else if name == "LIMIT_SELL_RALLY"@ {
        Some(StrategyType::LimitSellRally)
    } else {
        None
    }
}

/// The plan a strategy type is evaluated with.
pub open spec fn plan_spec(st: StrategyType) -> EvaluationPlan {
    match st {
        StrategyType::LimitOrder | StrategyType::BracketOrderShort => EvaluationPlan {
            first: Comparison::BoundAtMostPrice(Bound::Upper),
            or_else: Some(Comparison::BoundAtLeastPrice(Bound::Lower)),
        },
        StrategyType::LimitBuyDip => EvaluationPlan {
            first: Comparison::BoundAtLeastPrice(Bound::Lower),
            or_else: None,
        },
        StrategyType::LimitSellRally => EvaluationPlan {
            first: Comparison::BoundAtMostPrice(Bound::Upper),
            or_else: None,
        },
    }
}

/// Whether a strategy triggers at a price, over plaintext bounds.
pub open spec fn triggered(st: StrategyType, price: int, upper: int, lower: int) -> bool {
    match st {
        StrategyType::LimitOrder | StrategyType::BracketOrderShort => price >= upper || price <= lower,
        StrategyType::LimitBuyDip => price <= lower,
        StrategyType::LimitSellRally => price >= upper,
    }
}

pub open spec fn bound_value(b: Bound, upper: int, lower: int) -> int {
    match b {
        Bound::Upper => upper,
        Bound::Lower => lower,
    }
}

/// Whether a comparison holds at a price, over plaintext bounds.
pub open spec fn comparison_holds(c: Comparison, price: int, upper: int, lower: int) -> bool {
    match c {
        Comparison::BoundAtMostPrice(b) => bound_value(b, upper, lower) <= price,
        Comparison::BoundAtLeastPrice(b) => bound_value(b, upper, lower) >= price,
    }
}

/// Whether a plan holds at a price, over plaintext bounds.
pub open spec fn plan_holds(p: EvaluationPlan, price: int, upper: int, lower: int) -> bool {
    comparison_holds(p.first, price, upper, lower) || match p.or_else {
        Some(c) => comparison_holds(c, price, upper, lower),
        None => false,
    }
}

/// Whether a plan reads a bound.
pub open spec fn plan_reads(p: EvaluationPlan, b: Bound) -> bool {
    let reads = |c: Comparison|
        match c {
            Comparison::BoundAtMostPrice(x) => x == b,
            Comparison::BoundAtLeastPrice(x) => x == b,
        };
    reads(p.first) || match p.or_else {
        Some(c) => reads(c),
        None => false,
    }
}

/// Whether `s` is exactly the text `lit`.
pub(crate) fn text_equals(s: &str, lit: &str) -> (r: bool)
    ensures
        r == (s@ == lit@),
{
    let n = s.unicode_len();
    if n != lit.unicode_len() {
        return false;
    }
    let mut i: usize = 0;
    while i < n
        invariant
            n == s@.len(),
            n == lit@.len(),
            i <= n,
            forall|j: int| 0 <= j < i ==> s@[j] == lit@[j],
        decreases n - i,
    {
        if s.get_char(i) != lit.get_char(i) {
            return false;
        }
        i = i + 1;
    }
    assert(s@ =~= lit@);
    true
}

/// Parses a strategy-type name; any other name is rejected.
pub fn parse_strategy_type(name: &str) -> (r: Result<StrategyType, EvalError>)
    ensures
        strategy_of(name@) matches Some(st) ==> r == Ok::<StrategyType, EvalError>(st),
        strategy_of(name@) is None ==> r == Err::<StrategyType, EvalError>(EvalError::UnknownStrategyType),
{
    if text_equals(name, "LIMIT_ORDER") {
        Ok(StrategyType::LimitOrder)
    } else if text_equals(name, "BRACKET_ORDER_SHORT") {
        Ok(StrategyType::BracketOrderShort)
    } else if text_equals(name, "LIMIT_BUY_DIP") {
        Ok(StrategyType::LimitBuyDip)
    } else if text_equals(name, "LIMIT_SELL_RALLY") {
        Ok(StrategyType::LimitSellRally)
    } else {
        Err(EvalError::UnknownStrategyType)
    }
}

/// The plan a strategy type is evaluated with.
pub fn plan_of(st: StrategyType) -> (p: EvaluationPlan)
    ensures
        p == plan_spec(st),
{
    match st {
        StrategyType::LimitOrder | StrategyType::BracketOrderShort => EvaluationPlan {
            first: Comparison::BoundAtMostPrice(Bound::Upper),
            or_else: Some(Comparison::BoundAtLeastPrice(Bound::Lower)),
        },
        StrategyType::LimitBuyDip => EvaluationPlan {
            first: Comparison::BoundAtLeastPrice(Bound::Lower),
            or_else: None,
        },
        StrategyType::LimitSellRally => EvaluationPlan {
            first: Comparison::BoundAtMostPrice(Bound::Upper),
            or_else: None,
        },
    }
}

/// Each strategy type's plan holds exactly when the strategy triggers.
pub proof fn lemma_plan_matches_trigger(st: StrategyType, price: int, upper: int, lower: int)
    ensures
        plan_holds(plan_spec(st), price, upper, lower) == triggered(st, price, upper, lower),
{
}

/// A comparison over plaintext bounds.
pub fn comparison_holds_plain(c: Comparison, price: u32, upper: u32, lower: u32) -> (r: bool)
    ensures
        r == comparison_holds(c, price as int, upper as int, lower as int),
{
    let (b, at_most) = match c {
        Comparison::BoundAtMostPrice(b) => (b, true),
        Comparison::BoundAtLeastPrice(b) => (b, false),
    };
    let v = match b {
        Bound::Upper => upper,
        Bound::Lower => lower,
    };
    if at_most {
        v <= price
    } else {
        v >= price
    }
}

/// A plan carried out over plaintext bounds, in the order the encrypted
/// evaluation takes.
pub fn plan_holds_plain(p: EvaluationPlan, price: u32, upper: u32, lower: u32) -> (r: bool)
    ensures
        r == plan_holds(p, price as int, upper as int, lower as int),
{
    let first = comparison_holds_plain(p.first, price, upper, lower);
    match p.or_else {
        Some(c) => first || comparison_holds_plain(c, price, upper, lower),
        None => first,
    }
}

/// A strategy evaluated over plaintext bounds through its plan: what the
/// encrypted evaluation decrypts to.
pub fn evaluate_plain(st: StrategyType, price: u32, upper: u32, lower: u32) -> (r: bool)
    ensures
        r == triggered(st, price as int, upper as int, lower as int),
{
    proof {
        lemma_plan_matches_trigger(st, price as int, upper as int, lower as int);
    }
    plan_holds_plain(plan_of(st), price, upper, lower)
}

/// An evaluation request as received from the orchestrator.
#[derive(Debug, Clone)]
pub struct EvaluationPayload {
    pub strategy_type: String,
    pub encrypted_upper_bound: String,
    pub encrypted_lower_bound: String,
    pub server_key: String,
    /// Price times one hundred.
    pub current_price_cents: u32,
    /// Present only when the key was not split onto the nodes.
    pub encrypted_client_key: Option<String>,
    pub mpc_public_key_set: Option<String>,
    pub mpc_share_indices: Option<Vec<usize>>,
    /// Present when the key's shares are held by the nodes.
    pub fhe_key_id: Option<String>,
}

/// The answer to an evaluation request.
#[derive(Debug, Clone, Copy, PartialEq, Eq, Structural)]
pub struct EvaluationResponse {
    pub is_triggered: bool,
}

/// A request whose strategy type is known and whose hex texts are decoded
/// into the bytes of the server key and of the bounds its plan reads.
pub struct DecodedPayload {
    pub strategy: StrategyType,
    pub plan: EvaluationPlan,
    pub server_key: Vec<u8>,
    pub upper_bound: Option<Vec<u8>>,
    pub lower_bound: Option<Vec<u8>>,
    pub price_cents: u32,
}

/// The bytes of a bound the plan reads; `None` for one it does not read.
pub open spec fn bound_bytes(plan: EvaluationPlan, b: Bound, text: Seq<char>, got: Option<Vec<u8>>) -> bool {
    if plan_reads(plan, b) {
        got matches Some(v) && v@ == bytes_of_hex(text)
    } else {
        got is None
    }
}

/// Decodes a hex text that the plan reads.
fn decode_if_read(read: bool, text: &str) -> (r: Result<Option<Vec<u8>>, EvalError>)
    ensures
        !read ==> r == Ok::<Option<Vec<u8>>, EvalError>(None),
        read ==> (r is Ok <==> is_hex_text(text@)),
        read ==> (r matches Ok(o) ==> (o matches Some(v) && v@ == bytes_of_hex(text@))),
        r matches Err(e) ==> e == EvalError::DecodingError,
{
    if !read {
        return Ok(None);
    }
    match decode_hex(text) {
        Some(b) => Ok(Some(b)),
        None => Err(EvalError::DecodingError),
    }
}

/// Whether a plan reads a bound.
pub fn reads_bound(p: EvaluationPlan, b: Bound) -> (r: bool)
    ensures
        r == plan_reads(p, b),
{
    let first = match p.first {
        Comparison::BoundAtMostPrice(x) => x == b,
        Comparison::BoundAtLeastPrice(x) => x == b,
    };
    match p.or_else {
        Some(Comparison::BoundAtMostPrice(x)) => first || x == b,
        Some(Comparison::BoundAtLeastPrice(x)) => first || x == b,
        None => first,
    }
}

/// Checks a request's strategy type first, then decodes the hex texts of the
/// server key and of the bounds its plan reads.
pub fn decode_payload(payload: &EvaluationPayload) -> (r: Result<DecodedPayload, EvalError>)
    ensures
        strategy_of(payload.strategy_type@) is None ==> r matches Err(EvalError::UnknownStrategyType),
        strategy_of(payload.strategy_type@) matches Some(st) ==> {
            &&& r is Ok <==> (is_hex_text(payload.server_key@) && (plan_reads(plan_spec(st), Bound::Upper)
                ==> is_hex_text(payload.encrypted_upper_bound@)) && (plan_reads(plan_spec(st), Bound::Lower)
                ==> is_hex_text(payload.encrypted_lower_bound@)))
            &&& r matches Ok(d) ==> {
                &&& d.strategy == st
                &&& d.plan == plan_spec(st)
                &&& d.server_key@ == bytes_of_hex(payload.server_key@)
                &&& bound_bytes(d.plan, Bound::Upper, payload.encrypted_upper_bound@, d.upper_bound)
                &&& bound_bytes(d.plan, Bound::Lower, payload.encrypted_lower_bound@, d.lower_bound)
                &&& d.price_cents == payload.current_price_cents
            }
            &&& r matches Err(e) ==> e == EvalError::DecodingError
        },
{
    let st = parse_strategy_type(payload.strategy_type.as_str())?;
    let plan = plan_of(st);
    let server_key = match decode_hex(payload.server_key.as_str()) {
        Some(b) => b,
        None => return Err(EvalError::DecodingError),
    };
    let upper_bound = decode_if_read(reads_bound(plan, Bound::Upper), payload.encrypted_upper_bound.as_str())?;
    let lower_bound = decode_if_read(reads_bound(plan, Bound::Lower), payload.encrypted_lower_bound.as_str())?;
    Ok(DecodedPayload { strategy: st, plan, server_key, upper_bound, lower_bound, price_cents: payload.current_price_cents })
}

} // verus!
