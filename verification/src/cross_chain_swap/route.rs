//! Route validation: the allow-lists of assets and chains, and the fixed-rate
//! quote.

use vstd::prelude::*;

verus! {

/// The number by which a rate is scaled: a rate of `RATE_SCALE` is 1:1.
pub const RATE_SCALE: u128 = 1_000_000;

/// The fee, in thousandths of the converted amount.
pub const FEE_PER_MILLE: u128 = 3;

/// Whether two strings hold the same characters.
pub fn str_same(a: &str, b: &str) -> (r: bool)
    ensures
        r == (a@ == b@),
{
    a.to_owned() == b.to_owned()
}

/// The assets that swaps and payments accept.
pub open spec fn supported_token(token: Seq<char>) -> bool {
    ||| token == "USDT"@
    ||| token == "DOT"@
    ||| token == "USDC"@
    ||| token == "KSM"@
    ||| token == "ASTR"@
    ||| token == "BNC"@
    ||| token == "HDX"@
}

/// The chains that swaps and payments accept.
pub open spec fn supported_chain(chain: Seq<char>) -> bool {
    ||| chain == "AssetHub"@
    ||| chain == "Acala"@
    ||| chain == "Hydration"@
    ||| chain == "Moonbeam"@
    ||| chain == "Astar"@
    ||| chain == "Bifrost"@
}

/// The assets of the route pre-check.
pub open spec fn routable_token(token: Seq<char>) -> bool {
    ||| token == "USDT"@
    ||| token == "DOT"@
    ||| token == "USDC"@
    ||| token == "KSM"@
    ||| token == "ASTR"@
}

/// The chains of the route pre-check.
pub open spec fn routable_chain(chain: Seq<char>) -> bool {
    ||| chain == "AssetHub"@
    ||| chain == "Acala"@
    ||| chain == "Hydration"@
    ||| chain == "Kusama"@
    ||| chain == "Astar"@
}

/// A route passes the pre-check when both assets and both chains are on its
/// lists.
pub open spec fn route_supported(
    source_token: Seq<char>,
    target_token: Seq<char>,
    source_chain: Seq<char>,
    target_chain: Seq<char>,
) -> bool {
    &&& routable_token(source_token)
    &&& routable_token(target_token)
    &&& routable_chain(source_chain)
    &&& routable_chain(target_chain)
}

/// The scaled rate of a pair of assets; a pair without an entry converts 1:1.
pub open spec fn rate(source_token: Seq<char>, target_token: Seq<char>) -> nat {
    if source_token == "DOT"@ && target_token == "USDT"@ {
        5_000_000
    } else if source_token == "DOT"@ && target_token == "USDC"@ {
        5_000_000
    } else if source_token == "USDT"@ && target_token == "USDC"@ {
        1_000_000
    } else if source_token == "USDC"@ && target_token == "USDT"@ {
        1_000_000
    } else if source_token == "KSM"@ && target_token == "USDT"@ {
        20_000_000
    } else if source_token == "ASTR"@ && target_token == "USDT"@ {
        100_000
    } else {
        1_000_000
    }
}

/// The converted amount before the fee is taken.
pub open spec fn gross_output(
    source_token: Seq<char>,
    target_token: Seq<char>,
    input_amount: nat,
) -> nat {
    input_amount * rate(source_token, target_token) / (RATE_SCALE as nat)
}

/// The fee on a converted amount, rounded down.
pub open spec fn fee(gross: nat) -> nat {
    gross * (FEE_PER_MILLE as nat) / 1000
}

/// The quoted output: the converted amount less the fee.
pub open spec fn quote(source_token: Seq<char>, target_token: Seq<char>, input_amount: nat) -> nat {
    let gross = gross_output(source_token, target_token, input_amount);
    (gross - fee(gross)) as nat
}

/// Whether the quote of `input_amount` can be computed in 128 bits.
pub open spec fn quote_in_range(
    source_token: Seq<char>,
    target_token: Seq<char>,
    input_amount: nat,
) -> bool {
    input_amount * rate(source_token, target_token) <= u128::MAX
}

/// Whether `token` is an accepted asset.
pub fn is_supported_token(token: &str) -> (r: bool)
    ensures
        r == supported_token(token@),
{
    str_same(token, "USDT") || str_same(token, "DOT") || str_same(token, "USDC") || str_same(
        token,
        "KSM",
    ) || str_same(token, "ASTR") || str_same(token, "BNC") || str_same(token, "HDX")
}

/// Whether `chain` is an accepted chain.
pub fn is_supported_chain(chain: &str) -> (r: bool)
    ensures
        r == supported_chain(chain@),
{
    str_same(chain, "AssetHub") || str_same(chain, "Acala") || str_same(chain, "Hydration")
        || str_same(chain, "Moonbeam") || str_same(chain, "Astar") || str_same(chain, "Bifrost")
}

fn is_routable_token(token: &str) -> (r: bool)
    ensures
        r == routable_token(token@),
{
    str_same(token, "USDT") || str_same(token, "DOT") || str_same(token, "USDC") || str_same(
        token,
        "KSM",
    ) || str_same(token, "ASTR")
}

fn is_routable_chain(chain: &str) -> (r: bool)
    ensures
        r == routable_chain(chain@),
{
    str_same(chain, "AssetHub") || str_same(chain, "Acala") || str_same(chain, "Hydration")
        || str_same(chain, "Kusama") || str_same(chain, "Astar")
}

/// The route pre-check.
pub fn is_route_supported(
    source_token: &str,
    target_token: &str,
    source_chain: &str,
    target_chain: &str,
) -> (r: bool)
    ensures
        r == route_supported(source_token@, target_token@, source_chain@, target_chain@),
{
    let source_token_supported = is_routable_token(source_token);
    let target_token_supported = is_routable_token(target_token);
    let source_chain_supported = is_routable_chain(source_chain);
    let target_chain_supported = is_routable_chain(target_chain);
    source_token_supported && target_token_supported && source_chain_supported
        && target_chain_supported
}

/// The scaled rate of a pair of assets.
pub fn rate_of(source_token: &str, target_token: &str) -> (r: u128)
    ensures
        r == rate(source_token@, target_token@),
        100_000 <= r <= 20_000_000,
{
    if str_same(source_token, "DOT") && str_same(target_token, "USDT") {
        5_000_000
    } else if str_same(source_token, "DOT") && str_same(target_token, "USDC") {
        5_000_000
    } else if str_same(source_token, "USDT") && str_same(target_token, "USDC") {
        1_000_000
    } else if str_same(source_token, "USDC") && str_same(target_token, "USDT") {
        1_000_000
    } else if str_same(source_token, "KSM") && str_same(target_token, "USDT") {
        20_000_000
    } else if str_same(source_token, "ASTR") && str_same(target_token, "USDT") {
        100_000
    } else {
        1_000_000
    }
}

/// Whether the quote of `input_amount` can be computed in 128 bits.
pub fn quote_fits(source_token: &str, target_token: &str, input_amount: u128) -> (r: bool)
    ensures
        r == quote_in_range(source_token@, target_token@, input_amount as nat),
{
    let rate = rate_of(source_token, target_token);
    let limit: u128 = u128::MAX / rate;
    proof {
        let a = input_amount as int;
        let k = rate as int;
        let m = u128::MAX as int;
        assert(a <= m / k <==> a * k <= m) by (nonlinear_arith)
            requires
                k > 0,
                a >= 0,
                m >= 0,
        ;
    }
    input_amount <= limit
}

/// The quoted output of converting `input_amount` of `source_token` into
/// `target_token`.
pub fn calculate_expected_output(source_token: &str, target_token: &str, input_amount: u128) -> (r:
    u128)
    requires
        quote_in_range(source_token@, target_token@, input_amount as nat),
    ensures
        r == quote(source_token@, target_token@, input_amount as nat),
{
    let rate = rate_of(source_token, target_token);
    let output_before_fee: u128 = (input_amount * rate) / RATE_SCALE;
    let fee: u128 = output_before_fee * FEE_PER_MILLE / 1000;
    output_before_fee - fee
}

/// The quote is a function of its arguments: equal arguments give equal
/// outputs.
pub proof fn quote_deterministic(
    source_a: Seq<char>,
    target_a: Seq<char>,
    amount_a: nat,
    source_b: Seq<char>,
    target_b: Seq<char>,
    amount_b: nat,
)
    requires
        source_a == source_b,
        target_a == target_b,
        amount_a == amount_b,
    ensures
        quote(source_a, target_a, amount_a) == quote(source_b, target_b, amount_b),
{
}

/// The fee never exceeds the converted amount, so a quote is the converted
/// amount less the fee without rounding below zero.
pub proof fn quote_within_gross(source_token: Seq<char>, target_token: Seq<char>, input_amount: nat)
    ensures
        fee(gross_output(source_token, target_token, input_amount)) <= gross_output(
            source_token,
            target_token,
            input_amount,
        ),
        quote(source_token, target_token, input_amount) + fee(
            gross_output(source_token, target_token, input_amount),
        ) == gross_output(source_token, target_token, input_amount),
{
}

} // verus!
