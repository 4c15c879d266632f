//! The byte layout of step requests, and its parser.
//!
//! A step request is one action byte, the swap identifier and the step index
//! (four little-endian bytes each), the source and the target asset (each
//! closed by a zero byte), and the amount (sixteen little-endian bytes).

use vstd::prelude::*;
use vstd::bytes::{
    spec_u128_from_le_bytes,
    spec_u128_to_le_bytes,
    spec_u32_from_le_bytes,
    spec_u32_to_le_bytes,
    u128_from_le_bytes,
    u128_to_le_bytes,
    u32_from_le_bytes,
    u32_to_le_bytes,
    lemma_auto_spec_u128_to_from_le_bytes,
    lemma_auto_spec_u32_to_from_le_bytes,
};
use vstd::slice::{slice_subrange, slice_to_vec};
use vstd::utf8::encode_utf8;

verus! {

/// The action byte of a request to execute one step of a swap.
pub const ACTION_EXECUTE_SWAP: u8 = 1;

/// The action byte of a query for the status of a swap.
pub const ACTION_QUERY_SWAP_STATUS: u8 = 2;

/// The number of bytes before the first asset: the action byte, the swap
/// identifier and the step index.
pub const HEADER_LEN: usize = 9;

/// The number of bytes of a status query: the action byte and the swap
/// identifier.
pub const STATUS_QUERY_LEN: usize = 5;

/// What an inbound request asks for.
#[derive(Clone, Copy, Debug, PartialEq, Eq, Structural)]
pub enum RequestAction {
    ExecuteSwap,
    QuerySwapStatus,
}

/// Why a body does not parse.
#[derive(Clone, Copy, Debug, PartialEq, Eq, Structural)]
pub enum DecodeError {
    /// The body has no action byte.
    Empty,
    /// The action byte names no action.
    UnknownAction,
    /// The action byte is not the one of the layout that was asked for.
    WrongAction,
    /// The body ends inside the header.
    Truncated,
    /// An asset is not closed by a zero byte.
    UnterminatedToken,
    /// The bytes after the assets are not the sixteen of an amount.
    BadAmount,
}

/// The parameters of one step of a swap.
#[derive(Clone, Debug, PartialEq, Eq)]
pub struct SwapParams {
    pub swap_id: u32,
    pub step: u32,
    pub source_token: Vec<u8>,
    pub target_token: Vec<u8>,
    pub amount: u128,
}

/// The parameters of one step of a swap, as a value of the model.
pub struct SwapParamsView {
    pub swap_id: u32,
    pub step: u32,
    pub source_token: Seq<u8>,
    pub target_token: Seq<u8>,
    pub amount: u128,
}

impl View for SwapParams {
    type V = SwapParamsView;

    open spec fn view(&self) -> SwapParamsView {
        SwapParamsView {
            swap_id: self.swap_id,
            step: self.step,
            source_token: self.source_token@,
            target_token: self.target_token@,
            amount: self.amount,
        }
    }
}

/// The compact layout: the two assets, each closed by a zero byte, the
/// amount and the step index.
pub open spec fn swap_data(
    source_token: Seq<u8>,
    target_token: Seq<u8>,
    amount: u128,
    step: u32,
) -> Seq<u8,
> {
    source_token + seq![0u8] + target_token + seq![0u8] + spec_u128_to_le_bytes(amount)
        + spec_u32_to_le_bytes(step)
}

/// The layout of a step request.
pub open spec fn multi_hop_swap_data(
    swap_id: u32,
    step: u32,
    source_token: Seq<u8>,
    target_token: Seq<u8>,
    amount: u128,
) -> Seq<u8> {
    seq![ACTION_EXECUTE_SWAP] + spec_u32_to_le_bytes(swap_id) + spec_u32_to_le_bytes(step)
        + source_token + seq![0u8] + target_token + seq![0u8] + spec_u128_to_le_bytes(amount)
}

/// The action that a body asks for.
pub open spec fn parse_action(body: Seq<u8>) -> Result<RequestAction, DecodeError> {
    if body.len() == 0 {
        Err(DecodeError::Empty)
    } else if body[0] == ACTION_EXECUTE_SWAP {
        Ok(RequestAction::ExecuteSwap)
    } else if body[0] == ACTION_QUERY_SWAP_STATUS {
        Ok(RequestAction::QuerySwapStatus)
    } else {
        Err(DecodeError::UnknownAction)
    }
}

/// The position of the first zero byte of `s` at or after `from`, or the
/// length of `s` where there is none.
pub open spec fn terminator(s: Seq<u8>, from: int) -> int
    decreases s.len() - from,
{
    if from < 0 || from >= s.len() {
        s.len() as int
    } else if s[from] == 0 {
        from
    } else {
        terminator(s, from + 1)
    }
}

/// The parameters that a step request holds.
pub open spec fn parse_swap_params(data: Seq<u8>) -> Result<SwapParamsView, DecodeError> {
    if data.len() < HEADER_LEN {
        Err(DecodeError::Truncated)
    } else if data[0] != ACTION_EXECUTE_SWAP {
        Err(DecodeError::WrongAction)
    } else {
        let source_end = terminator(data, HEADER_LEN as int);
        if source_end >= data.len() {
            Err(DecodeError::UnterminatedToken)
        } else {
            let target_end = terminator(data, source_end + 1);
            if target_end >= data.len() {
                Err(DecodeError::UnterminatedToken)
            } else if data.len() - (target_end + 1) != 16 {
                Err(DecodeError::BadAmount)
            } else {
                Ok(
                    SwapParamsView {
                        swap_id: spec_u32_from_le_bytes(data.subrange(1, 5)),
                        step: spec_u32_from_le_bytes(data.subrange(5, 9)),
                        source_token: data.subrange(HEADER_LEN as int, source_end),
                        target_token: data.subrange(source_end + 1, target_end),
                        amount: spec_u128_from_le_bytes(
                            data.subrange(target_end + 1, data.len() as int),
                        ),
                    },
                )
            }
        }
    }
}

/// Appends the bytes of `src` to `out`.
pub fn append_bytes(out: &mut Vec<u8>, src: &[u8])
    ensures
        final(out)@ == old(out)@ + src@,
{
    let ghost before = out@;
    let mut i: usize = 0;
    while i < src.len()
        invariant
            i <= src@.len(),
            out@ == before + src@.take(i as int),
        decreases src@.len() - i,
    {
        out.push(src[i]);
        assert(src@.take(i + 1) =~= src@.take(i as int).push(src@[i as int]));
        assert(out@ =~= before + src@.take(i + 1));
        i += 1;
    }
    assert(src@.take(src@.len() as int) =~= src@);
}

/// Writes a step in the compact layout.
pub fn encode_swap_data(source_token: &str, target_token: &str, amount: u128, step: u32) -> (data:
    Vec<u8>)
    ensures
        data@ == swap_data(encode_utf8(source_token@), encode_utf8(target_token@), amount, step),
{
    let mut data: Vec<u8> = Vec::new();
    append_bytes(&mut data, source_token.as_bytes());
    data.push(0);
    append_bytes(&mut data, target_token.as_bytes());
    data.push(0);
    let amount_bytes = u128_to_le_bytes(amount);
    append_bytes(&mut data, amount_bytes.as_slice());
    let step_bytes = u32_to_le_bytes(step);
    append_bytes(&mut data, step_bytes.as_slice());
    assert(data@ =~= swap_data(
        encode_utf8(source_token@),
        encode_utf8(target_token@),
        amount,
        step,
    ));
    data
}

/// Writes a step request.
pub fn encode_multi_hop_swap_data(
    swap_id: u32,
    step: u32,
    source_token: &str,
    target_token: &str,
    amount: u128,
) -> (data: Vec<u8>)
    ensures
        data@ == multi_hop_swap_data(
            swap_id,
            step,
            encode_utf8(source_token@),
            encode_utf8(target_token@),
            amount,
        ),
{
    let mut data: Vec<u8> = Vec::new();
    data.push(ACTION_EXECUTE_SWAP);
    let id_bytes = u32_to_le_bytes(swap_id);
    append_bytes(&mut data, id_bytes.as_slice());
    let step_bytes = u32_to_le_bytes(step);
    append_bytes(&mut data, step_bytes.as_slice());
    append_bytes(&mut data, source_token.as_bytes());
    data.push(0);
    append_bytes(&mut data, target_token.as_bytes());
    data.push(0);
    let amount_bytes = u128_to_le_bytes(amount);
    append_bytes(&mut data, amount_bytes.as_slice());
    assert(data@ =~= multi_hop_swap_data(
        swap_id,
        step,
        encode_utf8(source_token@),
        encode_utf8(target_token@),
        amount,
    ));
    data
}

/// Reads the action byte of a body.
pub fn decode_request_action(body: &[u8]) -> (r: Result<RequestAction, DecodeError>)
    ensures
        r == parse_action(body@),
{
    if body.len() == 0 {
        return Err(DecodeError::Empty);
    }
    let action = body[0];
    if action == ACTION_EXECUTE_SWAP {
        Ok(RequestAction::ExecuteSwap)
    } else if action == ACTION_QUERY_SWAP_STATUS {
        Ok(RequestAction::QuerySwapStatus)
    } else {
        Err(DecodeError::UnknownAction)
    }
}

/// The position of the first zero byte of `data` at or after `from`, or the
/// length of `data` where there is none.
pub fn find_terminator(data: &[u8], from: usize) -> (end: usize)
    requires
        from <= data@.len(),
    ensures
        end == terminator(data@, from as int),
        from <= end <= data@.len(),
{
    let mut i: usize = from;
    while i < data.len()
        invariant
            from <= i <= data@.len(),
            terminator(data@, from as int) == terminator(data@, i as int),
        decreases data@.len() - i,
    {
        if data[i] == 0 {
            return i;
        }
        i += 1;
    }
    i
}

/// Reads a step request.
pub fn decode_swap_params(data: &[u8]) -> (r: Result<SwapParams, DecodeError>)
    ensures
        match r {
            Ok(p) => parse_swap_params(data@) == Ok::<SwapParamsView, DecodeError>(p@),
            Err(e) => parse_swap_params(data@) == Err::<SwapParamsView, DecodeError>(e),
        },
{
    let len = data.len();
    if len < HEADER_LEN {
        return Err(DecodeError::Truncated);
    }
    if data[0] != ACTION_EXECUTE_SWAP {
        return Err(DecodeError::WrongAction);
    }
    let source_end = find_terminator(data, HEADER_LEN);
    if source_end >= len {
        return Err(DecodeError::UnterminatedToken);
    }
    let target_end = find_terminator(data, source_end + 1);
    if target_end >= len {
        return Err(DecodeError::UnterminatedToken);
    }
    if len - (target_end + 1) != 16 {
        return Err(DecodeError::BadAmount);
    }
    let swap_id = u32_from_le_bytes(slice_subrange(data, 1, 5));
    let step = u32_from_le_bytes(slice_subrange(data, 5, 9));
    let source_token = slice_to_vec(slice_subrange(data, HEADER_LEN, source_end));
    let target_token = slice_to_vec(slice_subrange(data, source_end + 1, target_end));
    let amount = u128_from_le_bytes(slice_subrange(data, target_end + 1, len));
    Ok(SwapParams { swap_id, step, source_token, target_token, amount })
}

/// The first zero byte after `from` is at `end` when no byte before `end`
/// is zero.
pub proof fn lemma_terminator_at(s: Seq<u8>, from: int, end: int)
    requires
        0 <= from <= end < s.len(),
        s[end] == 0,
        forall|j: int| from <= j < end ==> s[j] != 0,
    ensures
        terminator(s, from) == end,
    decreases end - from,
{
    if from < end {
        lemma_terminator_at(s, from + 1, end);
    }
}

/// Reading what was written gives back what was written, for assets that
/// hold no zero byte.
pub proof fn decode_inverts_encode(
    swap_id: u32,
    step: u32,
    source_token: Seq<u8>,
    target_token: Seq<u8>,
    amount: u128,
)
    requires
        forall|j: int| 0 <= j < source_token.len() ==> source_token[j] != 0,
        forall|j: int| 0 <= j < target_token.len() ==> target_token[j] != 0,
    ensures
        parse_swap_params(multi_hop_swap_data(swap_id, step, source_token, target_token, amount))
            == Ok::<SwapParamsView, DecodeError>(
            SwapParamsView { swap_id, step, source_token, target_token, amount },
        ),
        parse_action(
            multi_hop_swap_data(swap_id, step, source_token, target_token, amount),
        ) == Ok::<RequestAction, DecodeError>(RequestAction::ExecuteSwap),
{
    lemma_auto_spec_u32_to_from_le_bytes();
    lemma_auto_spec_u128_to_from_le_bytes();
    let data = multi_hop_swap_data(swap_id, step, source_token, target_token, amount);
    let id_bytes = spec_u32_to_le_bytes(swap_id);
    let step_bytes = spec_u32_to_le_bytes(step);
    let amount_bytes = spec_u128_to_le_bytes(amount);
    let source_end = 9 + source_token.len() as int;
    let target_end = source_end + 1 + target_token.len() as int;
    assert(data.len() == target_end + 1 + 16);
    assert(data[0] == ACTION_EXECUTE_SWAP);
    assert(data[source_end] == 0);
    assert(data[target_end] == 0);
    assert forall|j: int| 9 <= j < source_end implies data[j] != 0 by {
        assert(data[j] == source_token[j - 9]);
    }
    assert forall|j: int| source_end + 1 <= j < target_end implies data[j] != 0 by {
        assert(data[j] == target_token[j - source_end - 1]);
    }
    lemma_terminator_at(data, 9, source_end);
    lemma_terminator_at(data, source_end + 1, target_end);
    assert(data.subrange(1, 5) =~= id_bytes);
    assert(data.subrange(5, 9) =~= step_bytes);
    assert(data.subrange(9, source_end) =~= source_token);
    assert(data.subrange(source_end + 1, target_end) =~= target_token);
    assert(data.subrange(target_end + 1, data.len() as int) =~= amount_bytes);
}

} // verus!
