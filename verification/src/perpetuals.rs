use crate::error::ErrorCode;
use crate::identity::Identity;
use crate::registry::StepAction;
use vstd::bytes::{spec_u64_from_le_bytes, u64_from_le_bytes};
use vstd::prelude::*;
use vstd::slice::slice_subrange;

verus! {

/// Parameters of a liquidity-pool deposit, as carried in the opaque payload.
#[derive(Clone, Copy, Debug, PartialEq, Eq)]
pub struct AddLiquidity2Params {
    pub token_amount_in: u64,
    pub min_lp_amount_out: u64,
    pub token_amount_pre_swap: Option<u64>,
}

impl AddLiquidity2Params {
    pub fn new(
        token_amount_in: u64,
        min_lp_amount_out: u64,
        token_amount_pre_swap: Option<u64>,
    ) -> (r: AddLiquidity2Params)
        ensures
            r == (AddLiquidity2Params { token_amount_in, min_lp_amount_out, token_amount_pre_swap }),
    {
        AddLiquidity2Params { token_amount_in, min_lp_amount_out, token_amount_pre_swap }
    }
}

/// Parameters of a liquidity-pool withdrawal, as carried in the opaque payload.
#[derive(Clone, Copy, Debug, PartialEq, Eq)]
pub struct RemoveLiquidity2Params {
    pub lp_amount_in: u64,
    pub min_amount_out: u64,
}

impl RemoveLiquidity2Params {
    pub fn new(lp_amount_in: u64, min_amount_out: u64) -> (r: RemoveLiquidity2Params)
        ensures
            r == (RemoveLiquidity2Params { lp_amount_in, min_amount_out }),
    {
        RemoveLiquidity2Params { lp_amount_in, min_amount_out }
    }
}

/// The liquidity-pool operation a payload encodes.
#[derive(Clone, Copy, Debug, PartialEq, Eq)]
pub enum JupiterPerpetualsAction {
    AddLiquidity(AddLiquidity2Params),
    RemoveLiquidity(RemoveLiquidity2Params),
}

impl JupiterPerpetualsAction {
    /// The amount of the input asset this operation consumes, as declared
    /// by its parameters.
    pub open spec fn spec_input_amount(self) -> u64 {
        match self {
            JupiterPerpetualsAction::AddLiquidity(p) => p.token_amount_in,
            JupiterPerpetualsAction::RemoveLiquidity(p) => p.lp_amount_in,
        }
    }

    pub fn get_input_amount(&self) -> (r: u64)
        ensures
            r == self.spec_input_amount(),
    {
        match self {
            JupiterPerpetualsAction::AddLiquidity(p) => p.token_amount_in,
            JupiterPerpetualsAction::RemoveLiquidity(p) => p.lp_amount_in,
        }
    }
}

/// What a liquidity-pool payload parses to: an 8-byte opcode prefix, then
/// the operation's little-endian fields, consumed exactly.
///
/// A deposit payload is the deposit opcode, two 64-bit amounts, and an
/// optional third (one tag byte, then the value when the tag is 1); a
/// withdrawal payload is the withdrawal opcode and two 64-bit amounts.
/// Anything else is malformed.
pub open spec fn spec_parse_perpetuals_action(data: Seq<u8>) -> Option<JupiterPerpetualsAction> {
    if data.len() >= 8 && data.subrange(0, 8)
        == StepAction::JlpPerpetualsAddLiquidity2.spec_discriminator() {
        if data.len() == 25 && data[24] == 0 {
            Some(
                JupiterPerpetualsAction::AddLiquidity(
                    AddLiquidity2Params {
                        token_amount_in: spec_u64_from_le_bytes(data.subrange(8, 16)),
                        min_lp_amount_out: spec_u64_from_le_bytes(data.subrange(16, 24)),
                        token_amount_pre_swap: None,
                    },
                ),
            )
        } else if data.len() == 33 && data[24] == 1 {
            Some(
                JupiterPerpetualsAction::AddLiquidity(
                    AddLiquidity2Params {
                        token_amount_in: spec_u64_from_le_bytes(data.subrange(8, 16)),
                        min_lp_amount_out: spec_u64_from_le_bytes(data.subrange(16, 24)),
                        token_amount_pre_swap: Some(spec_u64_from_le_bytes(data.subrange(25, 33))),
                    },
                ),
            )
        } else {
            None
        }
    } else if data.len() >= 8 && data.subrange(0, 8)
        == StepAction::JlpPerpetualsRemoveLiquidity2.spec_discriminator() {
        if data.len() == 24 {
            Some(
                JupiterPerpetualsAction::RemoveLiquidity(
                    RemoveLiquidity2Params {
                        lp_amount_in: spec_u64_from_le_bytes(data.subrange(8, 16)),
                        min_amount_out: spec_u64_from_le_bytes(data.subrange(16, 24)),
                    },
                ),
            )
        } else {
            None
        }
    } else {
        None
    }
}

/// Whether the first eight bytes of `data` are exactly `prefix`.
fn has_prefix8(data: &Vec<u8>, prefix: &Vec<u8>) -> (r: bool)
    requires
        data@.len() >= 8,
        prefix@.len() == 8,
    ensures
        r == (data@.subrange(0, 8) == prefix@),
{
    let mut j: usize = 0;
    while j < 8
        invariant
            j <= 8,
            data@.len() >= 8,
            prefix@.len() == 8,
            forall|t: int| 0 <= t < j ==> data@[t] == prefix@[t],
        decreases 8 - j,
    {
        if data[j] != prefix[j] {
            proof {
                assert(data@.subrange(0, 8)[j as int] == data@[j as int]);
            }
            return false;
        }
        j = j + 1;
    }
    proof {
        assert(data@.subrange(0, 8) =~= prefix@);
    }
    true
}

/// Parses an opaque liquidity-pool payload into its operation, rejecting
/// anything `spec_parse_perpetuals_action` does not accept.
pub fn parse_perpetuals_action(data: &Vec<u8>) -> (r: Result<JupiterPerpetualsAction, ErrorCode>)
    ensures
        match spec_parse_perpetuals_action(data@) {
            Some(action) => r == Ok::<JupiterPerpetualsAction, ErrorCode>(action),
            None => r == Err::<JupiterPerpetualsAction, ErrorCode>(
                ErrorCode::InvalidInstructionData,
            ),
        },
{
    if data.len() < 8 {
        return Err(ErrorCode::InvalidInstructionData);
    }
    let add_disc = StepAction::JlpPerpetualsAddLiquidity2.discriminator();
    let remove_disc = StepAction::JlpPerpetualsRemoveLiquidity2.discriminator();
    if has_prefix8(data, &add_disc) {
        if data.len() == 25 && data[24] == 0 {
            Ok(
                JupiterPerpetualsAction::AddLiquidity(
                    AddLiquidity2Params {
                        token_amount_in: u64_from_le_bytes(slice_subrange(data.as_slice(), 8, 16)),
                        min_lp_amount_out: u64_from_le_bytes(
                            slice_subrange(data.as_slice(), 16, 24),
                        ),
                        token_amount_pre_swap: None,
                    },
                ),
            )
        } else if data.len() == 33 && data[24] == 1 {
            Ok(
                JupiterPerpetualsAction::AddLiquidity(
                    AddLiquidity2Params {
                        token_amount_in: u64_from_le_bytes(slice_subrange(data.as_slice(), 8, 16)),
                        min_lp_amount_out: u64_from_le_bytes(
                            slice_subrange(data.as_slice(), 16, 24),
                        ),
                        token_amount_pre_swap: Some(
                            u64_from_le_bytes(slice_subrange(data.as_slice(), 25, 33)),
                        ),
                    },
                ),
            )
        } else {
            Err(ErrorCode::InvalidInstructionData)
        }
    } else if has_prefix8(data, &remove_disc) {
        if data.len() == 24 {
            Ok(
                JupiterPerpetualsAction::RemoveLiquidity(
                    RemoveLiquidity2Params {
                        lp_amount_in: u64_from_le_bytes(slice_subrange(data.as_slice(), 8, 16)),
                        min_amount_out: u64_from_le_bytes(slice_subrange(data.as_slice(), 16, 24)),
                    },
                ),
            )
        } else {
            Err(ErrorCode::InvalidInstructionData)
        }
    } else {
        Err(ErrorCode::InvalidInstructionData)
    }
}

/// Per-call parameters of a liquidity-pool request: the delegating user and
/// the opaque payload for the external program.
#[derive(Clone, Debug, PartialEq, Eq)]
pub struct JupiterPerpetualsParams {
    pub delegate: Identity,
    pub data: Vec<u8>,
}

impl JupiterPerpetualsParams {
    /// The operation this request's payload encodes.
    pub fn get_action(&self) -> (r: Result<JupiterPerpetualsAction, ErrorCode>)
        ensures
            match spec_parse_perpetuals_action(self.data@) {
                Some(action) => r == Ok::<JupiterPerpetualsAction, ErrorCode>(action),
                None => r == Err::<JupiterPerpetualsAction, ErrorCode>(
                    ErrorCode::InvalidInstructionData,
                ),
            },
    {
        parse_perpetuals_action(&self.data)
    }
}

/// Per-call parameters of the liquidity-route variant of the request.
#[derive(Clone, Debug, PartialEq, Eq)]
pub struct JupiterLiquidityParams {
    pub delegate: Identity,
    pub data: Vec<u8>,
}

impl JupiterLiquidityParams {
    /// The operation this request's payload encodes.
    pub fn get_action(&self) -> (r: Result<JupiterPerpetualsAction, ErrorCode>)
        ensures
            match spec_parse_perpetuals_action(self.data@) {
                Some(action) => r == Ok::<JupiterPerpetualsAction, ErrorCode>(action),
                None => r == Err::<JupiterPerpetualsAction, ErrorCode>(
                    ErrorCode::InvalidInstructionData,
                ),
            },
    {
        parse_perpetuals_action(&self.data)
    }
}

} // verus!
