use crate::identity::Identity;
use vstd::prelude::*;

verus! {

/// The whitelisted external-protocol operations a step may dispatch to.
/// Each tag fixes both the destination program and the opcode prefix
/// ("discriminator") that is prepended to the caller-supplied payload.
#[derive(Clone, Copy, Debug, PartialEq, Eq, Structural)]
pub enum StepAction {
    JupiterSharedAccountsRoute,
    JupiterSharedAccountsRouteV2,
    JupiterRoute,
    JupiterRouteV2,
    JupiterOrderEngineFill,
    OkxSwapTobV3,
    OkxSwapV3,
    OkxSwapTobV3WithReceiver,
    OkxSwap,
    DFlowSwap,
    DFlowSwap2,
    JlpPerpetualsAddLiquidity2,
    JlpPerpetualsRemoveLiquidity2,
}

pub open spec fn spec_jupiter_program_id() -> Identity {
    Identity {
        w0: 0x6ec031f25bd57904,
        w1: 0x071568ce6ec574ee,
        w2: 0x518ef4a3deb2b1fd,
        w3: 0x8f13bc56a2cdb102,
    }
}

pub open spec fn spec_jupiter_order_engine_program_id() -> Identity {
    Identity {
        w0: 0xe9bba372fb49584a,
        w1: 0x3cf6576a0e5bdc1f,
        w2: 0xeda667205bb41c5a,
        w3: 0x02a1c89563d3ac0c,
    }
}

pub open spec fn spec_dflow_program_id() -> Identity {
    Identity {
        w0: 0x4873bce2144ae3b5,
        w1: 0xd6ee5daff5e10e69,
        w2: 0x60b8aa6da3403855,
        w3: 0x103cc0bd736050b0,
    }
}

pub open spec fn spec_okx_program_id() -> Identity {
    Identity {
        w0: 0x136d5ca2f1569155,
        w1: 0x340d9a0ae6f72a4f,
        w2: 0xd56264635691c77e,
        w3: 0x698f3435f126add1,
    }
}

pub open spec fn spec_perpetuals_program_id() -> Identity {
    Identity {
        w0: 0xef6294f1caf3b105,
        w1: 0x3dcd75deabf06087,
        w2: 0xe820c6323a1be39e,
        w3: 0xfa45819b9c2e1294,
    }
}

/// Canonical identity of the primary aggregator program.
pub fn jupiter_program_id() -> (r: Identity)
    ensures
        r == spec_jupiter_program_id(),
{
    Identity {
        w0: 0x6ec031f25bd57904,
        w1: 0x071568ce6ec574ee,
        w2: 0x518ef4a3deb2b1fd,
        w3: 0x8f13bc56a2cdb102,
    }
}

/// Canonical identity of the order-engine program.
pub fn jupiter_order_engine_program_id() -> (r: Identity)
    ensures
        r == spec_jupiter_order_engine_program_id(),
{
    Identity {
        w0: 0xe9bba372fb49584a,
        w1: 0x3cf6576a0e5bdc1f,
        w2: 0xeda667205bb41c5a,
        w3: 0x02a1c89563d3ac0c,
    }
}

/// Canonical identity of the alternate aggregator program.
pub fn dflow_program_id() -> (r: Identity)
    ensures
        r == spec_dflow_program_id(),
{
    Identity {
        w0: 0x4873bce2144ae3b5,
        w1: 0xd6ee5daff5e10e69,
        w2: 0x60b8aa6da3403855,
        w3: 0x103cc0bd736050b0,
    }
}

/// Canonical identity of the second alternate aggregator program.
pub fn okx_program_id() -> (r: Identity)
    ensures
        r == spec_okx_program_id(),
{
    Identity {
        w0: 0x136d5ca2f1569155,
        w1: 0x340d9a0ae6f72a4f,
        w2: 0xd56264635691c77e,
        w3: 0x698f3435f126add1,
    }
}

/// Canonical identity of the liquidity-pool ("perpetuals") program.
pub fn perpetuals_program_id() -> (r: Identity)
    ensures
        r == spec_perpetuals_program_id(),
{
    Identity {
        w0: 0xef6294f1caf3b105,
        w1: 0x3dcd75deabf06087,
        w2: 0xe820c6323a1be39e,
        w3: 0xfa45819b9c2e1294,
    }
}

impl StepAction {
    /// The opcode prefix the registry fixes for this operation.
    pub open spec fn spec_discriminator(self) -> Seq<u8> {
        match self {
            StepAction::JupiterSharedAccountsRoute => seq![193u8, 32, 155, 51, 65, 214, 156, 129],
            StepAction::JupiterSharedAccountsRouteV2 => seq![53u8, 96, 229, 202, 216, 187, 250, 24],
            StepAction::JupiterRoute => seq![229u8, 23, 203, 151, 122, 227, 173, 42],
            StepAction::JupiterRouteV2 => seq![53u8, 96, 229, 202, 216, 187, 250, 24],
            StepAction::JupiterOrderEngineFill => seq![168u8, 96, 183, 163, 92, 10, 40, 160],
            StepAction::OkxSwapTobV3 => seq![63u8, 114, 246, 131, 51, 2, 247, 29],
            StepAction::OkxSwapV3 => seq![240u8, 224, 38, 33, 176, 31, 241, 175],
            StepAction::OkxSwapTobV3WithReceiver => seq![14u8, 191, 44, 246, 142, 225, 224, 157],
            StepAction::OkxSwap => seq![248u8, 198, 158, 145, 225, 117, 135, 200],
            StepAction::DFlowSwap => seq![248u8, 198, 158, 145, 225, 117, 135, 200],
            StepAction::DFlowSwap2 => seq![65u8, 75, 63, 76, 235, 91, 91, 136],
            StepAction::JlpPerpetualsAddLiquidity2 => seq![228u8, 162, 78, 28, 70, 219, 116, 115],
            StepAction::JlpPerpetualsRemoveLiquidity2 => seq![
                230u8,
                215,
                82,
                127,
                241,
                101,
                227,
                146,
            ],
        }
    }

    /// The external program the registry expects this operation to address.
    pub open spec fn spec_expected_program_id(self) -> Identity {
        match self {
            StepAction::JupiterSharedAccountsRoute => spec_jupiter_program_id(),
            StepAction::JupiterSharedAccountsRouteV2 => spec_jupiter_program_id(),
            StepAction::JupiterRoute => spec_jupiter_program_id(),
            StepAction::JupiterRouteV2 => spec_jupiter_program_id(),
            StepAction::JupiterOrderEngineFill => spec_jupiter_order_engine_program_id(),
            StepAction::OkxSwapTobV3 => spec_okx_program_id(),
            StepAction::OkxSwapV3 => spec_okx_program_id(),
            StepAction::OkxSwapTobV3WithReceiver => spec_okx_program_id(),
            StepAction::OkxSwap => spec_okx_program_id(),
            StepAction::DFlowSwap => spec_dflow_program_id(),
            StepAction::DFlowSwap2 => spec_dflow_program_id(),
            StepAction::JlpPerpetualsAddLiquidity2 => spec_perpetuals_program_id(),
            StepAction::JlpPerpetualsRemoveLiquidity2 => spec_perpetuals_program_id(),
        }
    }

    /// Registry lookup: the opcode prefix, as bytes.
    pub fn discriminator(&self) -> (r: Vec<u8>)
        ensures
            r@ == self.spec_discriminator(),
    {
        match self {
            StepAction::JupiterSharedAccountsRoute => vec![193u8, 32, 155, 51, 65, 214, 156, 129],
            StepAction::JupiterSharedAccountsRouteV2 => vec![53u8, 96, 229, 202, 216, 187, 250, 24],
            StepAction::JupiterRoute => vec![229u8, 23, 203, 151, 122, 227, 173, 42],
            StepAction::JupiterRouteV2 => vec![53u8, 96, 229, 202, 216, 187, 250, 24],
            StepAction::JupiterOrderEngineFill => vec![168u8, 96, 183, 163, 92, 10, 40, 160],
            StepAction::OkxSwapTobV3 => vec![63u8, 114, 246, 131, 51, 2, 247, 29],
            StepAction::OkxSwapV3 => vec![240u8, 224, 38, 33, 176, 31, 241, 175],
            StepAction::OkxSwapTobV3WithReceiver => vec![14u8, 191, 44, 246, 142, 225, 224, 157],
            StepAction::OkxSwap => vec![248u8, 198, 158, 145, 225, 117, 135, 200],
            StepAction::DFlowSwap => vec![248u8, 198, 158, 145, 225, 117, 135, 200],
            StepAction::DFlowSwap2 => vec![65u8, 75, 63, 76, 235, 91, 91, 136],
            StepAction::JlpPerpetualsAddLiquidity2 => vec![228u8, 162, 78, 28, 70, 219, 116, 115],
            StepAction::JlpPerpetualsRemoveLiquidity2 => vec![
                230u8,
                215,
                82,
                127,
                241,
                101,
                227,
                146,
            ],
        }
    }

    /// Registry lookup: the expected external program's identity.
    pub fn expected_program_id(&self) -> (r: Identity)
        ensures
            r == self.spec_expected_program_id(),
    {
        match self {
            StepAction::JupiterSharedAccountsRoute => jupiter_program_id(),
            StepAction::JupiterSharedAccountsRouteV2 => jupiter_program_id(),
            StepAction::JupiterRoute => jupiter_program_id(),
            StepAction::JupiterRouteV2 => jupiter_program_id(),
            StepAction::JupiterOrderEngineFill => jupiter_order_engine_program_id(),
            StepAction::OkxSwapTobV3 => okx_program_id(),
            StepAction::OkxSwapV3 => okx_program_id(),
            StepAction::OkxSwapTobV3WithReceiver => okx_program_id(),
            StepAction::OkxSwap => okx_program_id(),
            StepAction::DFlowSwap => dflow_program_id(),
            StepAction::DFlowSwap2 => dflow_program_id(),
            StepAction::JlpPerpetualsAddLiquidity2 => perpetuals_program_id(),
            StepAction::JlpPerpetualsRemoveLiquidity2 => perpetuals_program_id(),
        }
    }

    /// The full instruction payload for this operation: the registry's opcode
    /// prefix followed by the caller-supplied payload bytes.
    pub fn to_program_instruction_data(&self, data: &Vec<u8>) -> (r: Vec<u8>)
        requires
            data@.len() + 8 <= usize::MAX,
        ensures
            r@ == self.spec_discriminator() + data@,
    {
        let mut instruction_data = self.discriminator();
        let mut i: usize = 0;
        while i < data.len()
            invariant
                i <= data@.len(),
                data@.len() + 8 <= usize::MAX,
                instruction_data@ == self.spec_discriminator() + data@.subrange(0, i as int),
            decreases data@.len() - i,
        {
            instruction_data.push(data[i]);
            proof {
                assert(data@.subrange(0, i + 1 as int) == data@.subrange(0, i as int).push(
                    data@[i as int],
                ));
            }
            i = i + 1;
        }
        proof {
            assert(data@.subrange(0, data@.len() as int) == data@);
        }
        instruction_data
    }
}

} // verus!
