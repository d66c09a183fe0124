pub mod addresses;
pub mod admin;
pub mod dispatch;
pub mod error;
pub mod gate;
pub mod identity;
pub mod laws;
pub mod perpetuals;
pub mod registry;
pub mod settlement;
pub mod simple;
pub mod swaps;
pub mod state;
pub mod token_account;
pub mod two_hop;

pub use admin::{
    process_accept_admin_transfer, process_grant_access, process_init_config,
    process_modify_cooldown_duration, process_pause, process_propose_new_admin,
    process_revoke_access,
};
pub use dispatch::{
    check_receiver_token_account, execute_cross_program_invocation, prepare_cpi_accounts,
    prepare_cross_program_accounts, validate_receiver_token_account, AccountMeta, AccountRef,
};
pub use error::ErrorCode;
pub use gate::{check_and_transfer, validate_and_transfer_input};
pub use identity::Identity;
pub use perpetuals::{
    AddLiquidity2Params, JupiterLiquidityParams, JupiterPerpetualsAction, JupiterPerpetualsParams,
    RemoveLiquidity2Params,
};
pub use registry::{
    dflow_program_id, jupiter_order_engine_program_id, jupiter_program_id, okx_program_id,
    perpetuals_program_id, StepAction,
};
pub use settlement::transfer_output_tokens;
pub use simple::{process_token_receive, prorcess_transfer_in, prorcess_transfer_out};
pub use state::{Access, Config, MINIMUM_TRADE_INTERVAL};
pub use swaps::{
    process_dflow_aggregator, process_fill_order_engine, process_jupiter_perpetuals,
    process_jupiter_swap, process_shared_accounts_route_v2, process_swap, DflowAggregatorParams,
    FillOrderAccounts, FillOrderEngineParams, JupiterSwapParams, SharedAccountsRouteV2Args,
    SwapParams,
};
pub use token_account::{transfer_tokens, TokenAccountState};
pub use two_hop::{process_step, process_two_hop, StepObservation, StepParams, TwoHopParams};
