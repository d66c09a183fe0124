use vstd::prelude::*;

verus! {

/// Every way a unit of work can abort. A returned error is the abort signal:
/// the surrounding ledger runtime applies a unit of work all-or-nothing, so
/// any balance already moved inside the failed unit is rolled back by the host.
#[derive(Clone, Copy, Debug, PartialEq, Eq, Structural)]
pub enum ErrorCode {
    // Authorization
    Unauthorized,
    InvalidOperator,
    AccessNotGranted,
    AccessAlreadyGranted,
    DelegateNotApproved,
    InsufficientDelegatedAmount,
    InvalidDelegateTokenAccount,
    // Lifecycle
    ConfigNotInitialized,
    ConfigAlreadyInitialized,
    ConfigPaused,
    InvalidCooldownDuration,
    // Timing
    SwapTooFrequent,
    // Protocol identity
    TargetProgramMismatch,
    // Settlement
    SwapFailed,
    SwapAmountTooSmall,
    ReceiverTokenAccountNotFound,
    TwoHopMaxSlippageOutputAmountExceeded,
    InsufficientFunds,
    InvalidTokenAccount,
    ExecutorOutputTokenAccountIsInsufficient,
    FundVaultOutputTokenAccountNotFound,
    // Malformed request payload
    InvalidInstructionData,
    // Admin transfer
    OnlyAdminCanProposeNewAdmin,
    OnlyProposedAdminCanAccept,
    ProposedAdminAlreadySet,
    ProposedAdminIsCurrentAdmin,
    NoPendingAdminTransfer,
    OnlyAdminCanModifyCooldownDuration,
    AdminAuthorityMismatch,
    NewAdminProposed,
    NoNewAdminProposed,
}

} // verus!
