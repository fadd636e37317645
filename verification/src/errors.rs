use vstd::prelude::*;

verus! {

/// Typed failure of an escrow operation. Each variant has a stable numeric
/// code (see [`EscrowError::code`]) that client SDKs branch on.
#[derive(Clone, Copy, Debug, PartialEq, Eq, Structural)]
pub enum EscrowError {
    AmountMustBePositive,
    YieldBpsOutOfRange,
    EscrowAlreadyInitialized,
    InvoiceIdInvalidLength,
    InvoiceIdInvalidCharset,
    MinContributionNotPositive,
    MinContributionExceedsAmount,
    MaxUniqueInvestorsNotPositive,
    MaxPerInvestorNotPositive,
    TierYieldOutOfRange,
    TierYieldBelowBase,
    TierLockNotIncreasing,
    TierYieldNotNonDecreasing,
    AmountExceedsMax,
    EscrowNotInitialized,
    FundingTokenNotSet,
    TreasuryNotSet,
    LegalHoldBlocksTreasuryDustSweep,
    SweepAmountNotPositive,
    SweepAmountExceedsMax,
    DustSweepNotTerminal,
    NoFundingTokenBalanceToSweep,
    EffectiveSweepAmountZero,
    TransferAmountNotPositive,
    InsufficientTokenBalanceBeforeTransfer,
    SenderBalanceUnderflow,
    RecipientBalanceUnderflow,
    SenderBalanceDeltaMismatch,
    RecipientBalanceDeltaMismatch,
    SweepExceedsLiabilityFloor,
    PrimaryAttestationAlreadyBound,
    AttestationAppendLogCapacityReached,
    AttestationIndexOutOfRange,
    AttestationAlreadyRevoked,
    AttestationNotRevoked,
    CollateralAmountNotPositive,
    CollateralAssetEmpty,
    CollateralTimestampBackwards,
    NoCollateralToClear,
    InvestorBatchEmpty,
    InvestorBatchTooLarge,
    TargetNotPositive,
    TargetUpdateNotOpen,
    TargetBelowFundedAmount,
    CapLowerNotOpen,
    NoInvestorCapConfigured,
    NewCapNotLower,
    NewCapBelowCurrentFunderCount,
    MaturityUpdateNotOpen,
    NewAdminSameAsCurrent,
    InsufficientContractBalance,
    FundingBatchEmpty,
    FundingBatchTooLarge,
    MigrationVersionMismatch,
    AlreadyCurrentSchemaVersion,
    NoMigrationPath,
    FundingAmountNotPositive,
    FundingBelowMinContribution,
    LegalHoldBlocksFunding,
    EscrowNotOpenForFunding,
    InvestorNotAllowlisted,
    InvestorContributionOverflow,
    InvestorContributionExceedsCap,
    UniqueInvestorCapReached,
    TieredSecondDeposit,
    InvestorClaimTimeOverflow,
    FundedAmountOverflow,
    CommitmentLockExceedsMaturity,
    LegalHoldBlocksSettlement,
    SettlementNotFunded,
    MaturityNotReached,
    LegalHoldBlocksWithdrawal,
    WithdrawalNotFunded,
    LegalHoldBlocksInvestorClaims,
    NoContributionToClaim,
    InvestorClaimNotSettled,
    InvestorCommitmentLockNotExpired,
    ComputePayoutArithmeticOverflow,
    LegalHoldBlocksPartialSettle,
    PartialSettleUnauthorizedCaller,
    PartialSettleNotOpen,
    LegalHoldBlocksCancelFunding,
    CancelFundingNotOpen,
    RefundNotCancelled,
    NoContributionToRefund,
    LegalHoldClearRequestMissing,
    LegalHoldClearNotReady,
    LegalHoldClearDelayOverflow,
    LegalHoldBlocksBeneficiaryRotation,
    RotationNotOpen,
    NewSmeSameAsCurrent,
    NoPendingAdmin,
    FundingDeadlinePassed,
    FundingDeadlineUpdateNotOpen,
    MaturityInPast,
    MaturityBeyondHorizon,
    MaturityUnchanged,
    PendingAdminExpired,
    CapRaiseNotOpen,
    NewCapNotHigher,
    FloorLowerNotOpen,
    NewFloorNotLower,
    NewFloorNotPositive,
}

impl EscrowError {
    /// The stable, append-only numeric code of each error.
    pub open spec fn code_of(self) -> u32 {
        match self {
            EscrowError::AmountMustBePositive => 1,
            EscrowError::YieldBpsOutOfRange => 2,
            EscrowError::EscrowAlreadyInitialized => 3,
            EscrowError::InvoiceIdInvalidLength => 4,
            EscrowError::InvoiceIdInvalidCharset => 5,
            EscrowError::MinContributionNotPositive => 6,
            EscrowError::MinContributionExceedsAmount => 7,
            EscrowError::MaxUniqueInvestorsNotPositive => 8,
            EscrowError::MaxPerInvestorNotPositive => 9,
            EscrowError::TierYieldOutOfRange => 10,
            EscrowError::TierYieldBelowBase => 11,
            EscrowError::TierLockNotIncreasing => 12,
            EscrowError::TierYieldNotNonDecreasing => 13,
            EscrowError::AmountExceedsMax => 14,
            EscrowError::EscrowNotInitialized => 20,
            EscrowError::FundingTokenNotSet => 21,
            EscrowError::TreasuryNotSet => 22,
            EscrowError::LegalHoldBlocksTreasuryDustSweep => 30,
            EscrowError::SweepAmountNotPositive => 31,
            EscrowError::SweepAmountExceedsMax => 32,
            EscrowError::DustSweepNotTerminal => 33,
            EscrowError::NoFundingTokenBalanceToSweep => 34,
            EscrowError::EffectiveSweepAmountZero => 35,
            EscrowError::TransferAmountNotPositive => 36,
            EscrowError::InsufficientTokenBalanceBeforeTransfer => 37,
            EscrowError::SenderBalanceUnderflow => 38,
            EscrowError::RecipientBalanceUnderflow => 39,
            EscrowError::SenderBalanceDeltaMismatch => 40,
            EscrowError::RecipientBalanceDeltaMismatch => 41,
            EscrowError::SweepExceedsLiabilityFloor => 42,
            EscrowError::PrimaryAttestationAlreadyBound => 50,
            EscrowError::AttestationAppendLogCapacityReached => 51,
            EscrowError::AttestationIndexOutOfRange => 52,
            EscrowError::AttestationAlreadyRevoked => 53,
            EscrowError::AttestationNotRevoked => 54,
            EscrowError::CollateralAmountNotPositive => 60,
            EscrowError::CollateralAssetEmpty => 61,
            EscrowError::CollateralTimestampBackwards => 62,
            EscrowError::NoCollateralToClear => 63,
            EscrowError::InvestorBatchEmpty => 70,
            EscrowError::InvestorBatchTooLarge => 71,
            EscrowError::TargetNotPositive => 72,
            EscrowError::TargetUpdateNotOpen => 73,
            EscrowError::TargetBelowFundedAmount => 74,
            EscrowError::CapLowerNotOpen => 75,
            EscrowError::NoInvestorCapConfigured => 76,
            EscrowError::NewCapNotLower => 77,
            EscrowError::NewCapBelowCurrentFunderCount => 78,
            EscrowError::MaturityUpdateNotOpen => 79,
            EscrowError::NewAdminSameAsCurrent => 80,
            EscrowError::InsufficientContractBalance => 81,
            EscrowError::FundingBatchEmpty => 82,
            EscrowError::FundingBatchTooLarge => 83,
            EscrowError::MigrationVersionMismatch => 90,
            EscrowError::AlreadyCurrentSchemaVersion => 91,
            EscrowError::NoMigrationPath => 92,
            EscrowError::FundingAmountNotPositive => 100,
            EscrowError::FundingBelowMinContribution => 101,
            EscrowError::LegalHoldBlocksFunding => 102,
            EscrowError::EscrowNotOpenForFunding => 103,
            EscrowError::InvestorNotAllowlisted => 104,
            EscrowError::InvestorContributionOverflow => 105,
            EscrowError::InvestorContributionExceedsCap => 106,
            EscrowError::UniqueInvestorCapReached => 107,
            EscrowError::TieredSecondDeposit => 108,
            EscrowError::InvestorClaimTimeOverflow => 109,
            EscrowError::FundedAmountOverflow => 110,
            EscrowError::CommitmentLockExceedsMaturity => 111,
            EscrowError::LegalHoldBlocksSettlement => 120,
            EscrowError::SettlementNotFunded => 121,
            EscrowError::MaturityNotReached => 122,
            EscrowError::LegalHoldBlocksWithdrawal => 123,
            EscrowError::WithdrawalNotFunded => 124,
            EscrowError::LegalHoldBlocksInvestorClaims => 125,
            EscrowError::NoContributionToClaim => 126,
            EscrowError::InvestorClaimNotSettled => 127,
            EscrowError::InvestorCommitmentLockNotExpired => 128,
            EscrowError::ComputePayoutArithmeticOverflow => 129,
            EscrowError::LegalHoldBlocksPartialSettle => 130,
            EscrowError::PartialSettleUnauthorizedCaller => 131,
            EscrowError::PartialSettleNotOpen => 132,
            EscrowError::LegalHoldBlocksCancelFunding => 140,
            EscrowError::CancelFundingNotOpen => 141,
            EscrowError::RefundNotCancelled => 142,
            EscrowError::NoContributionToRefund => 143,
            EscrowError::LegalHoldClearRequestMissing => 150,
            EscrowError::LegalHoldClearNotReady => 151,
            EscrowError::LegalHoldClearDelayOverflow => 152,
            EscrowError::LegalHoldBlocksBeneficiaryRotation => 160,
            EscrowError::RotationNotOpen => 161,
            EscrowError::NewSmeSameAsCurrent => 162,
            EscrowError::NoPendingAdmin => 163,
            EscrowError::FundingDeadlinePassed => 164,
            EscrowError::FundingDeadlineUpdateNotOpen => 165,
            EscrowError::MaturityInPast => 166,
            EscrowError::MaturityBeyondHorizon => 167,
            EscrowError::MaturityUnchanged => 168,
            EscrowError::PendingAdminExpired => 169,
            EscrowError::CapRaiseNotOpen => 170,
            EscrowError::NewCapNotHigher => 171,
            EscrowError::FloorLowerNotOpen => 173,
            EscrowError::NewFloorNotLower => 174,
            EscrowError::NewFloorNotPositive => 175,
        }
    }

    /// Numeric code of this error, as reported to contract callers.
    pub fn code(&self) -> (c: u32)
        ensures
            c == self.code_of(),
    {
        match self {
            EscrowError::AmountMustBePositive => 1,
            EscrowError::YieldBpsOutOfRange => 2,
            EscrowError::EscrowAlreadyInitialized => 3,
            EscrowError::InvoiceIdInvalidLength => 4,
            EscrowError::InvoiceIdInvalidCharset => 5,
            EscrowError::MinContributionNotPositive => 6,
            EscrowError::MinContributionExceedsAmount => 7,
            EscrowError::MaxUniqueInvestorsNotPositive => 8,
            EscrowError::MaxPerInvestorNotPositive => 9,
            EscrowError::TierYieldOutOfRange => 10,
            EscrowError::TierYieldBelowBase => 11,
            EscrowError::TierLockNotIncreasing => 12,
            EscrowError::TierYieldNotNonDecreasing => 13,
            EscrowError::AmountExceedsMax => 14,
            EscrowError::EscrowNotInitialized => 20,
            EscrowError::FundingTokenNotSet => 21,
            EscrowError::TreasuryNotSet => 22,
            EscrowError::LegalHoldBlocksTreasuryDustSweep => 30,
            EscrowError::SweepAmountNotPositive => 31,
            EscrowError::SweepAmountExceedsMax => 32,
            EscrowError::DustSweepNotTerminal => 33,
            EscrowError::NoFundingTokenBalanceToSweep => 34,
            EscrowError::EffectiveSweepAmountZero => 35,
            EscrowError::TransferAmountNotPositive => 36,
            EscrowError::InsufficientTokenBalanceBeforeTransfer => 37,
            EscrowError::SenderBalanceUnderflow => 38,
            EscrowError::RecipientBalanceUnderflow => 39,
            EscrowError::SenderBalanceDeltaMismatch => 40,
            EscrowError::RecipientBalanceDeltaMismatch => 41,
            EscrowError::SweepExceedsLiabilityFloor => 42,
            EscrowError::PrimaryAttestationAlreadyBound => 50,
            EscrowError::AttestationAppendLogCapacityReached => 51,
            EscrowError::AttestationIndexOutOfRange => 52,
            EscrowError::AttestationAlreadyRevoked => 53,
            EscrowError::AttestationNotRevoked => 54,
            EscrowError::CollateralAmountNotPositive => 60,
            EscrowError::CollateralAssetEmpty => 61,
            EscrowError::CollateralTimestampBackwards => 62,
            EscrowError::NoCollateralToClear => 63,
            EscrowError::InvestorBatchEmpty => 70,
            EscrowError::InvestorBatchTooLarge => 71,
            EscrowError::TargetNotPositive => 72,
            EscrowError::TargetUpdateNotOpen => 73,
            EscrowError::TargetBelowFundedAmount => 74,
            EscrowError::CapLowerNotOpen => 75,
            EscrowError::NoInvestorCapConfigured => 76,
            EscrowError::NewCapNotLower => 77,
            EscrowError::NewCapBelowCurrentFunderCount => 78,
            EscrowError::MaturityUpdateNotOpen => 79,
            EscrowError::NewAdminSameAsCurrent => 80,
            EscrowError::InsufficientContractBalance => 81,
            EscrowError::FundingBatchEmpty => 82,
            EscrowError::FundingBatchTooLarge => 83,
            EscrowError::MigrationVersionMismatch => 90,
            EscrowError::AlreadyCurrentSchemaVersion => 91,
            EscrowError::NoMigrationPath => 92,
            EscrowError::FundingAmountNotPositive => 100,
            EscrowError::FundingBelowMinContribution => 101,
            EscrowError::LegalHoldBlocksFunding => 102,
            EscrowError::EscrowNotOpenForFunding => 103,
            EscrowError::InvestorNotAllowlisted => 104,
            EscrowError::InvestorContributionOverflow => 105,
            EscrowError::InvestorContributionExceedsCap => 106,
            EscrowError::UniqueInvestorCapReached => 107,
            EscrowError::TieredSecondDeposit => 108,
            EscrowError::InvestorClaimTimeOverflow => 109,
            EscrowError::FundedAmountOverflow => 110,
            EscrowError::CommitmentLockExceedsMaturity => 111,
            EscrowError::LegalHoldBlocksSettlement => 120,
            EscrowError::SettlementNotFunded => 121,
            EscrowError::MaturityNotReached => 122,
            EscrowError::LegalHoldBlocksWithdrawal => 123,
            EscrowError::WithdrawalNotFunded => 124,
            EscrowError::LegalHoldBlocksInvestorClaims => 125,
            EscrowError::NoContributionToClaim => 126,
            EscrowError::InvestorClaimNotSettled => 127,
            EscrowError::InvestorCommitmentLockNotExpired => 128,
            EscrowError::ComputePayoutArithmeticOverflow => 129,
            EscrowError::LegalHoldBlocksPartialSettle => 130,
            EscrowError::PartialSettleUnauthorizedCaller => 131,
            EscrowError::PartialSettleNotOpen => 132,
            EscrowError::LegalHoldBlocksCancelFunding => 140,
            EscrowError::CancelFundingNotOpen => 141,
            EscrowError::RefundNotCancelled => 142,
            EscrowError::NoContributionToRefund => 143,
            EscrowError::LegalHoldClearRequestMissing => 150,
            EscrowError::LegalHoldClearNotReady => 151,
            EscrowError::LegalHoldClearDelayOverflow => 152,
            EscrowError::LegalHoldBlocksBeneficiaryRotation => 160,
            EscrowError::RotationNotOpen => 161,
            EscrowError::NewSmeSameAsCurrent => 162,
            EscrowError::NoPendingAdmin => 163,
            EscrowError::FundingDeadlinePassed => 164,
            EscrowError::FundingDeadlineUpdateNotOpen => 165,
            EscrowError::MaturityInPast => 166,
            EscrowError::MaturityBeyondHorizon => 167,
            EscrowError::MaturityUnchanged => 168,
            EscrowError::PendingAdminExpired => 169,
            EscrowError::CapRaiseNotOpen => 170,
            EscrowError::NewCapNotHigher => 171,
            EscrowError::FloorLowerNotOpen => 173,
            EscrowError::NewFloorNotLower => 174,
            EscrowError::NewFloorNotPositive => 175,
        }
    }
}

/// Distinct errors carry distinct codes, so a code identifies its error.
pub proof fn lemma_error_codes_distinct(a: EscrowError, b: EscrowError)
    ensures
        a.code_of() == b.code_of() ==> a == b,
{
}

} // verus!
