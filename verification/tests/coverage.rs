use liquifact_escrow::errors::EscrowError;

#[test]
fn escrow_error_discriminants_match_canonical_table() {
    const TABLE: &[(EscrowError, u32)] = &[
        (EscrowError::AmountMustBePositive, 1),
        (EscrowError::YieldBpsOutOfRange, 2),
        (EscrowError::EscrowAlreadyInitialized, 3),
        (EscrowError::InvoiceIdInvalidLength, 4),
        (EscrowError::InvoiceIdInvalidCharset, 5),
        (EscrowError::MinContributionNotPositive, 6),
        (EscrowError::MinContributionExceedsAmount, 7),
        (EscrowError::MaxUniqueInvestorsNotPositive, 8),
        (EscrowError::MaxPerInvestorNotPositive, 9),
        (EscrowError::TierYieldOutOfRange, 10),
        (EscrowError::TierYieldBelowBase, 11),
        (EscrowError::TierLockNotIncreasing, 12),
        (EscrowError::TierYieldNotNonDecreasing, 13),
        (EscrowError::AmountExceedsMax, 14),
        (EscrowError::EscrowNotInitialized, 20),
        (EscrowError::FundingTokenNotSet, 21),
        (EscrowError::TreasuryNotSet, 22),
        (EscrowError::LegalHoldBlocksTreasuryDustSweep, 30),
        (EscrowError::SweepAmountNotPositive, 31),
        (EscrowError::SweepAmountExceedsMax, 32),
        (EscrowError::DustSweepNotTerminal, 33),
        (EscrowError::NoFundingTokenBalanceToSweep, 34),
        (EscrowError::EffectiveSweepAmountZero, 35),
        (EscrowError::TransferAmountNotPositive, 36),
        (EscrowError::InsufficientTokenBalanceBeforeTransfer, 37),
        (EscrowError::SenderBalanceUnderflow, 38),
        (EscrowError::RecipientBalanceUnderflow, 39),
        (EscrowError::SenderBalanceDeltaMismatch, 40),
        (EscrowError::RecipientBalanceDeltaMismatch, 41),
        (EscrowError::SweepExceedsLiabilityFloor, 42),
        (EscrowError::PrimaryAttestationAlreadyBound, 50),
        (EscrowError::AttestationAppendLogCapacityReached, 51),
        (EscrowError::CollateralAmountNotPositive, 60),
        (EscrowError::CollateralAssetEmpty, 61),
        (EscrowError::CollateralTimestampBackwards, 62),
        (EscrowError::InvestorBatchEmpty, 70),
        (EscrowError::InvestorBatchTooLarge, 71),
        (EscrowError::TargetNotPositive, 72),
        (EscrowError::TargetUpdateNotOpen, 73),
        (EscrowError::TargetBelowFundedAmount, 74),
        (EscrowError::CapLowerNotOpen, 75),
        (EscrowError::NoInvestorCapConfigured, 76),
        (EscrowError::NewCapNotLower, 77),
        (EscrowError::NewCapBelowCurrentFunderCount, 78),
        (EscrowError::MaturityUpdateNotOpen, 79),
        (EscrowError::NewAdminSameAsCurrent, 80),
        (EscrowError::FundingBatchEmpty, 82),
        (EscrowError::FundingBatchTooLarge, 83),
        (EscrowError::MigrationVersionMismatch, 90),
        (EscrowError::AlreadyCurrentSchemaVersion, 91),
        (EscrowError::NoMigrationPath, 92),
        (EscrowError::FundingAmountNotPositive, 100),
        (EscrowError::FundingBelowMinContribution, 101),
        (EscrowError::LegalHoldBlocksFunding, 102),
        (EscrowError::EscrowNotOpenForFunding, 103),
        (EscrowError::InvestorNotAllowlisted, 104),
        (EscrowError::InvestorContributionOverflow, 105),
        (EscrowError::InvestorContributionExceedsCap, 106),
        (EscrowError::UniqueInvestorCapReached, 107),
        (EscrowError::TieredSecondDeposit, 108),
        (EscrowError::InvestorClaimTimeOverflow, 109),
        (EscrowError::FundedAmountOverflow, 110),
        (EscrowError::CommitmentLockExceedsMaturity, 111),
        (EscrowError::LegalHoldBlocksSettlement, 120),
        (EscrowError::SettlementNotFunded, 121),
        (EscrowError::MaturityNotReached, 122),
        (EscrowError::LegalHoldBlocksWithdrawal, 123),
        (EscrowError::WithdrawalNotFunded, 124),
        (EscrowError::LegalHoldBlocksInvestorClaims, 125),
        (EscrowError::NoContributionToClaim, 126),
        (EscrowError::InvestorClaimNotSettled, 127),
        (EscrowError::InvestorCommitmentLockNotExpired, 128),
        (EscrowError::ComputePayoutArithmeticOverflow, 129),
        (EscrowError::LegalHoldBlocksCancelFunding, 140),
        (EscrowError::CancelFundingNotOpen, 141),
        (EscrowError::RefundNotCancelled, 142),
        (EscrowError::NoContributionToRefund, 143),
        (EscrowError::LegalHoldClearRequestMissing, 150),
        (EscrowError::LegalHoldClearNotReady, 151),
        (EscrowError::LegalHoldClearDelayOverflow, 152),
        (EscrowError::LegalHoldBlocksBeneficiaryRotation, 160),
        (EscrowError::RotationNotOpen, 161),
        (EscrowError::NewSmeSameAsCurrent, 162),
        (EscrowError::FundingDeadlinePassed, 164),
        (EscrowError::NoPendingAdmin, 163),
        (EscrowError::FloorLowerNotOpen, 173),
        (EscrowError::NewFloorNotLower, 174),
        (EscrowError::NewFloorNotPositive, 175),
    ];
    assert_eq!(TABLE.len(), 88);
    for (variant, code) in TABLE {
        assert_eq!(variant.code(), *code, "discriminant drift for code {code}");
    }
}

#[test]
fn escrow_error_codes_of_later_variants() {
    assert_eq!(EscrowError::AttestationIndexOutOfRange.code(), 52);
    assert_eq!(EscrowError::AttestationAlreadyRevoked.code(), 53);
    assert_eq!(EscrowError::AttestationNotRevoked.code(), 54);
    assert_eq!(EscrowError::NoCollateralToClear.code(), 63);
    assert_eq!(EscrowError::LegalHoldBlocksPartialSettle.code(), 130);
    assert_eq!(EscrowError::PartialSettleUnauthorizedCaller.code(), 131);
    assert_eq!(EscrowError::PartialSettleNotOpen.code(), 132);
    assert_eq!(EscrowError::FundingDeadlineUpdateNotOpen.code(), 165);
    assert_eq!(EscrowError::MaturityInPast.code(), 166);
    assert_eq!(EscrowError::MaturityBeyondHorizon.code(), 167);
    assert_eq!(EscrowError::MaturityUnchanged.code(), 168);
    assert_eq!(EscrowError::PendingAdminExpired.code(), 169);
    assert_eq!(EscrowError::CapRaiseNotOpen.code(), 170);
    assert_eq!(EscrowError::NewCapNotHigher.code(), 171);
}

#[test]
fn test_all_event_symbols_are_unique_across_struct_types() {
    let symbols: std::collections::HashSet<&str> = [
        "escrow_ii", "inv_cap", "raise_cap", "floor_lo", "funded", "ben_rot",
        "part_set", "escrow_sd", "maturity", "admin", "adm_acc", "adm_prop",
        "adm_can", "depr_xfer", "fund_tgt", "legalhld", "lh_req", "coll_rec",
        "sme_wd", "inv_claim", "fund_can", "refunded", "reg_rebind", "dust_sw",
        "att_bind", "att_app", "att_rev", "att_unrev", "mtry_max", "al_ena",
        "al_set", "lh_cancel", "upgrade",
    ]
    .iter()
    .cloned()
    .collect();

    assert_eq!(symbols.len(), 33, "each event struct must have a unique name symbol");
}

#[test]
fn test_event_topic0_follows_snake_case_convention() {
    let expected_topics: Vec<(&str, &str)> = vec![
        ("AdminAcceptedEvent", "admin_accepted_event"),
        ("AdminProposalCancelled", "admin_proposal_cancelled"),
        ("AdminProposedEvent", "admin_proposed_event"),
        ("AdminTransferredEvent", "admin_transferred_event"),
        ("AllowlistEnabledChanged", "allowlist_enabled_changed"),
        ("AttestationDigestAppended", "attestation_digest_appended"),
        ("AttestationDigestRevoked", "attestation_digest_revoked"),
        ("AttestationDigestUnrevoked", "attestation_digest_unrevoked"),
        ("BeneficiaryRotated", "beneficiary_rotated"),
        ("CollateralClearedEvt", "collateral_cleared_evt"),
        ("CollateralCommitmentCleared", "collateral_commitment_cleared"),
        ("CollateralRecordedEvt", "collateral_recorded_evt"),
        ("ContractUpgraded", "contract_upgraded"),
        ("DeprecatedTransferAdminUsed", "deprecated_transfer_admin_used"),
        ("EscrowFunded", "escrow_funded"),
        ("EscrowInitialized", "escrow_initialized"),
        ("EscrowPartialSettle", "escrow_partial_settle"),
        ("EscrowSettled", "escrow_settled"),
        ("FundingCancelled", "funding_cancelled"),
        ("FundingTargetUpdated", "funding_target_updated"),
        ("InvestorAllowlistChanged", "investor_allowlist_changed"),
        ("InvestorPayoutClaimed", "investor_payout_claimed"),
        ("InvestorRefundedEvt", "investor_refunded_evt"),
        ("LegalHoldChanged", "legal_hold_changed"),
        ("LegalHoldClearCancelled", "legal_hold_clear_cancelled"),
        ("LegalHoldClearDelayUpdated", "legal_hold_clear_delay_updated"),
        ("LegalHoldClearRequested", "legal_hold_clear_requested"),
        ("MaturityMaxHorizonUpdated", "maturity_max_horizon_updated"),
        ("MaturityUpdatedEvent", "maturity_updated_event"),
        ("MaxPerInvestorCapRaised", "max_per_investor_cap_raised"),
        ("MaxUniqueInvestorsCapLowered", "max_unique_investors_cap_lowered"),
        ("MaxUniqueInvestorsCapRaised", "max_unique_investors_cap_raised"),
        ("MinContributionFloorLowered", "min_contribution_floor_lowered"),
        ("PrimaryAttestationBound", "primary_attestation_bound"),
        ("RegistryRefRebound", "registry_ref_rebound"),
        ("SmeWithdrew", "sme_withdrew"),
        ("TreasuryDustSwept", "treasury_dust_swept"),
    ];

    for (struct_name, topic0) in &expected_topics {
        assert!(!topic0.is_empty(), "topic 0 for {struct_name} must not be empty");
        assert_eq!(
            topic0.chars().filter(|c| *c == '_').count(),
            topic0.matches('_').count(),
            "topic 0 for {struct_name} must use snake_case"
        );
    }
}
