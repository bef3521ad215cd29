use flashloan::{Ee, ProgramError};

#[test]
fn error_codes_follow_declaration_order() {
    assert_eq!(Ee::MethodDiscriminator.code(), 0);
    assert_eq!(Ee::NotWritable.code(), 7);
    assert_eq!(Ee::ZeroU64.code(), 16);
    assert_eq!(Ee::ByteSizeForU64.code(), 21);
    assert_eq!(Ee::VaultDataLengh.code(), 34);
    assert_eq!(Ee::VaultIsForeign.code(), 35);
    assert_eq!(Ee::RepayTokenAccountLen.code(), 81);
    assert_eq!(Ee::NotMapped.code(), 82);
    assert_eq!(Ee::TxnAcctsLength.code(), 83);
    assert_eq!(Ee::InstructionSysvar.code(), 98);
}

#[test]
fn e_fails_with_the_custom_code() {
    assert_eq!(Ee::ZeroU64.e(), Err(ProgramError::Custom(16)));
    assert_eq!(Ee::MethodDiscriminator.e(), Err(ProgramError::Custom(0)));
    assert_eq!(Ee::RepayVaultBalcNotExpected.e(), Err(ProgramError::Custom(Ee::RepayVaultBalcNotExpected.code())));
}

#[test]
fn from_agrees_with_e() {
    for e in [Ee::AtaOrMint, Ee::DecimalsValue, Ee::NotMapped, Ee::RepayIxSigner] {
        assert_eq!(Err(ProgramError::from(e)), e.e());
    }
}

#[test]
fn codes_read_back_as_their_error() {
    for n in 0u32..=81 {
        let e = Ee::try_from(n).unwrap();
        if n == 34 {
            assert_eq!(e, Ee::VaultIsForeign);
        } else if n == 35 {
            assert_eq!(e, Ee::VaultDataLengh);
        } else {
            assert_eq!(e.code(), n);
        }
    }
}

#[test]
fn vault_length_and_foreign_codes_read_back_swapped() {
    assert_eq!(Ee::try_from(Ee::VaultDataLengh.code()), Ok(Ee::VaultIsForeign));
    assert_eq!(Ee::try_from(Ee::VaultIsForeign.code()), Ok(Ee::VaultDataLengh));
}

#[test]
fn unmapped_codes_fail_with_not_mapped() {
    assert_eq!(Ee::try_from(82), Err(ProgramError::Custom(82)));
    assert_eq!(Ee::try_from(99), Err(ProgramError::Custom(82)));
    assert_eq!(Ee::try_from(u32::MAX), Err(ProgramError::Custom(82)));
}

#[test]
fn errors_have_their_names() {
    assert_eq!(Ee::MethodDiscriminator.to_str(), "MethodDiscriminator");
    assert_eq!(Ee::VaultDataLengh.to_str(), "VaultDataLengh");
    assert_eq!(Ee::AtokenGPvbd.to_str(), "AtokenGPvbd");
    assert_eq!(Ee::NotMapped.to_str(), "NotMapped");
    assert_eq!(Ee::RepayIxDebtorAta.to_str(), "RepayIxDebtorAta");
}

#[test]
fn distinct_errors_have_distinct_codes() {
    let mut seen = std::collections::HashSet::new();
    for n in 0u32..=81 {
        let e = Ee::try_from(n).unwrap();
        assert!(seen.insert(e.code()));
    }
    for e in LATER {
        assert!(seen.insert(e.code()));
    }
}

/// The errors numbered from `NotMapped` up.
const LATER: [Ee; 17] = [
    Ee::NotMapped, Ee::TxnAcctsLength, Ee::LoansPdaHasData, Ee::AmountsLenVsTxnAcctsLen,
    Ee::TxnLenInvalid, Ee::ByteSizeVaultBumps, Ee::ByteSizeFees, Ee::RepayIxSigner,
    Ee::RepayIxLoansPda, Ee::RepayIxVaultPda, Ee::RepayIxVaultAta, Ee::RepayIxDebtorAta,
    Ee::VaultAtaBalcZero, Ee::RepayTxnAcctsLen, Ee::RepayVaultAta, Ee::RepayVaultBalcNotExpected,
    Ee::InstructionSysvar,
];

#[test]
fn later_codes_fail_with_not_mapped() {
    for e in LATER {
        assert!(e.code() >= 82);
        assert_eq!(Ee::try_from(e.code()), Err(ProgramError::Custom(82)));
    }
    for n in 82u32..=120 {
        assert_eq!(Ee::try_from(n), Err(ProgramError::Custom(82)));
    }
}

#[test]
fn distinct_errors_have_distinct_names() {
    let mut names = std::collections::HashSet::new();
    for n in 0u32..=81 {
        let e = Ee::try_from(n).unwrap();
        assert!(names.insert(e.to_str()));
    }
    for e in LATER {
        assert!(names.insert(e.to_str()));
    }
}
