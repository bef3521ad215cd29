use vstd::prelude::*;

verus! {
/// The errors that a program instruction can end with.
///
/// `Custom` carries a program-specific error number; the other variants are
/// the runtime's built-in errors.
#[derive(Clone, Copy, Debug, PartialEq, Eq, Structural)]
pub enum ProgramError {
    Custom(u32),
    InvalidArgument,
    InvalidInstructionData,
    InvalidAccountData,
    AccountDataTooSmall,
    InsufficientFunds,
    IncorrectProgramId,
    MissingRequiredSignature,
    AccountAlreadyInitialized,
    UninitializedAccount,
    NotEnoughAccountKeys,
    AccountBorrowFailed,
    MaxSeedLengthExceeded,
    InvalidSeeds,
    BorshIoError,
    AccountNotRentExempt,
    UnsupportedSysvar,
    IllegalOwner,
    MaxAccountsDataAllocationsExceeded,
    InvalidRealloc,
    MaxInstructionTraceLengthExceeded,
    BuiltinProgramsMustConsumeComputeUnits,
    InvalidAccountOwner,
    ArithmeticOverflow,
    Immutable,
    IncorrectAuthority,
}

/// The outcome of an instruction or of one of its checks.
pub type ProgramResult = Result<(), ProgramError>;

/// The program's own errors. Each is reported to the runtime as
/// `ProgramError::Custom` with the variant's position in this list.
#[derive(Clone, Copy, Debug, PartialEq, Eq, Structural)]
pub enum Ee {
    MethodDiscriminator,
    Xyz001,
    OnlyProgOwner,
    OnlyAdmin,
    OnlyUser,
    Xyz005,
    Xyz006,
    NotWritable,
    NotExecutable,
    TokenProgram,
    AtokenGPvbd,
    SystemProgram,
    RentSysvar,
    Xyz013,
    Xyz014,
    ZeroU128,
    ZeroU64,
    ZeroU32,
    ZeroU16,
    ZeroU8,
    ByteSizeForU128,
    ByteSizeForU64,
    ByteSizeForU32,
    ByteSizeForU16,
    ByteSizeForU8,
    ByteSliceSize128,
    ByteSliceSize64,
    ByteSliceSize32,
    ByteSliceSize10,
    ByteSliceSize6,
    InputDataLen,
    InputDataBump,
    PdaNoLamport,
    ForeignPDA,
    VaultDataLengh,
    VaultIsForeign,
    DecimalsValue,
    MintDataLen,
    MintOrMintAuthority,
    MintOrTokenProgram,
    AtaDataLen,
    Ata22DataLen,
    AtaOrOwner,
    AtaOrMint,
    AtaCheckX1,
    ForeignAta,
    AtaHasNoData,
    TokenAcctOwner,
    TokenAcctDataLen,
    Xyz049,
    NoRentExemptTokAcct,
    NoRentExemptTokAcct22,
    NoRentExemptMint22,
    NoRentExemptMint,
    Xyz054,
    Xyz055,
    Xyz056,
    Xyz057,
    Xyz058,
    Xyz059,
    AddToOverflow,
    MultDivNone,
    MultiplyOverflow,
    DividedByZero,
    Remainder,
    EmptyData,
    ClockGet,
    VaultExists,
    Xyz068,
    Xyz069,
    TokenAcctsLength,
    LoanRecordAcctHasData,
    DataArgLenForU64,
    AmountsLenVsTokenAcctLen,
    BorrowAmountTooBig,
    BorrowedAmountIsZero,
    LenderPdaBalanceIsZero,
    NumOfInstructions,
    RepayProgId,
    RepayDiscriminator,
    RepayIxLenderPda,
    RepayTokenAccountLen,
    /// Numbers from this one up are not read back as errors: `try_from` fails
    /// on them, the errors declared after it included.
    NotMapped,
    /// The accounts after the fixed ones do not come in whole groups, or there are none.
    TxnAcctsLength,
    /// The loans account already holds data.
    LoansPdaHasData,
    /// The number of amounts differs from the number of account groups.
    AmountsLenVsTxnAcctsLen,
    /// The number of account groups is zero or above eight.
    TxnLenInvalid,
    /// The instruction data is too short for the vault bumps.
    ByteSizeVaultBumps,
    /// The instruction data is too short for the fees.
    ByteSizeFees,
    /// The repay instruction does not name the signer first.
    RepayIxSigner,
    /// The repay instruction does not name the loans account second.
    RepayIxLoansPda,
    /// The repay instruction names another vault.
    RepayIxVaultPda,
    /// The repay instruction names another vault token account.
    RepayIxVaultAta,
    /// The repay instruction names another debtor token account.
    RepayIxDebtorAta,
    /// The vault token account holds no tokens.
    VaultAtaBalcZero,
    /// The number of recorded loans differs from the number of account groups.
    RepayTxnAcctsLen,
    /// A recorded loan names another vault token account.
    RepayVaultAta,
    /// A vault token account holds less than the recorded balance plus fee.
    RepayVaultBalcNotExpected,
    /// The account is not the instructions sysvar.
    InstructionSysvar,
}

/// The number under which `e` is reported: its position in the declaration of `Ee`.
pub open spec fn ee_code(e: Ee) -> u32 {
    match e {
        Ee::MethodDiscriminator => 0,
        Ee::Xyz001 => 1,
        Ee::OnlyProgOwner => 2,
        Ee::OnlyAdmin => 3,
        Ee::OnlyUser => 4,
        Ee::Xyz005 => 5,
        Ee::Xyz006 => 6,
        Ee::NotWritable => 7,
        Ee::NotExecutable => 8,
        Ee::TokenProgram => 9,
        Ee::AtokenGPvbd => 10,
        Ee::SystemProgram => 11,
        Ee::RentSysvar => 12,
        Ee::Xyz013 => 13,
        Ee::Xyz014 => 14,
        Ee::ZeroU128 => 15,
        Ee::ZeroU64 => 16,
        Ee::ZeroU32 => 17,
        Ee::ZeroU16 => 18,
        Ee::ZeroU8 => 19,
        Ee::ByteSizeForU128 => 20,
        Ee::ByteSizeForU64 => 21,
        Ee::ByteSizeForU32 => 22,
        Ee::ByteSizeForU16 => 23,
        Ee::ByteSizeForU8 => 24,
        Ee::ByteSliceSize128 => 25,
        Ee::ByteSliceSize64 => 26,
        Ee::ByteSliceSize32 => 27,
        Ee::ByteSliceSize10 => 28,
        Ee::ByteSliceSize6 => 29,
        Ee::InputDataLen => 30,
        Ee::InputDataBump => 31,
        Ee::PdaNoLamport => 32,
        Ee::ForeignPDA => 33,
        Ee::VaultDataLengh => 34,
        Ee::VaultIsForeign => 35,
        Ee::DecimalsValue => 36,
        Ee::MintDataLen => 37,
        Ee::MintOrMintAuthority => 38,
        Ee::MintOrTokenProgram => 39,
        Ee::AtaDataLen => 40,
        Ee::Ata22DataLen => 41,
        Ee::AtaOrOwner => 42,
        Ee::AtaOrMint => 43,
        Ee::AtaCheckX1 => 44,
        Ee::ForeignAta => 45,
        Ee::AtaHasNoData => 46,
        Ee::TokenAcctOwner => 47,
        Ee::TokenAcctDataLen => 48,
        Ee::Xyz049 => 49,
        Ee::NoRentExemptTokAcct => 50,
        Ee::NoRentExemptTokAcct22 => 51,
        Ee::NoRentExemptMint22 => 52,
        Ee::NoRentExemptMint => 53,
        Ee::Xyz054 => 54,
        Ee::Xyz055 => 55,
        Ee::Xyz056 => 56,
        Ee::Xyz057 => 57,
        Ee::Xyz058 => 58,
        Ee::Xyz059 => 59,
        Ee::AddToOverflow => 60,
        Ee::MultDivNone => 61,
        Ee::MultiplyOverflow => 62,
        Ee::DividedByZero => 63,
        Ee::Remainder => 64,
        Ee::EmptyData => 65,
        Ee::ClockGet => 66,
        Ee::VaultExists => 67,
        Ee::Xyz068 => 68,
        Ee::Xyz069 => 69,
        Ee::TokenAcctsLength => 70,
        Ee::LoanRecordAcctHasData => 71,
        Ee::DataArgLenForU64 => 72,
        Ee::AmountsLenVsTokenAcctLen => 73,
        Ee::BorrowAmountTooBig => 74,
        Ee::BorrowedAmountIsZero => 75,
        Ee::LenderPdaBalanceIsZero => 76,
        Ee::NumOfInstructions => 77,
        Ee::RepayProgId => 78,
        Ee::RepayDiscriminator => 79,
        Ee::RepayIxLenderPda => 80,
        Ee::RepayTokenAccountLen => 81,
        Ee::NotMapped => 82,
        Ee::TxnAcctsLength => 83,
        Ee::LoansPdaHasData => 84,
        Ee::AmountsLenVsTxnAcctsLen => 85,
        Ee::TxnLenInvalid => 86,
        Ee::ByteSizeVaultBumps => 87,
        Ee::ByteSizeFees => 88,
        Ee::RepayIxSigner => 89,
        Ee::RepayIxLoansPda => 90,
        Ee::RepayIxVaultPda => 91,
        Ee::RepayIxVaultAta => 92,
        Ee::RepayIxDebtorAta => 93,
        Ee::VaultAtaBalcZero => 94,
        Ee::RepayTxnAcctsLen => 95,
        Ee::RepayVaultAta => 96,
        Ee::RepayVaultBalcNotExpected => 97,
        Ee::InstructionSysvar => 98,
    }
}

/// The error that a reported number is read back as: the numbers below 82;
/// 82 and every number above it read back as `Err(Custom(code of NotMapped))`.
pub open spec fn ee_from_code(n: u32) -> Result<Ee, ProgramError> {
    match n {
        0 => Ok(Ee::MethodDiscriminator),
        1 => Ok(Ee::Xyz001),
        2 => Ok(Ee::OnlyProgOwner),
        3 => Ok(Ee::OnlyAdmin),
        4 => Ok(Ee::OnlyUser),
        5 => Ok(Ee::Xyz005),
        6 => Ok(Ee::Xyz006),
        7 => Ok(Ee::NotWritable),
        8 => Ok(Ee::NotExecutable),
        9 => Ok(Ee::TokenProgram),
        10 => Ok(Ee::AtokenGPvbd),
        11 => Ok(Ee::SystemProgram),
        12 => Ok(Ee::RentSysvar),
        13 => Ok(Ee::Xyz013),
        14 => Ok(Ee::Xyz014),
        15 => Ok(Ee::ZeroU128),
        16 => Ok(Ee::ZeroU64),
        17 => Ok(Ee::ZeroU32),
        18 => Ok(Ee::ZeroU16),
        19 => Ok(Ee::ZeroU8),
        20 => Ok(Ee::ByteSizeForU128),
        21 => Ok(Ee::ByteSizeForU64),
        22 => Ok(Ee::ByteSizeForU32),
        23 => Ok(Ee::ByteSizeForU16),
        24 => Ok(Ee::ByteSizeForU8),
        25 => Ok(Ee::ByteSliceSize128),
        26 => Ok(Ee::ByteSliceSize64),
        27 => Ok(Ee::ByteSliceSize32),
        28 => Ok(Ee::ByteSliceSize10),
        29 => Ok(Ee::ByteSliceSize6),
        30 => Ok(Ee::InputDataLen),
        31 => Ok(Ee::InputDataBump),
        32 => Ok(Ee::PdaNoLamport),
        33 => Ok(Ee::ForeignPDA),
        34 => Ok(Ee::VaultIsForeign),
        35 => Ok(Ee::VaultDataLengh),
        36 => Ok(Ee::DecimalsValue),
        37 => Ok(Ee::MintDataLen),
        38 => Ok(Ee::MintOrMintAuthority),
        39 => Ok(Ee::MintOrTokenProgram),
        40 => Ok(Ee::AtaDataLen),
        41 => Ok(Ee::Ata22DataLen),
        42 => Ok(Ee::AtaOrOwner),
        43 => Ok(Ee::AtaOrMint),
        44 => Ok(Ee::AtaCheckX1),
        45 => Ok(Ee::ForeignAta),
        46 => Ok(Ee::AtaHasNoData),
        47 => Ok(Ee::TokenAcctOwner),
        48 => Ok(Ee::TokenAcctDataLen),
        49 => Ok(Ee::Xyz049),
        50 => Ok(Ee::NoRentExemptTokAcct),
        51 => Ok(Ee::NoRentExemptTokAcct22),
        52 => Ok(Ee::NoRentExemptMint22),
        53 => Ok(Ee::NoRentExemptMint),
        54 => Ok(Ee::Xyz054),
        55 => Ok(Ee::Xyz055),
        56 => Ok(Ee::Xyz056),
        57 => Ok(Ee::Xyz057),
        58 => Ok(Ee::Xyz058),
        59 => Ok(Ee::Xyz059),
        60 => Ok(Ee::AddToOverflow),
        61 => Ok(Ee::MultDivNone),
        62 => Ok(Ee::MultiplyOverflow),
        63 => Ok(Ee::DividedByZero),
        64 => Ok(Ee::Remainder),
        65 => Ok(Ee::EmptyData),
        66 => Ok(Ee::ClockGet),
        67 => Ok(Ee::VaultExists),
        68 => Ok(Ee::Xyz068),
        69 => Ok(Ee::Xyz069),
        70 => Ok(Ee::TokenAcctsLength),
        71 => Ok(Ee::LoanRecordAcctHasData),
        72 => Ok(Ee::DataArgLenForU64),
        73 => Ok(Ee::AmountsLenVsTokenAcctLen),
        74 => Ok(Ee::BorrowAmountTooBig),
        75 => Ok(Ee::BorrowedAmountIsZero),
        76 => Ok(Ee::LenderPdaBalanceIsZero),
        77 => Ok(Ee::NumOfInstructions),
        78 => Ok(Ee::RepayProgId),
        79 => Ok(Ee::RepayDiscriminator),
        80 => Ok(Ee::RepayIxLenderPda),
        81 => Ok(Ee::RepayTokenAccountLen),
        _ => Err(ProgramError::Custom(ee_code(Ee::NotMapped))),
    }
}

/// The human-readable name of `e`.
pub open spec fn ee_name(e: Ee) -> Seq<char> {
    match e {
        Ee::MethodDiscriminator => "MethodDiscriminator"@,
        Ee::Xyz001 => "Xyz001"@,
        Ee::OnlyProgOwner => "OnlyProgOwner"@,
        Ee::OnlyAdmin => "OnlyAdmin"@,
        Ee::OnlyUser => "OnlyUser"@,
        Ee::Xyz005 => "Xyz005"@,
        Ee::Xyz006 => "Xyz006"@,
        Ee::NotWritable => "NotWritable"@,
        Ee::NotExecutable => "NotExecutable"@,
        Ee::TokenProgram => "TokenProgram"@,
        Ee::AtokenGPvbd => "AtokenGPvbd"@,
        Ee::SystemProgram => "SystemProgram"@,
        Ee::RentSysvar => "RentSysvar"@,
        Ee::Xyz013 => "Xyz013"@,
        Ee::Xyz014 => "Xyz014"@,
        Ee::ZeroU128 => "ZeroU128"@,
        Ee::ZeroU64 => "ZeroU64"@,
        Ee::ZeroU32 => "ZeroU32"@,
        Ee::ZeroU16 => "ZeroU16"@,
        Ee::ZeroU8 => "ZeroU8"@,
        Ee::ByteSizeForU128 => "ByteSizeForU128"@,
        Ee::ByteSizeForU64 => "ByteSizeForU64"@,
        Ee::ByteSizeForU32 => "ByteSizeForU32"@,
        Ee::ByteSizeForU16 => "ByteSizeForU16"@,
        Ee::ByteSizeForU8 => "ByteSizeForU8"@,
        Ee::ByteSliceSize128 => "ByteSliceSize128"@,
        Ee::ByteSliceSize64 => "ByteSliceSize64"@,
        Ee::ByteSliceSize32 => "ByteSliceSize32"@,
        Ee::ByteSliceSize10 => "ByteSliceSize10"@,
        Ee::ByteSliceSize6 => "ByteSliceSize6"@,
        Ee::InputDataLen => "InputDataLen"@,
        Ee::InputDataBump => "InputDataBump"@,
        Ee::PdaNoLamport => "PdaNoLamport"@,
        Ee::ForeignPDA => "ForeignPDA"@,
        Ee::VaultDataLengh => "VaultDataLengh"@,
        Ee::VaultIsForeign => "VaultIsForeign"@,
        Ee::DecimalsValue => "DecimalsValue"@,
        Ee::MintDataLen => "MintDataLen"@,
        Ee::MintOrMintAuthority => "MintOrMintAuthority"@,
        Ee::MintOrTokenProgram => "MintOrTokenProgram"@,
        Ee::AtaDataLen => "AtaDataLen"@,
        Ee::Ata22DataLen => "Ata22DataLen"@,
        Ee::AtaOrOwner => "AtaOrOwner"@,
        Ee::AtaOrMint => "AtaOrMint"@,
        Ee::AtaCheckX1 => "AtaCheckX1"@,
        Ee::ForeignAta => "ForeignAta"@,
        Ee::AtaHasNoData => "AtaHasNoData"@,
        Ee::TokenAcctOwner => "TokenAcctOwner"@,
        Ee::TokenAcctDataLen => "TokenAcctDataLen"@,
        Ee::Xyz049 => "Xyz049"@,
        Ee::NoRentExemptTokAcct => "NoRentExemptTokAcct"@,
        Ee::NoRentExemptTokAcct22 => "NoRentExemptTokAcct22"@,
        Ee::NoRentExemptMint22 => "NoRentExemptMint22"@,
        Ee::NoRentExemptMint => "NoRentExemptMint"@,
        Ee::Xyz054 => "Xyz054"@,
        Ee::Xyz055 => "Xyz055"@,
        Ee::Xyz056 => "Xyz056"@,
        Ee::Xyz057 => "Xyz057"@,
        Ee::Xyz058 => "Xyz058"@,
        Ee::Xyz059 => "Xyz059"@,
        Ee::AddToOverflow => "AddToOverflow"@,
        Ee::MultDivNone => "MultDivNone"@,
        Ee::MultiplyOverflow => "MultiplyOverflow"@,
        Ee::DividedByZero => "DividedByZero"@,
        Ee::Remainder => "Remainder"@,
        Ee::EmptyData => "EmptyData"@,
        Ee::ClockGet => "ClockGet"@,
        Ee::VaultExists => "VaultExists"@,
        Ee::Xyz068 => "Xyz068"@,
        Ee::Xyz069 => "Xyz069"@,
        Ee::TokenAcctsLength => "TokenAcctsLength"@,
        Ee::LoanRecordAcctHasData => "LoanRecordAcctHasData"@,
        Ee::DataArgLenForU64 => "DataArgLenForU64"@,
        Ee::AmountsLenVsTokenAcctLen => "AmountsLenVsTokenAcctLen"@,
        Ee::BorrowAmountTooBig => "BorrowAmountTooBig"@,
        Ee::BorrowedAmountIsZero => "BorrowedAmountIsZero"@,
        Ee::LenderPdaBalanceIsZero => "LenderPdaBalanceIsZero"@,
        Ee::NumOfInstructions => "NumOfInstructions"@,
        Ee::RepayProgId => "RepayProgId"@,
        Ee::RepayDiscriminator => "RepayDiscriminator"@,
        Ee::RepayIxLenderPda => "RepayIxLenderPda"@,
        Ee::RepayTokenAccountLen => "RepayTokenAccountLen"@,
        Ee::NotMapped => "NotMapped"@,
        Ee::TxnAcctsLength => "TxnAcctsLength"@,
        Ee::LoansPdaHasData => "LoansPdaHasData"@,
        Ee::AmountsLenVsTxnAcctsLen => "AmountsLenVsTxnAcctsLen"@,
        Ee::TxnLenInvalid => "TxnLenInvalid"@,
        Ee::ByteSizeVaultBumps => "ByteSizeVaultBumps"@,
        Ee::ByteSizeFees => "ByteSizeFees"@,
        Ee::RepayIxSigner => "RepayIxSigner"@,
        Ee::RepayIxLoansPda => "RepayIxLoansPda"@,
        Ee::RepayIxVaultPda => "RepayIxVaultPda"@,
        Ee::RepayIxVaultAta => "RepayIxVaultAta"@,
        Ee::RepayIxDebtorAta => "RepayIxDebtorAta"@,
        Ee::VaultAtaBalcZero => "VaultAtaBalcZero"@,
        Ee::RepayTxnAcctsLen => "RepayTxnAcctsLen"@,
        Ee::RepayVaultAta => "RepayVaultAta"@,
        Ee::RepayVaultBalcNotExpected => "RepayVaultBalcNotExpected"@,
        Ee::InstructionSysvar => "InstructionSysvar"@,
    }
}

impl Ee {
    /// The number under which this error is reported.
    pub fn code(self) -> (r: u32)
        ensures
            r == ee_code(self),
    {
        match self {
            Ee::MethodDiscriminator => 0,
            Ee::Xyz001 => 1,
            Ee::OnlyProgOwner => 2,
            Ee::OnlyAdmin => 3,
            Ee::OnlyUser => 4,
            Ee::Xyz005 => 5,
            Ee::Xyz006 => 6,
            Ee::NotWritable => 7,
            Ee::NotExecutable => 8,
            Ee::TokenProgram => 9,
            Ee::AtokenGPvbd => 10,
            Ee::SystemProgram => 11,
            Ee::RentSysvar => 12,
            Ee::Xyz013 => 13,
            Ee::Xyz014 => 14,
            Ee::ZeroU128 => 15,
            Ee::ZeroU64 => 16,
            Ee::ZeroU32 => 17,
            Ee::ZeroU16 => 18,
            Ee::ZeroU8 => 19,
            Ee::ByteSizeForU128 => 20,
            Ee::ByteSizeForU64 => 21,
            Ee::ByteSizeForU32 => 22,
            Ee::ByteSizeForU16 => 23,
            Ee::ByteSizeForU8 => 24,
            Ee::ByteSliceSize128 => 25,
            Ee::ByteSliceSize64 => 26,
            Ee::ByteSliceSize32 => 27,
            Ee::ByteSliceSize10 => 28,
            Ee::ByteSliceSize6 => 29,
            Ee::InputDataLen => 30,
            Ee::InputDataBump => 31,
            Ee::PdaNoLamport => 32,
            Ee::ForeignPDA => 33,
            Ee::VaultDataLengh => 34,
            Ee::VaultIsForeign => 35,
            Ee::DecimalsValue => 36,
            Ee::MintDataLen => 37,
            Ee::MintOrMintAuthority => 38,
            Ee::MintOrTokenProgram => 39,
            Ee::AtaDataLen => 40,
            Ee::Ata22DataLen => 41,
            Ee::AtaOrOwner => 42,
            Ee::AtaOrMint => 43,
            Ee::AtaCheckX1 => 44,
            Ee::ForeignAta => 45,
            Ee::AtaHasNoData => 46,
            Ee::TokenAcctOwner => 47,
            Ee::TokenAcctDataLen => 48,
            Ee::Xyz049 => 49,
            Ee::NoRentExemptTokAcct => 50,
            Ee::NoRentExemptTokAcct22 => 51,
            Ee::NoRentExemptMint22 => 52,
            Ee::NoRentExemptMint => 53,
            Ee::Xyz054 => 54,
            Ee::Xyz055 => 55,
            Ee::Xyz056 => 56,
            Ee::Xyz057 => 57,
            Ee::Xyz058 => 58,
            Ee::Xyz059 => 59,
            Ee::AddToOverflow => 60,
            Ee::MultDivNone => 61,
            Ee::MultiplyOverflow => 62,
            Ee::DividedByZero => 63,
            Ee::Remainder => 64,
            Ee::EmptyData => 65,
            Ee::ClockGet => 66,
            Ee::VaultExists => 67,
            Ee::Xyz068 => 68,
            Ee::Xyz069 => 69,
            Ee::TokenAcctsLength => 70,
            Ee::LoanRecordAcctHasData => 71,
            Ee::DataArgLenForU64 => 72,
            Ee::AmountsLenVsTokenAcctLen => 73,
            Ee::BorrowAmountTooBig => 74,
            Ee::BorrowedAmountIsZero => 75,
            Ee::LenderPdaBalanceIsZero => 76,
            Ee::NumOfInstructions => 77,
            Ee::RepayProgId => 78,
            Ee::RepayDiscriminator => 79,
            Ee::RepayIxLenderPda => 80,
            Ee::RepayTokenAccountLen => 81,
            Ee::NotMapped => 82,
            Ee::TxnAcctsLength => 83,
            Ee::LoansPdaHasData => 84,
            Ee::AmountsLenVsTxnAcctsLen => 85,
            Ee::TxnLenInvalid => 86,
            Ee::ByteSizeVaultBumps => 87,
            Ee::ByteSizeFees => 88,
            Ee::RepayIxSigner => 89,
            Ee::RepayIxLoansPda => 90,
            Ee::RepayIxVaultPda => 91,
            Ee::RepayIxVaultAta => 92,
            Ee::RepayIxDebtorAta => 93,
            Ee::VaultAtaBalcZero => 94,
            Ee::RepayTxnAcctsLen => 95,
            Ee::RepayVaultAta => 96,
            Ee::RepayVaultBalcNotExpected => 97,
            Ee::InstructionSysvar => 98,
        }
    }

    /// This error as the failed result of a check.
    pub fn e(self) -> (r: ProgramResult)
        ensures
            r == Err::<(), ProgramError>(ProgramError::Custom(ee_code(self))),
    {
        Err(ProgramError::Custom(self.code()))
    }

    /// The human-readable name of this error.
    pub fn to_str(&self) -> (r: &'static str)
        ensures
            r@ == ee_name(*self),
    {
        match self {
            Ee::MethodDiscriminator => "MethodDiscriminator",
            Ee::Xyz001 => "Xyz001",
            Ee::OnlyProgOwner => "OnlyProgOwner",
            Ee::OnlyAdmin => "OnlyAdmin",
            Ee::OnlyUser => "OnlyUser",
            Ee::Xyz005 => "Xyz005",
            Ee::Xyz006 => "Xyz006",
            Ee::NotWritable => "NotWritable",
            Ee::NotExecutable => "NotExecutable",
            Ee::TokenProgram => "TokenProgram",
            Ee::AtokenGPvbd => "AtokenGPvbd",
            Ee::SystemProgram => "SystemProgram",
            Ee::RentSysvar => "RentSysvar",
            Ee::Xyz013 => "Xyz013",
            Ee::Xyz014 => "Xyz014",
            Ee::ZeroU128 => "ZeroU128",
            Ee::ZeroU64 => "ZeroU64",
            Ee::ZeroU32 => "ZeroU32",
            Ee::ZeroU16 => "ZeroU16",
            Ee::ZeroU8 => "ZeroU8",
            Ee::ByteSizeForU128 => "ByteSizeForU128",
            Ee::ByteSizeForU64 => "ByteSizeForU64",
            Ee::ByteSizeForU32 => "ByteSizeForU32",
            Ee::ByteSizeForU16 => "ByteSizeForU16",
            Ee::ByteSizeForU8 => "ByteSizeForU8",
            Ee::ByteSliceSize128 => "ByteSliceSize128",
            Ee::ByteSliceSize64 => "ByteSliceSize64",
            Ee::ByteSliceSize32 => "ByteSliceSize32",
            Ee::ByteSliceSize10 => "ByteSliceSize10",
            Ee::ByteSliceSize6 => "ByteSliceSize6",
            Ee::InputDataLen => "InputDataLen",
            Ee::InputDataBump => "InputDataBump",
            Ee::PdaNoLamport => "PdaNoLamport",
            Ee::ForeignPDA => "ForeignPDA",
            Ee::VaultDataLengh => "VaultDataLengh",
            Ee::VaultIsForeign => "VaultIsForeign",
            Ee::DecimalsValue => "DecimalsValue",
            Ee::MintDataLen => "MintDataLen",
            Ee::MintOrMintAuthority => "MintOrMintAuthority",
            Ee::MintOrTokenProgram => "MintOrTokenProgram",
            Ee::AtaDataLen => "AtaDataLen",
            Ee::Ata22DataLen => "Ata22DataLen",
            Ee::AtaOrOwner => "AtaOrOwner",
            Ee::AtaOrMint => "AtaOrMint",
            Ee::AtaCheckX1 => "AtaCheckX1",
            Ee::ForeignAta => "ForeignAta",
            Ee::AtaHasNoData => "AtaHasNoData",
            Ee::TokenAcctOwner => "TokenAcctOwner",
            Ee::TokenAcctDataLen => "TokenAcctDataLen",
            Ee::Xyz049 => "Xyz049",
            Ee::NoRentExemptTokAcct => "NoRentExemptTokAcct",
            Ee::NoRentExemptTokAcct22 => "NoRentExemptTokAcct22",
            Ee::NoRentExemptMint22 => "NoRentExemptMint22",
            Ee::NoRentExemptMint => "NoRentExemptMint",
            Ee::Xyz054 => "Xyz054",
            Ee::Xyz055 => "Xyz055",
            Ee::Xyz056 => "Xyz056",
            Ee::Xyz057 => "Xyz057",
            Ee::Xyz058 => "Xyz058",
            Ee::Xyz059 => "Xyz059",
            Ee::AddToOverflow => "AddToOverflow",
            Ee::MultDivNone => "MultDivNone",
            Ee::MultiplyOverflow => "MultiplyOverflow",
            Ee::DividedByZero => "DividedByZero",
            Ee::Remainder => "Remainder",
            Ee::EmptyData => "EmptyData",
            Ee::ClockGet => "ClockGet",
            Ee::VaultExists => "VaultExists",
            Ee::Xyz068 => "Xyz068",
            Ee::Xyz069 => "Xyz069",
            Ee::TokenAcctsLength => "TokenAcctsLength",
            Ee::LoanRecordAcctHasData => "LoanRecordAcctHasData",
            Ee::DataArgLenForU64 => "DataArgLenForU64",
            Ee::AmountsLenVsTokenAcctLen => "AmountsLenVsTokenAcctLen",
            Ee::BorrowAmountTooBig => "BorrowAmountTooBig",
            Ee::BorrowedAmountIsZero => "BorrowedAmountIsZero",
            Ee::LenderPdaBalanceIsZero => "LenderPdaBalanceIsZero",
            Ee::NumOfInstructions => "NumOfInstructions",
            Ee::RepayProgId => "RepayProgId",
            Ee::RepayDiscriminator => "RepayDiscriminator",
            Ee::RepayIxLenderPda => "RepayIxLenderPda",
            Ee::RepayTokenAccountLen => "RepayTokenAccountLen",
            Ee::NotMapped => "NotMapped",
            Ee::TxnAcctsLength => "TxnAcctsLength",
            Ee::LoansPdaHasData => "LoansPdaHasData",
            Ee::AmountsLenVsTxnAcctsLen => "AmountsLenVsTxnAcctsLen",
            Ee::TxnLenInvalid => "TxnLenInvalid",
            Ee::ByteSizeVaultBumps => "ByteSizeVaultBumps",
            Ee::ByteSizeFees => "ByteSizeFees",
            Ee::RepayIxSigner => "RepayIxSigner",
            Ee::RepayIxLoansPda => "RepayIxLoansPda",
            Ee::RepayIxVaultPda => "RepayIxVaultPda",
            Ee::RepayIxVaultAta => "RepayIxVaultAta",
            Ee::RepayIxDebtorAta => "RepayIxDebtorAta",
            Ee::VaultAtaBalcZero => "VaultAtaBalcZero",
            Ee::RepayTxnAcctsLen => "RepayTxnAcctsLen",
            Ee::RepayVaultAta => "RepayVaultAta",
            Ee::RepayVaultBalcNotExpected => "RepayVaultBalcNotExpected",
            Ee::InstructionSysvar => "InstructionSysvar",
        }
    }
}

impl From<Ee> for ProgramError {
    fn from(e: Ee) -> (r: ProgramError) {
        ProgramError::Custom(e.code())
    }
}

impl vstd::std_specs::convert::FromSpecImpl<Ee> for ProgramError {
    open spec fn obeys_from_spec() -> bool {
        true
    }

    open spec fn from_spec(e: Ee) -> ProgramError {
        ProgramError::Custom(ee_code(e))
    }
}

impl TryFrom<u32> for Ee {
    type Error = ProgramError;

    fn try_from(error: u32) -> (r: Result<Ee, ProgramError>) {
        match error {
            0 => Ok(Ee::MethodDiscriminator),
            1 => Ok(Ee::Xyz001),
            2 => Ok(Ee::OnlyProgOwner),
            3 => Ok(Ee::OnlyAdmin),
            4 => Ok(Ee::OnlyUser),
            5 => Ok(Ee::Xyz005),
            6 => Ok(Ee::Xyz006),
            7 => Ok(Ee::NotWritable),
            8 => Ok(Ee::NotExecutable),
            9 => Ok(Ee::TokenProgram),
            10 => Ok(Ee::AtokenGPvbd),
            11 => Ok(Ee::SystemProgram),
            12 => Ok(Ee::RentSysvar),
            13 => Ok(Ee::Xyz013),
            14 => Ok(Ee::Xyz014),
            15 => Ok(Ee::ZeroU128),
            16 => Ok(Ee::ZeroU64),
            17 => Ok(Ee::ZeroU32),
            18 => Ok(Ee::ZeroU16),
            19 => Ok(Ee::ZeroU8),
            20 => Ok(Ee::ByteSizeForU128),
            21 => Ok(Ee::ByteSizeForU64),
            22 => Ok(Ee::ByteSizeForU32),
            23 => Ok(Ee::ByteSizeForU16),
            24 => Ok(Ee::ByteSizeForU8),
            25 => Ok(Ee::ByteSliceSize128),
            26 => Ok(Ee::ByteSliceSize64),
            27 => Ok(Ee::ByteSliceSize32),
            28 => Ok(Ee::ByteSliceSize10),
            29 => Ok(Ee::ByteSliceSize6),
            30 => Ok(Ee::InputDataLen),
            31 => Ok(Ee::InputDataBump),
            32 => Ok(Ee::PdaNoLamport),
            33 => Ok(Ee::ForeignPDA),
            34 => Ok(Ee::VaultIsForeign),
            35 => Ok(Ee::VaultDataLengh),
            36 => Ok(Ee::DecimalsValue),
            37 => Ok(Ee::MintDataLen),
            38 => Ok(Ee::MintOrMintAuthority),
            39 => Ok(Ee::MintOrTokenProgram),
            40 => Ok(Ee::AtaDataLen),
            41 => Ok(Ee::Ata22DataLen),
            42 => Ok(Ee::AtaOrOwner),
            43 => Ok(Ee::AtaOrMint),
            44 => Ok(Ee::AtaCheckX1),
            45 => Ok(Ee::ForeignAta),
            46 => Ok(Ee::AtaHasNoData),
            47 => Ok(Ee::TokenAcctOwner),
            48 => Ok(Ee::TokenAcctDataLen),
            49 => Ok(Ee::Xyz049),
            50 => Ok(Ee::NoRentExemptTokAcct),
            51 => Ok(Ee::NoRentExemptTokAcct22),
            52 => Ok(Ee::NoRentExemptMint22),
            53 => Ok(Ee::NoRentExemptMint),
            54 => Ok(Ee::Xyz054),
            55 => Ok(Ee::Xyz055),
            56 => Ok(Ee::Xyz056),
            57 => Ok(Ee::Xyz057),
            58 => Ok(Ee::Xyz058),
            59 => Ok(Ee::Xyz059),
            60 => Ok(Ee::AddToOverflow),
            61 => Ok(Ee::MultDivNone),
            62 => Ok(Ee::MultiplyOverflow),
            63 => Ok(Ee::DividedByZero),
            64 => Ok(Ee::Remainder),
            65 => Ok(Ee::EmptyData),
            66 => Ok(Ee::ClockGet),
            67 => Ok(Ee::VaultExists),
            68 => Ok(Ee::Xyz068),
            69 => Ok(Ee::Xyz069),
            70 => Ok(Ee::TokenAcctsLength),
            71 => Ok(Ee::LoanRecordAcctHasData),
            72 => Ok(Ee::DataArgLenForU64),
            73 => Ok(Ee::AmountsLenVsTokenAcctLen),
            74 => Ok(Ee::BorrowAmountTooBig),
            75 => Ok(Ee::BorrowedAmountIsZero),
            76 => Ok(Ee::LenderPdaBalanceIsZero),
            77 => Ok(Ee::NumOfInstructions),
            78 => Ok(Ee::RepayProgId),
            79 => Ok(Ee::RepayDiscriminator),
            80 => Ok(Ee::RepayIxLenderPda),
            81 => Ok(Ee::RepayTokenAccountLen),
            _ => Err(ProgramError::from(Ee::NotMapped)),
        }
    }
}

impl vstd::std_specs::convert::TryFromSpecImpl<u32> for Ee {
    open spec fn obeys_try_from_spec() -> bool {
        true
    }

    open spec fn try_from_spec(error: u32) -> Result<Ee, ProgramError> {
        ee_from_code(error)
    }
}

} // verus!

verus! {

/// The error reported under number `n`, in declaration order.
spec fn declared_ee(n: u32) -> Ee {
    match n {
        0 => Ee::MethodDiscriminator,
        1 => Ee::Xyz001,
        2 => Ee::OnlyProgOwner,
        3 => Ee::OnlyAdmin,
        4 => Ee::OnlyUser,
        5 => Ee::Xyz005,
        6 => Ee::Xyz006,
        7 => Ee::NotWritable,
        8 => Ee::NotExecutable,
        9 => Ee::TokenProgram,
        10 => Ee::AtokenGPvbd,
        11 => Ee::SystemProgram,
        12 => Ee::RentSysvar,
        13 => Ee::Xyz013,
        14 => Ee::Xyz014,
        15 => Ee::ZeroU128,
        16 => Ee::ZeroU64,
        17 => Ee::ZeroU32,
        18 => Ee::ZeroU16,
        19 => Ee::ZeroU8,
        20 => Ee::ByteSizeForU128,
        21 => Ee::ByteSizeForU64,
        22 => Ee::ByteSizeForU32,
        23 => Ee::ByteSizeForU16,
        24 => Ee::ByteSizeForU8,
        25 => Ee::ByteSliceSize128,
        26 => Ee::ByteSliceSize64,
        27 => Ee::ByteSliceSize32,
        28 => Ee::ByteSliceSize10,
        29 => Ee::ByteSliceSize6,
        30 => Ee::InputDataLen,
        31 => Ee::InputDataBump,
        32 => Ee::PdaNoLamport,
        33 => Ee::ForeignPDA,
        34 => Ee::VaultDataLengh,
        35 => Ee::VaultIsForeign,
        36 => Ee::DecimalsValue,
        37 => Ee::MintDataLen,
        38 => Ee::MintOrMintAuthority,
        39 => Ee::MintOrTokenProgram,
        40 => Ee::AtaDataLen,
        41 => Ee::Ata22DataLen,
        42 => Ee::AtaOrOwner,
        43 => Ee::AtaOrMint,
        44 => Ee::AtaCheckX1,
        45 => Ee::ForeignAta,
        46 => Ee::AtaHasNoData,
        47 => Ee::TokenAcctOwner,
        48 => Ee::TokenAcctDataLen,
        49 => Ee::Xyz049,
        50 => Ee::NoRentExemptTokAcct,
        51 => Ee::NoRentExemptTokAcct22,
        52 => Ee::NoRentExemptMint22,
        53 => Ee::NoRentExemptMint,
        54 => Ee::Xyz054,
        55 => Ee::Xyz055,
        56 => Ee::Xyz056,
        57 => Ee::Xyz057,
        58 => Ee::Xyz058,
        59 => Ee::Xyz059,
        60 => Ee::AddToOverflow,
        61 => Ee::MultDivNone,
        62 => Ee::MultiplyOverflow,
        63 => Ee::DividedByZero,
        64 => Ee::Remainder,
        65 => Ee::EmptyData,
        66 => Ee::ClockGet,
        67 => Ee::VaultExists,
        68 => Ee::Xyz068,
        69 => Ee::Xyz069,
        70 => Ee::TokenAcctsLength,
        71 => Ee::LoanRecordAcctHasData,
        72 => Ee::DataArgLenForU64,
        73 => Ee::AmountsLenVsTokenAcctLen,
        74 => Ee::BorrowAmountTooBig,
        75 => Ee::BorrowedAmountIsZero,
        76 => Ee::LenderPdaBalanceIsZero,
        77 => Ee::NumOfInstructions,
        78 => Ee::RepayProgId,
        79 => Ee::RepayDiscriminator,
        80 => Ee::RepayIxLenderPda,
        81 => Ee::RepayTokenAccountLen,
        82 => Ee::NotMapped,
        83 => Ee::TxnAcctsLength,
        84 => Ee::LoansPdaHasData,
        85 => Ee::AmountsLenVsTxnAcctsLen,
        86 => Ee::TxnLenInvalid,
        87 => Ee::ByteSizeVaultBumps,
        88 => Ee::ByteSizeFees,
        89 => Ee::RepayIxSigner,
        90 => Ee::RepayIxLoansPda,
        91 => Ee::RepayIxVaultPda,
        92 => Ee::RepayIxVaultAta,
        93 => Ee::RepayIxDebtorAta,
        94 => Ee::VaultAtaBalcZero,
        95 => Ee::RepayTxnAcctsLen,
        96 => Ee::RepayVaultAta,
        97 => Ee::RepayVaultBalcNotExpected,
        _ => Ee::InstructionSysvar,
    }
}

proof fn lemma_declared_ee_inverts_code(e: Ee)
    ensures
        declared_ee(ee_code(e)) == e,
{
}

/// Distinct errors are reported under distinct numbers.
pub proof fn law_code_injective(a: Ee, b: Ee)
    requires
        ee_code(a) == ee_code(b),
    ensures
        a == b,
{
    lemma_declared_ee_inverts_code(a);
    lemma_declared_ee_inverts_code(b);
}

/// An error whose number is below that of `NotMapped` reads back, from its
/// number, as itself, except `VaultDataLengh` and `VaultIsForeign`, whose
/// numbers read back as each other.
pub proof fn law_code_roundtrip(e: Ee)
    requires
        ee_code(e) < ee_code(Ee::NotMapped),
        e != Ee::VaultDataLengh,
        e != Ee::VaultIsForeign,
    ensures
        ee_from_code(ee_code(e)) == Ok::<Ee, ProgramError>(e),
{
}

/// The numbers below 82 read back as errors; 82 and every number above it as
/// the failure `Custom` with the number of `NotMapped`, so `Ok(NotMapped)` is
/// never read back.
pub proof fn law_code_range(n: u32)
    ensures
        n < 82 ==> ee_from_code(n) is Ok,
        n >= 82 ==> ee_from_code(n) == Err::<Ee, ProgramError>(ProgramError::Custom(ee_code(Ee::NotMapped))),
        n < 82 && n != 34 && n != 35 ==> ee_code(ee_from_code(n)->Ok_0) == n,
        ee_from_code(n) != Ok::<Ee, ProgramError>(Ee::NotMapped),
{
}

} // verus!

verus! {

/// Distinct errors have distinct names.
#[verifier::spinoff_prover]
pub proof fn law_name_injective(a: Ee, b: Ee)
    requires
        ee_name(a) == ee_name(b),
    ensures
        a == b,
{
    reveal_strlit("MethodDiscriminator");
    assert("MethodDiscriminator"@.len() == 19);
    assert("MethodDiscriminator"@[1] == 'e');
    assert("MethodDiscriminator"@[4] == 'o');
    assert("MethodDiscriminator"@[5] == 'd');
    assert("MethodDiscriminator"@[7] == 'i');
    assert("MethodDiscriminator"@[12] == 'm');
    assert("MethodDiscriminator"@[13] == 'i');
    reveal_strlit("Xyz001");
    assert("Xyz001"@.len() == 6);
    assert("Xyz001"@[1] == 'y');
    assert("Xyz001"@[4] == '0');
    assert("Xyz001"@[5] == '1');
    reveal_strlit("OnlyProgOwner");
    assert("OnlyProgOwner"@.len() == 13);
    assert("OnlyProgOwner"@[1] == 'n');
    assert("OnlyProgOwner"@[4] == 'P');
    assert("OnlyProgOwner"@[5] == 'r');
    assert("OnlyProgOwner"@[7] == 'g');
    assert("OnlyProgOwner"@[12] == 'r');
    reveal_strlit("OnlyAdmin");
    assert("OnlyAdmin"@.len() == 9);
    assert("OnlyAdmin"@[1] == 'n');
    assert("OnlyAdmin"@[4] == 'A');
    assert("OnlyAdmin"@[5] == 'd');
    assert("OnlyAdmin"@[7] == 'i');
    reveal_strlit("OnlyUser");
    assert("OnlyUser"@.len() == 8);
    assert("OnlyUser"@[1] == 'n');
    assert("OnlyUser"@[4] == 'U');
    assert("OnlyUser"@[5] == 's');
    assert("OnlyUser"@[7] == 'r');
    reveal_strlit("Xyz005");
    assert("Xyz005"@.len() == 6);
    assert("Xyz005"@[1] == 'y');
    assert("Xyz005"@[4] == '0');
    assert("Xyz005"@[5] == '5');
    reveal_strlit("Xyz006");
    assert("Xyz006"@.len() == 6);
    assert("Xyz006"@[1] == 'y');
    assert("Xyz006"@[4] == '0');
    assert("Xyz006"@[5] == '6');
    reveal_strlit("NotWritable");
    assert("NotWritable"@.len() == 11);
    assert("NotWritable"@[1] == 'o');
    assert("NotWritable"@[4] == 'r');
    assert("NotWritable"@[5] == 'i');
    assert("NotWritable"@[7] == 'a');
    reveal_strlit("NotExecutable");
    assert("NotExecutable"@.len() == 13);
    assert("NotExecutable"@[1] == 'o');
    assert("NotExecutable"@[4] == 'x');
    assert("NotExecutable"@[5] == 'e');
    assert("NotExecutable"@[7] == 'u');
    assert("NotExecutable"@[12] == 'e');
    reveal_strlit("TokenProgram");
    assert("TokenProgram"@.len() == 12);
    assert("TokenProgram"@[1] == 'o');
    assert("TokenProgram"@[4] == 'n');
    assert("TokenProgram"@[5] == 'P');
    assert("TokenProgram"@[7] == 'o');
    reveal_strlit("AtokenGPvbd");
    assert("AtokenGPvbd"@.len() == 11);
    assert("AtokenGPvbd"@[1] == 't');
    assert("AtokenGPvbd"@[4] == 'e');
    assert("AtokenGPvbd"@[5] == 'n');
    assert("AtokenGPvbd"@[7] == 'P');
    reveal_strlit("SystemProgram");
    assert("SystemProgram"@.len() == 13);
    assert("SystemProgram"@[1] == 'y');
    assert("SystemProgram"@[4] == 'e');
    assert("SystemProgram"@[5] == 'm');
    assert("SystemProgram"@[7] == 'r');
    assert("SystemProgram"@[12] == 'm');
    reveal_strlit("RentSysvar");
    assert("RentSysvar"@.len() == 10);
    assert("RentSysvar"@[1] == 'e');
    assert("RentSysvar"@[4] == 'S');
    assert("RentSysvar"@[5] == 'y');
    assert("RentSysvar"@[7] == 'v');
    reveal_strlit("Xyz013");
    assert("Xyz013"@.len() == 6);
    assert("Xyz013"@[1] == 'y');
    assert("Xyz013"@[4] == '1');
    assert("Xyz013"@[5] == '3');
    reveal_strlit("Xyz014");
    assert("Xyz014"@.len() == 6);
    assert("Xyz014"@[1] == 'y');
    assert("Xyz014"@[4] == '1');
    assert("Xyz014"@[5] == '4');
    reveal_strlit("ZeroU128");
    assert("ZeroU128"@.len() == 8);
    assert("ZeroU128"@[1] == 'e');
    assert("ZeroU128"@[4] == 'U');
    assert("ZeroU128"@[5] == '1');
    assert("ZeroU128"@[7] == '8');
    reveal_strlit("ZeroU64");
    assert("ZeroU64"@.len() == 7);
    assert("ZeroU64"@[1] == 'e');
    assert("ZeroU64"@[4] == 'U');
    assert("ZeroU64"@[5] == '6');
    reveal_strlit("ZeroU32");
    assert("ZeroU32"@.len() == 7);
    assert("ZeroU32"@[1] == 'e');
    assert("ZeroU32"@[4] == 'U');
    assert("ZeroU32"@[5] == '3');
    reveal_strlit("ZeroU16");
    assert("ZeroU16"@.len() == 7);
    assert("ZeroU16"@[1] == 'e');
    assert("ZeroU16"@[4] == 'U');
    assert("ZeroU16"@[5] == '1');
    reveal_strlit("ZeroU8");
    assert("ZeroU8"@.len() == 6);
    assert("ZeroU8"@[1] == 'e');
    assert("ZeroU8"@[4] == 'U');
    assert("ZeroU8"@[5] == '8');
    reveal_strlit("ByteSizeForU128");
    assert("ByteSizeForU128"@.len() == 15);
    assert("ByteSizeForU128"@[1] == 'y');
    assert("ByteSizeForU128"@[4] == 'S');
    assert("ByteSizeForU128"@[5] == 'i');
    assert("ByteSizeForU128"@[7] == 'e');
    assert("ByteSizeForU128"@[12] == '1');
    assert("ByteSizeForU128"@[13] == '2');
    reveal_strlit("ByteSizeForU64");
    assert("ByteSizeForU64"@.len() == 14);
    assert("ByteSizeForU64"@[1] == 'y');
    assert("ByteSizeForU64"@[4] == 'S');
    assert("ByteSizeForU64"@[5] == 'i');
    assert("ByteSizeForU64"@[7] == 'e');
    assert("ByteSizeForU64"@[12] == '6');
    assert("ByteSizeForU64"@[13] == '4');
    reveal_strlit("ByteSizeForU32");
    assert("ByteSizeForU32"@.len() == 14);
    assert("ByteSizeForU32"@[1] == 'y');
    assert("ByteSizeForU32"@[4] == 'S');
    assert("ByteSizeForU32"@[5] == 'i');
    assert("ByteSizeForU32"@[7] == 'e');
    assert("ByteSizeForU32"@[12] == '3');
    assert("ByteSizeForU32"@[13] == '2');
    reveal_strlit("ByteSizeForU16");
    assert("ByteSizeForU16"@.len() == 14);
    assert("ByteSizeForU16"@[1] == 'y');
    assert("ByteSizeForU16"@[4] == 'S');
    assert("ByteSizeForU16"@[5] == 'i');
    assert("ByteSizeForU16"@[7] == 'e');
    assert("ByteSizeForU16"@[12] == '1');
    assert("ByteSizeForU16"@[13] == '6');
    reveal_strlit("ByteSizeForU8");
    assert("ByteSizeForU8"@.len() == 13);
    assert("ByteSizeForU8"@[1] == 'y');
    assert("ByteSizeForU8"@[4] == 'S');
    assert("ByteSizeForU8"@[5] == 'i');
    assert("ByteSizeForU8"@[7] == 'e');
    assert("ByteSizeForU8"@[12] == '8');
    reveal_strlit("ByteSliceSize128");
    assert("ByteSliceSize128"@.len() == 16);
    assert("ByteSliceSize128"@[1] == 'y');
    assert("ByteSliceSize128"@[4] == 'S');
    assert("ByteSliceSize128"@[5] == 'l');
    assert("ByteSliceSize128"@[7] == 'c');
    assert("ByteSliceSize128"@[12] == 'e');
    assert("ByteSliceSize128"@[13] == '1');
    reveal_strlit("ByteSliceSize64");
    assert("ByteSliceSize64"@.len() == 15);
    assert("ByteSliceSize64"@[1] == 'y');
    assert("ByteSliceSize64"@[4] == 'S');
    assert("ByteSliceSize64"@[5] == 'l');
    assert("ByteSliceSize64"@[7] == 'c');
    assert("ByteSliceSize64"@[12] == 'e');
    assert("ByteSliceSize64"@[13] == '6');
    reveal_strlit("ByteSliceSize32");
    assert("ByteSliceSize32"@.len() == 15);
    assert("ByteSliceSize32"@[1] == 'y');
    assert("ByteSliceSize32"@[4] == 'S');
    assert("ByteSliceSize32"@[5] == 'l');
    assert("ByteSliceSize32"@[7] == 'c');
    assert("ByteSliceSize32"@[12] == 'e');
    assert("ByteSliceSize32"@[13] == '3');
    reveal_strlit("ByteSliceSize10");
    assert("ByteSliceSize10"@.len() == 15);
    assert("ByteSliceSize10"@[1] == 'y');
    assert("ByteSliceSize10"@[4] == 'S');
    assert("ByteSliceSize10"@[5] == 'l');
    assert("ByteSliceSize10"@[7] == 'c');
    assert("ByteSliceSize10"@[12] == 'e');
    assert("ByteSliceSize10"@[13] == '1');
    reveal_strlit("ByteSliceSize6");
    assert("ByteSliceSize6"@.len() == 14);
    assert("ByteSliceSize6"@[1] == 'y');
    assert("ByteSliceSize6"@[4] == 'S');
    assert("ByteSliceSize6"@[5] == 'l');
    assert("ByteSliceSize6"@[7] == 'c');
    assert("ByteSliceSize6"@[12] == 'e');
    assert("ByteSliceSize6"@[13] == '6');
    reveal_strlit("InputDataLen");
    assert("InputDataLen"@.len() == 12);
    assert("InputDataLen"@[1] == 'n');
    assert("InputDataLen"@[4] == 't');
    assert("InputDataLen"@[5] == 'D');
    assert("InputDataLen"@[7] == 't');
    reveal_strlit("InputDataBump");
    assert("InputDataBump"@.len() == 13);
    assert("InputDataBump"@[1] == 'n');
    assert("InputDataBump"@[4] == 't');
    assert("InputDataBump"@[5] == 'D');
    assert("InputDataBump"@[7] == 't');
    assert("InputDataBump"@[12] == 'p');
    reveal_strlit("PdaNoLamport");
    assert("PdaNoLamport"@.len() == 12);
    assert("PdaNoLamport"@[1] == 'd');
    assert("PdaNoLamport"@[4] == 'o');
    assert("PdaNoLamport"@[5] == 'L');
    assert("PdaNoLamport"@[7] == 'm');
    reveal_strlit("ForeignPDA");
    assert("ForeignPDA"@.len() == 10);
    assert("ForeignPDA"@[1] == 'o');
    assert("ForeignPDA"@[4] == 'i');
    assert("ForeignPDA"@[5] == 'g');
    assert("ForeignPDA"@[7] == 'P');
    reveal_strlit("VaultDataLengh");
    assert("VaultDataLengh"@.len() == 14);
    assert("VaultDataLengh"@[1] == 'a');
    assert("VaultDataLengh"@[4] == 't');
    assert("VaultDataLengh"@[5] == 'D');
    assert("VaultDataLengh"@[7] == 't');
    assert("VaultDataLengh"@[12] == 'g');
    assert("VaultDataLengh"@[13] == 'h');
    reveal_strlit("VaultIsForeign");
    assert("VaultIsForeign"@.len() == 14);
    assert("VaultIsForeign"@[1] == 'a');
    assert("VaultIsForeign"@[4] == 't');
    assert("VaultIsForeign"@[5] == 'I');
    assert("VaultIsForeign"@[7] == 'F');
    assert("VaultIsForeign"@[12] == 'g');
    assert("VaultIsForeign"@[13] == 'n');
    reveal_strlit("DecimalsValue");
    assert("DecimalsValue"@.len() == 13);
    assert("DecimalsValue"@[1] == 'e');
    assert("DecimalsValue"@[4] == 'm');
    assert("DecimalsValue"@[5] == 'a');
    assert("DecimalsValue"@[7] == 's');
    assert("DecimalsValue"@[12] == 'e');
    reveal_strlit("MintDataLen");
    assert("MintDataLen"@.len() == 11);
    assert("MintDataLen"@[1] == 'i');
    assert("MintDataLen"@[4] == 'D');
    assert("MintDataLen"@[5] == 'a');
    assert("MintDataLen"@[7] == 'a');
    reveal_strlit("MintOrMintAuthority");
    assert("MintOrMintAuthority"@.len() == 19);
    assert("MintOrMintAuthority"@[1] == 'i');
    assert("MintOrMintAuthority"@[4] == 'O');
    assert("MintOrMintAuthority"@[5] == 'r');
    assert("MintOrMintAuthority"@[7] == 'i');
    assert("MintOrMintAuthority"@[12] == 't');
    assert("MintOrMintAuthority"@[13] == 'h');
    reveal_strlit("MintOrTokenProgram");
    assert("MintOrTokenProgram"@.len() == 18);
    assert("MintOrTokenProgram"@[1] == 'i');
    assert("MintOrTokenProgram"@[4] == 'O');
    assert("MintOrTokenProgram"@[5] == 'r');
    assert("MintOrTokenProgram"@[7] == 'o');
    assert("MintOrTokenProgram"@[12] == 'r');
    assert("MintOrTokenProgram"@[13] == 'o');
    reveal_strlit("AtaDataLen");
    assert("AtaDataLen"@.len() == 10);
    assert("AtaDataLen"@[1] == 't');
    assert("AtaDataLen"@[4] == 'a');
    assert("AtaDataLen"@[5] == 't');
    assert("AtaDataLen"@[7] == 'L');
    reveal_strlit("Ata22DataLen");
    assert("Ata22DataLen"@.len() == 12);
    assert("Ata22DataLen"@[1] == 't');
    assert("Ata22DataLen"@[4] == '2');
    assert("Ata22DataLen"@[5] == 'D');
    assert("Ata22DataLen"@[7] == 't');
    reveal_strlit("AtaOrOwner");
    assert("AtaOrOwner"@.len() == 10);
    assert("AtaOrOwner"@[1] == 't');
    assert("AtaOrOwner"@[4] == 'r');
    assert("AtaOrOwner"@[5] == 'O');
    assert("AtaOrOwner"@[7] == 'n');
    reveal_strlit("AtaOrMint");
    assert("AtaOrMint"@.len() == 9);
    assert("AtaOrMint"@[1] == 't');
    assert("AtaOrMint"@[4] == 'r');
    assert("AtaOrMint"@[5] == 'M');
    assert("AtaOrMint"@[7] == 'n');
    reveal_strlit("AtaCheckX1");
    assert("AtaCheckX1"@.len() == 10);
    assert("AtaCheckX1"@[1] == 't');
    assert("AtaCheckX1"@[4] == 'h');
    assert("AtaCheckX1"@[5] == 'e');
    assert("AtaCheckX1"@[7] == 'k');
    reveal_strlit("ForeignAta");
    assert("ForeignAta"@.len() == 10);
    assert("ForeignAta"@[1] == 'o');
    assert("ForeignAta"@[4] == 'i');
    assert("ForeignAta"@[5] == 'g');
    assert("ForeignAta"@[7] == 'A');
    reveal_strlit("AtaHasNoData");
    assert("AtaHasNoData"@.len() == 12);
    assert("AtaHasNoData"@[1] == 't');
    assert("AtaHasNoData"@[4] == 'a');
    assert("AtaHasNoData"@[5] == 's');
    assert("AtaHasNoData"@[7] == 'o');
    reveal_strlit("TokenAcctOwner");
    assert("TokenAcctOwner"@.len() == 14);
    assert("TokenAcctOwner"@[1] == 'o');
    assert("TokenAcctOwner"@[4] == 'n');
    assert("TokenAcctOwner"@[5] == 'A');
    assert("TokenAcctOwner"@[7] == 'c');
    assert("TokenAcctOwner"@[12] == 'e');
    assert("TokenAcctOwner"@[13] == 'r');
    reveal_strlit("TokenAcctDataLen");
    assert("TokenAcctDataLen"@.len() == 16);
    assert("TokenAcctDataLen"@[1] == 'o');
    assert("TokenAcctDataLen"@[4] == 'n');
    assert("TokenAcctDataLen"@[5] == 'A');
    assert("TokenAcctDataLen"@[7] == 'c');
    assert("TokenAcctDataLen"@[12] == 'a');
    assert("TokenAcctDataLen"@[13] == 'L');
    reveal_strlit("Xyz049");
    assert("Xyz049"@.len() == 6);
    assert("Xyz049"@[1] == 'y');
    assert("Xyz049"@[4] == '4');
    assert("Xyz049"@[5] == '9');
    reveal_strlit("NoRentExemptTokAcct");
    assert("NoRentExemptTokAcct"@.len() == 19);
    assert("NoRentExemptTokAcct"@[1] == 'o');
    assert("NoRentExemptTokAcct"@[4] == 'n');
    assert("NoRentExemptTokAcct"@[5] == 't');
    assert("NoRentExemptTokAcct"@[7] == 'x');
    assert("NoRentExemptTokAcct"@[12] == 'T');
    assert("NoRentExemptTokAcct"@[13] == 'o');
    reveal_strlit("NoRentExemptTokAcct22");
    assert("NoRentExemptTokAcct22"@.len() == 21);
    assert("NoRentExemptTokAcct22"@[1] == 'o');
    assert("NoRentExemptTokAcct22"@[4] == 'n');
    assert("NoRentExemptTokAcct22"@[5] == 't');
    assert("NoRentExemptTokAcct22"@[7] == 'x');
    assert("NoRentExemptTokAcct22"@[12] == 'T');
    assert("NoRentExemptTokAcct22"@[13] == 'o');
    reveal_strlit("NoRentExemptMint22");
    assert("NoRentExemptMint22"@.len() == 18);
    assert("NoRentExemptMint22"@[1] == 'o');
    assert("NoRentExemptMint22"@[4] == 'n');
    assert("NoRentExemptMint22"@[5] == 't');
    assert("NoRentExemptMint22"@[7] == 'x');
    assert("NoRentExemptMint22"@[12] == 'M');
    assert("NoRentExemptMint22"@[13] == 'i');
    reveal_strlit("NoRentExemptMint");
    assert("NoRentExemptMint"@.len() == 16);
    assert("NoRentExemptMint"@[1] == 'o');
    assert("NoRentExemptMint"@[4] == 'n');
    assert("NoRentExemptMint"@[5] == 't');
    assert("NoRentExemptMint"@[7] == 'x');
    assert("NoRentExemptMint"@[12] == 'M');
    assert("NoRentExemptMint"@[13] == 'i');
    reveal_strlit("Xyz054");
    assert("Xyz054"@.len() == 6);
    assert("Xyz054"@[1] == 'y');
    assert("Xyz054"@[4] == '5');
    assert("Xyz054"@[5] == '4');
    reveal_strlit("Xyz055");
    assert("Xyz055"@.len() == 6);
    assert("Xyz055"@[1] == 'y');
    assert("Xyz055"@[4] == '5');
    assert("Xyz055"@[5] == '5');
    reveal_strlit("Xyz056");
    assert("Xyz056"@.len() == 6);
    assert("Xyz056"@[1] == 'y');
    assert("Xyz056"@[4] == '5');
    assert("Xyz056"@[5] == '6');
    reveal_strlit("Xyz057");
    assert("Xyz057"@.len() == 6);
    assert("Xyz057"@[1] == 'y');
    assert("Xyz057"@[4] == '5');
    assert("Xyz057"@[5] == '7');
    reveal_strlit("Xyz058");
    assert("Xyz058"@.len() == 6);
    assert("Xyz058"@[1] == 'y');
    assert("Xyz058"@[4] == '5');
    assert("Xyz058"@[5] == '8');
    reveal_strlit("Xyz059");
    assert("Xyz059"@.len() == 6);
    assert("Xyz059"@[1] == 'y');
    assert("Xyz059"@[4] == '5');
    assert("Xyz059"@[5] == '9');
    reveal_strlit("AddToOverflow");
    assert("AddToOverflow"@.len() == 13);
    assert("AddToOverflow"@[1] == 'd');
    assert("AddToOverflow"@[4] == 'o');
    assert("AddToOverflow"@[5] == 'O');
    assert("AddToOverflow"@[7] == 'e');
    assert("AddToOverflow"@[12] == 'w');
    reveal_strlit("MultDivNone");
    assert("MultDivNone"@.len() == 11);
    assert("MultDivNone"@[1] == 'u');
    assert("MultDivNone"@[4] == 'D');
    assert("MultDivNone"@[5] == 'i');
    assert("MultDivNone"@[7] == 'N');
    reveal_strlit("MultiplyOverflow");
    assert("MultiplyOverflow"@.len() == 16);
    assert("MultiplyOverflow"@[1] == 'u');
    assert("MultiplyOverflow"@[4] == 'i');
    assert("MultiplyOverflow"@[5] == 'p');
    assert("MultiplyOverflow"@[7] == 'y');
    assert("MultiplyOverflow"@[12] == 'f');
    assert("MultiplyOverflow"@[13] == 'l');
    reveal_strlit("DividedByZero");
    assert("DividedByZero"@.len() == 13);
    assert("DividedByZero"@[1] == 'i');
    assert("DividedByZero"@[4] == 'd');
    assert("DividedByZero"@[5] == 'e');
    assert("DividedByZero"@[7] == 'B');
    assert("DividedByZero"@[12] == 'o');
    reveal_strlit("Remainder");
    assert("Remainder"@.len() == 9);
    assert("Remainder"@[1] == 'e');
    assert("Remainder"@[4] == 'i');
    assert("Remainder"@[5] == 'n');
    assert("Remainder"@[7] == 'e');
    reveal_strlit("EmptyData");
    assert("EmptyData"@.len() == 9);
    assert("EmptyData"@[1] == 'm');
    assert("EmptyData"@[4] == 'y');
    assert("EmptyData"@[5] == 'D');
    assert("EmptyData"@[7] == 't');
    reveal_strlit("ClockGet");
    assert("ClockGet"@.len() == 8);
    assert("ClockGet"@[1] == 'l');
    assert("ClockGet"@[4] == 'k');
    assert("ClockGet"@[5] == 'G');
    assert("ClockGet"@[7] == 't');
    reveal_strlit("VaultExists");
    assert("VaultExists"@.len() == 11);
    assert("VaultExists"@[1] == 'a');
    assert("VaultExists"@[4] == 't');
    assert("VaultExists"@[5] == 'E');
    assert("VaultExists"@[7] == 'i');
    reveal_strlit("Xyz068");
    assert("Xyz068"@.len() == 6);
    assert("Xyz068"@[1] == 'y');
    assert("Xyz068"@[4] == '6');
    assert("Xyz068"@[5] == '8');
    reveal_strlit("Xyz069");
    assert("Xyz069"@.len() == 6);
    assert("Xyz069"@[1] == 'y');
    assert("Xyz069"@[4] == '6');
    assert("Xyz069"@[5] == '9');
    reveal_strlit("TokenAcctsLength");
    assert("TokenAcctsLength"@.len() == 16);
    assert("TokenAcctsLength"@[1] == 'o');
    assert("TokenAcctsLength"@[4] == 'n');
    assert("TokenAcctsLength"@[5] == 'A');
    assert("TokenAcctsLength"@[7] == 'c');
    assert("TokenAcctsLength"@[12] == 'n');
    assert("TokenAcctsLength"@[13] == 'g');
    reveal_strlit("LoanRecordAcctHasData");
    assert("LoanRecordAcctHasData"@.len() == 21);
    assert("LoanRecordAcctHasData"@[1] == 'o');
    assert("LoanRecordAcctHasData"@[4] == 'R');
    assert("LoanRecordAcctHasData"@[5] == 'e');
    assert("LoanRecordAcctHasData"@[7] == 'o');
    assert("LoanRecordAcctHasData"@[12] == 'c');
    assert("LoanRecordAcctHasData"@[13] == 't');
    reveal_strlit("DataArgLenForU64");
    assert("DataArgLenForU64"@.len() == 16);
    assert("DataArgLenForU64"@[1] == 'a');
    assert("DataArgLenForU64"@[4] == 'A');
    assert("DataArgLenForU64"@[5] == 'r');
    assert("DataArgLenForU64"@[7] == 'L');
    assert("DataArgLenForU64"@[12] == 'r');
    assert("DataArgLenForU64"@[13] == 'U');
    reveal_strlit("AmountsLenVsTokenAcctLen");
    assert("AmountsLenVsTokenAcctLen"@.len() == 24);
    assert("AmountsLenVsTokenAcctLen"@[1] == 'm');
    assert("AmountsLenVsTokenAcctLen"@[4] == 'n');
    assert("AmountsLenVsTokenAcctLen"@[5] == 't');
    assert("AmountsLenVsTokenAcctLen"@[7] == 'L');
    assert("AmountsLenVsTokenAcctLen"@[12] == 'T');
    assert("AmountsLenVsTokenAcctLen"@[13] == 'o');
    reveal_strlit("BorrowAmountTooBig");
    assert("BorrowAmountTooBig"@.len() == 18);
    assert("BorrowAmountTooBig"@[1] == 'o');
    assert("BorrowAmountTooBig"@[4] == 'o');
    assert("BorrowAmountTooBig"@[5] == 'w');
    assert("BorrowAmountTooBig"@[7] == 'm');
    assert("BorrowAmountTooBig"@[12] == 'T');
    assert("BorrowAmountTooBig"@[13] == 'o');
    reveal_strlit("BorrowedAmountIsZero");
    assert("BorrowedAmountIsZero"@.len() == 20);
    assert("BorrowedAmountIsZero"@[1] == 'o');
    assert("BorrowedAmountIsZero"@[4] == 'o');
    assert("BorrowedAmountIsZero"@[5] == 'w');
    assert("BorrowedAmountIsZero"@[7] == 'd');
    assert("BorrowedAmountIsZero"@[12] == 'n');
    assert("BorrowedAmountIsZero"@[13] == 't');
    reveal_strlit("LenderPdaBalanceIsZero");
    assert("LenderPdaBalanceIsZero"@.len() == 22);
    assert("LenderPdaBalanceIsZero"@[1] == 'e');
    assert("LenderPdaBalanceIsZero"@[4] == 'e');
    assert("LenderPdaBalanceIsZero"@[5] == 'r');
    assert("LenderPdaBalanceIsZero"@[7] == 'd');
    assert("LenderPdaBalanceIsZero"@[12] == 'a');
    assert("LenderPdaBalanceIsZero"@[13] == 'n');
    reveal_strlit("NumOfInstructions");
    assert("NumOfInstructions"@.len() == 17);
    assert("NumOfInstructions"@[1] == 'u');
    assert("NumOfInstructions"@[4] == 'f');
    assert("NumOfInstructions"@[5] == 'I');
    assert("NumOfInstructions"@[7] == 's');
    assert("NumOfInstructions"@[12] == 't');
    assert("NumOfInstructions"@[13] == 'i');
    reveal_strlit("RepayProgId");
    assert("RepayProgId"@.len() == 11);
    assert("RepayProgId"@[1] == 'e');
    assert("RepayProgId"@[4] == 'y');
    assert("RepayProgId"@[5] == 'P');
    assert("RepayProgId"@[7] == 'o');
    reveal_strlit("RepayDiscriminator");
    assert("RepayDiscriminator"@.len() == 18);
    assert("RepayDiscriminator"@[1] == 'e');
    assert("RepayDiscriminator"@[4] == 'y');
    assert("RepayDiscriminator"@[5] == 'D');
    assert("RepayDiscriminator"@[7] == 's');
    assert("RepayDiscriminator"@[12] == 'i');
    assert("RepayDiscriminator"@[13] == 'n');
    reveal_strlit("RepayIxLenderPda");
    assert("RepayIxLenderPda"@.len() == 16);
    assert("RepayIxLenderPda"@[1] == 'e');
    assert("RepayIxLenderPda"@[4] == 'y');
    assert("RepayIxLenderPda"@[5] == 'I');
    assert("RepayIxLenderPda"@[7] == 'L');
    assert("RepayIxLenderPda"@[12] == 'r');
    assert("RepayIxLenderPda"@[13] == 'P');
    reveal_strlit("RepayTokenAccountLen");
    assert("RepayTokenAccountLen"@.len() == 20);
    assert("RepayTokenAccountLen"@[1] == 'e');
    assert("RepayTokenAccountLen"@[4] == 'y');
    assert("RepayTokenAccountLen"@[5] == 'T');
    assert("RepayTokenAccountLen"@[7] == 'k');
    assert("RepayTokenAccountLen"@[12] == 'c');
    assert("RepayTokenAccountLen"@[13] == 'o');
    reveal_strlit("NotMapped");
    assert("NotMapped"@.len() == 9);
    assert("NotMapped"@[1] == 'o');
    assert("NotMapped"@[4] == 'a');
    assert("NotMapped"@[5] == 'p');
    assert("NotMapped"@[7] == 'e');
    reveal_strlit("TxnAcctsLength");
    assert("TxnAcctsLength"@.len() == 14);
    assert("TxnAcctsLength"@[1] == 'x');
    assert("TxnAcctsLength"@[4] == 'c');
    assert("TxnAcctsLength"@[5] == 'c');
    assert("TxnAcctsLength"@[7] == 's');
    assert("TxnAcctsLength"@[12] == 't');
    assert("TxnAcctsLength"@[13] == 'h');
    reveal_strlit("LoansPdaHasData");
    assert("LoansPdaHasData"@.len() == 15);
    assert("LoansPdaHasData"@[1] == 'o');
    assert("LoansPdaHasData"@[4] == 's');
    assert("LoansPdaHasData"@[5] == 'P');
    assert("LoansPdaHasData"@[7] == 'a');
    assert("LoansPdaHasData"@[12] == 'a');
    assert("LoansPdaHasData"@[13] == 't');
    reveal_strlit("AmountsLenVsTxnAcctsLen");
    assert("AmountsLenVsTxnAcctsLen"@.len() == 23);
    assert("AmountsLenVsTxnAcctsLen"@[1] == 'm');
    assert("AmountsLenVsTxnAcctsLen"@[4] == 'n');
    assert("AmountsLenVsTxnAcctsLen"@[5] == 't');
    assert("AmountsLenVsTxnAcctsLen"@[7] == 'L');
    assert("AmountsLenVsTxnAcctsLen"@[12] == 'T');
    assert("AmountsLenVsTxnAcctsLen"@[13] == 'x');
    reveal_strlit("TxnLenInvalid");
    assert("TxnLenInvalid"@.len() == 13);
    assert("TxnLenInvalid"@[1] == 'x');
    assert("TxnLenInvalid"@[4] == 'e');
    assert("TxnLenInvalid"@[5] == 'n');
    assert("TxnLenInvalid"@[7] == 'n');
    assert("TxnLenInvalid"@[12] == 'd');
    reveal_strlit("ByteSizeVaultBumps");
    assert("ByteSizeVaultBumps"@.len() == 18);
    assert("ByteSizeVaultBumps"@[1] == 'y');
    assert("ByteSizeVaultBumps"@[4] == 'S');
    assert("ByteSizeVaultBumps"@[5] == 'i');
    assert("ByteSizeVaultBumps"@[7] == 'e');
    assert("ByteSizeVaultBumps"@[12] == 't');
    assert("ByteSizeVaultBumps"@[13] == 'B');
    reveal_strlit("ByteSizeFees");
    assert("ByteSizeFees"@.len() == 12);
    assert("ByteSizeFees"@[1] == 'y');
    assert("ByteSizeFees"@[4] == 'S');
    assert("ByteSizeFees"@[5] == 'i');
    assert("ByteSizeFees"@[7] == 'e');
    reveal_strlit("RepayIxSigner");
    assert("RepayIxSigner"@.len() == 13);
    assert("RepayIxSigner"@[1] == 'e');
    assert("RepayIxSigner"@[4] == 'y');
    assert("RepayIxSigner"@[5] == 'I');
    assert("RepayIxSigner"@[7] == 'S');
    assert("RepayIxSigner"@[12] == 'r');
    reveal_strlit("RepayIxLoansPda");
    assert("RepayIxLoansPda"@.len() == 15);
    assert("RepayIxLoansPda"@[1] == 'e');
    assert("RepayIxLoansPda"@[4] == 'y');
    assert("RepayIxLoansPda"@[5] == 'I');
    assert("RepayIxLoansPda"@[7] == 'L');
    assert("RepayIxLoansPda"@[12] == 'P');
    assert("RepayIxLoansPda"@[13] == 'd');
    reveal_strlit("RepayIxVaultPda");
    assert("RepayIxVaultPda"@.len() == 15);
    assert("RepayIxVaultPda"@[1] == 'e');
    assert("RepayIxVaultPda"@[4] == 'y');
    assert("RepayIxVaultPda"@[5] == 'I');
    assert("RepayIxVaultPda"@[7] == 'V');
    assert("RepayIxVaultPda"@[12] == 'P');
    assert("RepayIxVaultPda"@[13] == 'd');
    reveal_strlit("RepayIxVaultAta");
    assert("RepayIxVaultAta"@.len() == 15);
    assert("RepayIxVaultAta"@[1] == 'e');
    assert("RepayIxVaultAta"@[4] == 'y');
    assert("RepayIxVaultAta"@[5] == 'I');
    assert("RepayIxVaultAta"@[7] == 'V');
    assert("RepayIxVaultAta"@[12] == 'A');
    assert("RepayIxVaultAta"@[13] == 't');
    reveal_strlit("RepayIxDebtorAta");
    assert("RepayIxDebtorAta"@.len() == 16);
    assert("RepayIxDebtorAta"@[1] == 'e');
    assert("RepayIxDebtorAta"@[4] == 'y');
    assert("RepayIxDebtorAta"@[5] == 'I');
    assert("RepayIxDebtorAta"@[7] == 'D');
    assert("RepayIxDebtorAta"@[12] == 'r');
    assert("RepayIxDebtorAta"@[13] == 'A');
    reveal_strlit("VaultAtaBalcZero");
    assert("VaultAtaBalcZero"@.len() == 16);
    assert("VaultAtaBalcZero"@[1] == 'a');
    assert("VaultAtaBalcZero"@[4] == 't');
    assert("VaultAtaBalcZero"@[5] == 'A');
    assert("VaultAtaBalcZero"@[7] == 'a');
    assert("VaultAtaBalcZero"@[12] == 'Z');
    assert("VaultAtaBalcZero"@[13] == 'e');
    reveal_strlit("RepayTxnAcctsLen");
    assert("RepayTxnAcctsLen"@.len() == 16);
    assert("RepayTxnAcctsLen"@[1] == 'e');
    assert("RepayTxnAcctsLen"@[4] == 'y');
    assert("RepayTxnAcctsLen"@[5] == 'T');
    assert("RepayTxnAcctsLen"@[7] == 'n');
    assert("RepayTxnAcctsLen"@[12] == 's');
    assert("RepayTxnAcctsLen"@[13] == 'L');
    reveal_strlit("RepayVaultAta");
    assert("RepayVaultAta"@.len() == 13);
    assert("RepayVaultAta"@[1] == 'e');
    assert("RepayVaultAta"@[4] == 'y');
    assert("RepayVaultAta"@[5] == 'V');
    assert("RepayVaultAta"@[7] == 'u');
    assert("RepayVaultAta"@[12] == 'a');
    reveal_strlit("RepayVaultBalcNotExpected");
    assert("RepayVaultBalcNotExpected"@.len() == 25);
    assert("RepayVaultBalcNotExpected"@[1] == 'e');
    assert("RepayVaultBalcNotExpected"@[4] == 'y');
    assert("RepayVaultBalcNotExpected"@[5] == 'V');
    assert("RepayVaultBalcNotExpected"@[7] == 'u');
    assert("RepayVaultBalcNotExpected"@[12] == 'l');
    assert("RepayVaultBalcNotExpected"@[13] == 'c');
    reveal_strlit("InstructionSysvar");
    assert("InstructionSysvar"@.len() == 17);
    assert("InstructionSysvar"@[1] == 'n');
    assert("InstructionSysvar"@[4] == 'r');
    assert("InstructionSysvar"@[5] == 'u');
    assert("InstructionSysvar"@[7] == 't');
    assert("InstructionSysvar"@[12] == 'y');
    assert("InstructionSysvar"@[13] == 's');
}

} // verus!
