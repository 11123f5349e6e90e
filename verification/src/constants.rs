//! Program identifiers, seeds and sizes fixed by the on-chain programs.

use vstd::prelude::*;

verus! {

/// Identifier of the market-maker program,
/// `pAMMBay6oceH9fJKBRHGP5D4bD4sWpmSwMn52FMfXEA`.
pub const PUMPAMM: [u8; 32] = [
    12, 20, 222, 252, 130, 94, 198, 118, 148, 37, 8, 24, 187, 101, 64, 101,
    244, 41, 141, 49, 86, 213, 113, 180, 212, 248, 9, 12, 24, 233, 168, 99,
];

/// Identifier of the bonding-curve program,
/// `6EF8rrecthR5Dkzon8Nwu78hRvfCKubJ14M5uBEwF6P`.
pub const PUMPFUN: [u8; 32] = [
    1, 86, 224, 246, 147, 102, 90, 207, 68, 219, 21, 104, 191, 23, 91, 170,
    81, 137, 203, 151, 245, 210, 255, 59, 101, 93, 43, 182, 253, 109, 24, 176,
];

/// Identifier of the system program, `11111111111111111111111111111111`.
pub const SYSTEM_PROGRAM: [u8; 32] = [
    0, 0, 0, 0, 0, 0, 0, 0, 0, 0, 0, 0, 0, 0, 0, 0,
    0, 0, 0, 0, 0, 0, 0, 0, 0, 0, 0, 0, 0, 0, 0, 0,
];

/// Identifier of the token program,
/// `TokenkegQfeZyiNwAJbNbGKPFXCWuBvf9Ss623VQ5DA`.
pub const TOKEN_PROGRAM: [u8; 32] = [
    6, 221, 246, 225, 215, 101, 161, 147, 217, 203, 225, 70, 206, 235, 121, 172,
    28, 180, 133, 237, 95, 91, 55, 145, 58, 140, 245, 133, 126, 255, 0, 169,
];

/// Identifier of the token-2022 program,
/// `TokenzQdBNbLqP5VEhdkAS6EPFLC1PHnBqCXEpPxuEb`.
pub const TOKEN_2022_PROGRAM: [u8; 32] = [
    6, 221, 246, 225, 238, 117, 143, 222, 24, 66, 93, 188, 228, 108, 205, 218,
    182, 26, 252, 77, 131, 185, 13, 39, 254, 189, 249, 40, 216, 161, 139, 252,
];

/// Identifier of the associated-token-account program,
/// `ATokenGPvbdGVxr1b2hvZbsiqW5xWH25efTNsLJA8knL`.
pub const ASSOCIATED_TOKEN_PROGRAM: [u8; 32] = [
    140, 151, 37, 143, 78, 36, 137, 241, 187, 61, 16, 41, 20, 142, 13, 131,
    11, 90, 19, 153, 218, 255, 16, 132, 4, 142, 123, 216, 219, 233, 248, 89,
];

/// The mint that stands for the native token,
/// `So11111111111111111111111111111111111111112`.
pub const NATIVE_MINT: [u8; 32] = [
    6, 155, 136, 87, 254, 171, 129, 132, 251, 104, 127, 99, 70, 24, 192, 53,
    218, 196, 57, 220, 26, 235, 59, 85, 152, 160, 240, 0, 0, 0, 0, 1,
];

/// Seed of the global configuration address: `global_config`.
pub const GLOBAL_CONFIG_SEED: [u8; 13] = [
    103, 108, 111, 98, 97, 108, 95, 99, 111, 110, 102, 105, 103,
];

/// Seed of a pool address: `pool`.
pub const POOL_SEED: [u8; 4] = [112, 111, 111, 108];

/// Seed of a pool's liquidity-provider mint: `pool_lp_mint`.
pub const POOL_LP_MINT_SEED: [u8; 12] = [
    112, 111, 111, 108, 95, 108, 112, 95, 109, 105, 110, 116,
];

/// Seed of a pool authority: `pool-authority`.
pub const POOL_AUTHORITY_SEED: [u8; 14] = [
    112, 111, 111, 108, 45, 97, 117, 116, 104, 111, 114, 105, 116, 121,
];

/// Seed of the event authority: `__event_authority`.
pub const EVENT_AUTHORITY_SEED: [u8; 17] = [
    95, 95, 101, 118, 101, 110, 116, 95, 97, 117, 116, 104, 111, 114, 105, 116, 121,
];

/// Seed of a creator's fee-vault authority: `creator_vault`.
pub const CREATOR_VAULT: [u8; 13] = [
    99, 114, 101, 97, 116, 111, 114, 95, 118, 97, 117, 108, 116,
];

/// Seed of a user's volume accumulator: `user_volume_accumulator`.
pub const USER_VOLUME_ACCUMULATOR_SEED: [u8; 23] = [
    117, 115, 101, 114, 95, 118, 111, 108, 117, 109, 101, 95, 97, 99, 99, 117,
    109, 117, 108, 97, 116, 111, 114,
];

/// Size in bytes that a pool account has once extended.
pub const POOL_ACCOUNT_SIZE: u64 = 300;

} // verus!
