//! Fixed labels and identities of the receiver.
//!
//! Every derived identity starts from one of the ASCII labels below; a label
//! is kept as the array of its bytes.

use vstd::prelude::*;
use vstd::slice::slice_to_vec;
use crate::address::Address;

verus! {

/// `state`: label of the account that holds the receiver's configuration.
pub const STATE_SEED: [u8; 5] = [115, 116, 97, 116, 101];

/// `messages_storage`: label of the account that holds the message record.
pub const MESSAGES_STORAGE_SEED: [u8; 16] = [
    109, 101, 115, 115, 97, 103, 101, 115, 95, 115, 116, 111, 114, 97, 103, 101,
];

/// `external_execution_config`: label under which a relay program derives the
/// identity that signs its deliveries.
pub const EXTERNAL_EXECUTION_CONFIG_SEED: [u8; 25] = [
    101, 120, 116, 101, 114, 110, 97, 108, 95, 101, 120, 101, 99, 117, 116, 105, 111, 110, 95, 99,
    111, 110, 102, 105, 103,
];

/// `allowed_offramp`: label under which the router derives one allowlist
/// entry per source chain and relay program.
pub const ALLOWED_OFFRAMP: [u8; 15] = [
    97, 108, 108, 111, 119, 101, 100, 95, 111, 102, 102, 114, 97, 109, 112,
];

/// `token_admin`: label of the delegated authority over the custody accounts.
pub const TOKEN_ADMIN_SEED: [u8; 11] = [116, 111, 107, 101, 110, 95, 97, 100, 109, 105, 110];

/// Size in bytes of the discriminator that prefixes every persisted account.
pub const ANCHOR_DISCRIMINATOR: usize = 8;

/// Bytes of the receiver's own program identity,
/// `BqmcnLFSbKwyMEgi7VhVeJCis1wW26VySztF34CJrKFq` in base 58.
pub const ID: [u8; 32] = [
    161, 19, 50, 85, 105, 68, 66, 212, 95, 70, 203, 207, 1, 218, 246, 71, 82, 19, 181, 216, 9, 58,
    99, 227, 50, 169, 230, 9, 145, 48, 173, 60,
];

/// Bytes of the identity of the SPL Token program,
/// `TokenkegQfeZyiNwAJbNbGKPFXCWuBvf9Ss623VQ5DA` in base 58.
pub const TOKEN_PROGRAM_ID: [u8; 32] = [
    6, 221, 246, 225, 215, 101, 161, 147, 217, 203, 225, 70, 206, 235, 121, 172, 28, 180, 133, 237,
    95, 91, 55, 145, 58, 140, 245, 133, 126, 255, 0, 169,
];

/// Bytes of the identity of the Token-2022 program,
/// `TokenzQdBNbLqP5VEhdkAS6EPFLC1PHnBqCXEpPxuEb` in base 58.
pub const TOKEN_2022_PROGRAM_ID: [u8; 32] = [
    6, 221, 246, 225, 238, 117, 143, 222, 24, 66, 93, 188, 228, 108, 205, 218, 182, 26, 252, 77,
    131, 185, 13, 39, 254, 189, 249, 40, 216, 161, 139, 252,
];

/// The receiver's own program identity.
pub open spec fn program_id() -> Address {
    Address { bytes: ID }
}

/// The identity of the SPL Token program.
pub open spec fn token_program_id() -> Address {
    Address { bytes: TOKEN_PROGRAM_ID }
}

/// The identity of the Token-2022 program.
pub open spec fn token_2022_program_id() -> Address {
    Address { bytes: TOKEN_2022_PROGRAM_ID }
}

/// The bytes of a label as a seed of a derivation.
pub fn seed<const N: usize>(label: &[u8; N]) -> (r: Vec<u8>)
    ensures
        r@ == label@,
{
    slice_to_vec(label.as_slice())
}

} // verus!
