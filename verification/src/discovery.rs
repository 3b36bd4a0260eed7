//! Service discovery: how long what a storage provider announces stays
//! valid.

use vstd::prelude::*;
use crate::BlockNumber;

verus! {

/// The least lifetime of an announcement: one hour of blocks.
pub const MINIMUM_LIFETIME: u32 = 600;

/// The lifetime of an announcement that names none: a day of blocks.
pub const DEFAULT_LIFETIME: u32 = 14_400;

/// Defines the expiration date for the storage provider.
#[derive(Clone, Debug, PartialEq, Eq)]
pub struct AccountInfo<BlockNumber> {
    /// IPNS Identity.
    pub identity: Vec<u8>,
    /// Block at which information expires.
    pub expires_at: BlockNumber,
}

/// The lifetime of an announcement: the one asked for, but no less than the
/// minimum; the default where none is asked for.
pub fn lifetime_or_default(lifetime: Option<BlockNumber>, default_lifetime: BlockNumber) -> (ttl:
    BlockNumber)
    ensures
        ttl == (match lifetime {
            Some(value) => if value >= MINIMUM_LIFETIME {
                value
            } else {
                MINIMUM_LIFETIME
            },
            None => default_lifetime,
        }),
{
    match lifetime {
        Some(value) => {
            if value >= MINIMUM_LIFETIME {
                value
            } else {
                MINIMUM_LIFETIME
            }
        },
        None => default_lifetime,
    }
}

/// Verifies that account info for the storage provider is still valid: it is
/// expired where there is none, and after the block that it names.
pub fn is_account_info_expired(info: Option<&AccountInfo<BlockNumber>>, current_block: BlockNumber) -> (r:
    bool)
    ensures
        r == (match info {
            None => true,
            Some(info) => current_block > info.expires_at,
        }),
{
    match info {
        None => true,
        Some(info) => current_block > info.expires_at,
    }
}

} // verus!
