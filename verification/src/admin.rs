use vstd::prelude::*;
use crate::error::Error;
use crate::storage::Storage;
use crate::types::{Address, CallContext};

verus! {

/// The admin, provided the store is set up and the admin authorized the call.
pub fn require_admin(storage: &Storage, ctx: &CallContext) -> (admin: Result<Address, Error>)
    ensures
        admin == match storage@.config {
            None => Err::<Address, Error>(Error::NotInitialized),
            Some(config) => if ctx.authorizes(config.admin) {
                Ok(config.admin)
            } else {
                Err(Error::Unauthorized)
            },
        },
{
    match storage.config() {
        None => Err(Error::NotInitialized),
        Some(config) => {
            if ctx.require_caller(&config.admin) {
                Ok(config.admin)
            } else {
                Err(Error::Unauthorized)
            }
        },
    }
}

/// The account that receives the operator's cut.
pub fn get_operator(storage: &Storage) -> (operator: Result<Address, Error>)
    ensures
        operator == match storage@.config {
            None => Err::<Address, Error>(Error::NotInitialized),
            Some(config) => Ok(config.operator),
        },
{
    match storage.config() {
        None => Err(Error::NotInitialized),
        Some(config) => Ok(config.operator),
    }
}

/// The contributor's part of every sale, in percent.
pub fn get_contributor_share_pct(storage: &Storage) -> (pct: Result<u32, Error>)
    ensures
        pct == match storage@.config {
            None => Err::<u32, Error>(Error::NotInitialized),
            Some(config) => Ok(config.contributor_share_pct),
        },
{
    match storage.config() {
        None => Err(Error::NotInitialized),
        Some(config) => Ok(config.contributor_share_pct),
    }
}

/// The asset in which sales are paid.
pub fn get_native_token(storage: &Storage) -> (token: Result<Address, Error>)
    ensures
        token == match storage@.config {
            None => Err::<Address, Error>(Error::NotInitialized),
            Some(config) => Ok(config.native_token),
        },
{
    match storage.config() {
        None => Err(Error::NotInitialized),
        Some(config) => Ok(config.native_token),
    }
}

} // verus!
