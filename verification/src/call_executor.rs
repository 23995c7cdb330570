//! Guarded execution of an arbitrary call against a target program.  The
//! engine validates the request; the host performs the actual invocation.
use vstd::prelude::*;

verus! {

use crate::new_intent::{spec_zero_id, zero_id};

/// Largest calldata accepted for a guarded call.
pub const MAX_CALLDATA_SIZE: usize = 10240;

/// Errors of the guarded call executor.
#[derive(Clone, Copy, Debug, PartialEq, Eq, Structural)]
pub enum CustomError {
    /// Invalid target address.
    InvalidTarget,
    /// Invalid max_copy value.
    InvalidMaxCopy,
    /// Empty calldata.
    EmptyCalldata,
    /// Calldata too large.
    CalldataTooLarge,
}

/// Validates a guarded call: a zero target, a zero result budget, empty
/// calldata or oversized calldata are rejected in that order.  The host
/// performs the call itself; `gas` and `value` ride along for interface
/// compatibility and `max_copy` bounds how much of the result the host may
/// copy back.
pub fn excessively_safe_call(
    target: [u8; 32],
    gas: u64,
    value: u64,
    max_copy: u16,
    calldata: &Vec<u8>,
) -> (r: Result<(bool, Vec<u8>), CustomError>)
    ensures
        match r {
            Err(e) => {
                &&& (if target@ == spec_zero_id() {
                    e == CustomError::InvalidTarget
                } else if max_copy == 0 {
                    e == CustomError::InvalidMaxCopy
                } else if calldata@.len() == 0 {
                    e == CustomError::EmptyCalldata
                } else if calldata@.len() > MAX_CALLDATA_SIZE {
                    e == CustomError::CalldataTooLarge
                } else {
                    false
                })
            },
            Ok((success, data)) => {
                &&& target@ != spec_zero_id()
                &&& max_copy > 0
                &&& 0 < calldata@.len() <= MAX_CALLDATA_SIZE
                &&& success == true
                &&& data@.len() == 0
            },
        },
{
    let zero = zero_id();
    if crate::bytes::bytes32_eq(&target, &zero) {
        return Err(CustomError::InvalidTarget);
    }
    if max_copy == 0 {
        return Err(CustomError::InvalidMaxCopy);
    }
    if calldata.len() == 0 {
        return Err(CustomError::EmptyCalldata);
    }
    if calldata.len() > MAX_CALLDATA_SIZE {
        return Err(CustomError::CalldataTooLarge);
    }
    let _ = gas;
    let _ = value;
    Ok((true, Vec::new()))
}

} // verus!
