//! The host's cross-VM call primitive: the request it takes and the mapping of its
//! status code to a typed error.
use crate::address::EvmAddress;
use vstd::prelude::*;

verus! {

/// The VM id of the EVM.
pub const EVM_ID: u8 = 0x0F;

/// The fixed set of cross-VM call failures.
#[derive(Clone, Copy, Debug, PartialEq, Eq)]
pub enum XvmError {
    InvalidVmId,
    /// A contract may not bridge a call back into its own VM.
    SameVmCallNotAllowed,
    InvalidTarget,
    InputTooLarge,
    BadOrigin,
    ExecutionFailed,
    /// A status code outside the known table.
    UnknownStatusCode,
}

/// The outcome that a status code stands for: 0 is success, 1 to 6 are the known failures,
/// and every other code is an unknown one.
pub open spec fn status_outcome(code: u32) -> Result<(), XvmError> {
    if code == 0 {
        Ok(())
    } else if code == 1 {
        Err(XvmError::InvalidVmId)
    } else if code == 2 {
        Err(XvmError::SameVmCallNotAllowed)
    } else if code == 3 {
        Err(XvmError::InvalidTarget)
    } else if code == 4 {
        Err(XvmError::InputTooLarge)
    } else if code == 5 {
        Err(XvmError::BadOrigin)
    } else if code == 6 {
        Err(XvmError::ExecutionFailed)
    } else {
        Err(XvmError::UnknownStatusCode)
    }
}

impl XvmError {
    /// Maps a status code to its outcome; never panics.
    pub fn from_status_code(status_code: u32) -> (r: Result<(), XvmError>)
        ensures
            r == status_outcome(status_code),
    {
        match status_code {
            0 => Ok(()),
            1 => Err(XvmError::InvalidVmId),
            2 => Err(XvmError::SameVmCallNotAllowed),
            3 => Err(XvmError::InvalidTarget),
            4 => Err(XvmError::InputTooLarge),
            5 => Err(XvmError::BadOrigin),
            6 => Err(XvmError::ExecutionFailed),
            _ => Err(XvmError::UnknownStatusCode),
        }
    }
}

/// The status mapping is total: 0 is success, each code of the table gives its own
/// variant, and every other code gives `UnknownStatusCode`.
pub proof fn lemma_status_mapping_total(code: u32, other: u32)
    ensures
        status_outcome(code) is Ok <==> code == 0,
        7 <= code ==> status_outcome(code) == Err::<(), XvmError>(XvmError::UnknownStatusCode),
        1 <= code <= 6 ==> status_outcome(code) != Err::<(), XvmError>(
            XvmError::UnknownStatusCode,
        ),
        1 <= code <= 6 && 1 <= other <= 6 && code != other ==> status_outcome(code)
            != status_outcome(other),
{
}

/// One call of the cross-VM primitive, as the host takes it.
#[derive(Clone, Debug, PartialEq, Eq)]
pub struct XvmCall {
    pub vm_id: u8,
    pub target: Vec<u8>,
    pub input: Vec<u8>,
    pub value: u128,
}

/// The cross-VM dispatcher.
pub struct Xvm;

impl Xvm {
    /// A call of the EVM contract at `target` with `input`, carrying no value.
    pub fn evm_call(target: &EvmAddress, input: Vec<u8>) -> (r: XvmCall)
        ensures
            r.vm_id == EVM_ID,
            r.target@ == target@,
            r.input@ == input@,
            r.value == 0,
    {
        let mut t: Vec<u8> = Vec::new();
        let mut i: usize = 0;
        while i < 20
            invariant
                0 <= i <= 20,
                t@ == target@.subrange(0, i as int),
            decreases 20 - i,
        {
            t.push(target[i]);
            proof {
                assert(t@ =~= target@.subrange(0, i + 1));
            }
            i = i + 1;
        }
        assert(target@.subrange(0, 20) =~= target@);
        XvmCall { vm_id: EVM_ID, target: t, input, value: 0 }
    }

    /// The result of a call from the status code and the output that the host returned:
    /// the output on status 0, else the status's error.
    pub fn complete(status: u32, output: Vec<u8>) -> (r: Result<Vec<u8>, XvmError>)
        ensures
            status == 0 ==> r == Ok::<Vec<u8>, XvmError>(output),
            status != 0 ==> r == Err::<Vec<u8>, XvmError>(status_outcome(status)->Err_0),
    {
        match XvmError::from_status_code(status) {
            Ok(()) => Ok(output),
            Err(e) => Err(e),
        }
    }
}

} // verus!
