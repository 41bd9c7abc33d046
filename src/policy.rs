//! The permission filter of the generic native-call dispatcher: which operations
//! of the host runtime EVM code may trigger through it.

use vstd::prelude::*;

use crate::address::Address;

verus! {

/// An operation of the host runtime, told apart by the pallet it belongs to.
#[derive(Clone, Copy, Debug, PartialEq, Eq, Structural)]
pub enum NativeCall {
    Staking,
    /// Governance by referendum.
    Democracy,
    Elections,
    Preimage,
    NominationPools,
    Treasury,
    System,
    Balances,
    Sudo,
    Utility,
    Session,
    Scheduler,
    Faucet,
    /// A pallet not named above, by its index in the runtime.
    Other(u8),
}

/// A call's resource-priority category.
#[derive(Clone, Copy, Debug, PartialEq, Eq, Structural)]
pub enum DispatchClass {
    Normal,
    Operational,
    Mandatory,
}

/// What the host runtime reports of a call before it is dispatched.
#[derive(Clone, Copy, Debug, PartialEq, Eq, Structural)]
pub struct DispatchInfo {
    /// Whether the caller is charged a fee for the call.
    pub pays_fee: bool,
    pub class: DispatchClass,
}

/// Why a call was refused.
#[derive(Clone, Copy, Debug, PartialEq, Eq, Structural)]
pub enum DenyReason {
    /// The call is free of fees or of the mandatory class.
    FeeExemptOrMandatory,
    /// The call's kind is not among those that may be dispatched.
    NotPermitted,
}

/// The permission filter's verdict on a call.
#[derive(Clone, Copy, Debug, PartialEq, Eq, Structural)]
pub enum PermissionDecision {
    Allow,
    /// Refused: the dispatcher must fail the call frame with a hard error and
    /// change no state.
    Deny(DenyReason),
}

impl NativeCall {
    /// The kinds of call that may always be dispatched.
    pub open spec fn spec_is_allowlisted(self) -> bool {
        ||| self is Staking
        ||| self is Democracy
        ||| self is Elections
        ||| self is Preimage
        ||| self is NominationPools
        ||| self is Treasury
    }

    /// Whether calls of this kind may always be dispatched.
    pub fn is_allowlisted(&self) -> (r: bool)
        ensures
            r == self.spec_is_allowlisted(),
    {
        match self {
            NativeCall::Staking
            | NativeCall::Democracy
            | NativeCall::Elections
            | NativeCall::Preimage
            | NativeCall::NominationPools
            | NativeCall::Treasury => true,
            _ => false,
        }
    }
}

impl DenyReason {
    /// A stable text for the hard error that carries this reason.
    pub fn message(&self) -> (r: &'static str)
        ensures
            self is FeeExemptOrMandatory ==> r@ == "fee-exempt or mandatory calls forbidden"@,
            self is NotPermitted ==> r@ == "call kind not permitted for native dispatch"@,
    {
        match self {
            DenyReason::FeeExemptOrMandatory => "fee-exempt or mandatory calls forbidden",
            DenyReason::NotPermitted => "call kind not permitted for native dispatch",
        }
    }
}

/// The permission filter consulted by the dispatcher before it performs a native call.
pub struct DispatchCallFilter;

impl DispatchCallFilter {
    /// Decides whether `call`, described by `info`, may be dispatched from EVM
    /// code. The allowlist is consulted first and overrides the fee and class
    /// rules; every other call is refused. The caller does not take part in the
    /// decision.
    pub fn validate_before_dispatch(
        _origin: &Address,
        call: &NativeCall,
        info: &DispatchInfo,
    ) -> (r: PermissionDecision)
        ensures
            r is Allow <==> call.spec_is_allowlisted(),
            call.spec_is_allowlisted() ==> r == PermissionDecision::Allow,
            !call.spec_is_allowlisted() && !info.pays_fee ==> r == PermissionDecision::Deny(
                DenyReason::FeeExemptOrMandatory,
            ),
            !call.spec_is_allowlisted() && info.class is Mandatory ==> r
                == PermissionDecision::Deny(DenyReason::FeeExemptOrMandatory),
            !call.spec_is_allowlisted() && info.pays_fee && !(info.class is Mandatory) ==> r
                == PermissionDecision::Deny(DenyReason::NotPermitted),
    {
        if call.is_allowlisted() {
            PermissionDecision::Allow
        } else if !info.pays_fee || matches!(info.class, DispatchClass::Mandatory) {
            PermissionDecision::Deny(DenyReason::FeeExemptOrMandatory)
        } else {
            PermissionDecision::Deny(DenyReason::NotPermitted)
        }
    }
}

} // verus!
