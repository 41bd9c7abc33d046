use precompile_router::address::hash;
use precompile_router::policy::{
    DenyReason, DispatchCallFilter, DispatchClass, DispatchInfo, NativeCall, PermissionDecision,
};
use precompile_router::registry::{FrontierPrecompiles, Precompile};

const ALLOWED: [NativeCall; 6] = [
    NativeCall::Staking,
    NativeCall::Democracy,
    NativeCall::Elections,
    NativeCall::Preimage,
    NativeCall::NominationPools,
    NativeCall::Treasury,
];

const REFUSED: [NativeCall; 9] = [
    NativeCall::System,
    NativeCall::Balances,
    NativeCall::Sudo,
    NativeCall::Utility,
    NativeCall::Session,
    NativeCall::Scheduler,
    NativeCall::Faucet,
    NativeCall::Other(0),
    NativeCall::Other(255),
];

const CLASSES: [DispatchClass; 3] =
    [DispatchClass::Normal, DispatchClass::Operational, DispatchClass::Mandatory];

fn decide(call: NativeCall, pays_fee: bool, class: DispatchClass) -> PermissionDecision {
    DispatchCallFilter::validate_before_dispatch(&hash(42), &call, &DispatchInfo { pays_fee, class })
}

#[test]
fn allowlisted_calls_are_allowed_whatever_their_fee_and_class() {
    for call in ALLOWED {
        assert!(call.is_allowlisted());
        for pays_fee in [true, false] {
            for class in CLASSES {
                assert_eq!(decide(call, pays_fee, class), PermissionDecision::Allow);
            }
        }
    }
}

#[test]
fn allowlist_takes_precedence_over_fee_and_class() {
    assert_eq!(decide(NativeCall::Staking, false, DispatchClass::Mandatory), PermissionDecision::Allow);
    assert_eq!(decide(NativeCall::Treasury, false, DispatchClass::Normal), PermissionDecision::Allow);
    assert_eq!(decide(NativeCall::Democracy, true, DispatchClass::Mandatory), PermissionDecision::Allow);
}

#[test]
fn fee_exempt_calls_are_denied() {
    for call in REFUSED {
        assert!(!call.is_allowlisted());
        for class in CLASSES {
            assert_eq!(
                decide(call, false, class),
                PermissionDecision::Deny(DenyReason::FeeExemptOrMandatory)
            );
        }
    }
}

#[test]
fn mandatory_calls_are_denied_even_when_paying() {
    for call in REFUSED {
        assert_eq!(
            decide(call, true, DispatchClass::Mandatory),
            PermissionDecision::Deny(DenyReason::FeeExemptOrMandatory)
        );
    }
}

#[test]
fn paying_calls_outside_the_allowlist_are_denied() {
    for call in REFUSED {
        for class in [DispatchClass::Normal, DispatchClass::Operational] {
            assert_eq!(decide(call, true, class), PermissionDecision::Deny(DenyReason::NotPermitted));
        }
    }
}

#[test]
fn caller_takes_no_part_in_the_decision() {
    let info = DispatchInfo { pays_fee: true, class: DispatchClass::Normal };
    for n in [0u64, 1, 1026, u64::MAX] {
        assert_eq!(
            DispatchCallFilter::validate_before_dispatch(&hash(n), &NativeCall::Balances, &info),
            PermissionDecision::Deny(DenyReason::NotPermitted)
        );
        assert_eq!(
            DispatchCallFilter::validate_before_dispatch(&hash(n), &NativeCall::Staking, &info),
            PermissionDecision::Allow
        );
    }
}

#[test]
fn deny_reasons_have_stable_messages() {
    assert_eq!(DenyReason::FeeExemptOrMandatory.message(), "fee-exempt or mandatory calls forbidden");
    assert_eq!(DenyReason::NotPermitted.message(), "call kind not permitted for native dispatch");
}

#[test]
fn dispatching_a_refused_call_fails_with_a_hard_error() {
    let router = FrontierPrecompiles::new();
    assert_eq!(router.execute(hash(1026)), Some(Precompile::Dispatch));
    let decision = decide(NativeCall::Balances, true, DispatchClass::Normal);
    match decision {
        PermissionDecision::Deny(reason) => {
            assert_eq!(reason, DenyReason::NotPermitted);
            assert_eq!(reason.message(), "call kind not permitted for native dispatch");
        }
        PermissionDecision::Allow => panic!("a call outside the allowlist was allowed"),
    }
}

#[test]
fn dispatching_a_paying_staking_call_is_allowed() {
    let router = FrontierPrecompiles::new();
    assert_eq!(router.execute(hash(1026)), Some(Precompile::Dispatch));
    assert_eq!(decide(NativeCall::Staking, true, DispatchClass::Normal), PermissionDecision::Allow);
}
