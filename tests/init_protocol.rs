use std::sync::Arc;

use single_flight::init::{
    complete_after_panic, complete_if_present, complete_with_outcome, follow_init,
    post_init_for_get_with, post_init_for_optionally_get_with, post_init_for_try_get_with,
    FollowerStep, InitResult, OptionallyNone, ProtocolFault,
};
use single_flight::waiter::{WaiterValue, MAX_RETRIES};

type Slot = WaiterValue<String, Arc<String>>;

#[test]
fn follower_reads_published_value() {
    let slot: Slot = WaiterValue::Ready(Ok("v1".to_string()));
    match follow_init(&slot, 0) {
        FollowerStep::Return(InitResult::ReadExisting(v)) => assert_eq!(v, "v1"),
        _ => panic!("expected the published value"),
    }
}

#[test]
fn follower_reads_published_error() {
    let capsule = Arc::new("boom".to_string());
    let slot: Slot = WaiterValue::Ready(Err(Arc::clone(&capsule)));
    match follow_init(&slot, 3) {
        FollowerStep::Return(InitResult::InitErr(e)) => {
            assert_eq!(*e, "boom");
            assert!(Arc::ptr_eq(&e, &capsule));
        }
        _ => panic!("expected the published error"),
    }
}

#[test]
fn follower_retries_after_panic() {
    let slot: Slot = WaiterValue::InitClosurePanicked;
    assert!(matches!(follow_init(&slot, 0), FollowerStep::Retry(1)));
    assert!(matches!(follow_init(&slot, 199), FollowerStep::Retry(200)));
}

#[test]
fn follower_stops_on_the_201st_panicked_finding() {
    let slot: Slot = WaiterValue::InitClosurePanicked;
    let mut retries: usize = 0;
    let mut findings: usize = 0;
    loop {
        findings += 1;
        match follow_init(&slot, retries) {
            FollowerStep::Retry(next) => {
                assert_eq!(next, retries + 1);
                retries = next;
            }
            FollowerStep::Fatal(fault) => {
                assert_eq!(fault, ProtocolFault::TooManyRetries(200));
                break;
            }
            FollowerStep::Return(_) => panic!("a panicked owner hands back nothing"),
        }
        assert!(findings <= 1000, "the retry loop did not stop");
    }
    assert_eq!(findings, 201);
    assert_eq!(retries, MAX_RETRIES);
}

#[test]
fn follower_rejects_unfinished_states() {
    let computing: Slot = WaiterValue::Computing;
    let ready_none: Slot = WaiterValue::ReadyNone;
    assert!(matches!(
        follow_init(&computing, 0),
        FollowerStep::Fatal(ProtocolFault::UnexpectedState)
    ));
    assert!(matches!(
        follow_init(&ready_none, 0),
        FollowerStep::Fatal(ProtocolFault::UnexpectedState)
    ));
}

#[test]
fn owner_recheck_finds_value() {
    let c = complete_if_present::<u32, Arc<String>>(Some(7)).expect("a value was present");
    assert!(c.insert.is_none());
    assert!(matches!(c.result, InitResult::ReadExisting(7)));
    assert!(matches!(c.publish, WaiterValue::Ready(Ok(7))));
}

#[test]
fn owner_recheck_finds_nothing() {
    assert!(complete_if_present::<u32, Arc<String>>(None).is_none());
}

#[test]
fn owner_completes_with_value() {
    let c = complete_with_outcome::<String, Arc<String>>(Ok("fresh".to_string()));
    assert_eq!(c.insert.as_deref(), Some("fresh"));
    assert!(matches!(&c.result, InitResult::Initialized(v) if v == "fresh"));
    assert!(matches!(&c.publish, WaiterValue::Ready(Ok(v)) if v == "fresh"));
}

#[test]
fn owner_completes_with_error() {
    let c = complete_with_outcome::<String, Arc<String>>(Err(Arc::new("bad".to_string())));
    assert!(c.insert.is_none());
    assert!(matches!(&c.result, InitResult::InitErr(e) if e.as_str() == "bad"));
    assert!(matches!(&c.publish, WaiterValue::Ready(Err(e)) if e.as_str() == "bad"));
}

#[test]
fn value_fans_out_to_every_follower() {
    let c = complete_with_outcome::<String, Arc<String>>(Ok("shared".to_string()));
    for retries in 0..5 {
        match follow_init(&c.publish, retries) {
            FollowerStep::Return(InitResult::ReadExisting(v)) => assert_eq!(v, "shared"),
            _ => panic!("every follower reads the owner's value"),
        }
    }
}

#[test]
fn error_fans_out_to_every_follower() {
    let c = complete_with_outcome::<String, Arc<String>>(Err(Arc::new("denied".to_string())));
    for retries in 0..5 {
        match follow_init(&c.publish, retries) {
            FollowerStep::Return(InitResult::InitErr(e)) => assert_eq!(*e, "denied"),
            _ => panic!("every follower gets the owner's error"),
        }
    }
}

#[test]
fn panicked_owner_releases_followers() {
    let published: Slot = complete_after_panic();
    assert!(matches!(published, WaiterValue::InitClosurePanicked));
    assert!(matches!(follow_init(&published, 0), FollowerStep::Retry(1)));
}

#[test]
fn conversions_of_initializers() {
    assert_eq!(post_init_for_get_with(5u8), Ok(5u8));
    assert_eq!(post_init_for_optionally_get_with(Some(6u8)), Ok(6u8));
    match post_init_for_optionally_get_with::<u8>(None) {
        Err(e) => assert_eq!(*e, OptionallyNone),
        Ok(_) => panic!("None is an error"),
    }
    assert_eq!(post_init_for_try_get_with::<u8, String>(Ok(1)), Ok(1));
    assert_eq!(
        post_init_for_try_get_with::<u8, String>(Err("x".to_string())),
        Err("x".to_string())
    );
}

#[test]
fn state_names() {
    let states: [Slot; 4] = [
        WaiterValue::Computing,
        WaiterValue::Ready(Ok(String::new())),
        WaiterValue::ReadyNone,
        WaiterValue::InitClosurePanicked,
    ];
    let names: Vec<&str> = states.iter().map(|s| s.state_name()).collect();
    assert_eq!(names, ["Computing", "Ready", "ReadyNone", "InitFuturePanicked"]);
}
