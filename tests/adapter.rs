use lazy_resolver::error::{finish_lookup, AdapterError};
use lazy_resolver::state::{InitState, Plan};

type Addr = [u8; 4];

/// One critical section as a caller runs it: plan, build if needed, settle,
/// then take the handle.
fn section<C: Clone, E: Clone>(
    state: &mut InitState<C, E>,
    build: &mut dyn FnMut(Plan, Option<C>) -> Result<E, String>,
) -> Result<E, AdapterError<String>> {
    let plan = state.plan();
    if plan != Plan::UseEngine {
        let built = build(plan, state.config().cloned());
        state.settle(built)?;
    }
    Ok(state.engine().cloned().expect("settled state holds an engine"))
}

fn stub_lookup(name: &str) -> Result<Vec<Addr>, String> {
    match name {
        "example.test" => Ok(vec![[10, 0, 0, 1], [10, 0, 0, 2]]),
        "good.test" => Ok(vec![[192, 0, 2, 7]]),
        _ => Err(format!("no such host: {}", name)),
    }
}

#[test]
fn default_construction_fails_on_unreadable_system_config() {
    let r = InitState::<u8, u32>::new_default(Err("resolv.conf unreadable".to_string()));
    match r {
        Err(e) => {
            assert!(e.is_config_read());
            assert!(!e.is_construction());
            assert!(!e.is_lookup());
            assert_eq!(e.into_cause(), "resolv.conf unreadable");
        }
        Ok(_) => panic!("construction should fail"),
    }
}

#[test]
fn default_construction_defers_the_engine() {
    let s = InitState::<u8, u32>::new_default::<String>(Ok(())).ok().unwrap();
    assert!(!s.is_ready());
    assert_eq!(s.plan(), Plan::BuildFromSystem);
    assert!(s.engine().is_none());
    assert!(s.config().is_none());
}

#[test]
fn default_adapter_builds_from_system_and_never_fails_with_config_error() {
    let mut s = InitState::<u8, u32>::new_default::<String>(Ok(())).ok().unwrap();
    let mut plans = Vec::new();
    let mut build = |p: Plan, _c: Option<u8>| {
        plans.push(p);
        Err::<u32, String>("no runtime".to_string())
    };
    let e = section(&mut s, &mut build).err().unwrap();
    assert!(e.is_construction());
    assert!(!e.is_config_read());
    assert_eq!(plans, vec![Plan::BuildFromSystem]);
}

#[test]
fn explicit_config_is_used_and_system_config_never_consulted() {
    let mut s = InitState::<String, u32>::with_config("10.0.0.53".to_string());
    assert_eq!(s.plan(), Plan::BuildFromConfig);
    assert_eq!(s.config(), Some(&"10.0.0.53".to_string()));
    let mut seen: Vec<(Plan, Option<String>)> = Vec::new();
    let mut build = |p: Plan, c: Option<String>| {
        seen.push((p, c));
        if p == Plan::BuildFromSystem {
            Err("system configuration unreadable".to_string())
        } else {
            Ok(53u32)
        }
    };
    assert_eq!(section(&mut s, &mut build).ok(), Some(53));
    assert_eq!(section(&mut s, &mut build).ok(), Some(53));
    assert_eq!(seen, vec![(Plan::BuildFromConfig, Some("10.0.0.53".to_string()))]);
}

#[test]
fn first_calls_build_once_and_share_the_handle() {
    let mut s = InitState::<u8, u32>::new_default::<String>(Ok(())).ok().unwrap();
    let mut constructions: u32 = 0;
    let mut build = |_p: Plan, _c: Option<u8>| {
        constructions += 1;
        Ok::<u32, String>(100 + constructions)
    };
    let handles: Vec<u32> = (0..5).map(|_| section(&mut s, &mut build).ok().unwrap()).collect();
    assert_eq!(handles, vec![101, 101, 101, 101, 101]);
    assert_eq!(constructions, 1);
    assert_eq!(s.plan(), Plan::UseEngine);
}

#[test]
fn failed_construction_fails_its_caller_and_is_retried() {
    let mut s = InitState::<u8, u32>::with_config(1);
    let mut attempts: u32 = 0;
    let mut build = |_p: Plan, _c: Option<u8>| {
        attempts += 1;
        if attempts == 1 {
            Err("malformed configuration".to_string())
        } else {
            Ok(7u32)
        }
    };
    let first = section(&mut s, &mut build).err().unwrap();
    assert!(first.is_construction());
    assert_eq!(first.into_cause(), "malformed configuration");
    assert!(!s.is_ready());
    assert_eq!(s.plan(), Plan::BuildFromConfig);
    assert_eq!(section(&mut s, &mut build).ok(), Some(7));
    assert_eq!(section(&mut s, &mut build).ok(), Some(7));
    assert_eq!(attempts, 2);
}

#[test]
fn ready_state_ignores_later_outcomes() {
    let mut s = InitState::<u8, u32>::with_config(1);
    assert!(s.settle::<String>(Ok(5)).is_ok());
    assert!(s.settle::<String>(Ok(6)).is_ok());
    assert!(s.settle(Err("late failure".to_string())).is_ok());
    assert_eq!(s.engine(), Some(&5));
    assert_eq!(s.plan(), Plan::UseEngine);
}

#[test]
fn resolve_round_trip_is_replayable() {
    let addrs = finish_lookup(stub_lookup("example.test")).ok().unwrap();
    let expected: Vec<Addr> = vec![[10, 0, 0, 1], [10, 0, 0, 2]];
    let first: Vec<Addr> = addrs.clone().into_iter().collect();
    let second: Vec<Addr> = addrs.into_iter().collect();
    assert_eq!(first, expected);
    assert_eq!(second, expected);
}

#[test]
fn lookup_failure_affects_only_its_call() {
    let mut s = InitState::<u8, u32>::with_config(1);
    let mut build = |_p: Plan, _c: Option<u8>| Ok::<u32, String>(9);
    assert_eq!(section(&mut s, &mut build).ok(), Some(9));
    let bad = finish_lookup(stub_lookup("bad.test")).err().unwrap();
    assert!(bad.is_lookup());
    assert_eq!(bad.into_cause(), "no such host: bad.test");
    assert!(s.is_ready());
    assert_eq!(section(&mut s, &mut build).ok(), Some(9));
    let good = finish_lookup(stub_lookup("good.test")).ok().unwrap();
    assert_eq!(good, vec![[192, 0, 2, 7]]);
}

#[test]
fn lookup_of_no_addresses_is_an_empty_success() {
    let r = finish_lookup::<Addr, String>(Ok(Vec::new()));
    assert_eq!(r.ok(), Some(Vec::new()));
}
