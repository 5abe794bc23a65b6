use trust_boundary::callable::{
    ADD_ONE_ADDR, ADD_TWO_ADDR, SENTINEL_ADDR, CallTarget, CallableId, InvokeOutcome,
    apply_callable, code_address, doubler, incrementer, invoke_target, lookup_code,
};

#[test]
fn incrementer_adds_one() {
    let mut x: i64 = 1;
    incrementer(&mut x);
    assert_eq!(x, 2);
}

#[test]
fn doubler_adds_two() {
    let mut x: i64 = 1;
    doubler(&mut x);
    assert_eq!(x, 3);
}

#[test]
fn add_two_callable_adds_two() {
    let mut x: i64 = 40;
    apply_callable(CallableId::AddTwo, &mut x);
    assert_eq!(x, 42);
}

#[test]
fn sentinel_leaves_value() {
    let mut x: i64 = 5;
    apply_callable(CallableId::Sentinel, &mut x);
    assert_eq!(x, 5);
}

#[test]
fn incrementer_wraps_at_the_boundary() {
    let mut x: i64 = i64::MAX;
    incrementer(&mut x);
    assert_eq!(x, i64::MIN);
}

#[test]
fn code_addresses_are_distinct_and_resolvable() {
    let addrs = [
        (CallableId::AddOne, ADD_ONE_ADDR),
        (CallableId::AddTwo, ADD_TWO_ADDR),
        (CallableId::Sentinel, SENTINEL_ADDR),
    ];
    for (id, a) in addrs {
        assert_eq!(code_address(id), a);
        assert_eq!(lookup_code(a), Some(id));
    }
    assert_eq!(lookup_code(0), None);
    assert_eq!(lookup_code(0x1018), None);
}

#[test]
fn valid_target_runs_its_callable() {
    let mut x: i64 = 1;
    let o = invoke_target(&CallTarget::Valid(CallableId::AddOne), &mut x);
    assert_eq!(o, InvokeOutcome::Ran(CallableId::AddOne));
    assert_eq!(x, 2);
}

#[test]
fn foreign_word_resolves_with_no_provenance() {
    let mut x: i64 = 1;
    let o = invoke_target(&CallTarget::ForeignWord(ADD_TWO_ADDR), &mut x);
    assert_eq!(o, InvokeOutcome::Ran(CallableId::AddTwo));
    assert_eq!(x, 3);
}

#[test]
fn foreign_word_off_code_is_a_wild_jump() {
    let mut x: i64 = 1;
    let o = invoke_target(&CallTarget::ForeignWord(12345), &mut x);
    assert_eq!(o, InvokeOutcome::WildJump(12345));
    assert_eq!(x, 1);
}
