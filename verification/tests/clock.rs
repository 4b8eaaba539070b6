use clk::error;
use clk::clock::settle;
use clk::{Clk, ClkCall, Enabled, Prepared, Unprepared};

const RAW: usize = 0xffff_8880_0420_0000;

fn unprepared() -> Clk<Unprepared> {
    match Clk::<Unprepared>::get(RAW) {
        Ok(clk) => clk,
        Err(_) => panic!("a valid pointer is a clock"),
    }
}

fn prepared() -> Clk<Prepared> {
    match unprepared().prepare(0) {
        Ok(clk) => clk,
        Err(_) => panic!("a zero status prepares"),
    }
}

fn enabled() -> Clk<Enabled> {
    match prepared().enable(0) {
        Ok(clk) => clk,
        Err(_) => panic!("a zero status enables"),
    }
}

#[test]
fn get_keeps_the_pointer() {
    let clk = unprepared();
    assert_eq!(clk.as_raw(), RAW);
}

#[test]
fn get_decodes_an_error_pointer() {
    let err = Clk::<Unprepared>::get(usize::MAX - 1).err().unwrap();
    assert_eq!(err.to_errno(), -error::ENOENT);
}

#[test]
fn get_optional_accepts_a_null_clock() {
    let clk = Clk::<Unprepared>::get_optional(0).ok().unwrap();
    assert_eq!(clk.as_raw(), 0);
    let err = Clk::<Unprepared>::get_optional(usize::MAX - 11).err().unwrap();
    assert_eq!(err.to_errno(), -12);
}

#[test]
fn prepare_failure_returns_the_clock_for_a_retry() {
    let err = unprepared().prepare(-16).err().unwrap();
    assert_eq!(err.error.to_errno(), -16);
    assert_eq!(err.clk.as_raw(), RAW);
    let clk = err.clk.prepare(0).ok().unwrap();
    assert_eq!(clk.as_raw(), RAW);
}

#[test]
fn prepare_with_an_out_of_range_status_is_einval() {
    let err = unprepared().prepare(-5000).err().unwrap();
    assert_eq!(err.error.to_errno(), -error::EINVAL);
}

#[test]
fn enable_failure_returns_the_clock_for_a_retry() {
    let err = prepared().enable(-5).err().unwrap();
    assert_eq!(err.error.to_errno(), -5);
    assert_eq!(err.clk.as_raw(), RAW);
    assert!(err.clk.enable(1).is_ok());
}

#[test]
fn states_traverse_in_reverse_order() {
    let (clk, disable) = enabled().disable();
    assert_eq!(disable, ClkCall::Disable(RAW));
    assert_eq!(clk.as_raw(), RAW);
    let (clk, unprepare) = clk.unprepare();
    assert_eq!(unprepare, ClkCall::Unprepare(RAW));
    assert_eq!(clk.as_raw(), RAW);
}

#[test]
fn release_gives_back_what_each_state_holds() {
    assert_eq!(unprepared().release(), vec![ClkCall::Put(RAW)]);
    assert_eq!(prepared().release(), vec![ClkCall::Unprepare(RAW), ClkCall::Put(RAW)]);
    assert_eq!(
        enabled().release(),
        vec![ClkCall::Disable(RAW), ClkCall::Unprepare(RAW), ClkCall::Put(RAW)]
    );
}

#[test]
fn with_enabled_runs_the_callback_and_balances_the_enable() {
    let clk = prepared();
    let (ret, call) = clk.with_enabled(0, |on: &Clk<Enabled>| on.as_raw() + 1);
    assert_eq!(ret, Ok(RAW + 1));
    assert_eq!(call, Some(ClkCall::Disable(RAW)));
    assert_eq!(clk.as_raw(), RAW);
}

#[test]
fn with_enabled_skips_the_callback_when_enable_fails() {
    let clk = prepared();
    let mut ran = false;
    let (ret, call) = clk.with_enabled(-110, |_: &Clk<Enabled>| {
        ran = true;
    });
    assert!(!ran);
    assert_eq!(ret.err().unwrap().to_errno(), -110);
    assert_eq!(call, None);
}

#[test]
fn calls_to_perform_name_the_clock() {
    assert_eq!(unprepared().prepare_call(), ClkCall::Prepare(RAW));
    assert_eq!(prepared().enable_call(), ClkCall::Enable(RAW));
}

#[test]
fn discard_keeps_the_code_and_releases_the_clock() {
    let err = prepared().enable(-19).err().unwrap();
    let (code, calls) = err.discard();
    assert_eq!(code.to_errno(), -19);
    assert_eq!(calls, vec![ClkCall::Unprepare(RAW), ClkCall::Put(RAW)]);
}

#[test]
fn settle_keeps_a_clock_that_moved() {
    let (r, calls) = settle(unprepared().prepare(0));
    assert_eq!(r.ok().unwrap().as_raw(), RAW);
    assert!(calls.is_empty());
}

#[test]
fn settle_releases_a_clock_that_failed_to_move() {
    let (r, calls) = settle(prepared().enable(-11));
    assert_eq!(r.err().unwrap().to_errno(), -11);
    assert_eq!(calls, vec![ClkCall::Unprepare(RAW), ClkCall::Put(RAW)]);
    let (r, calls) = settle(unprepared().prepare(-11));
    assert_eq!(r.err().unwrap().to_errno(), -11);
    assert_eq!(calls, vec![ClkCall::Put(RAW)]);
}

#[test]
fn a_whole_life_gives_back_every_count() {
    // get, prepare, enable, disable, a with_enabled run, enable again, then release.
    let clk = enabled();
    let (clk, d) = clk.disable();
    let mut calls = vec![ClkCall::Prepare(RAW), ClkCall::Enable(RAW), d];
    calls.push(clk.enable_call());
    let (ret, balance) = clk.with_enabled(0, |_: &Clk<Enabled>| ());
    assert!(ret.is_ok());
    calls.push(balance.unwrap());
    calls.push(clk.enable_call());
    let clk = clk.enable(0).ok().unwrap();
    calls.extend(clk.release());
    let (mut get, mut prep, mut en) = (1i32, 0i32, 0i32);
    for call in calls {
        match call {
            ClkCall::Prepare(_) => prep += 1,
            ClkCall::Enable(_) => en += 1,
            ClkCall::Disable(_) => en -= 1,
            ClkCall::Unprepare(_) => prep -= 1,
            ClkCall::Put(_) => get -= 1,
        }
        assert!(0 <= en && en <= prep && prep <= get && get <= 1);
    }
    assert_eq!((get, prep, en), (0, 0, 0));
}
