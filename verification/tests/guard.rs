use ci_group::open;
use ci_group::with_group;
use ci_group::Provider;

#[test]
fn open_returns_guard_under_any_provider() {
    let active = open("Build", Provider::GitHub);
    drop(active);
    let silent = open("Build", Provider::NoCi);
    drop(silent);
}

#[test]
fn guards_nest_lexically() {
    let outer = open("Outer", Provider::GitHub);
    {
        let _inner = open("Inner", Provider::Azure);
    }
    drop(outer);
}

#[test]
fn with_group_returns_block_result() {
    let p = Provider::detect(None, None);
    let r = with_group("Sum", p, || 41 + 1);
    assert_eq!(r, 42);
}

#[test]
fn with_group_runs_work_under_active_provider() {
    let mut ran = false;
    with_group("Work", Provider::GitHub, || {
        ran = true;
    });
    assert!(ran);
}
