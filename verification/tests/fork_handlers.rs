use c_ward::fork::{at_fork, RegisteredForkFuncs};

#[test]
fn new_registry_is_empty() {
    let funcs: RegisteredForkFuncs<u32> = RegisteredForkFuncs::new();
    assert!(funcs.prepare.is_empty());
    assert!(funcs.parent.is_empty());
    assert!(funcs.child.is_empty());
}

#[test]
fn handlers_run_in_documented_order() {
    let mut funcs: RegisteredForkFuncs<u32> = RegisteredForkFuncs::new();
    at_fork(&mut funcs, Some(1), Some(10), Some(100));
    at_fork(&mut funcs, Some(2), None, Some(200));
    at_fork(&mut funcs, None, Some(30), None);
    assert_eq!(funcs.prepare_order(), vec![2, 1]);
    assert_eq!(funcs.parent_order(), vec![10, 30]);
    assert_eq!(funcs.child_order(), vec![100, 200]);
}
