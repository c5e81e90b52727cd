use vit_servicing_station::context::Context;

#[test]
fn new_context_keeps_its_parts() {
    let ctx = Context::new(7u32, "/tmp/block0.bin", vec![1, 2, 3, 4, 5]);
    assert_eq!(ctx.db_connection_pool, 7u32);
    assert_eq!(ctx.block0_path, "/tmp/block0.bin");
    assert_eq!(ctx.block0, vec![1, 2, 3, 4, 5]);
}

#[test]
fn new_context_with_empty_path_and_block0() {
    let ctx = Context::new("pool", "", Vec::new());
    assert_eq!(ctx.db_connection_pool, "pool");
    assert_eq!(ctx.block0_path, "");
    assert!(ctx.block0.is_empty());
}

#[test]
fn context_from_a_read_block0() {
    let ctx = Context::from_block0_read(1u8, "block0", Some(vec![9, 8]));
    assert_eq!(ctx.block0_path, "block0");
    assert_eq!(ctx.block0, vec![9, 8]);
}

#[test]
fn context_from_an_unreadable_block0_serves_it_empty() {
    let ctx = Context::from_block0_read(1u8, "missing", None);
    assert_eq!(ctx.block0_path, "missing");
    assert_eq!(ctx.block0, Vec::<u8>::new());
}

#[test]
fn cloned_context_is_equal() {
    let ctx = Context::new(3i64, "p", vec![0]);
    let copy = ctx.clone();
    assert_eq!(copy.db_connection_pool, 3);
    assert_eq!(copy.block0_path, "p");
    assert_eq!(copy.block0, vec![0]);
}
