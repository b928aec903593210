use native_invoker::create_invoker_context;
use native_invoker::AddArgsHandler;
use native_invoker::init;
use native_invoker::ConstResultHandler;
use native_invoker::NativeRegistry;
use native_invoker::RegistrationSource;
use native_invoker::RegistrationTable;

fn handler(value: u64) -> ConstResultHandler {
    ConstResultHandler { value }
}

#[test]
fn push_then_read_round_trips_i32() {
    let mut ctx = create_invoker_context();
    ctx.init();
    ctx.push_argument(-123456i32);
    assert_eq!(ctx.read_result::<i32>(), -123456i32);
}

#[test]
fn push_then_read_round_trips_u64() {
    let mut ctx = create_invoker_context();
    ctx.init();
    ctx.push_argument(0xDEAD_BEEF_CAFE_F00Du64);
    assert_eq!(ctx.read_result::<u64>(), 0xDEAD_BEEF_CAFE_F00Du64);
}

#[test]
fn push_then_read_round_trips_i64() {
    let mut ctx = create_invoker_context();
    ctx.init();
    ctx.push_argument(i64::MIN);
    assert_eq!(ctx.read_result::<i64>(), i64::MIN);
}

#[test]
fn push_then_read_round_trips_bool() {
    let mut ctx = create_invoker_context();
    ctx.init();
    ctx.push_argument(true);
    assert!(ctx.read_result::<bool>());
    ctx.init();
    ctx.push_argument(false);
    assert!(!ctx.read_result::<bool>());
}

#[test]
fn push_then_read_round_trips_narrow_types() {
    let mut ctx = create_invoker_context();
    ctx.init();
    ctx.push_argument(-7i8);
    assert_eq!(ctx.read_result::<i8>(), -7i8);
    ctx.init();
    ctx.push_argument(-30000i16);
    assert_eq!(ctx.read_result::<i16>(), -30000i16);
    ctx.init();
    ctx.push_argument(65000u16);
    assert_eq!(ctx.read_result::<u16>(), 65000u16);
    ctx.init();
    ctx.push_argument(200u8);
    assert_eq!(ctx.read_result::<u8>(), 200u8);
    ctx.init();
    ctx.push_argument(0xFFFF_FFFFu32);
    assert_eq!(ctx.read_result::<u32>(), 0xFFFF_FFFFu32);
}

#[test]
fn reset_zeroes_counts_and_empty_invoke_is_safe() {
    let mut ctx = create_invoker_context();
    ctx.init_base();
    ctx.init();
    assert_eq!(ctx.arg_count, 0);
    assert_eq!(ctx.data_count, 0);
    let registry: NativeRegistry<ConstResultHandler> = NativeRegistry::new();
    let _: i32 = ctx.invoke(&registry, 0x1234);
    assert_eq!(ctx.arg_count, 0);
    assert_eq!(ctx.data_count, 0);
}

#[test]
fn sixty_four_pushes_succeed_and_the_sixty_fifth_is_rejected() {
    let mut ctx = create_invoker_context();
    ctx.init();
    let mut i: u64 = 0;
    while i < 64 {
        assert!(ctx.try_push_argument(i));
        i += 1;
    }
    assert_eq!(ctx.arg_count, 64);
    assert!(!ctx.try_push_argument(999u64));
    assert_eq!(ctx.arg_count, 64);
}

#[test]
fn registered_handler_writes_the_result() {
    let mut ctx = create_invoker_context();
    ctx.init_base();
    let mut registry: NativeRegistry<ConstResultHandler> = NativeRegistry::new();
    registry.set_native_handler(0x1111, handler(42));
    ctx.init();
    let r: i32 = ctx.invoke(&registry, 0x1111);
    assert_eq!(r, 42);
}

#[test]
fn missing_handler_is_a_no_op_and_keeps_the_registry() {
    let mut ctx = create_invoker_context();
    ctx.init_base();
    let mut registry: NativeRegistry<ConstResultHandler> = NativeRegistry::new();
    registry.set_native_handler(0x1111, handler(42));
    ctx.init();
    ctx.push_argument(7i32);
    let r: i32 = ctx.invoke(&registry, 0xDEAD);
    assert_eq!(r, 7);
    assert_eq!(registry.len(), 1);
    assert_eq!(ctx.data_count, 0);
}

#[test]
fn build_registers_only_stable_identifiers() {
    let remap = [(0xAAAAu64, 0xBBBBu64)];
    let source = RegistrationTable { rows: vec![(0xBBBBu64, handler(9))] };
    let registry = NativeRegistry::build_from_remap(&remap, &source);
    assert_eq!(registry.get_native_handler(0xAAAA), Some(&handler(9)));
    assert_eq!(registry.get_native_handler(0xBBBB), None);
    assert_eq!(registry.len(), 1);
}

#[test]
fn build_skips_entries_the_source_cannot_resolve() {
    let remap = [(0x10u64, 0x100u64), (0x20u64, 0x200u64), (0x30u64, 0x300u64)];
    let source = RegistrationTable {
        rows: vec![(0x100u64, handler(1)), (0x300u64, handler(3))],
    };
    let registry = NativeRegistry::build_from_remap(&remap, &source);
    assert_eq!(registry.get_native_handler(0x10), Some(&handler(1)));
    assert_eq!(registry.get_native_handler(0x20), None);
    assert_eq!(registry.get_native_handler(0x30), Some(&handler(3)));
    assert_eq!(registry.len(), 2);
}

#[test]
fn build_from_empty_remap_registers_nothing() {
    let remap: [(u64, u64); 0] = [];
    let source: RegistrationTable<ConstResultHandler> = RegistrationTable { rows: vec![] };
    let registry = NativeRegistry::build_from_remap(&remap, &source);
    assert_eq!(registry.len(), 0);
    assert_eq!(registry.get_native_handler(0xAAAA), None);
}

#[test]
fn set_native_handler_overwrites_and_the_last_write_wins() {
    let mut registry: NativeRegistry<ConstResultHandler> = NativeRegistry::new();
    registry.set_native_handler(0x5555, handler(1));
    registry.set_native_handler(0x5555, handler(2));
    assert_eq!(registry.get_native_handler(0x5555), Some(&handler(2)));
    assert_eq!(registry.len(), 1);
}

#[test]
fn registration_table_resolves_by_first_match() {
    let source = RegistrationTable {
        rows: vec![(0x77u64, handler(10)), (0x77u64, handler(20))],
    };
    assert_eq!(source.get_native_handler(0x77), Some(handler(10)));
    assert_eq!(source.get_native_handler(0x88), None);
}

#[test]
fn handler_reads_the_pushed_arguments() {
    let mut ctx = create_invoker_context();
    ctx.init_base();
    let mut registry: NativeRegistry<AddArgsHandler> = NativeRegistry::new();
    registry.set_native_handler(0x2222, AddArgsHandler);
    ctx.init();
    ctx.push_argument(40u64);
    ctx.push_argument(2u64);
    let r: u64 = ctx.invoke(&registry, 0x2222);
    assert_eq!(r, 42);
    ctx.init();
    ctx.push_argument(u64::MAX);
    ctx.push_argument(3u64);
    let r: u64 = ctx.invoke(&registry, 0x2222);
    assert_eq!(r, 2);
}

#[test]
fn init_binds_the_context_and_builds_the_registry() {
    let mut ctx = create_invoker_context();
    let remap = [(0x1111u64, 0x2222u64)];
    let source = RegistrationTable { rows: vec![(0x2222u64, handler(42))] };
    let registry = init(&mut ctx, &remap, &source);
    ctx.init();
    let r: i32 = ctx.invoke(&registry, 0x1111);
    assert_eq!(r, 42);
}
