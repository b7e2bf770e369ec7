use libquickjs::context::Context;
use libquickjs::engine::EngineCall;
use libquickjs::runtime::Runtime;
use libquickjs::utils::ptr::NonNullPtr;
use libquickjs::value::{RawValue, Value, TAG_OBJECT};
use libquickjs::{Atom, InvalidRuntime};

fn ptr(addr: usize) -> NonNullPtr {
    NonNullPtr::new(addr).unwrap()
}

fn new_object(ctx: &Context, addr: usize) -> Value {
    Value::from_raw(ctx.get_runtime(), RawValue::mkptr(TAG_OBJECT, addr)).unwrap()
}

fn releases(calls: &[EngineCall]) -> usize {
    calls
        .iter()
        .filter(|call| {
            matches!(
                call,
                EngineCall::FreeValue { .. } | EngineCall::FreeAtom { .. } | EngineCall::FreeContext { .. }
            )
        })
        .count()
}

#[test]
fn test_global_values() {
    let mut rt = Runtime::new(ptr(0x1000));

    let (ctx, _) = rt.new_context(ptr(0x2000));
    let (global_ctx, _) = rt.new_global_context(&ctx).unwrap();

    let value = new_object(&ctx, 0x3000);
    let (global_value, _) = rt.new_global_value(&value).unwrap();

    let _ = ctx.release();
    let _ = value.release();

    assert!(rt.is_running(), "unexpected destroying runtime");

    let calls = rt.cleanup();
    assert_eq!(releases(&calls), 0);

    assert_eq!(rt.class_ids_len(), 0);
    assert_eq!(rt.global_contexts_len(), 1);
    assert_eq!(rt.global_refs_len(), 1);
    assert_eq!(rt.global_atoms_len(), 0);

    rt.detach_global_context(global_ctx.id());
    rt.detach_global_value(global_value.id());

    let calls = rt.cleanup();
    assert_eq!(releases(&calls), 2);

    assert_eq!(rt.class_ids_len(), 0);
    assert_eq!(rt.global_contexts_len(), 0);
    assert_eq!(rt.global_refs_len(), 0);
    assert_eq!(rt.global_atoms_len(), 0);
}

#[test]
fn test_global_auto_cleanup() {
    let mut rt = Runtime::new(ptr(0x1000));

    let (ctx, _) = rt.new_context(ptr(0x2000));
    let (global_ctx, _) = rt.new_global_context(&ctx).unwrap();

    let value = new_object(&ctx, 0x3000);
    let (global_value, _) = rt.new_global_value(&value).unwrap();

    let _ = ctx.release();
    let _ = value.release();

    assert!(rt.is_running(), "unexpected destroying runtime");

    assert_eq!(rt.class_ids_len(), 0);
    assert_eq!(rt.global_contexts_len(), 1);
    assert_eq!(rt.global_refs_len(), 1);
    assert_eq!(rt.global_atoms_len(), 0);

    rt.detach_global_context(global_ctx.id());
    rt.detach_global_value(global_value.id());

    let _ = rt.new_context(ptr(0x4000));

    assert_eq!(rt.class_ids_len(), 0);
    assert_eq!(rt.global_contexts_len(), 0);
    assert_eq!(rt.global_refs_len(), 0);
    assert_eq!(rt.global_atoms_len(), 0);
}

#[test]
fn promoted_object_is_finalized_once_after_its_handle_is_dropped() {
    let rt_ptr = ptr(0x1000);
    let mut rt = Runtime::new(rt_ptr);
    let (ctx, calls) = rt.new_context(ptr(0x2000));
    assert!(calls.is_empty());

    let v = new_object(&ctx, 0x3000);
    let raw = v.as_raw();
    let (g, calls) = rt.new_global_value(&v).unwrap();
    assert_eq!(calls, vec![EngineCall::DupValue { runtime: rt_ptr, value: raw }]);

    assert_eq!(v.release(), Some(EngineCall::FreeValue { runtime: rt_ptr, value: raw }));
    assert_eq!(
        ctx.release(),
        vec![
            EngineCall::ExecutePendingJobs { runtime: rt_ptr },
            EngineCall::FreeContext { context: ptr(0x2000) },
        ]
    );

    let calls = rt.cleanup();
    assert!(calls.is_empty());
    assert_eq!(rt.global_refs_len(), 1);

    rt.detach_global_value(g.id());
    assert_eq!(rt.global_refs_len(), 1);

    let calls = rt.cleanup();
    assert_eq!(rt.global_refs_len(), 0);
    assert_eq!(calls, vec![EngineCall::FreeValue { runtime: rt_ptr, value: raw }]);

    let calls = rt.cleanup();
    assert!(calls.is_empty());
    assert_eq!(rt.teardown(), vec![EngineCall::FreeRuntime { runtime: rt_ptr }]);
}

#[test]
fn count_after_promotions_and_drops() {
    let mut rt = Runtime::new(ptr(0x1000));
    let (ctx, _) = rt.new_context(ptr(0x2000));
    let mut handles = Vec::new();
    for i in 0..7usize {
        let v = new_object(&ctx, 0x3000 + 8 * i);
        let (g, calls) = rt.new_global_value(&v).unwrap();
        assert_eq!(releases(&calls), 0);
        handles.push(g);
    }
    assert_eq!(rt.global_refs_len(), 7);
    for g in [&handles[1], &handles[4], &handles[6]] {
        rt.detach_global_value(g.id());
    }
    assert_eq!(rt.global_refs_len(), 7);
    let calls = rt.cleanup();
    assert_eq!(releases(&calls), 3);
    assert_eq!(rt.global_refs_len(), 4);
    assert_eq!(
        calls,
        vec![
            EngineCall::FreeValue { runtime: ptr(0x1000), value: RawValue::mkptr(TAG_OBJECT, 0x3008) },
            EngineCall::FreeValue { runtime: ptr(0x1000), value: RawValue::mkptr(TAG_OBJECT, 0x3020) },
            EngineCall::FreeValue { runtime: ptr(0x1000), value: RawValue::mkptr(TAG_OBJECT, 0x3030) },
        ]
    );
}

#[test]
fn promotion_sweeps_before_it_registers() {
    let mut rt = Runtime::new(ptr(0x1000));
    let (ctx, _) = rt.new_context(ptr(0x2000));
    let a = new_object(&ctx, 0x3000);
    let b = new_object(&ctx, 0x3008);
    let (ga, _) = rt.new_global_value(&a).unwrap();
    rt.detach_global_value(ga.id());
    let (gb, calls) = rt.new_global_value(&b).unwrap();
    assert_eq!(
        calls,
        vec![
            EngineCall::FreeValue { runtime: ptr(0x1000), value: a.as_raw() },
            EngineCall::DupValue { runtime: ptr(0x1000), value: b.as_raw() },
        ]
    );
    assert_eq!(rt.global_refs_len(), 1);
    assert_eq!(gb.id(), 1);
    assert_eq!(gb.as_raw(), b.as_raw());
}

#[test]
fn handle_of_one_runtime_does_not_resolve_against_another() {
    let mut a = Runtime::new(ptr(0x1000));
    let mut b = Runtime::new(ptr(0x9000));
    let (ctx_a, _) = a.new_context(ptr(0x2000));
    let (ctx_b, _) = b.new_context(ptr(0xa000));

    let v = new_object(&ctx_a, 0x3000);
    let (g, _) = a.new_global_value(&v).unwrap();
    assert_eq!(g.to_local(&b).err(), Some(InvalidRuntime));
    let (local, call) = g.to_local(&a).unwrap();
    assert_eq!(local, v);
    assert_eq!(call, EngineCall::DupValue { runtime: ptr(0x1000), value: v.as_raw() });

    let (gc, _) = a.new_global_context(&ctx_a).unwrap();
    assert_eq!(gc.to_local(&b).err(), Some(InvalidRuntime));
    let (local, call) = gc.to_local(&a).unwrap();
    assert_eq!(local, ctx_a);
    assert_eq!(call, EngineCall::DupContext { context: ptr(0x2000) });

    let atom = Atom::from_raw(ptr(0x1000), 77);
    let (ga, calls) = ctx_a.new_global_atom(&mut a, &atom);
    assert_eq!(calls, vec![EngineCall::DupAtom { runtime: ptr(0x1000), atom: 77 }]);
    assert_eq!(ga.to_local(&b, &ctx_b).err(), Some(InvalidRuntime));
    let (local, call) = ga.to_local(&a, &ctx_a).unwrap();
    assert_eq!(local, atom);
    assert_eq!(call, EngineCall::DupAtom { runtime: ptr(0x1000), atom: 77 });
}

#[test]
fn value_of_another_runtime_is_not_promoted() {
    let mut a = Runtime::new(ptr(0x1000));
    let mut b = Runtime::new(ptr(0x9000));
    let (ctx_b, _) = b.new_context(ptr(0xa000));
    let foreign = new_object(&ctx_b, 0x3000);
    assert_eq!(a.new_global_value(&foreign).err(), Some(InvalidRuntime));
    assert_eq!(a.new_global_context(&ctx_b).err(), Some(InvalidRuntime));
    assert_eq!(a.global_refs_len(), 0);
    assert_eq!(a.global_contexts_len(), 0);

    let (g, calls) = a.new_global_value(&Value::Int32(5)).unwrap();
    assert_eq!(calls, vec![EngineCall::DupValue { runtime: ptr(0x1000), value: Value::Int32(5).as_raw() }]);
    assert_eq!(g.to_local(&a).unwrap().0, Value::Int32(5));
}

#[test]
fn second_cleanup_changes_nothing() {
    let mut rt = Runtime::new(ptr(0x1000));
    let (ctx, _) = rt.new_context(ptr(0x2000));
    let a = new_object(&ctx, 0x3000);
    let b = new_object(&ctx, 0x3008);
    let (ga, _) = rt.new_global_value(&a).unwrap();
    let (_gb, _) = rt.new_global_value(&b).unwrap();
    rt.detach_global_value(ga.id());
    let first = rt.cleanup();
    assert_eq!(first.len(), 1);
    assert_eq!(rt.global_refs_len(), 1);
    let second = rt.cleanup();
    assert!(second.is_empty());
    assert_eq!(rt.global_refs_len(), 1);
    assert_eq!(rt.global_contexts_len(), 0);
    assert_eq!(rt.global_atoms_len(), 0);
}

#[test]
fn teardown_releases_every_record_then_the_runtime() {
    let rt_ptr = ptr(0x1000);
    let mut rt = Runtime::new(rt_ptr);
    let (ctx, _) = rt.new_context(ptr(0x2000));
    let (_gc, _) = rt.new_global_context(&ctx).unwrap();
    let mut raws = Vec::new();
    for i in 0..5usize {
        let v = new_object(&ctx, 0x3000 + 8 * i);
        raws.push(v.as_raw());
        let _ = rt.new_global_value(&v).unwrap();
    }
    let atom = Atom::from_raw(rt_ptr, 9);
    let (ga, _) = ctx.new_global_atom(&mut rt, &atom);
    rt.detach_global_atom(ga.id());

    let calls = rt.teardown();
    assert!(!rt.is_running());
    assert_eq!(releases(&calls), 7);
    let mut expected = vec![EngineCall::FreeContext { context: ptr(0x2000) }];
    for raw in raws {
        expected.push(EngineCall::FreeValue { runtime: rt_ptr, value: raw });
    }
    expected.push(EngineCall::FreeAtom { runtime: rt_ptr, atom: 9 });
    expected.push(EngineCall::FreeRuntime { runtime: rt_ptr });
    assert_eq!(calls, expected);

    assert_eq!(rt.global_contexts_len(), 0);
    assert_eq!(rt.global_refs_len(), 0);
    assert_eq!(rt.global_atoms_len(), 0);
    assert!(rt.cleanup().is_empty());
    assert!(!rt.can_promote());
}

#[test]
fn detach_of_an_unknown_record_releases_nothing() {
    let mut rt = Runtime::new(ptr(0x1000));
    let (ctx, _) = rt.new_context(ptr(0x2000));
    let v = new_object(&ctx, 0x3000);
    let (g, _) = rt.new_global_value(&v).unwrap();
    rt.detach_global_value(g.id() + 10);
    rt.detach_global_context(g.id());
    rt.detach_global_atom(g.id());
    assert!(rt.cleanup().is_empty());
    assert_eq!(rt.global_refs_len(), 1);
    rt.detach_global_value(g.id());
    rt.detach_global_value(g.id());
    assert_eq!(rt.cleanup().len(), 1);
    assert_eq!(rt.global_refs_len(), 0);
}

#[test]
fn record_is_registered_until_it_is_swept() {
    let mut rt = Runtime::new(ptr(0x1000));
    let (ctx, _) = rt.new_context(ptr(0x2000));
    let v = new_object(&ctx, 0x3000);
    let (g, _) = rt.new_global_value(&v).unwrap();
    let (gc, _) = rt.new_global_context(&ctx).unwrap();
    let atom = Atom::from_raw(ptr(0x1000), 5);
    let (ga, _) = ctx.new_global_atom(&mut rt, &atom);
    assert_eq!(g.get_runtime(), ptr(0x1000));
    assert_eq!(gc.get_runtime(), ptr(0x1000));
    assert_eq!(ga.get_runtime(), ptr(0x1000));
    assert!(rt.has_global_value(g.id()));
    assert!(rt.has_global_context(gc.id()));
    assert!(rt.has_global_atom(ga.id()));
    assert!(!rt.has_global_value(g.id() + 1));

    rt.detach_global_value(g.id());
    assert!(rt.has_global_value(g.id()));
    let _ = rt.cleanup();
    assert!(!rt.has_global_value(g.id()));
    assert!(rt.has_global_context(gc.id()));

    let _ = rt.teardown();
    assert!(!rt.has_global_context(gc.id()));
    assert!(!rt.has_global_atom(ga.id()));
}
