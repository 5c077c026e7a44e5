use std::sync::Arc;

use vulkan_loader::loader::{
    default_candidates, load_with_outcomes, DeviceFn, DeviceLoader, InstanceFn, InstanceLoader,
    LibraryFn, LibraryLoader, LoadMachine, LoadState,
};

fn names(list: &[&str]) -> Vec<String> {
    list.iter().map(|s| s.to_string()).collect()
}

#[test]
fn first_successful_candidate_wins() {
    // The second and third candidates both open and expose the symbol;
    // the sequence must settle on the second, never the third.
    let cands = names(&["a.dll", "b.dll", "c.dll"]);
    let opens: Vec<u64> = vec![0, 5, 9];
    let syms: Vec<u64> = vec![0, 0x10, 0x20];
    let m = load_with_outcomes(cands, &opens, &syms);
    assert_eq!(
        m.state,
        LoadState::Succeeded { idx: 1, module: 5, resolver: 0x10 }
    );
    let lib = LibraryLoader::new(&m);
    assert!(lib.valid());
    assert_eq!(lib.module_to_release(), Some(5));
}

#[test]
fn open_without_symbol_is_not_a_hit() {
    // The first candidate opens but lacks the symbol; the second opens
    // and has it.
    let cands = names(&["a.dll", "b.dll"]);
    let opens: Vec<u64> = vec![3, 4];
    let syms: Vec<u64> = vec![0, 0x44];
    let m = load_with_outcomes(cands, &opens, &syms);
    assert_eq!(
        m.state,
        LoadState::Succeeded { idx: 1, module: 4, resolver: 0x44 }
    );
}

#[test]
fn no_candidate_succeeds_gives_invalid_handle() {
    let cands = names(&["a.dll", "b.dll"]);
    let opens: Vec<u64> = vec![0, 3];
    let syms: Vec<u64> = vec![0, 0];
    let m = load_with_outcomes(cands, &opens, &syms);
    assert_eq!(m.state, LoadState::Failed);
    assert_eq!(
        m.failure_log(),
        "Vulkan: vkGetInstanceProcAddr not found".to_string()
    );
    let lib = LibraryLoader::new(&m);
    assert!(!lib.valid());
    assert_eq!(lib.module_to_release(), None);
}

#[test]
fn empty_candidate_list_fails() {
    let m = LoadMachine::new(Vec::new());
    assert_eq!(m.state, LoadState::Failed);
    let m2 = load_with_outcomes(Vec::new(), &Vec::new(), &Vec::new());
    assert_eq!(m2.state, LoadState::Failed);
}

#[test]
fn default_candidate_order() {
    let cands = default_candidates();
    assert_eq!(cands, vec!["winevulkan.dll".to_string(), "vulkan-1.dll".to_string()]);
}

#[test]
fn external_resolver_is_valid_and_owns_nothing() {
    let lib = LibraryLoader::from_proc(0x1234);
    assert!(lib.valid());
    assert_eq!(lib.module_to_release(), None);
    let lib_null = LibraryLoader::from_proc(0);
    assert!(!lib_null.valid());
    assert_eq!(lib_null.module_to_release(), None);
    let table = LibraryFn::from_proc(0x1234);
    assert_eq!(table.0.module_to_release(), None);
    assert!(table.0.valid());
}

#[test]
fn library_sym_and_sym_global() {
    let lib = LibraryLoader::from_proc(0x42);
    let c = lib.sym(0x99, "vkCreateDevice");
    assert_eq!(c.resolver, 0x42);
    assert_eq!(c.scope, 0x99);
    assert_eq!(c.name, "vkCreateDevice".to_string());
    let g = lib.sym_global("vkCreateInstance");
    assert_eq!(g.resolver, 0x42);
    assert_eq!(g.scope, 0);
    assert_eq!(g.name, "vkCreateInstance".to_string());
}

#[test]
fn instance_sym_is_library_sym_with_stored_handle() {
    // Instance-scoped resolution must equal a direct call of the
    // library's resolver with the instance's stored handle: same
    // resolver, same scope, same untransformed name.
    let lib = Arc::new(LibraryLoader::from_proc(0x42));
    let inst = InstanceLoader::new(lib.clone(), false, 0x99);
    let through_instance = inst.sym("vkGetDeviceProcAddr");
    let direct = lib.sym(0x99, "vkGetDeviceProcAddr");
    assert_eq!(through_instance.resolver, direct.resolver);
    assert_eq!(through_instance.scope, direct.scope);
    assert_eq!(through_instance.name, direct.name);
}

#[test]
fn device_resolver_fetched_once_per_construction() {
    let lib = Arc::new(LibraryLoader::from_proc(0x42));
    let inst = Arc::new(InstanceLoader::new(lib, false, 0x99));

    // The embedding program answers each device-resolver request; count
    // how many instance-level lookups two constructions need.
    let mut instance_lookups: u32 = 0;

    let req1 = DeviceLoader::resolver_request(&inst);
    assert_eq!(req1.name, "vkGetDeviceProcAddr".to_string());
    assert_eq!(req1.scope, 0x99);
    instance_lookups += 1;
    let dev1 = DeviceLoader::new(inst.clone(), false, 0xD1, 0x77);

    let req2 = DeviceLoader::resolver_request(&inst);
    assert_eq!(req2.name, "vkGetDeviceProcAddr".to_string());
    instance_lookups += 1;
    let dev2 = DeviceLoader::new(inst.clone(), false, 0xD2, 0x78);

    assert_eq!(instance_lookups, 2);

    // Every lookup on a device handle reuses the cached resolver; none
    // issues a further instance-level request.
    for name in ["vkCmdDraw", "vkQueueSubmit", "vkCmdDraw"] {
        let c = dev1.sym(name);
        assert_eq!(c.resolver, 0x77);
        assert_eq!(c.scope, 0xD1);
        assert_eq!(c.name, name.to_string());
    }
    let c2 = dev2.sym("vkCmdDraw");
    assert_eq!(c2.resolver, 0x78);
    assert_eq!(c2.scope, 0xD2);
    assert_eq!(instance_lookups, 2);
}

#[test]
fn owning_instance_wrapper_destroys_exactly_when_owned() {
    let lib = Arc::new(LibraryLoader::from_proc(0x42));

    let mut destroy_calls: u32 = 0;

    let owned = InstanceFn::new(lib.clone(), true, 0x99);
    if let Some(plan) = owned.teardown_plan() {
        destroy_calls += 1;
        assert_eq!(plan.lookup.resolver, 0x42);
        assert_eq!(plan.lookup.scope, 0x99);
        assert_eq!(plan.lookup.name, "vkDestroyInstance".to_string());
        assert_eq!(plan.target, 0x99);
    }
    assert_eq!(destroy_calls, 1);

    let borrowed = InstanceFn::new(lib, false, 0x99);
    if let Some(_plan) = borrowed.teardown_plan() {
        destroy_calls += 1;
    }
    assert_eq!(destroy_calls, 1);
}

#[test]
fn owning_device_wrapper_destroys_exactly_when_owned() {
    let lib = Arc::new(LibraryLoader::from_proc(0x42));
    let inst = Arc::new(InstanceLoader::new(lib, false, 0x99));

    let mut destroy_calls: u32 = 0;

    let owned = DeviceFn::new(inst.clone(), true, 0xD1, 0x77);
    if let Some(plan) = owned.teardown_plan() {
        destroy_calls += 1;
        assert_eq!(plan.lookup.resolver, 0x77);
        assert_eq!(plan.lookup.scope, 0xD1);
        assert_eq!(plan.lookup.name, "vkDestroyDevice".to_string());
        assert_eq!(plan.target, 0xD1);
    }
    assert_eq!(destroy_calls, 1);

    let borrowed = DeviceFn::new(inst, false, 0xD1, 0x77);
    if let Some(_plan) = borrowed.teardown_plan() {
        destroy_calls += 1;
    }
    assert_eq!(destroy_calls, 1);
}

#[test]
fn missing_then_present_settles_on_present() {
    let mut m = LoadMachine::new(names(&["missing.dll", "present.dll"]));
    assert_eq!(m.state, LoadState::OpenPending { idx: 0 });
    assert_eq!(m.current_candidate(), "missing.dll");

    m.on_open(0); // missing.dll cannot be opened
    assert_eq!(m.state, LoadState::OpenPending { idx: 1 });
    assert_eq!(m.current_candidate(), "present.dll");

    m.on_open(0x1000); // present.dll opens
    assert_eq!(m.state, LoadState::SymbolPending { idx: 1, module: 0x1000 });

    m.on_symbol(0xABCD); // and exposes the resolver at 0xABCD
    assert_eq!(
        m.state,
        LoadState::Succeeded { idx: 1, module: 0x1000, resolver: 0xABCD }
    );
    assert_eq!(
        m.success_log(),
        "Vulkan: Found vkGetInstanceProcAddr in present.dll @ 0xabcd".to_string()
    );
}

#[test]
fn module_without_symbol_is_released() {
    let mut m = LoadMachine::new(names(&["a.dll"]));
    m.on_open(0xBEEF); // a.dll opens
    m.on_symbol(0); // but lacks the resolver symbol

    // The opened module must be handed back for release before the
    // sequence concludes.
    assert_eq!(m.state, LoadState::ReleasePending { idx: 0, module: 0xBEEF });
    m.on_released();
    assert_eq!(m.state, LoadState::Failed);

    let mut error_lines: u32 = 0;
    let line = m.failure_log();
    error_lines += 1;
    assert_eq!(line, "Vulkan: vkGetInstanceProcAddr not found".to_string());
    assert_eq!(error_lines, 1);
}
