use std::collections::HashMap;

use nexus::hook::dxgi::{
    CreateSwapChainForCompositionSurfaceHandle, DxgiFactory2, DxgiFactoryMedia, DxgiSwapChain1,
    DxgiSwapChain3, ResizeBuffers1, SetColorSpace1,
};
use nexus::hook::error::VtableError;
use nexus::hook::layout::{AddRef, ComInterfaceLayout, ComMethod, QueryInterface, Release};
use nexus::hook::shadow::{
    validate_interface, validate_layout, validate_vtable, InstallState, VtableShadow,
};

#[derive(Debug)]
struct FakeLayout;

impl ComInterfaceLayout for FakeLayout {
    const NAME: &'static str = "FakeInterface";
    const SLOT_COUNT: usize = 4;
}

struct Value;

impl ComMethod<FakeLayout> for Value {
    const INDEX: usize = 3;
    const NAME: &'static str = "FakeInterface::Value";
    const FUNCTION_BYTES: usize = 8;
}

struct PastEnd;

impl ComMethod<FakeLayout> for PastEnd {
    const INDEX: usize = 4;
    const NAME: &'static str = "FakeInterface::PastEnd";
    const FUNCTION_BYTES: usize = 8;
}

struct WideValue;

impl ComMethod<FakeLayout> for WideValue {
    const INDEX: usize = 3;
    const NAME: &'static str = "FakeInterface::WideValue";
    const FUNCTION_BYTES: usize = 16;
}

struct TinyLayout;

impl ComInterfaceLayout for TinyLayout {
    const NAME: &'static str = "TinyInterface";
    const SLOT_COUNT: usize = 2;
}

const QUERY_INTERFACE: usize = 0x1000;
const ADD_REF: usize = 0x1008;
const RELEASE: usize = 0x1010;
const ORIGINAL_VALUE: usize = 0x1018;
const REPLACEMENT_VALUE: usize = 0x1020;

struct FakeObject {
    vtable: usize,
    references: u32,
}

/// Memory in which tables of function addresses live.
struct FakeProcess {
    tables: HashMap<usize, Vec<usize>>,
    next: usize,
}

impl FakeProcess {
    fn new() -> Self {
        Self { tables: HashMap::new(), next: 0x2000 }
    }

    fn publish(&mut self, entries: Vec<usize>) -> usize {
        let address = self.next;
        self.next += 0x100;
        self.tables.insert(address, entries);
        address
    }

    fn fake_vtable(&mut self, value: usize) -> usize {
        self.publish(vec![QUERY_INTERFACE, ADD_REF, RELEASE, value])
    }

    fn shadow(&self, interface: usize, object: &FakeObject) -> VtableShadow<FakeLayout> {
        VtableShadow::copy_from(interface, object.vtable, &self.tables[&object.vtable])
            .expect("the fake interface must be valid")
    }

    fn invoke_value(&self, object: &FakeObject) -> u32 {
        self.call(self.tables[&object.vtable][3])
    }

    fn call(&self, function: usize) -> u32 {
        if function == ORIGINAL_VALUE {
            7
        } else if function == REPLACEMENT_VALUE {
            42
        } else {
            panic!("not a function")
        }
    }
}

fn compare_exchange(word: &mut usize, expected: usize, desired: usize) -> usize {
    let observed = *word;
    if observed == expected {
        *word = desired;
    }
    observed
}

#[test]
fn inherited_layout_counts_cover_named_slots() {
    assert!(<DxgiFactory2 as ComInterfaceLayout>::SLOT_COUNT > 24);
    assert!(<DxgiFactoryMedia as ComInterfaceLayout>::SLOT_COUNT > 3);
    assert!(<DxgiSwapChain1 as ComInterfaceLayout>::SLOT_COUNT > 22);
    assert!(<DxgiSwapChain3 as ComInterfaceLayout>::SLOT_COUNT > 38);
    assert!(<DxgiSwapChain3 as ComInterfaceLayout>::SLOT_COUNT > 39);
}

#[test]
fn color_space_and_media_creation_use_sdk_slots() {
    assert_eq!(<SetColorSpace1 as ComMethod<DxgiSwapChain3>>::INDEX, 38);
    assert_eq!(
        <CreateSwapChainForCompositionSurfaceHandle as ComMethod<DxgiFactoryMedia>>::INDEX,
        3
    );
}

#[test]
fn resize_buffers_one_uses_the_sdk_slot() {
    assert_eq!(<ResizeBuffers1 as ComMethod<DxgiSwapChain3>>::INDEX, 39);
}

#[test]
fn shadow_preserves_original_and_replaces_typed_method() {
    let mut process = FakeProcess::new();
    let object = FakeObject { vtable: process.fake_vtable(ORIGINAL_VALUE), references: 1 };
    let mut shadow = process.shadow(0x8000, &object);

    let previous = shadow
        .replace::<Value>(REPLACEMENT_VALUE)
        .expect("the typed replacement must fit");

    assert_eq!(process.call(previous), 7);
    assert_eq!(
        shadow.original::<Value>().expect("the original method must remain available"),
        ORIGINAL_VALUE
    );
    assert_eq!(shadow.published::<Value>(), Ok(REPLACEMENT_VALUE));
    assert_eq!(
        shadow.replace::<Value>(0),
        Err(VtableError::NullReplacement { method: "FakeInterface::Value" })
    );
}

#[test]
fn install_is_per_instance_and_drop_restores() {
    let mut process = FakeProcess::new();
    let table = process.fake_vtable(ORIGINAL_VALUE);
    let mut first = FakeObject { vtable: table, references: 1 };
    let second = FakeObject { vtable: table, references: 1 };

    let mut shadow = process.shadow(0x8000, &first);
    shadow.replace::<Value>(REPLACEMENT_VALUE).expect("the replacement must fit");
    assert_eq!(shadow.reference_methods(), (ADD_REF, RELEASE));

    let shadow_table = process.publish(shadow.entries());
    first.references += 1;
    let observed = compare_exchange(&mut first.vtable, shadow.original_vtable(), shadow_table);
    let installation = shadow.install(shadow_table, observed);
    assert!(!installation.release);
    let mut guard = installation.result.expect("installation must succeed");
    assert_eq!(guard.state(), InstallState::Installed);
    assert_eq!(guard.interface(), 0x8000);
    assert_eq!(first.references, 2);
    assert_eq!(process.invoke_value(&first), 42);
    assert_eq!(process.invoke_value(&second), 7);

    let (expected, desired) = guard.exchange();
    let observed = compare_exchange(&mut first.vtable, expected, desired);
    let restoration = guard.restore(observed);
    assert!(restoration.result.is_ok());
    if restoration.release {
        first.references -= 1;
    }

    assert_eq!(first.vtable, table);
    assert_eq!(first.references, 1);
    assert_eq!(process.invoke_value(&first), 7);
}

#[test]
fn explicit_restore_is_idempotent_and_keeps_storage_alive() {
    let mut process = FakeProcess::new();
    let table = process.fake_vtable(ORIGINAL_VALUE);
    let mut object = FakeObject { vtable: table, references: 1 };
    let shadow = process.shadow(0x8000, &object);
    let shadow_table = process.publish(shadow.entries());
    object.references += 1;
    let observed = compare_exchange(&mut object.vtable, shadow.original_vtable(), shadow_table);
    let installation = shadow.install(shadow_table, observed);
    assert!(!installation.release);
    let mut guard = installation.result.expect("installation must succeed");

    let (expected, desired) = guard.exchange();
    let observed = compare_exchange(&mut object.vtable, expected, desired);
    let first = guard.restore(observed);
    first.result.expect("restoration must succeed");
    if first.release {
        object.references -= 1;
    }
    let second = guard.restore(object.vtable);
    second.result.expect("a second restoration must be a no-op");
    assert!(!second.release);

    assert_eq!(guard.state(), InstallState::Restored);
    assert_eq!(guard.original::<Value>(), Ok(ORIGINAL_VALUE));
    assert_eq!(object.vtable, table);
    assert_eq!(object.references, 1);
}

#[test]
fn install_does_not_overwrite_a_changed_vtable() {
    let mut process = FakeProcess::new();
    let original = process.fake_vtable(ORIGINAL_VALUE);
    let replacement = process.fake_vtable(REPLACEMENT_VALUE);
    let mut object = FakeObject { vtable: original, references: 1 };
    let shadow = process.shadow(0x8000, &object);
    object.vtable = replacement;

    let shadow_table = process.publish(shadow.entries());
    object.references += 1;
    let observed = compare_exchange(&mut object.vtable, shadow.original_vtable(), shadow_table);
    let installation = shadow.install(shadow_table, observed);
    let error = match installation.result {
        Ok(_) => panic!("a changed vtable must reject installation"),
        Err(error) => error,
    };
    if installation.release {
        object.references -= 1;
    }

    assert_eq!(error, VtableError::VtableChanged { layout: "FakeInterface" });
    assert_eq!(error.to_string(), "the FakeInterface vtable changed before installation");
    assert_eq!(object.vtable, replacement);
    assert_eq!(object.references, 1);
}

#[test]
fn a_displaced_shadow_is_left_alone() {
    let mut process = FakeProcess::new();
    let mut object = FakeObject { vtable: process.fake_vtable(ORIGINAL_VALUE), references: 1 };
    let foreign = process.fake_vtable(REPLACEMENT_VALUE);
    let shadow = process.shadow(0x8000, &object);
    let shadow_table = process.publish(shadow.entries());
    object.references += 1;
    let observed = compare_exchange(&mut object.vtable, shadow.original_vtable(), shadow_table);
    let installation = shadow.install(shadow_table, observed);
    assert!(!installation.release);
    let mut guard = installation.result.expect("installation must succeed");
    object.vtable = foreign;

    let (expected, desired) = guard.exchange();
    let observed = compare_exchange(&mut object.vtable, expected, desired);
    let restoration = guard.restore(observed);
    assert_eq!(
        restoration.result,
        Err(VtableError::VtableDisplaced { layout: "FakeInterface" })
    );
    assert!(restoration.release);
    assert!(!guard.restore(object.vtable).release);
    assert_eq!(guard.state(), InstallState::Displaced);
    assert_eq!(object.vtable, foreign);
}

#[test]
fn typed_method_cannot_address_past_layout() {
    let mut process = FakeProcess::new();
    let object = FakeObject { vtable: process.fake_vtable(ORIGINAL_VALUE), references: 1 };
    let shadow = process.shadow(0x8000, &object);

    assert_eq!(
        shadow.original::<PastEnd>(),
        Err(VtableError::SlotOutOfBounds {
            layout: "FakeInterface",
            method: "FakeInterface::PastEnd",
            index: 4,
            slot_count: 4,
        })
    );
    assert_eq!(
        shadow.original::<PastEnd>().expect_err("the slot is outside").to_string(),
        "FakeInterface::PastEnd uses slot 4, outside the 4-entry FakeInterface vtable"
    );
    assert_eq!(
        shadow.original::<WideValue>(),
        Err(VtableError::InvalidMethodRepresentation {
            method: "FakeInterface::WideValue",
            actual_size: 16,
        })
    );
    assert_eq!(shadow.original::<QueryInterface>(), Ok(QUERY_INTERFACE));
    assert_eq!(shadow.original::<AddRef>(), Ok(ADD_REF));
    assert_eq!(shadow.original::<Release>(), Ok(RELEASE));
    assert_eq!(object.references, 1);
}

#[test]
fn invalid_interfaces_are_told_apart() {
    assert_eq!(
        validate_layout::<TinyLayout>(),
        Err(VtableError::InvalidLayout { layout: "TinyInterface", slot_count: 2 })
    );
    assert_eq!(validate_layout::<FakeLayout>(), Ok(()));
    assert_eq!(validate_interface::<FakeLayout>(0), Err(VtableError::NullInterface));
    assert_eq!(
        validate_interface::<FakeLayout>(0x8001),
        Err(VtableError::MisalignedInterface { layout: "FakeInterface" })
    );
    assert_eq!(
        validate_vtable::<FakeLayout>(0),
        Err(VtableError::NullVtable { layout: "FakeInterface" })
    );
    assert_eq!(
        validate_vtable::<FakeLayout>(0x2001),
        Err(VtableError::MisalignedVtable { layout: "FakeInterface" })
    );
    let entries = [QUERY_INTERFACE, ADD_REF, 0, ORIGINAL_VALUE];
    let refused = match VtableShadow::<FakeLayout>::copy_from(0x8000, 0x2000, &entries) {
        Ok(_) => panic!("a null entry must be refused"),
        Err(error) => error,
    };
    assert_eq!(refused, VtableError::NullEntry { layout: "FakeInterface", index: 2 });
    assert_eq!(refused.to_string(), "FakeInterface vtable entry 2 is null");
}
