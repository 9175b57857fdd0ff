use open_entry_plugin::behaviour::ShutdownKind;
use open_entry_plugin::event::Event;
use open_entry_plugin::lifecycle::{vm_event_recv, vm_init, BindingsCall, SLOT_CHECK_VALUE};

#[test]
fn init_registers_first_then_spawns_slot_check() {
    // Host assigns id 7: the hook's first bindings call is the
    // registration with that id, followed by the spawn of the data-slot
    // self-check writing 12345.
    let calls = vm_init(7);
    assert_eq!(
        calls,
        vec![
            BindingsCall::Register { id: 7 },
            BindingsCall::SpawnSlotCheck { value: 12345 },
        ]
    );
}

#[test]
fn init_registers_the_assigned_id() {
    for id in [0u32, 1, 7, u32::MAX] {
        let calls = vm_init(id);
        assert_eq!(calls[0], BindingsCall::Register { id });
    }
}

#[test]
fn slot_check_value_is_the_documented_sample() {
    assert_eq!(SLOT_CHECK_VALUE, 12345);
}

#[test]
fn event_sink_accepts_every_variant_silently() {
    // An arbitrary event is accepted without error and without any
    // bindings-layer traffic, recognized or not.
    let events = [
        Event::VmRun,
        Event::VmEnd,
        Event::VmShutdown(ShutdownKind::Graceful),
        Event::VmShutdown(ShutdownKind::Restart),
        Event::VmShutdown(ShutdownKind::Fault),
        Event::Foreign {
            from: 3,
            event: 99,
        },
    ];
    for event in events {
        let calls = vm_event_recv(&event);
        assert!(calls.is_empty());
    }
}
