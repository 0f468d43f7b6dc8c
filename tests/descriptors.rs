use kernel_sync::descriptors::{
    build_descriptor_table, build_task_state, install_steps, InstallStep, Selectors,
    DOUBLE_FAULT_IST_INDEX, FAULT_STACK_SIZE, KERNEL_CODE64,
};
use x86_64::registers::segmentation::SegmentSelector;
use x86_64::structures::tss::TaskStateSegment;

fn leaked_task_state(start: u64) -> &'static TaskStateSegment {
    Box::leak(Box::new(build_task_state(start)))
}

#[test]
fn task_state_points_fault_slot_at_stack_top() {
    let tss = build_task_state(0x1000);
    assert_eq!(FAULT_STACK_SIZE, 20480);
    assert_eq!(
        tss.interrupt_stack_table[DOUBLE_FAULT_IST_INDEX as usize].as_u64(),
        0x1000 + 20480
    );
    for slot in 1..7 {
        assert_eq!(tss.interrupt_stack_table[slot].as_u64(), 0);
    }
}

#[test]
fn task_state_in_upper_half() {
    let tss = build_task_state(0xffff_8000_0000_0000);
    assert_eq!(tss.interrupt_stack_table[0].as_u64(), 0xffff_8000_0000_5000);
}

#[test]
fn descriptor_table_selectors() {
    let (_, selectors) = build_descriptor_table(leaked_task_state(0x4000));
    assert_eq!(selectors.code_selector.0, 8);
    assert_eq!(selectors.tss_selector.0, 16);
    assert_eq!(selectors.code_selector.index(), 1);
    assert_eq!(selectors.tss_selector.index(), 2);
}

#[test]
fn descriptor_table_entries() {
    let tss = leaked_task_state(0x8000);
    let (gdt, _) = build_descriptor_table(tss);
    let entries = gdt.entries();
    assert_eq!(entries.len(), 4);
    assert_eq!(entries[0].raw(), 0);
    assert_eq!(entries[1].raw(), KERNEL_CODE64);
    assert_eq!(KERNEL_CODE64, 0x00af_9b00_0000_ffff);
    let code = entries[1].raw();
    assert_eq!((code >> 43) & 1, 1, "executable");
    assert_eq!((code >> 42) & 1, 0, "non-conforming");
    assert_eq!((code >> 45) & 3, 0, "ring 0");
    assert_eq!((code >> 47) & 1, 1, "present");
    let low = entries[2].raw();
    assert_eq!((low >> 40) & 0xff, 0x89);
    assert_eq!(low & 0xffff, 103, "limit is the segment size less one");
}

#[test]
fn installation_order() {
    let selectors = Selectors {
        code_selector: SegmentSelector(8),
        tss_selector: SegmentSelector(16),
    };
    let steps = install_steps(&selectors);
    assert_eq!(steps.len(), 5);
    assert!(matches!(steps[0], InstallStep::LoadTable));
    assert!(matches!(steps[1], InstallStep::ClearStackSegment));
    assert!(matches!(steps[2], InstallStep::ClearDataSegment));
    assert!(matches!(steps[3], InstallStep::SetCodeSegment(s) if s.0 == 8));
    assert!(matches!(steps[4], InstallStep::LoadTaskRegister(s) if s.0 == 16));
}
