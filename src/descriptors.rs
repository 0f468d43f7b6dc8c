use vstd::prelude::*;
use x86_64::registers::segmentation::SegmentSelector;
use x86_64::structures::gdt::{Descriptor, GlobalDescriptorTable};
use x86_64::structures::tss::TaskStateSegment;
use x86_64::VirtAddr;

verus! {

#[verifier::external_type_specification]
#[verifier::external_body]
pub struct ExGlobalDescriptorTable<const MAX: usize>(GlobalDescriptorTable<MAX>);

#[verifier::external_type_specification]
pub struct ExDescriptor(Descriptor);

#[verifier::external_type_specification]
pub struct ExSegmentSelector(SegmentSelector);

#[verifier::external_type_specification]
#[verifier::external_body]
pub struct ExTaskStateSegment(TaskStateSegment);

/// Raw entry of a present, executable, non-conforming 64-bit code segment
/// with privilege level 0 and the flat limit.
pub const KERNEL_CODE64: u64 = 0x00af_9b00_0000_ffff;

/// Interrupt stack table slot reserved for the double-fault handler.
pub const DOUBLE_FAULT_IST_INDEX: u16 = 0;

/// Size in bytes of the stack reserved for the double-fault handler.
pub const FAULT_STACK_SIZE: u64 = 4096 * 5;

/// An address whose bits 48 to 63 repeat bit 47.
pub open spec fn is_canonical(a: u64) -> bool {
    (a >> 47u64) == 0 || (a >> 47u64) == 0x1ffff
}

/// Bits 40 to 47 of a descriptor's low word: type, system flag, privilege
/// level and present bit.
pub open spec fn access_byte(low: u64) -> u64 {
    (low >> 40u64) & 0xff
}

/// A present system descriptor of an available 64-bit task state segment at
/// privilege level 0.
pub open spec fn is_task_state_descriptor(d: Descriptor) -> bool {
    match d {
        Descriptor::SystemSegment(lo, _) => access_byte(lo) == 0x89,
        Descriptor::UserSegment(_) => false,
    }
}

/// A present, executable, non-conforming 64-bit code segment entry with
/// privilege level 0.
pub open spec fn is_kernel_code_entry(e: u64) -> bool {
    &&& (e >> 47u64) & 1 == 1
    &&& (e >> 45u64) & 3 == 0
    &&& (e >> 44u64) & 1 == 1
    &&& (e >> 43u64) & 1 == 1
    &&& (e >> 42u64) & 1 == 0
    &&& (e >> 53u64) & 1 == 1
}

/// The raw entries of a descriptor table, the null entry first.
pub uninterp spec fn table_entries(g: GlobalDescriptorTable) -> Seq<u64>;

/// Relies on `GlobalDescriptorTable::new`: a table of capacity 8 that holds
/// only the null entry.
#[verifier::external_body]
fn new_table() -> (r: GlobalDescriptorTable)
    ensures
        table_entries(r) == seq![0u64],
{
    GlobalDescriptorTable::new()
}

/// The privilege level that a descriptor carries in bits 45 and 46 of its
/// low word.
pub open spec fn descriptor_dpl(d: Descriptor) -> u16 {
    match d {
        Descriptor::UserSegment(v) => ((v >> 45u64) & 3) as u16,
        Descriptor::SystemSegment(v, _) => ((v >> 45u64) & 3) as u16,
    }
}

/// Number of table entries that a descriptor takes.
pub open spec fn descriptor_width(d: Descriptor) -> nat {
    match d {
        Descriptor::UserSegment(_) => 1,
        Descriptor::SystemSegment(_, _) => 2,
    }
}

/// Relies on `GlobalDescriptorTable::append`: the descriptor's words go
/// after the present entries, and the selector names the first of them with
/// the descriptor's privilege level. It panics when the 8 entries do not
/// leave room, which `requires` rules out.
#[verifier::external_body]
fn append_descriptor(g: &mut GlobalDescriptorTable, d: Descriptor) -> (r: SegmentSelector)
    requires
        table_entries(*old(g)).len() + descriptor_width(d) <= 8,
    ensures
        table_entries(*final(g)) == match d {
            Descriptor::UserSegment(v) => table_entries(*old(g)).push(v),
            Descriptor::SystemSegment(lo, hi) => table_entries(*old(g)).push(lo).push(hi),
        },
        r.0 == ((table_entries(*old(g)).len() as u16) << 3u16) | descriptor_dpl(d),
{
    g.append(d)
}

/// Relies on `Descriptor::kernel_code_segment`: the 64-bit kernel code
/// segment entry.
#[verifier::external_body]
fn kernel_code_descriptor() -> (r: Descriptor)
    ensures
        r == Descriptor::UserSegment(KERNEL_CODE64),
{
    Descriptor::kernel_code_segment()
}

/// Relies on `Descriptor::tss_segment`: a system descriptor whose low word
/// has the present bit, privilege level 0 and type 0b1001 (available 64-bit
/// task state segment) in bits 40 to 47, and whose limit in bits 0 to 15 is
/// the larger of the segment's size and its I/O map offset, less one. Its
/// base bits come from the segment's address.
#[verifier::external_body]
fn task_state_descriptor(t: &'static TaskStateSegment) -> (r: Descriptor)
    ensures
        is_task_state_descriptor(r),
        match r {
            Descriptor::SystemSegment(lo, _) => lo & 0xffff == task_state_limit(iomap_base_of(*t)),
            Descriptor::UserSegment(_) => false,
        },
{
    Descriptor::tss_segment(t)
}

/// The alternate stack pointers of a task state segment's interrupt stack
/// table.
pub uninterp spec fn interrupt_stacks(t: TaskStateSegment) -> Seq<u64>;

/// The offset of the I/O permission bitmap, the public `iomap_base` field.
pub uninterp spec fn iomap_base_of(t: TaskStateSegment) -> u16;

/// Size in bytes of a task state segment.
pub const TASK_STATE_SIZE: u64 = 0x68;

/// The limit of a task state segment descriptor whose I/O map starts at
/// `iomap_base` and is empty: the larger of the segment's size and that
/// offset, less one.
pub open spec fn task_state_limit(iomap_base: u16) -> u64 {
    if iomap_base as u64 > TASK_STATE_SIZE {
        (iomap_base - 1) as u64
    } else {
        (TASK_STATE_SIZE - 1) as u64
    }
}

/// Relies on `TaskStateSegment::new`: all seven interrupt stack pointers
/// are zero, and the I/O map offset is the segment's size, which leaves the
/// map empty.
#[verifier::external_body]
fn new_task_state() -> (r: TaskStateSegment)
    ensures
        interrupt_stacks(r) == Seq::new(7, |i: int| 0u64),
        iomap_base_of(r) == TASK_STATE_SIZE,
{
    TaskStateSegment::new()
}

/// Relies on `VirtAddr::new`, which panics unless `top` is canonical, and on
/// the public interrupt stack table field: slot `index` becomes `top`.
#[verifier::external_body]
fn set_interrupt_stack(t: &mut TaskStateSegment, index: usize, top: u64)
    requires
        index < 7,
        is_canonical(top),
    ensures
        interrupt_stacks(*final(t)) == interrupt_stacks(*old(t)).update(index as int, top),
        iomap_base_of(*final(t)) == iomap_base_of(*old(t)),
{
    t.interrupt_stack_table[index] = VirtAddr::new(top);
}

/// The stack pointers of a fresh task state segment with `top` in the
/// double-fault slot.
pub open spec fn fault_stacks(top: u64) -> Seq<u64> {
    Seq::new(7, |i: int| 0u64).update(DOUBLE_FAULT_IST_INDEX as int, top)
}

/// The task state segment whose double-fault slot points at the top of the
/// fault stack that starts at `stack_start`. Stacks grow down, so the top is
/// the address just past the region.
pub fn build_task_state(stack_start: u64) -> (r: TaskStateSegment)
    requires
        stack_start + FAULT_STACK_SIZE <= u64::MAX,
        is_canonical((stack_start + FAULT_STACK_SIZE) as u64),
    ensures
        interrupt_stacks(r) == fault_stacks((stack_start + FAULT_STACK_SIZE) as u64),
        iomap_base_of(r) == TASK_STATE_SIZE,
{
    let mut tss = new_task_state();
    let top = stack_start + FAULT_STACK_SIZE;
    set_interrupt_stack(&mut tss, DOUBLE_FAULT_IST_INDEX as usize, top);
    tss
}

/// Selectors of the two descriptors that the kernel installs.
pub struct Selectors {
    pub code_selector: SegmentSelector,
    pub tss_selector: SegmentSelector,
}

/// The kernel code descriptor entry has the properties of one.
pub proof fn lemma_kernel_code_entry()
    ensures
        is_kernel_code_entry(KERNEL_CODE64),
{
    assert(is_kernel_code_entry(0x00af_9b00_0000_ffffu64)) by (bit_vector);
}

/// The descriptor table: the null entry, the kernel code segment, then the
/// two words of the descriptor of `tss`; and the selectors of the last two,
/// both at privilege level 0.
pub fn build_descriptor_table(tss: &'static TaskStateSegment) -> (r: (
    GlobalDescriptorTable,
    Selectors,
))
    ensures
        table_entries(r.0).len() == 4,
        table_entries(r.0)[0] == 0,
        table_entries(r.0)[1] == KERNEL_CODE64,
        access_byte(table_entries(r.0)[2]) == 0x89,
        table_entries(r.0)[2] & 0xffff == task_state_limit(iomap_base_of(*tss)),
        iomap_base_of(*tss) == TASK_STATE_SIZE ==> table_entries(r.0)[2] & 0xffff
            == TASK_STATE_SIZE - 1,
        r.1.code_selector.0 == 8,
        r.1.tss_selector.0 == 16,
        is_kernel_code_entry(table_entries(r.0)[(r.1.code_selector.0 >> 3u16) as int]),
        access_byte(table_entries(r.0)[(r.1.tss_selector.0 >> 3u16) as int]) == 0x89,
{
    let mut gdt = new_table();
    let code = kernel_code_descriptor();
    let code_selector = append_descriptor(&mut gdt, code);
    let task = task_state_descriptor(tss);
    let tss_selector = append_descriptor(&mut gdt, task);
    proof {
        lemma_kernel_code_entry();
        assert((0x00af_9b00_0000_ffffu64 >> 45u64) & 3 == 0) by (bit_vector);
        assert(((1u16 << 3u16) | 0u16) == 8u16) by (bit_vector);
        assert(((2u16 << 3u16) | 0u16) == 16u16) by (bit_vector);
        assert((8u16 >> 3u16) == 1u16) by (bit_vector);
        assert((16u16 >> 3u16) == 2u16) by (bit_vector);
        if let Descriptor::SystemSegment(lo, hi) = task {
            let b = lo;
            assert(((b >> 40u64) & 0xff) == 0x89 ==> ((b >> 45u64) & 3) == 0) by (bit_vector);
        }
    }
    (gdt, Selectors { code_selector, tss_selector })
}

/// One step of installing the descriptor table into the processor.
#[derive(Clone, Copy, Debug)]
pub enum InstallStep {
    /// Load the descriptor table register.
    LoadTable,
    /// Load the null selector into the stack-segment register.
    ClearStackSegment,
    /// Load the null selector into the data-segment register.
    ClearDataSegment,
    /// Switch the code-segment register to the selector.
    SetCodeSegment(SegmentSelector),
    /// Load the task register with the selector.
    LoadTaskRegister(SegmentSelector),
}

/// The installation order: the table is loaded before any selector into it
/// is used, and the stale stack and data selectors are cleared before the
/// code selector changes.
pub fn install_steps(selectors: &Selectors) -> (r: Vec<InstallStep>)
    ensures
        r@ == seq![
            InstallStep::LoadTable,
            InstallStep::ClearStackSegment,
            InstallStep::ClearDataSegment,
            InstallStep::SetCodeSegment(selectors.code_selector),
            InstallStep::LoadTaskRegister(selectors.tss_selector),
        ],
{
    let mut steps: Vec<InstallStep> = Vec::new();
    steps.push(InstallStep::LoadTable);
    steps.push(InstallStep::ClearStackSegment);
    steps.push(InstallStep::ClearDataSegment);
    steps.push(InstallStep::SetCodeSegment(selectors.code_selector));
    steps.push(InstallStep::LoadTaskRegister(selectors.tss_selector));
    steps
}

} // verus!
