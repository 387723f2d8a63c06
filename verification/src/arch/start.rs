//! The first steps of a core: which core boots the system, the stacks that the
//! cores start on, and the memory that has to read as zero.

use vstd::prelude::*;

verus! {

/// Size of the stack that a core starts on: two pages.
pub const CORE_BOOT_STACK_SIZE: u64 = 8192;

/// Whether a core is the one that boots the system.
pub fn is_boot_core(cpu_id: usize) -> (r: bool)
    ensures
        r == (cpu_id == 0),
{
    cpu_id == 0
}

/// The core that boots the system.
pub fn boot_core() -> (r: usize)
    ensures
        r == 0,
{
    0
}

/// Top of the stack of a core, on a machine whose registers wrap around.
pub open spec fn stack_top(boot_stack: u64, core_id: u64) -> u64 {
    ((boot_stack + (core_id + 1) * CORE_BOOT_STACK_SIZE) % 0x1_0000_0000_0000_0000) as u64
}

/// Initial stack pointer of core `core_id`: the stacks lie one after another
/// from `boot_stack` on, and a stack grows down from its upper end. The boot
/// core takes the first.
pub fn boot_stack_top(boot_stack: u64, core_id: u64) -> (r: u64)
    ensures
        r == stack_top(boot_stack, core_id),
{
    let first: u64 = boot_stack.wrapping_add(CORE_BOOT_STACK_SIZE);
    let distance: u64 = core_id.wrapping_mul(CORE_BOOT_STACK_SIZE);
    proof {
        let m: int = 0x1_0000_0000_0000_0000;
        let a: int = boot_stack + CORE_BOOT_STACK_SIZE;
        let b: int = core_id * CORE_BOOT_STACK_SIZE;
        assert(first as int == a % m);
        assert(distance as int == b % m);
        vstd::arithmetic::div_mod::lemma_add_mod_noop(a, b, m);
        assert((core_id + 1) * CORE_BOOT_STACK_SIZE == b + CORE_BOOT_STACK_SIZE)
            by (nonlinear_arith)
            requires
                b == core_id * CORE_BOOT_STACK_SIZE,
        ;
    }
    first.wrapping_add(distance)
}

/// Stack pointer of a core once its own memory is mapped at `cpu_base`: below
/// the end of its stack there is room for one saved context.
pub open spec fn cpu_stack_top(
    cpu_base: u64,
    stack_offset: u64,
    stack_size: u64,
    context_size: u64,
) -> u64 {
    ((cpu_base + stack_offset + stack_size - context_size) % 0x1_0000_0000_0000_0000) as u64
}

/// Stack pointer of a core once its own memory is mapped.
pub fn core_stack_top(
    cpu_base: u64,
    stack_offset: u64,
    stack_size: u64,
    context_size: u64,
) -> (r: u64)
    ensures
        r == cpu_stack_top(cpu_base, stack_offset, stack_size, context_size),
{
    let end: u64 = cpu_base.wrapping_add(stack_offset.wrapping_add(stack_size));
    end.wrapping_sub(context_size)
}

/// Makes the zero-initialised data read as zero.
pub fn clear_bss(bss: &mut [u8])
    ensures
        final(bss)@ == Seq::new(old(bss)@.len(), |i: int| 0u8),
{
    let n: usize = bss.len();
    let mut i: usize = 0;
    while i < n
        invariant
            i <= n,
            n == bss@.len(),
            n == old(bss)@.len(),
            forall|j: int| 0 <= j < i ==> bss@[j] == 0,
        decreases n - i,
    {
        bss[i] = 0;
        i = i + 1;
    }
    assert(bss@ =~= Seq::new(old(bss)@.len(), |i: int| 0u8));
}

/// As long as the stacks of `num` cores fit into memory, the stack of each
/// core lies inside the area, and no two cores share a byte of it.
pub proof fn boot_stacks_are_disjoint(boot_stack: u64, num: u64, a: u64, b: u64)
    requires
        boot_stack + num * CORE_BOOT_STACK_SIZE <= u64::MAX,
        a < b < num,
    ensures
        stack_top(boot_stack, a) - CORE_BOOT_STACK_SIZE >= boot_stack,
        stack_top(boot_stack, a) <= stack_top(boot_stack, b) - CORE_BOOT_STACK_SIZE,
        stack_top(boot_stack, b) <= boot_stack + num * CORE_BOOT_STACK_SIZE,
{
    let m: int = 0x1_0000_0000_0000_0000;
    let ta: int = boot_stack + (a + 1) * CORE_BOOT_STACK_SIZE;
    let tb: int = boot_stack + (b + 1) * CORE_BOOT_STACK_SIZE;
    assert(ta % m == ta && tb % m == tb) by {
        vstd::arithmetic::div_mod::lemma_small_mod(ta as nat, m as nat);
        vstd::arithmetic::div_mod::lemma_small_mod(tb as nat, m as nat);
    }
}

/// Address of byte `i`, counted from the lower end, of the stack of a core, on a
/// machine whose addresses wrap around.
pub open spec fn stack_byte(boot_stack: u64, core_id: u64, i: int) -> int {
    (stack_top(boot_stack, core_id) - CORE_BOOT_STACK_SIZE + i) % 0x1_0000_0000_0000_0000
}

/// Wherever the area of `num` stacks lies, even across the end of the address
/// space: core `a` has the `a`-th stack of the area, and no byte of it belongs
/// to the stack of another core.
pub proof fn boot_stacks_share_no_byte(
    boot_stack: u64,
    num: u64,
    a: u64,
    b: u64,
    i: int,
    j: int,
)
    requires
        num * CORE_BOOT_STACK_SIZE <= 0x1_0000_0000_0000_0000,
        a < num,
        b < num,
        a != b,
        0 <= i < CORE_BOOT_STACK_SIZE,
        0 <= j < CORE_BOOT_STACK_SIZE,
    ensures
        (stack_byte(boot_stack, a, i) - boot_stack) % 0x1_0000_0000_0000_0000 == a
            * CORE_BOOT_STACK_SIZE + i,
        a * CORE_BOOT_STACK_SIZE + i < num * CORE_BOOT_STACK_SIZE,
        stack_byte(boot_stack, a, i) != stack_byte(boot_stack, b, j),
{
    stack_byte_offset(boot_stack, num, a, i);
    stack_byte_offset(boot_stack, num, b, j);
}

/// How far a byte of a core's stack is from the start of the area.
proof fn stack_byte_offset(boot_stack: u64, num: u64, a: u64, i: int)
    requires
        num * CORE_BOOT_STACK_SIZE <= 0x1_0000_0000_0000_0000,
        a < num,
        0 <= i < CORE_BOOT_STACK_SIZE,
    ensures
        (stack_byte(boot_stack, a, i) - boot_stack) % 0x1_0000_0000_0000_0000 == a
            * CORE_BOOT_STACK_SIZE + i,
        a * CORE_BOOT_STACK_SIZE + i < num * CORE_BOOT_STACK_SIZE,
{
    let m: int = 0x1_0000_0000_0000_0000;
    let top: int = boot_stack + (a + 1) * CORE_BOOT_STACK_SIZE;
    let byte: int = top - CORE_BOOT_STACK_SIZE + i;
    vstd::arithmetic::div_mod::lemma_add_mod_noop_right(i - CORE_BOOT_STACK_SIZE, top, m);
    assert(stack_byte(boot_stack, a, i) == byte % m);
    vstd::arithmetic::div_mod::lemma_add_mod_noop_right(-boot_stack, byte, m);
    vstd::arithmetic::div_mod::lemma_small_mod((a * CORE_BOOT_STACK_SIZE + i) as nat, m as nat);
}

/// Each stack is 8 KiB, and the stack of a core ends 8 KiB after that of the
/// core before it; the first begins where the area begins.
pub proof fn stacks_follow_each_other(boot_stack: u64, core_id: u64)
    ensures
        (stack_top(boot_stack, 0) - boot_stack) % 0x1_0000_0000_0000_0000 == 0x2000,
        core_id < u64::MAX ==> (stack_top(boot_stack, (core_id + 1) as u64) - stack_top(
            boot_stack,
            core_id,
        )) % 0x1_0000_0000_0000_0000 == 0x2000,
{
    let m: int = 0x1_0000_0000_0000_0000;
    vstd::arithmetic::div_mod::lemma_add_mod_noop_right(-boot_stack, boot_stack + 0x2000, m);
    if core_id < u64::MAX {
        let x: int = boot_stack + (core_id + 1) * CORE_BOOT_STACK_SIZE;
        let y: int = boot_stack + (core_id + 2) * CORE_BOOT_STACK_SIZE;
        vstd::arithmetic::div_mod::lemma_sub_mod_noop(y, x, m);
    }
}

/// Between the stack pointer of a core in its own memory and the end of its
/// stack there is exactly one context.
pub proof fn context_fits_above_the_stack_pointer(
    cpu_base: u64,
    stack_offset: u64,
    stack_size: u64,
    context_size: u64,
)
    ensures
        (cpu_stack_top(cpu_base, stack_offset, stack_size, context_size) + context_size)
            % 0x1_0000_0000_0000_0000 == (cpu_base + stack_offset + stack_size)
            % 0x1_0000_0000_0000_0000,
{
    let m: int = 0x1_0000_0000_0000_0000;
    vstd::arithmetic::div_mod::lemma_add_mod_noop_right(
        context_size as int,
        cpu_base + stack_offset + stack_size - context_size,
        m,
    );
}

} // verus!
