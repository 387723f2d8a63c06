use tinyvm::arch::cache::CacheWalk;
use tinyvm::arch::start::{
    boot_core, boot_stack_top, clear_bss, core_stack_top, is_boot_core, CORE_BOOT_STACK_SIZE,
};
use tinyvm::arch::sysregs::{init_sysregs, SysRegs};

#[test]
fn the_boot_core() {
    assert!(is_boot_core(0));
    assert!(!is_boot_core(1));
    assert!(!is_boot_core(usize::MAX));
    assert!(is_boot_core(boot_core()));
}

#[test]
fn boot_stacks() {
    assert_eq!(CORE_BOOT_STACK_SIZE, 0x2000);
    assert_eq!(boot_stack_top(0x8000_0000, 0), 0x8000_2000);
    assert_eq!(boot_stack_top(0x8000_0000, 3), 0x8000_8000);
    for core in 1..8 {
        assert_eq!(
            boot_stack_top(0x8000_0000, core) - CORE_BOOT_STACK_SIZE,
            boot_stack_top(0x8000_0000, core - 1)
        );
    }
    assert_eq!(boot_stack_top(u64::MAX, 0), 0x1fff);
    // The area may end where the address space does.
    assert_eq!(boot_stack_top(0u64.wrapping_sub(0x4000), 0), 0u64.wrapping_sub(0x2000));
    assert_eq!(boot_stack_top(0u64.wrapping_sub(0x4000), 1), 0);
}

#[test]
fn stack_in_core_memory() {
    assert_eq!(core_stack_top(0x40_0000, 0x1000, 0x8000, 0x110), 0x40_8ef0);
    assert_eq!(core_stack_top(0, 0, 0, 1), u64::MAX);
}

#[test]
fn bss_is_cleared() {
    let mut bss = [1u8, 2, 255];
    clear_bss(&mut bss);
    assert_eq!(bss, [0, 0, 0]);
    clear_bss(&mut []);
}

#[test]
fn register_values() {
    assert_eq!(
        init_sysregs(0x4008_0800, 0x30C5_0830),
        SysRegs { hcr_el2: 0x8008_0019, vbar_el2: 0x4008_0800, sctlr_el2: 0x30C5_1835 }
    );
    assert_eq!(init_sysregs(0, 0).sctlr_el2, 0x1005);
    assert_eq!(init_sysregs(0, u64::MAX).sctlr_el2, u64::MAX);
}

#[test]
fn small_cache() {
    // Two ways of three sets with lines of 64 bytes.
    let ccsidr = (2 << 13) | (1 << 3) | 2;
    let mut walk = CacheWalk::new(2, ccsidr);
    let mut operands = vec![];
    while let Some(operand) = walk.next_line() {
        operands.push(operand);
    }
    let way = 1u64 << 31;
    assert_eq!(operands, vec![2, 0x42, 0x82, way | 2, way | 0x42, way | 0x82]);
    assert_eq!(walk.next_line(), None);
}

#[test]
fn direct_mapped_cache() {
    let mut walk = CacheWalk::new(0, 0);
    assert_eq!(walk.next_line(), Some(0));
    assert_eq!(walk.next_line(), None);
}

#[test]
fn every_line_of_a_cache() {
    // Four ways of 256 sets with lines of 64 bytes.
    let ccsidr = (255 << 13) | (3 << 3) | 2;
    let mut walk = CacheWalk::new(0, ccsidr);
    let mut operands = vec![];
    while let Some(operand) = walk.next_line() {
        operands.push(operand);
    }
    assert_eq!(operands.len(), 1024);
    assert_eq!(operands[0], 0);
    assert_eq!(operands[256], 1 << 30);
    assert_eq!(operands[1023], (3 << 30) | (255 << 6));
    operands.sort();
    operands.dedup();
    assert_eq!(operands.len(), 1024);
}
