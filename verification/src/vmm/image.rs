//! The images a machine starts with: kernel, device tree and ramdisk.
//!
//! [`vmm_init_image`] gives the first operation, [`image_next`] the one that
//! follows once an operation has been carried out, until
//! [`ImageAction::Finish`] or [`ImageAction::Halt`].

use vstd::prelude::*;

use crate::kernel::config::{VmConfigEntry, VmRegion, VmType};
use crate::kernel::vm::Vm;
use crate::platform::Platform;

verus! {

/// The kernel that comes with images for the RK3588.
pub const RK3588_KERNEL: &'static str = "Linux-5.10";

/// Below this host address there is no guest memory.
pub const LOWEST_LOAD_ADDR: usize = 0x1000;

/// How many bytes of a kernel a trace log shows. A kernel has to have them.
pub const LOGGED_BYTES: usize = 4;

/// Bytes to be copied to a host address.
#[derive(Clone, Copy, PartialEq, Eq, Structural, Debug)]
pub struct ImageCopy {
    pub dst: usize,
    pub len: usize,
}

/// Errors that end the construction of a machine for good.
#[derive(Clone, Copy, PartialEq, Eq, Structural, Debug)]
pub enum ImageFault {
    /// There is no built-in kernel of the configured name.
    KernelName,
    /// The kernel fits in none of the machine's memory regions.
    NoRegion,
    /// An address is out of range.
    BadAddress,
    /// The kernel would go to an address where there is no guest memory.
    IllegalAddr(usize),
    /// The kernel is shorter than what the trace log shows of it.
    ShortKernel,
    /// The system has no device tree.
    NoSystemFdt,
    /// No device tree could be made for the guest.
    CreateFdt,
}

/// What is traced.
#[derive(Clone, Copy, PartialEq, Eq, Structural, Debug)]
pub struct Tracing {
    /// Load addresses are checked.
    pub addresses: bool,
    /// The log takes trace lines, among them the first bytes of a kernel.
    pub log: bool,
}

/// What the loader knows about the images.
#[derive(Clone, Copy, PartialEq, Eq, Structural, Debug)]
pub struct ImageInputs {
    /// Size of the built-in kernel.
    pub kernel_size: usize,
    /// Size of the system's own device tree.
    pub system_fdt_len: Option<usize>,
    /// Size of the built-in ramdisk.
    pub ramdisk_len: usize,
    pub trace: Tracing,
}

/// An operation of the loader.
#[derive(Clone, Copy, PartialEq, Eq, Structural, Debug)]
pub enum ImageAction {
    /// Copy the built-in kernel.
    CopyKernel(ImageCopy),
    /// Copy the system's device tree.
    CopySystemFdt(ImageCopy),
    /// Edit the copy of the system's device tree at this address for the guest:
    /// see [`crate::vmm::device_tree::vmm_setup_fdt`].
    EditSystemFdt(usize),
    /// Make a device tree from the configuration.
    CreateFdt,
    /// Copy the device tree that was made to this address.
    CopyDtb(usize),
    /// Apply the configured overlay to the device tree that was made.
    ApplyOverlay,
    /// Copy the device tree with the overlay to this address.
    CopyOverlaid(usize),
    /// Copy the built-in ramdisk.
    CopyRamdisk(ImageCopy),
    /// Over; the flag says whether the machine has its images.
    Finish(bool),
    /// Stop with an error.
    Halt(ImageFault),
}

/// An image of `size` bytes at guest address `ipa` lies inside the region.
pub open spec fn lies_inside(region: VmRegion, ipa: usize, size: usize) -> bool {
    region.ipa_start <= ipa && ipa + size <= region.ipa_start + region.length
}

/// Looking at the region takes no address beyond the end of memory.
pub open spec fn in_range(region: VmRegion, ipa: usize, size: usize) -> bool {
    region.ipa_start <= ipa ==> ipa + size <= usize::MAX && region.ipa_start + region.length
        <= usize::MAX
}

/// The first region from `i` on that the image lies inside, unless an address
/// is out of range before one is found.
pub open spec fn first_region(
    regions: Seq<VmRegion>,
    ipa: usize,
    size: usize,
    i: int,
) -> Result<int, ImageFault>
    decreases regions.len() - i,
{
    if i >= regions.len() {
        Err(ImageFault::NoRegion)
    } else if !in_range(regions[i], ipa, size) {
        Err(ImageFault::BadAddress)
    } else if lies_inside(regions[i], ipa, size) {
        Ok(i)
    } else {
        first_region(regions, ipa, size, i + 1)
    }
}

/// Host address behind guest address `ipa`, which lies in region `i`.
pub open spec fn host_addr(vm: Vm, i: int, ipa: usize) -> Option<usize> {
    if 0 <= i < vm.config.memory_region@.len() && i < vm.pa_region@.len()
        && vm.config.memory_region@[i].ipa_start <= ipa && vm.pa_region@[i].pa_start + (ipa
        - vm.config.memory_region@[i].ipa_start) <= usize::MAX {
        Some((vm.pa_region@[i].pa_start + (ipa - vm.config.memory_region@[i].ipa_start)) as usize)
    } else {
        None
    }
}

/// Where a kernel of `size` bytes goes.
pub open spec fn placement(vm: Vm, size: usize, trace: Tracing) -> Result<ImageCopy, ImageFault> {
    let ipa = vm.config.image.kernel_load_ipa;
    match first_region(vm.config.memory_region@, ipa, size, 0) {
        Err(fault) => Err(fault),
        Ok(i) => match host_addr(vm, i, ipa) {
            None => Err(ImageFault::BadAddress),
            Some(dst) => if trace.addresses && dst < LOWEST_LOAD_ADDR {
                Err(ImageFault::IllegalAddr(dst))
            } else if trace.log && size < LOGGED_BYTES {
                Err(ImageFault::ShortKernel)
            } else {
                Ok(ImageCopy { dst, len: size })
            },
        },
    }
}

/// The first region that the image lies inside.
fn find_region(regions: &Vec<VmRegion>, ipa: usize, size: usize) -> (r: Result<usize, ImageFault>)
    ensures
        match first_region(regions@, ipa, size, 0) {
            Ok(i) => r matches Ok(k) && k == i && i < regions@.len(),
            Err(fault) => r == Err::<usize, ImageFault>(fault),
        },
{
    let n: usize = regions.len();
    let mut i: usize = 0;
    while i < n
        invariant
            i <= n,
            n == regions@.len(),
            first_region(regions@, ipa, size, 0) == first_region(regions@, ipa, size, i as int),
        decreases n - i,
    {
        let region: VmRegion = regions[i];
        if region.ipa_start <= ipa {
            match (ipa.checked_add(size), region.ipa_start.checked_add(region.length)) {
                (Some(image_end), Some(region_end)) => {
                    if image_end <= region_end {
                        return Ok(i);
                    }
                },
                _ => {
                    return Err(ImageFault::BadAddress);
                },
            }
        }
        i = i + 1;
    }
    Err(ImageFault::NoRegion)
}

/// Host address behind guest address `ipa`, which lies in region `i`.
fn find_host_addr(vm: &Vm, i: usize, ipa: usize) -> (r: Option<usize>)
    ensures
        r == host_addr(*vm, i as int, ipa),
{
    if i >= vm.config.memory_region.len() || i >= vm.pa_region.len() {
        return None;
    }
    match ipa.checked_sub(vm.config.memory_region[i].ipa_start) {
        None => None,
        Some(offset) => vm.pa_region[i].pa_start.checked_add(offset),
    }
}

/// Where a kernel of `size` bytes goes, or why it cannot be loaded.
pub fn image_placement(vm: &Vm, size: usize, trace: Tracing) -> (r: Result<ImageCopy, ImageFault>)
    ensures
        r == placement(*vm, size, trace),
{
    let ipa: usize = vm.config.image.kernel_load_ipa;
    match find_region(&vm.config.memory_region, ipa, size) {
        Err(fault) => Err(fault),
        Ok(i) => match find_host_addr(vm, i, ipa) {
            None => Err(ImageFault::BadAddress),
            Some(dst) => {
                if trace.addresses && dst < LOWEST_LOAD_ADDR {
                    Err(ImageFault::IllegalAddr(dst))
                } else if trace.log && size < LOGGED_BYTES {
                    Err(ImageFault::ShortKernel)
                } else {
                    Ok(ImageCopy { dst, len: size })
                }
            },
        },
    }
}

/// Where a kernel of `size` bytes goes, given that it can be loaded; see
/// [`image_placement`].
pub fn vmm_load_image(vm: &Vm, size: usize, trace: Tracing) -> (r: ImageCopy)
    requires
        placement(*vm, size, trace).is_ok(),
    ensures
        placement(*vm, size, trace) == Ok::<ImageCopy, ImageFault>(r),
{
    image_placement(vm, size, trace).unwrap()
}

/// Whether the built-in kernel is loaded; `None` says that its name is wrong
/// for the board.
pub open spec fn kernel_wanted(config: VmConfigEntry, platform: Platform) -> Option<bool> {
    if config.os_type != VmType::VmTOs {
        Some(false)
    } else {
        match config.image.kernel_img_name {
            None => Some(false),
            Some(name) => if platform.qemu && name@.len() == 0 {
                None
            } else if platform.rk3588 && name@ != RK3588_KERNEL@ {
                None
            } else {
                Some(platform.qemu || platform.rk3588)
            },
        }
    }
}

/// The operation for the ramdisk.
pub open spec fn ramdisk_action(vm: Vm, inputs: ImageInputs) -> ImageAction {
    let ipa = vm.config.image.ramdisk_load_ipa;
    if ipa == 0 {
        ImageAction::Finish(true)
    } else {
        match host_addr(vm, 0, ipa) {
            Some(dst) => ImageAction::CopyRamdisk(ImageCopy { dst, len: inputs.ramdisk_len }),
            None => ImageAction::Halt(ImageFault::BadAddress),
        }
    }
}

/// The operation for the device tree: the first machine gets an edited copy of
/// the system's, any other one made for it.
pub open spec fn device_tree_action(vm: Vm, inputs: ImageInputs) -> ImageAction {
    let ipa = vm.config.image.device_tree_load_ipa;
    if ipa == 0 {
        ramdisk_action(vm, inputs)
    } else if vm.id == 0 {
        match (host_addr(vm, 0, ipa), inputs.system_fdt_len) {
            (None, _) => ImageAction::Halt(ImageFault::BadAddress),
            (_, None) => ImageAction::Halt(ImageFault::NoSystemFdt),
            (Some(dst), Some(len)) => ImageAction::CopySystemFdt(ImageCopy { dst, len }),
        }
    } else {
        ImageAction::CreateFdt
    }
}

/// The first operation.
pub open spec fn first_action(vm: Vm, platform: Platform, inputs: ImageInputs) -> ImageAction {
    if vm.config.image.kernel_load_ipa == 0 {
        ImageAction::Finish(false)
    } else {
        match kernel_wanted(vm.config, platform) {
            None => ImageAction::Halt(ImageFault::KernelName),
            Some(true) => match placement(vm, inputs.kernel_size, inputs.trace) {
                Ok(copy) => ImageAction::CopyKernel(copy),
                Err(fault) => ImageAction::Halt(fault),
            },
            Some(false) => device_tree_action(vm, inputs),
        }
    }
}

/// The operation that follows `last`; `ok` says whether that one succeeded,
/// where it can fail.
pub open spec fn next_action(
    vm: Vm,
    inputs: ImageInputs,
    last: ImageAction,
    ok: bool,
) -> ImageAction {
    match last {
        ImageAction::CopyKernel(_) => device_tree_action(vm, inputs),
        ImageAction::CopySystemFdt(copy) => ImageAction::EditSystemFdt(copy.dst),
        ImageAction::EditSystemFdt(_) => ramdisk_action(vm, inputs),
        ImageAction::CreateFdt => if !ok {
            ImageAction::Halt(ImageFault::CreateFdt)
        } else {
            match host_addr(vm, 0, vm.config.image.device_tree_load_ipa) {
                None => ImageAction::Halt(ImageFault::BadAddress),
                Some(dst) => if vm.config.fdt_overlay@.len() == 0 {
                    ImageAction::CopyDtb(dst)
                } else {
                    ImageAction::ApplyOverlay
                },
            }
        },
        ImageAction::CopyDtb(_) => ramdisk_action(vm, inputs),
        ImageAction::ApplyOverlay => if !ok {
            ImageAction::Finish(false)
        } else {
            match host_addr(vm, 0, vm.config.image.device_tree_load_ipa) {
                None => ImageAction::Halt(ImageFault::BadAddress),
                Some(dst) => ImageAction::CopyOverlaid(dst),
            }
        },
        ImageAction::CopyOverlaid(_) => ramdisk_action(vm, inputs),
        ImageAction::CopyRamdisk(_) => ImageAction::Finish(true),
        ImageAction::Finish(b) => ImageAction::Finish(b),
        ImageAction::Halt(fault) => ImageAction::Halt(fault),
    }
}

/// Whether the built-in kernel is loaded.
fn want_kernel(config: &VmConfigEntry, platform: &Platform) -> (r: Option<bool>)
    ensures
        r == kernel_wanted(*config, *platform),
{
    match config.os_type {
        VmType::VmTOs => {},
        _ => {
            return Some(false);
        },
    }
    match &config.image.kernel_img_name {
        None => Some(false),
        Some(name) => {
            if platform.qemu && name.as_str().is_empty() {
                return None;
            }
            if platform.rk3588 {
                let wanted: String = RK3588_KERNEL.to_owned();
                if *name != wanted {
                    return None;
                }
            }
            Some(platform.qemu || platform.rk3588)
        },
    }
}

/// The operation for the ramdisk.
fn load_ramdisk(vm: &Vm, inputs: &ImageInputs) -> (r: ImageAction)
    ensures
        r == ramdisk_action(*vm, *inputs),
{
    let ipa: usize = vm.config.image.ramdisk_load_ipa;
    if ipa == 0 {
        return ImageAction::Finish(true);
    }
    match find_host_addr(vm, 0, ipa) {
        Some(dst) => ImageAction::CopyRamdisk(ImageCopy { dst, len: inputs.ramdisk_len }),
        None => ImageAction::Halt(ImageFault::BadAddress),
    }
}

/// The operation for the device tree.
fn load_device_tree(vm: &Vm, inputs: &ImageInputs) -> (r: ImageAction)
    ensures
        r == device_tree_action(*vm, *inputs),
{
    let ipa: usize = vm.config.image.device_tree_load_ipa;
    if ipa == 0 {
        return load_ramdisk(vm, inputs);
    }
    if vm.id != 0 {
        return ImageAction::CreateFdt;
    }
    match (find_host_addr(vm, 0, ipa), inputs.system_fdt_len) {
        (None, _) => ImageAction::Halt(ImageFault::BadAddress),
        (_, None) => ImageAction::Halt(ImageFault::NoSystemFdt),
        (Some(dst), Some(len)) => ImageAction::CopySystemFdt(ImageCopy { dst, len }),
    }
}

/// The first operation for the images of a machine. A machine without a load
/// address for its kernel gets no images.
pub fn vmm_init_image(vm: &Vm, platform: &Platform, inputs: &ImageInputs) -> (r: ImageAction)
    ensures
        r == first_action(*vm, *platform, *inputs),
{
    if vm.config.image.kernel_load_ipa == 0 {
        return ImageAction::Finish(false);
    }
    match want_kernel(&vm.config, platform) {
        None => ImageAction::Halt(ImageFault::KernelName),
        Some(true) => match image_placement(vm, inputs.kernel_size, inputs.trace) {
            Ok(copy) => ImageAction::CopyKernel(copy),
            Err(fault) => ImageAction::Halt(fault),
        },
        Some(false) => load_device_tree(vm, inputs),
    }
}

/// The operation that follows `last`, which has been carried out; `ok` says
/// whether it succeeded and matters for [`ImageAction::CreateFdt`] and
/// [`ImageAction::ApplyOverlay`].
pub fn image_next(vm: &Vm, inputs: &ImageInputs, last: ImageAction, ok: bool) -> (r: ImageAction)
    ensures
        r == next_action(*vm, *inputs, last, ok),
{
    match last {
        ImageAction::CopyKernel(_) => load_device_tree(vm, inputs),
        ImageAction::CopySystemFdt(copy) => ImageAction::EditSystemFdt(copy.dst),
        ImageAction::EditSystemFdt(_) => load_ramdisk(vm, inputs),
        ImageAction::CreateFdt => {
            if !ok {
                return ImageAction::Halt(ImageFault::CreateFdt);
            }
            match find_host_addr(vm, 0, vm.config.image.device_tree_load_ipa) {
                None => ImageAction::Halt(ImageFault::BadAddress),
                Some(dst) => {
                    if vm.config.fdt_overlay.len() == 0 {
                        ImageAction::CopyDtb(dst)
                    } else {
                        ImageAction::ApplyOverlay
                    }
                },
            }
        },
        ImageAction::CopyDtb(_) => load_ramdisk(vm, inputs),
        ImageAction::ApplyOverlay => {
            if !ok {
                return ImageAction::Finish(false);
            }
            match find_host_addr(vm, 0, vm.config.image.device_tree_load_ipa) {
                None => ImageAction::Halt(ImageFault::BadAddress),
                Some(dst) => ImageAction::CopyOverlaid(dst),
            }
        },
        ImageAction::CopyOverlaid(_) => load_ramdisk(vm, inputs),
        ImageAction::CopyRamdisk(_) => ImageAction::Finish(true),
        ImageAction::Finish(b) => ImageAction::Finish(b),
        ImageAction::Halt(fault) => ImageAction::Halt(fault),
    }
}

/// What the search for a region gives is the first region that the image lies
/// inside.
proof fn first_region_is_first(regions: Seq<VmRegion>, ipa: usize, size: usize, from: int, i: int)
    requires
        0 <= from <= regions.len(),
        first_region(regions, ipa, size, from) == Ok::<int, ImageFault>(i),
    ensures
        from <= i < regions.len(),
        in_range(regions[i], ipa, size),
        lies_inside(regions[i], ipa, size),
        forall|j: int| from <= j < i ==> !lies_inside(#[trigger] regions[j], ipa, size),
    decreases regions.len() - from,
{
    if from < regions.len() && in_range(regions[from], ipa, size) && !lies_inside(
        regions[from],
        ipa,
        size,
    ) {
        first_region_is_first(regions, ipa, size, from + 1, i);
    }
}

/// A kernel goes to the first memory region that it lies inside, at the same
/// distance from the region's start in host memory as in guest memory, and
/// stays inside the host memory behind the region.
pub proof fn kernel_stays_in_its_region(
    vm: Vm,
    size: usize,
    trace: Tracing,
    copy: ImageCopy,
) -> (i: int)
    requires
        placement(vm, size, trace) == Ok::<ImageCopy, ImageFault>(copy),
    ensures
        0 <= i < vm.config.memory_region@.len(),
        i < vm.pa_region@.len(),
        lies_inside(vm.config.memory_region@[i], vm.config.image.kernel_load_ipa, size),
        forall|j: int|
            0 <= j < i ==> !lies_inside(
                #[trigger] vm.config.memory_region@[j],
                vm.config.image.kernel_load_ipa,
                size,
            ),
        copy.len == size,
        copy.dst - vm.pa_region@[i].pa_start == vm.config.image.kernel_load_ipa
            - vm.config.memory_region@[i].ipa_start,
        vm.pa_region@[i].pa_start <= copy.dst,
        copy.dst + copy.len <= vm.pa_region@[i].pa_start + vm.config.memory_region@[i].length,
{
    let ipa = vm.config.image.kernel_load_ipa;
    let i = first_region(vm.config.memory_region@, ipa, size, 0)->Ok_0;
    first_region_is_first(vm.config.memory_region@, ipa, size, 0, i);
    i
}

/// Once every region of a machine has its memory, and none of it reaches the
/// end of the address space, a kernel that lies inside a region can be loaded,
/// and the record of the region leads from its host address back to the
/// configured guest address.
pub proof fn backed_machine_takes_its_kernel(vm: Vm, answers: Seq<usize>, size: usize, i: int)
    requires
        vm.config.memory_region@.len() <= usize::MAX,
        answers.len() == vm.config.memory_region@.len(),
        vm.pa_region@ == Seq::new(
            answers.len(),
            |k: int| crate::vmm::memory::region_record(vm.config.memory_region@[k], answers[k]),
        ),
        forall|k: int|
            0 <= k < answers.len() ==> #[trigger] answers[k]
                + vm.config.memory_region@[k].length <= isize::MAX,
        vm.config.image.kernel_load_ipa <= isize::MAX,
        first_region(
            vm.config.memory_region@,
            vm.config.image.kernel_load_ipa,
            size,
            0,
        ) == Ok::<int, ImageFault>(i),
    ensures
        placement(vm, size, (Tracing { addresses: false, log: false })) matches Ok(copy) && copy.dst
            + vm.pa_region@[i].offset == vm.config.image.kernel_load_ipa,
{
    let ipa = vm.config.image.kernel_load_ipa;
    first_region_is_first(vm.config.memory_region@, ipa, size, 0, i);
    assert(answers[i] + vm.config.memory_region@[i].length <= isize::MAX);
}

/// A device tree or ramdisk whose configured place lies inside the machine's
/// first region stays inside the host memory behind that region, at the same
/// distance from its start.
pub proof fn image_stays_in_the_first_region(vm: Vm, ipa: usize, len: usize, dst: usize)
    requires
        host_addr(vm, 0, ipa) == Some(dst),
        lies_inside(vm.config.memory_region@[0], ipa, len),
    ensures
        dst - vm.pa_region@[0].pa_start == ipa - vm.config.memory_region@[0].ipa_start,
        vm.pa_region@[0].pa_start <= dst,
        dst + len <= vm.pa_region@[0].pa_start + vm.config.memory_region@[0].length,
{
}

/// How far the loader has come.
pub open spec fn progress(action: ImageAction) -> int {
    match action {
        ImageAction::CopyKernel(_) => 0,
        ImageAction::CreateFdt => 1,
        ImageAction::CopySystemFdt(_) => 1,
        ImageAction::ApplyOverlay => 2,
        ImageAction::EditSystemFdt(_) => 3,
        ImageAction::CopyDtb(_) => 3,
        ImageAction::CopyOverlaid(_) => 3,
        ImageAction::CopyRamdisk(_) => 4,
        ImageAction::Finish(_) => 5,
        ImageAction::Halt(_) => 5,
    }
}

/// Every operation brings the loader closer to its end, which it does not
/// leave again.
pub proof fn loader_comes_to_an_end(vm: Vm, inputs: ImageInputs, last: ImageAction, ok: bool)
    ensures
        progress(last) < 5 ==> progress(next_action(vm, inputs, last, ok)) > progress(last),
        progress(last) == 5 ==> next_action(vm, inputs, last, ok) == last,
{
}

/// The loader reports failure in two cases only: the kernel has no load
/// address, or the overlay cannot be applied.
pub proof fn reasons_for_failure(
    vm: Vm,
    platform: Platform,
    inputs: ImageInputs,
    last: ImageAction,
    ok: bool,
)
    ensures
        first_action(vm, platform, inputs) == ImageAction::Finish(false) <==>
            vm.config.image.kernel_load_ipa == 0,
        next_action(vm, inputs, last, ok) == ImageAction::Finish(false) <==> last
            == ImageAction::Finish(false) || (last == ImageAction::ApplyOverlay && !ok),
{
}

/// The system's device tree goes to the first machine, and to no other; a tree
/// is made for every other machine, and never for the first.
pub proof fn system_tree_is_for_the_first_machine(
    vm: Vm,
    platform: Platform,
    inputs: ImageInputs,
    last: ImageAction,
    ok: bool,
)
    ensures
        first_action(vm, platform, inputs) is CopySystemFdt ==> vm.id == 0,
        first_action(vm, platform, inputs) is CreateFdt ==> vm.id != 0,
        next_action(vm, inputs, last, ok) is CopySystemFdt ==> vm.id == 0,
        next_action(vm, inputs, last, ok) is CreateFdt ==> vm.id != 0,
{
}

/// A copy of the system's device tree is edited where it was put, right after
/// it was put there; nothing else is ever edited.
pub proof fn system_tree_is_copied_then_edited(
    vm: Vm,
    platform: Platform,
    inputs: ImageInputs,
    last: ImageAction,
    ok: bool,
)
    ensures
        last matches ImageAction::CopySystemFdt(copy) ==> next_action(vm, inputs, last, ok)
            == ImageAction::EditSystemFdt(copy.dst),
        next_action(vm, inputs, last, ok) is EditSystemFdt ==> last is CopySystemFdt,
        !(first_action(vm, platform, inputs) is EditSystemFdt),
{
}

/// A guest address has a host address exactly if the region and its memory are
/// there, the address is not before the region, and nothing overflows; both are
/// then equally far into the region.
pub proof fn host_address_keeps_the_distance(vm: Vm, i: int, ipa: usize)
    ensures
        host_addr(vm, i, ipa).is_some() <==> {
            &&& 0 <= i < vm.config.memory_region@.len()
            &&& i < vm.pa_region@.len()
            &&& vm.config.memory_region@[i].ipa_start <= ipa
            &&& vm.pa_region@[i].pa_start + (ipa - vm.config.memory_region@[i].ipa_start)
                <= usize::MAX
        },
        host_addr(vm, i, ipa) matches Some(dst) ==> dst - vm.pa_region@[i].pa_start == ipa
            - vm.config.memory_region@[i].ipa_start,
{
}

/// The search passes over the regions that do not hold the kernel.
proof fn search_passes_over(regions: Seq<VmRegion>, ipa: usize, size: usize, from: int, i: int)
    requires
        0 <= from <= i <= regions.len(),
        forall|j: int|
            from <= j < i ==> ipa < (#[trigger] regions[j]).ipa_start || (ipa + size <= usize::MAX
                && regions[j].ipa_start + regions[j].length <= usize::MAX && ipa + size
                > regions[j].ipa_start + regions[j].length),
    ensures
        first_region(regions, ipa, size, from) == first_region(regions, ipa, size, i),
    decreases i - from,
{
    if from < i {
        assert(ipa < regions[from].ipa_start || ipa + size > regions[from].ipa_start
            + regions[from].length);
        search_passes_over(regions, ipa, size, from + 1, i);
    }
}

/// Where a kernel goes. `i` is the number of regions at the beginning that
/// either start after the kernel or end before it does. If those are all,
/// there is no place for the kernel; if the next one runs over the end of the
/// address space, or the kernel does, there is an error; if it holds the
/// kernel, the kernel goes there, unless the memory is not there or tracing
/// objects.
pub proof fn kernel_goes_where_it_fits(vm: Vm, size: usize, trace: Tracing, i: int)
    requires
        0 <= i <= vm.config.memory_region@.len(),
        forall|j: int|
            0 <= j < i ==> vm.config.image.kernel_load_ipa < (
            #[trigger] vm.config.memory_region@[j]).ipa_start || (vm.config.image.kernel_load_ipa
                + size <= usize::MAX && vm.config.memory_region@[j].ipa_start
                + vm.config.memory_region@[j].length <= usize::MAX
                && vm.config.image.kernel_load_ipa + size > vm.config.memory_region@[j].ipa_start
                + vm.config.memory_region@[j].length),
    ensures
        ({
            let ipa = vm.config.image.kernel_load_ipa;
            let region = vm.config.memory_region@[i];
            let dst = vm.pa_region@[i].pa_start + (ipa - region.ipa_start);
            let end = region.ipa_start + region.length;
            let r = placement(vm, size, trace);
            if i == vm.config.memory_region@.len() {
                r == Err::<ImageCopy, ImageFault>(ImageFault::NoRegion)
            } else if region.ipa_start <= ipa && (ipa + size > usize::MAX || end > usize::MAX) {
                r == Err::<ImageCopy, ImageFault>(ImageFault::BadAddress)
            } else if region.ipa_start <= ipa && ipa + size <= end {
                if i >= vm.pa_region@.len() || dst > usize::MAX {
                    r == Err::<ImageCopy, ImageFault>(ImageFault::BadAddress)
                } else if trace.addresses && dst < 0x1000 {
                    r matches Err(ImageFault::IllegalAddr(addr)) && addr == dst
                } else if trace.log && size < 4 {
                    r == Err::<ImageCopy, ImageFault>(ImageFault::ShortKernel)
                } else {
                    r matches Ok(copy) && copy.dst == dst && copy.len == size
                }
            } else {
                true
            }
        }),
{
    search_passes_over(
        vm.config.memory_region@,
        vm.config.image.kernel_load_ipa,
        size,
        0,
        i,
    );
}

/// How loading begins. A machine without a load address gets nothing. An
/// operating system with a named kernel gets the built-in one on a board that
/// has one, if the name is right for every board the image is built for: not
/// empty on QEMU, "Linux-5.10" on the RK3588. Any other machine goes on as if
/// its kernel had been loaded.
pub proof fn loading_begins_with_the_kernel(
    vm: Vm,
    platform: Platform,
    inputs: ImageInputs,
    copied: ImageCopy,
    ok: bool,
)
    ensures
        ({
            let first = first_action(vm, platform, inputs);
            let named = vm.config.os_type == VmType::VmTOs
                && vm.config.image.kernel_img_name.is_some();
            let name = vm.config.image.kernel_img_name.unwrap()@;
            let wrong = (platform.qemu && name.len() == 0) || (platform.rk3588 && name
                != "Linux-5.10"@);
            if vm.config.image.kernel_load_ipa == 0 {
                first == ImageAction::Finish(false)
            } else if named && wrong {
                first == ImageAction::Halt(ImageFault::KernelName)
            } else if named && (platform.qemu || platform.rk3588) {
                match placement(vm, inputs.kernel_size, inputs.trace) {
                    Ok(copy) => first == ImageAction::CopyKernel(copy),
                    Err(fault) => first == ImageAction::Halt(fault),
                }
            } else {
                first == next_action(vm, inputs, ImageAction::CopyKernel(copied), ok)
            }
        }),
{
}

/// What follows the kernel. The first machine gets the whole system tree at its
/// load address, any other has a tree made for it; a machine without a load
/// address for a tree goes on as if it had its tree.
pub proof fn device_tree_follows_the_kernel(
    vm: Vm,
    inputs: ImageInputs,
    copied: ImageCopy,
    ok: bool,
    edited: usize,
)
    ensures
        ({
            let ipa = vm.config.image.device_tree_load_ipa;
            let next = next_action(vm, inputs, ImageAction::CopyKernel(copied), ok);
            if ipa == 0 {
                next == next_action(vm, inputs, ImageAction::EditSystemFdt(edited), ok)
            } else if vm.id != 0 {
                next == ImageAction::CreateFdt
            } else if host_addr(vm, 0, ipa).is_none() {
                next == ImageAction::Halt(ImageFault::BadAddress)
            } else if inputs.system_fdt_len.is_none() {
                next == ImageAction::Halt(ImageFault::NoSystemFdt)
            } else {
                next matches ImageAction::CopySystemFdt(copy) && Some(copy.dst) == host_addr(
                    vm,
                    0,
                    ipa,
                ) && Some(copy.len) == inputs.system_fdt_len
            }
        }),
{
}

/// What follows a tree that was made for a machine: without an overlay the tree
/// is copied to its load address; with an overlay of any length the overlay is
/// applied first, and then the result is copied there. A tree that cannot be
/// made stops everything; an overlay that cannot be applied is a failure.
pub proof fn overlay_is_applied_exactly_if_there_is_one(vm: Vm, inputs: ImageInputs)
    ensures
        ({
            let made = next_action(vm, inputs, ImageAction::CreateFdt, true);
            let applied = next_action(vm, inputs, ImageAction::ApplyOverlay, true);
            match host_addr(vm, 0, vm.config.image.device_tree_load_ipa) {
                Some(dst) => {
                    &&& made == ImageAction::CopyDtb(dst) <==> vm.config.fdt_overlay@.len() == 0
                    &&& made == ImageAction::ApplyOverlay <==> vm.config.fdt_overlay@.len() >= 1
                    &&& applied == ImageAction::CopyOverlaid(dst)
                },
                None => made == ImageAction::Halt(ImageFault::BadAddress) && applied
                    == ImageAction::Halt(ImageFault::BadAddress),
            }
        }),
        next_action(vm, inputs, ImageAction::CreateFdt, false) == ImageAction::Halt(
            ImageFault::CreateFdt,
        ),
        next_action(vm, inputs, ImageAction::ApplyOverlay, false) == ImageAction::Finish(false),
{
}

/// What follows the tree, whichever it was: the whole ramdisk goes to its load
/// address if it has one, and that is all.
pub proof fn ramdisk_follows_the_tree(
    vm: Vm,
    inputs: ImageInputs,
    last: ImageAction,
    ok: bool,
    copied: ImageCopy,
)
    requires
        last is EditSystemFdt || last is CopyDtb || last is CopyOverlaid,
    ensures
        ({
            let ipa = vm.config.image.ramdisk_load_ipa;
            let next = next_action(vm, inputs, last, ok);
            if ipa == 0 {
                next == ImageAction::Finish(true)
            } else if host_addr(vm, 0, ipa).is_none() {
                next == ImageAction::Halt(ImageFault::BadAddress)
            } else {
                next matches ImageAction::CopyRamdisk(copy) && Some(copy.dst) == host_addr(
                    vm,
                    0,
                    ipa,
                ) && copy.len == inputs.ramdisk_len
            }
        }),
        next_action(vm, inputs, ImageAction::CopyRamdisk(copied), ok) == ImageAction::Finish(true),
{
}

} // verus!
