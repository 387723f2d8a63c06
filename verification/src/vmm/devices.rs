//! Host devices handed to a machine.

use vstd::prelude::*;

use crate::kernel::config::{EmuDeviceType, PassthroughRegion, VmConfigEntry};
use crate::kernel::vm::{PageMapping, S2Attr, Vm};

verus! {

/// An operation that gives a machine access to a device.
#[derive(Clone, Copy, PartialEq, Eq, Structural, Debug)]
pub enum DeviceAction {
    /// Enter a range in the page table. This cannot fail.
    MapRange(PageMapping),
    /// Give an interrupt to the machine.
    RegisterIrq(usize),
    /// Set up the machine's IOMMU.
    InitIommu,
    /// Put the device with this stream identifier behind it.
    AddIommuDevice(usize),
}

/// Mapping of a passed-through range. `dev_property` means "cacheable" here. The
/// name reads like a request for device attributes, which is not what it is.
pub open spec fn device_mapping(region: PassthroughRegion) -> PageMapping {
    PageMapping {
        ipa: region.ipa,
        len: region.length,
        pa: region.pa,
        attr: if region.dev_property {
            S2Attr::Normal
        } else {
            S2Attr::NormalNoCache
        },
        map_block: true,
    }
}

/// The mappings of the passed-through ranges, in order.
pub open spec fn map_actions(regions: Seq<PassthroughRegion>) -> Seq<DeviceAction> {
    Seq::new(regions.len(), |i: int| DeviceAction::MapRange(device_mapping(regions[i])))
}

/// The registrations of the passed-through interrupts, in order.
pub open spec fn irq_actions(irqs: Seq<usize>) -> Seq<DeviceAction> {
    Seq::new(irqs.len(), |i: int| DeviceAction::RegisterIrq(irqs[i]))
}

/// What handing the configured devices to a machine takes.
pub open spec fn passthrough_actions(config: VmConfigEntry) -> Seq<DeviceAction> {
    map_actions(config.passthrough.regions@) + irq_actions(config.passthrough.irqs@)
}

/// What handing the configured devices to a machine takes: all ranges are
/// mapped, then the interrupts are registered. The series ends early with the
/// first interrupt that cannot be registered.
pub fn vmm_init_passthrough_device(vm: &Vm) -> (r: Vec<DeviceAction>)
    ensures
        r@ == passthrough_actions(vm.config),
{
    let regions: &Vec<PassthroughRegion> = &vm.config.passthrough.regions;
    let irqs: &Vec<usize> = &vm.config.passthrough.irqs;
    let mut r: Vec<DeviceAction> = Vec::new();
    let n: usize = regions.len();
    let mut i: usize = 0;
    while i < n
        invariant
            i <= n,
            n == regions@.len(),
            r@ == map_actions(regions@).take(i as int),
        decreases n - i,
    {
        let region: PassthroughRegion = regions[i];
        let attr = if region.dev_property {
            S2Attr::Normal
        } else {
            S2Attr::NormalNoCache
        };
        r.push(
            DeviceAction::MapRange(
                PageMapping {
                    ipa: region.ipa,
                    len: region.length,
                    pa: region.pa,
                    attr,
                    map_block: true,
                },
            ),
        );
        i = i + 1;
        assert(r@ =~= map_actions(regions@).take(i as int));
    }
    assert(r@ =~= map_actions(regions@));
    let m: usize = irqs.len();
    let mut j: usize = 0;
    while j < m
        invariant
            j <= m,
            m == irqs@.len(),
            r@ == map_actions(regions@) + irq_actions(irqs@).take(j as int),
        decreases m - j,
    {
        r.push(DeviceAction::RegisterIrq(irqs[j]));
        j = j + 1;
        assert(r@ =~= map_actions(regions@) + irq_actions(irqs@).take(j as int));
    }
    assert(irq_actions(irqs@).take(m as int) =~= irq_actions(irqs@));
    r
}

/// Whether the machine has an emulated IOMMU.
pub open spec fn has_iommu(config: VmConfigEntry) -> bool {
    exists|i: int|
        0 <= i < config.emulated_device_list@.len()
            && #[trigger] config.emulated_device_list@[i].emu_type == EmuDeviceType::EmuDeviceTIOMMU
}

/// How many stream identifiers there are before the zero that ends the list.
pub open spec fn stream_count(ids: Seq<usize>) -> nat
    decreases ids.len(),
{
    if ids.len() == 0 || ids[0] == 0 {
        0
    } else {
        1 + stream_count(ids.skip(1))
    }
}

/// The additions of the devices behind the IOMMU, in order.
pub open spec fn stream_actions(ids: Seq<usize>) -> Seq<DeviceAction> {
    Seq::new(stream_count(ids), |i: int| DeviceAction::AddIommuDevice(ids[i]))
}

/// What setting up the IOMMU takes.
pub open spec fn iommu_actions(config: VmConfigEntry) -> Seq<DeviceAction> {
    let setup = if has_iommu(config) {
        seq![DeviceAction::InitIommu]
    } else {
        Seq::empty()
    };
    setup + stream_actions(config.passthrough.streams_ids@)
}

/// The count of stream identifiers is where the first zero is, or the end.
pub proof fn streams_end_at_the_first_zero(ids: Seq<usize>)
    ensures
        stream_count(ids) <= ids.len(),
        forall|i: int| 0 <= i < stream_count(ids) ==> ids[i] != 0,
        stream_count(ids) < ids.len() ==> ids[stream_count(ids) as int] == 0,
    decreases ids.len(),
{
    if ids.len() > 0 && ids[0] != 0 {
        let rest = ids.skip(1);
        streams_end_at_the_first_zero(rest);
        assert forall|i: int| 0 <= i < stream_count(ids) implies ids[i] != 0 by {
            if i > 0 {
                assert(ids[i] == rest[i - 1]);
            }
        }
        if stream_count(ids) < ids.len() {
            assert(ids[stream_count(ids) as int] == rest[stream_count(rest) as int]);
        }
    }
}

/// Only one number of identifiers ends at the first zero.
proof fn stream_count_is(ids: Seq<usize>, n: int)
    requires
        0 <= n <= ids.len(),
        forall|i: int| 0 <= i < n ==> ids[i] != 0,
        n < ids.len() ==> ids[n] == 0,
    ensures
        stream_count(ids) == n,
{
    streams_end_at_the_first_zero(ids);
    if stream_count(ids) < n {
        assert(ids[stream_count(ids) as int] != 0);
    }
    if n < stream_count(ids) {
        assert(ids[n] != 0);
    }
}

/// What setting up a machine's IOMMU takes: the IOMMU itself, once, if the
/// machine has one; then its devices, up to the zero that ends the list. The
/// series ends early with the first operation that fails.
pub fn vmm_init_iommu_device(vm: &Vm) -> (r: Vec<DeviceAction>)
    ensures
        r@ == iommu_actions(vm.config),
{
    let mut r: Vec<DeviceAction> = Vec::new();
    let n: usize = vm.config.emulated_device_list.len();
    let mut i: usize = 0;
    let mut found: bool = false;
    while i < n && !found
        invariant
            i <= n,
            n == vm.config.emulated_device_list@.len(),
            found ==> has_iommu(vm.config),
            !found ==> forall|k: int|
                0 <= k < i ==> #[trigger] vm.config.emulated_device_list@[k].emu_type
                    != EmuDeviceType::EmuDeviceTIOMMU,
        decreases n - i,
    {
        if vm.config.emulated_device_list[i].emu_type == EmuDeviceType::EmuDeviceTIOMMU {
            found = true;
        }
        i = i + 1;
    }
    if found {
        r.push(DeviceAction::InitIommu);
    }
    let ghost setup = r@;
    assert(setup =~= if has_iommu(vm.config) {
        seq![DeviceAction::InitIommu]
    } else {
        Seq::empty()
    });
    let ids: &Vec<usize> = &vm.config.passthrough.streams_ids;
    let m: usize = ids.len();
    let mut j: usize = 0;
    let mut ended: bool = false;
    while j < m && !ended
        invariant
            j <= m,
            m == ids@.len(),
            forall|k: int| 0 <= k < j ==> ids@[k] != 0,
            ended ==> j < m && ids@[j as int] == 0,
            r@ == setup + Seq::new(j as nat, |k: int| DeviceAction::AddIommuDevice(ids@[k])),
        decreases m - j, if ended { 0int } else { 1int },
    {
        if ids[j] == 0 {
            ended = true;
        } else {
            r.push(DeviceAction::AddIommuDevice(ids[j]));
            j = j + 1;
            assert(r@ =~= setup + Seq::new(
                j as nat,
                |k: int| DeviceAction::AddIommuDevice(ids@[k]),
            ));
        }
    }
    proof {
        stream_count_is(ids@, j as int);
    }
    assert(r@ =~= iommu_actions(vm.config));
    r
}

/// Whether an operation succeeded, as far as the series is concerned.
pub open spec fn counts_as_success(action: DeviceAction, ok: bool) -> bool {
    ok || action is MapRange
}

/// Whether an operation succeeded, as far as the series is concerned: mapping
/// always does.
pub fn device_succeeded(action: &DeviceAction, ok: bool) -> (r: bool)
    ensures
        r == counts_as_success(*action, ok),
{
    match action {
        DeviceAction::MapRange(_) => true,
        _ => ok,
    }
}

/// Every passed-through range is mapped whole, at its own addresses, cacheable
/// exactly if it is said to be; after all ranges every interrupt is given to
/// the machine. Each has its turn in the order of the configuration.
pub proof fn every_range_and_interrupt_has_its_turn(config: VmConfigEntry, i: int)
    requires
        0 <= i < config.passthrough.regions@.len() + config.passthrough.irqs@.len(),
    ensures
        ({
            let n = config.passthrough.regions@.len();
            let region = config.passthrough.regions@[i];
            let actions = passthrough_actions(config);
            &&& actions.len() == n + config.passthrough.irqs@.len()
            &&& i < n ==> (actions[i] matches DeviceAction::MapRange(mapping) && mapping.ipa
                == region.ipa && mapping.pa == region.pa && mapping.len == region.length
                && mapping.map_block && (region.dev_property ==> mapping.attr == S2Attr::Normal)
                && (!region.dev_property ==> mapping.attr == S2Attr::NormalNoCache))
            &&& i >= n ==> actions[i] == DeviceAction::RegisterIrq(
                config.passthrough.irqs@[i - n as int],
            )
        }),
{
}

/// Without passed-through ranges and interrupts there is nothing to do.
pub proof fn nothing_passed_through(config: VmConfigEntry)
    requires
        config.passthrough.regions@.len() == 0,
        config.passthrough.irqs@.len() == 0,
    ensures
        passthrough_actions(config).len() == 0,
{
}

/// A machine with an IOMMU has it set up once, before anything else, however
/// many it is configured with. Then every stream up to the first zero, or the
/// end of the list, gets its device, in order.
pub proof fn iommu_comes_before_its_devices(config: VmConfigEntry, d: int, count: int)
    requires
        0 <= d < config.emulated_device_list@.len(),
        config.emulated_device_list@[d].emu_type == EmuDeviceType::EmuDeviceTIOMMU,
        0 <= count <= config.passthrough.streams_ids@.len(),
        forall|j: int| 0 <= j < count ==> #[trigger] config.passthrough.streams_ids@[j] != 0,
        count < config.passthrough.streams_ids@.len() ==> config.passthrough.streams_ids@[count]
            == 0,
    ensures
        iommu_actions(config).len() == count + 1,
        iommu_actions(config)[0] == DeviceAction::InitIommu,
        forall|j: int|
            0 <= j < count ==> iommu_actions(config)[j + 1] == DeviceAction::AddIommuDevice(
                #[trigger] config.passthrough.streams_ids@[j],
            ),
{
    stream_count_is(config.passthrough.streams_ids@, count);
    assert(has_iommu(config));
}

/// A machine without an IOMMU has none set up; its streams get their devices
/// all the same.
pub proof fn devices_without_an_iommu(config: VmConfigEntry, count: int)
    requires
        forall|d: int|
            0 <= d < config.emulated_device_list@.len() ==> (
            #[trigger] config.emulated_device_list@[d]).emu_type != EmuDeviceType::EmuDeviceTIOMMU,
        0 <= count <= config.passthrough.streams_ids@.len(),
        forall|j: int| 0 <= j < count ==> #[trigger] config.passthrough.streams_ids@[j] != 0,
        count < config.passthrough.streams_ids@.len() ==> config.passthrough.streams_ids@[count]
            == 0,
    ensures
        iommu_actions(config).len() == count,
        forall|j: int|
            0 <= j < count ==> iommu_actions(config)[j] == DeviceAction::AddIommuDevice(
                #[trigger] config.passthrough.streams_ids@[j],
            ),
{
    stream_count_is(config.passthrough.streams_ids@, count);
    assert(!has_iommu(config));
}

/// Mapping cannot fail; any other operation fails when it is said to.
pub proof fn only_mapping_cannot_fail(action: DeviceAction, ok: bool)
    ensures
        counts_as_success(action, true),
        !counts_as_success(action, false) <==> action is RegisterIrq || action is InitIommu
            || action is AddIommuDevice,
{
}

} // verus!
