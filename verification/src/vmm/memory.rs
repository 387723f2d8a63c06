//! Memory of a new machine: the root of its page table and the host memory
//! behind each of its regions.
//!
//! The construction asks for one allocation after another. [`memory_request`]
//! says what is to be allocated, [`memory_root`] and [`memory_region`] take the
//! answers.

use vstd::prelude::*;

use crate::kernel::config::VmRegion;
use crate::kernel::vm::{PageMapping, S2Attr, Vm, VmPa};
use crate::platform::{Arch, Platform};

verus! {

/// How far the construction has come.
#[derive(Clone, Copy, PartialEq, Eq, Structural, Debug)]
pub enum MemoryStep {
    /// The root of the page table is needed.
    Root,
    /// Memory for this region is needed.
    Region(usize),
    /// Over; the flag says whether the machine has its memory.
    Done(bool),
    /// The distance between guest and host address is out of range: stop with
    /// an error.
    Halt,
}

/// What the construction needs next.
#[derive(Clone, Copy, PartialEq, Eq, Structural, Debug)]
pub enum MemoryRequest {
    /// One page for the root of the page table.
    AllocRootPage,
    /// Consecutive pages for the root of the page table, aligned to a number
    /// of pages.
    AllocRootPages { pages: usize, align: usize },
    /// Memory of this length.
    AllocRegion { length: usize },
    /// Nothing; the flag says whether the machine has its memory.
    Finish(bool),
    /// Stop with an error.
    Halt,
}

/// What the construction needs next.
pub open spec fn request(arch: Arch, regions: Seq<VmRegion>, step: MemoryStep) -> MemoryRequest {
    match step {
        MemoryStep::Root => match arch {
            Arch::Aarch64 => MemoryRequest::AllocRootPage,
            Arch::Riscv64 => MemoryRequest::AllocRootPages { pages: 4, align: 4 },
        },
        MemoryStep::Region(i) => MemoryRequest::AllocRegion { length: regions[i as int].length },
        MemoryStep::Done(ok) => MemoryRequest::Finish(ok),
        MemoryStep::Halt => MemoryRequest::Halt,
    }
}

/// What the construction of `vm`'s memory needs next.
pub fn memory_request(platform: &Platform, vm: &Vm, step: MemoryStep) -> (r: MemoryRequest)
    requires
        step matches MemoryStep::Region(i) ==> i < vm.config.memory_region.len(),
    ensures
        r == request(platform.arch, vm.config.memory_region@, step),
{
    match step {
        MemoryStep::Root => match platform.arch {
            Arch::Aarch64 => MemoryRequest::AllocRootPage,
            Arch::Riscv64 => MemoryRequest::AllocRootPages { pages: 4, align: 4 },
        },
        MemoryStep::Region(i) => MemoryRequest::AllocRegion {
            length: vm.config.memory_region[i].length,
        },
        MemoryStep::Done(ok) => MemoryRequest::Finish(ok),
        MemoryStep::Halt => MemoryRequest::Halt,
    }
}

/// The step after `done` regions have their memory.
pub open spec fn step_after(count: nat, done: nat) -> MemoryStep {
    if done < count {
        MemoryStep::Region(done as usize)
    } else {
        MemoryStep::Done(true)
    }
}

/// Takes the root of the page table; `None` says that there was no memory for
/// it.
pub fn memory_root(vm: &mut Vm, frame: Option<usize>) -> (r: MemoryStep)
    ensures
        final(vm).id == old(vm).id,
        final(vm).config == old(vm).config,
        final(vm).pa_region == old(vm).pa_region,
        final(vm).vcpu_list == old(vm).vcpu_list,
        match frame {
            Some(f) => {
                &&& final(vm).pt_dir == Some(f)
                &&& final(vm).mem_region_num == old(vm).config.memory_region.len()
                &&& r == step_after(old(vm).config.memory_region@.len(), 0)
            },
            None => {
                &&& final(vm).pt_dir == old(vm).pt_dir
                &&& final(vm).mem_region_num == old(vm).mem_region_num
                &&& r == MemoryStep::Done(false)
            },
        },
{
    match frame {
        Some(f) => {
            let count: usize = vm.config.memory_region.len();
            vm.pt_dir = Some(f);
            vm.mem_region_num = count;
            if 0 < count {
                MemoryStep::Region(0)
            } else {
                MemoryStep::Done(true)
            }
        },
        None => MemoryStep::Done(false),
    }
}

/// The distance from host address `pa` to guest address `ipa` is a signed word.
pub open spec fn distance_fits(ipa: usize, pa: usize) -> bool {
    isize::MIN <= (ipa as isize) - (pa as isize) <= isize::MAX
}

/// The record of a region that is backed by host memory at `pa`.
pub open spec fn region_record(region: VmRegion, pa: usize) -> VmPa {
    VmPa {
        pa_start: pa,
        pa_length: region.length,
        offset: ((region.ipa_start as isize) - (pa as isize)) as isize,
    }
}

/// The mapping of a region onto host memory at `pa`.
pub open spec fn region_mapping(region: VmRegion, pa: usize) -> PageMapping {
    PageMapping {
        ipa: region.ipa_start,
        len: region.length,
        pa,
        attr: S2Attr::Normal,
        map_block: false,
    }
}

/// The step after an answer for region `i`; an answer of zero says that there
/// was no memory.
pub open spec fn region_step(regions: Seq<VmRegion>, i: usize, pa: usize) -> MemoryStep {
    if pa == 0 {
        MemoryStep::Done(false)
    } else if !distance_fits(regions[i as int].ipa_start, pa) {
        MemoryStep::Halt
    } else {
        step_after(regions.len(), (i + 1) as nat)
    }
}

/// Whether an answer for region `i` gives it memory.
pub open spec fn region_backed(regions: Seq<VmRegion>, i: usize, pa: usize) -> bool {
    pa != 0 && distance_fits(regions[i as int].ipa_start, pa)
}

/// Takes the host memory for region `i`, at `pa`, and says what is to be
/// entered in the machine's page table. Zero says that there was no memory.
pub fn memory_region(vm: &mut Vm, i: usize, pa: usize) -> (r: (MemoryStep, Option<PageMapping>))
    requires
        i < old(vm).config.memory_region.len(),
    ensures
        final(vm).id == old(vm).id,
        final(vm).config == old(vm).config,
        final(vm).pt_dir == old(vm).pt_dir,
        final(vm).mem_region_num == old(vm).mem_region_num,
        final(vm).vcpu_list == old(vm).vcpu_list,
        r.0 == region_step(old(vm).config.memory_region@, i, pa),
        if region_backed(old(vm).config.memory_region@, i, pa) {
            &&& final(vm).pa_region@ == old(vm).pa_region@.push(
                region_record(old(vm).config.memory_region[i as int], pa),
            )
            &&& r.1 == Some(region_mapping(old(vm).config.memory_region[i as int], pa))
        } else {
            final(vm).pa_region@ == old(vm).pa_region@ && r.1.is_none()
        },
{
    if pa == 0 {
        return (MemoryStep::Done(false), None);
    }
    let region: VmRegion = vm.config.memory_region[i];
    let count: usize = vm.config.memory_region.len();
    let offset: isize = match (region.ipa_start as isize).checked_sub(pa as isize) {
        Some(offset) => offset,
        None => {
            return (MemoryStep::Halt, None);
        },
    };
    vm.pa_region.push(VmPa { pa_start: pa, pa_length: region.length, offset });
    let mapping = PageMapping {
        ipa: region.ipa_start,
        len: region.length,
        pa,
        attr: S2Attr::Normal,
        map_block: false,
    };
    if i + 1 < count {
        (MemoryStep::Region(i + 1), Some(mapping))
    } else {
        (MemoryStep::Done(true), Some(mapping))
    }
}

/// A machine's memory while it is being constructed.
pub struct MemoryBuild {
    pub step: MemoryStep,
    pub records: Seq<VmPa>,
    pub mappings: Seq<PageMapping>,
}

/// The construction after one more answer for the region it waits for. It
/// takes no answers when it is over.
pub open spec fn build_next(regions: Seq<VmRegion>, b: MemoryBuild, pa: usize) -> MemoryBuild {
    match b.step {
        MemoryStep::Region(i) => if region_backed(regions, i, pa) {
            MemoryBuild {
                step: region_step(regions, i, pa),
                records: b.records.push(region_record(regions[i as int], pa)),
                mappings: b.mappings.push(region_mapping(regions[i as int], pa)),
            }
        } else {
            MemoryBuild { step: region_step(regions, i, pa), ..b }
        },
        _ => b,
    }
}

/// The construction after a series of answers, from a machine that has its
/// root and no memory yet.
pub open spec fn build_run(regions: Seq<VmRegion>, answers: Seq<usize>) -> MemoryBuild
    decreases answers.len(),
{
    if answers.len() == 0 {
        MemoryBuild {
            step: step_after(regions.len(), 0),
            records: Seq::empty(),
            mappings: Seq::empty(),
        }
    } else {
        build_next(regions, build_run(regions, answers.drop_last()), answers.last())
    }
}

/// The first regions, as many as there are usable answers, are recorded and
/// mapped in their order, and the next one is waited for.
proof fn build_prefix(regions: Seq<VmRegion>, answers: Seq<usize>)
    requires
        regions.len() <= usize::MAX,
        answers.len() <= regions.len(),
        forall|i: int| 0 <= i < answers.len() ==> #[trigger] region_backed(
            regions,
            i as usize,
            answers[i],
        ),
    ensures
        ({
            let b = build_run(regions, answers);
            &&& b.step == step_after(regions.len(), answers.len())
            &&& b.records == Seq::new(answers.len(), |i: int| region_record(regions[i], answers[i]))
            &&& b.mappings == Seq::new(
                answers.len(),
                |i: int| region_mapping(regions[i], answers[i]),
            )
        }),
    decreases answers.len(),
{
    let b = build_run(regions, answers);
    if answers.len() == 0 {
        assert(b.records =~= Seq::new(
            answers.len(),
            |i: int| region_record(regions[i], answers[i]),
        ));
        assert(b.mappings =~= Seq::new(
            answers.len(),
            |i: int| region_mapping(regions[i], answers[i]),
        ));
    } else {
        let front = answers.drop_last();
        assert forall|i: int| 0 <= i < front.len() implies #[trigger] region_backed(
            regions,
            i as usize,
            front[i],
        ) by {
            assert(region_backed(regions, i as usize, answers[i]));
        }
        build_prefix(regions, front);
        let last: int = answers.len() - 1;
        assert(region_backed(regions, last as usize, answers[last]));
        assert(b.records =~= Seq::new(
            answers.len(),
            |i: int| region_record(regions[i], answers[i]),
        ));
        assert(b.mappings =~= Seq::new(
            answers.len(),
            |i: int| region_mapping(regions[i], answers[i]),
        ));
    }
}

/// If there is memory for every region, the machine ends up with each of its
/// regions recorded and mapped, in the order of the configuration.
pub proof fn all_regions_are_backed(regions: Seq<VmRegion>, answers: Seq<usize>)
    requires
        regions.len() <= usize::MAX,
        answers.len() == regions.len(),
        forall|i: int| 0 <= i < answers.len() ==> #[trigger] region_backed(
            regions,
            i as usize,
            answers[i],
        ),
    ensures
        build_run(regions, answers).step == MemoryStep::Done(true),
        build_run(regions, answers).records == Seq::new(
            regions.len(),
            |i: int| region_record(regions[i], answers[i]),
        ),
        build_run(regions, answers).mappings == Seq::new(
            regions.len(),
            |i: int| region_mapping(regions[i], answers[i]),
        ),
{
    build_prefix(regions, answers);
}

/// The first region without memory ends the construction without success;
/// the regions before it, and only those, have been recorded and mapped.
pub proof fn missing_memory_ends_it(regions: Seq<VmRegion>, answers: Seq<usize>)
    requires
        regions.len() <= usize::MAX,
        0 < answers.len() <= regions.len(),
        answers.last() == 0,
        forall|i: int| 0 <= i < answers.len() - 1 ==> #[trigger] region_backed(
            regions,
            i as usize,
            answers[i],
        ),
    ensures
        build_run(regions, answers).step == MemoryStep::Done(false),
        build_run(regions, answers).records == Seq::new(
            (answers.len() - 1) as nat,
            |i: int| region_record(regions[i], answers[i]),
        ),
        build_run(regions, answers).mappings == Seq::new(
            (answers.len() - 1) as nat,
            |i: int| region_mapping(regions[i], answers[i]),
        ),
{
    let front = answers.drop_last();
    assert forall|i: int| 0 <= i < front.len() implies #[trigger] region_backed(
        regions,
        i as usize,
        front[i],
    ) by {
        assert(region_backed(regions, i as usize, answers[i]));
    }
    build_prefix(regions, front);
    assert(build_run(regions, front).records =~= Seq::new(
        (answers.len() - 1) as nat,
        |i: int| region_record(regions[i], answers[i]),
    ));
    assert(build_run(regions, front).mappings =~= Seq::new(
        (answers.len() - 1) as nat,
        |i: int| region_mapping(regions[i], answers[i]),
    ));
}

/// Adding a record's offset to a host address gives the guest address that it
/// backs.
pub proof fn offset_leads_to_guest_address(region: VmRegion, pa: usize, distance: usize)
    requires
        region.ipa_start <= isize::MAX,
        pa <= isize::MAX,
        distance < region.length,
    ensures
        region_record(region, pa).pa_start + distance + region_record(region, pa).offset
            == region.ipa_start + distance,
{
}

/// What is asked for: one page for the root on AArch64, four aligned ones on
/// RISC-V, and for a region exactly its length.
pub proof fn requests_ask_for_what_is_needed(regions: Seq<VmRegion>, i: usize, ok: bool)
    requires
        i < regions.len(),
    ensures
        request(Arch::Aarch64, regions, MemoryStep::Root) == MemoryRequest::AllocRootPage,
        request(Arch::Riscv64, regions, MemoryStep::Root) == (MemoryRequest::AllocRootPages {
            pages: 4,
            align: 4,
        }),
        forall|arch: Arch|
            #[trigger] request(arch, regions, MemoryStep::Region(i)) == (
            MemoryRequest::AllocRegion { length: regions[i as int].length }),
        forall|arch: Arch|
            #[trigger] request(arch, regions, MemoryStep::Done(ok)) == MemoryRequest::Finish(ok),
        forall|arch: Arch|
            #[trigger] request(arch, regions, MemoryStep::Halt) == MemoryRequest::Halt,
{
}

/// What an answer for region `i` leads to: without memory the construction ends
/// without success; if the distance between guest and host address is no signed
/// word it stops; otherwise the next region is asked for, or after the last
/// one the machine has its memory.
pub proof fn answer_leads_to_the_next_region(regions: Seq<VmRegion>, i: usize, pa: usize)
    requires
        i < regions.len() <= usize::MAX,
    ensures
        ({
            let distance = (regions[i as int].ipa_start as isize) - (pa as isize);
            let far = distance < isize::MIN || distance > isize::MAX;
            &&& region_backed(regions, i, pa) <==> pa != 0 && !far
            &&& pa == 0 ==> region_step(regions, i, pa) == MemoryStep::Done(false)
            &&& pa != 0 && far ==> region_step(regions, i, pa) == MemoryStep::Halt
            &&& pa != 0 && !far && i + 1 < regions.len() ==> region_step(regions, i, pa)
                == MemoryStep::Region((i + 1) as usize)
            &&& pa != 0 && !far && i + 1 == regions.len() ==> region_step(regions, i, pa)
                == MemoryStep::Done(true)
        }),
{
}

/// After the root, the first region is asked for if there is one.
pub proof fn root_leads_to_the_first_region(count: nat)
    ensures
        count == 0 ==> step_after(count, 0) == MemoryStep::Done(true),
        count > 0 ==> step_after(count, 0) == MemoryStep::Region(0),
{
}

/// When every region has its memory, each guest address of a region lies in the
/// mapping made for that region, which takes it to the same distance from the
/// region's host address; nothing outside the region is mapped by it. The
/// region is recorded with its host address and its whole length, and the
/// record leads back to the guest address.
pub proof fn every_guest_address_is_mapped(
    regions: Seq<VmRegion>,
    answers: Seq<usize>,
    k: int,
    addr: int,
)
    requires
        regions.len() <= usize::MAX,
        answers.len() == regions.len(),
        forall|i: int| 0 <= i < answers.len() ==> #[trigger] answers[i] != 0,
        forall|i: int| 0 <= i < answers.len() ==> #[trigger] answers[i] <= isize::MAX,
        forall|i: int| 0 <= i < regions.len() ==> (#[trigger] regions[i]).ipa_start <= isize::MAX,
        0 <= k < regions.len(),
    ensures
        ({
            let b = build_run(regions, answers);
            let mapping = b.mappings[k];
            let record = b.records[k];
            &&& b.step == MemoryStep::Done(true)
            &&& b.mappings.len() == regions.len()
            &&& b.records.len() == regions.len()
            &&& regions[k].ipa_start <= addr < regions[k].ipa_start + regions[k].length
                <==> mapping.ipa <= addr < mapping.ipa + mapping.len
            &&& mapping.ipa == regions[k].ipa_start
            &&& mapping.len == regions[k].length
            &&& mapping.pa == answers[k]
            &&& mapping.attr == S2Attr::Normal
            &&& !mapping.map_block
            &&& record.pa_start == answers[k]
            &&& record.pa_length == regions[k].length
            &&& record.pa_start + record.offset == regions[k].ipa_start
        }),
{
    assert forall|i: int| 0 <= i < answers.len() implies #[trigger] region_backed(
        regions,
        i as usize,
        answers[i],
    ) by {
        assert(answers[i] != 0);
        assert(regions[i].ipa_start <= isize::MAX);
    }
    all_regions_are_backed(regions, answers);
}

/// Whatever memory a region gets, its mapping and its record are of its whole
/// length, from its guest address and from the host address.
pub proof fn mapping_and_record_are_of_the_whole_region(region: VmRegion, pa: usize)
    ensures
        region_mapping(region, pa).ipa == region.ipa_start,
        region_mapping(region, pa).len == region.length,
        region_mapping(region, pa).pa == pa,
        region_mapping(region, pa).attr == S2Attr::Normal,
        !region_mapping(region, pa).map_block,
        region_record(region, pa).pa_start == pa,
        region_record(region, pa).pa_length == region.length,
        isize::MIN <= (region.ipa_start as isize) - (pa as isize) <= isize::MAX ==> region_record(
            region,
            pa,
        ).offset + (pa as isize) == region.ipa_start as isize,
{
}

} // verus!
