//! Setting up a machine before it boots.

use vstd::prelude::*;

verus! {

/// A step of the setup.
#[derive(Clone, Copy, PartialEq, Eq, Structural, Debug)]
pub enum SetupAction {
    /// Give the virtual cores to the physical cores.
    InitCpu,
    /// Give the machine its memory.
    InitMemory,
    /// Load its images.
    InitImage,
    /// Hand host devices to it.
    InitPassthrough,
    /// Set up its IOMMU.
    InitIommu,
    /// Register the machine for asynchronous requests.
    AddAsyncUsedInfo(usize),
    /// The machine is set up.
    Finish,
    /// Stop with an error.
    Halt(SetupFault),
}

/// Errors that end the setup for good.
#[derive(Clone, Copy, PartialEq, Eq, Structural, Debug)]
pub enum SetupFault {
    /// There is no configuration for the machine.
    NoConfig,
    /// There are too many machines.
    OutOfVm,
    Memory,
    Image,
    Passthrough,
    Iommu,
}

/// Begins the setup of a machine; `configured` says whether there is a
/// configuration for it.
pub fn vmm_setup_config(configured: bool) -> (r: SetupAction)
    ensures
        r == if configured {
            SetupAction::InitCpu
        } else {
            SetupAction::Halt(SetupFault::NoConfig)
        },
{
    if configured {
        SetupAction::InitCpu
    } else {
        SetupAction::Halt(SetupFault::NoConfig)
    }
}

/// The step that follows `last`.
pub open spec fn setup_step(
    vm_id: usize,
    vm_num_max: usize,
    last: SetupAction,
    ok: bool,
) -> SetupAction {
    match last {
        SetupAction::InitCpu => if vm_id >= vm_num_max {
            SetupAction::Halt(SetupFault::OutOfVm)
        } else {
            SetupAction::InitMemory
        },
        SetupAction::InitMemory => if ok {
            SetupAction::InitImage
        } else {
            SetupAction::Halt(SetupFault::Memory)
        },
        SetupAction::InitImage => if ok {
            SetupAction::InitPassthrough
        } else {
            SetupAction::Halt(SetupFault::Image)
        },
        SetupAction::InitPassthrough => if ok {
            SetupAction::InitIommu
        } else {
            SetupAction::Halt(SetupFault::Passthrough)
        },
        SetupAction::InitIommu => if ok {
            SetupAction::AddAsyncUsedInfo(vm_id)
        } else {
            SetupAction::Halt(SetupFault::Iommu)
        },
        SetupAction::AddAsyncUsedInfo(_) => SetupAction::Finish,
        SetupAction::Finish => SetupAction::Finish,
        SetupAction::Halt(fault) => SetupAction::Halt(fault),
    }
}

/// The step that follows `last`, which has been carried out; `ok` says whether
/// it succeeded, where it can fail.
pub fn setup_next(vm_id: usize, vm_num_max: usize, last: SetupAction, ok: bool) -> (r: SetupAction)
    ensures
        r == setup_step(vm_id, vm_num_max, last, ok),
{
    match last {
        SetupAction::InitCpu => {
            if vm_id >= vm_num_max {
                SetupAction::Halt(SetupFault::OutOfVm)
            } else {
                SetupAction::InitMemory
            }
        },
        SetupAction::InitMemory => {
            if ok {
                SetupAction::InitImage
            } else {
                SetupAction::Halt(SetupFault::Memory)
            }
        },
        SetupAction::InitImage => {
            if ok {
                SetupAction::InitPassthrough
            } else {
                SetupAction::Halt(SetupFault::Image)
            }
        },
        SetupAction::InitPassthrough => {
            if ok {
                SetupAction::InitIommu
            } else {
                SetupAction::Halt(SetupFault::Passthrough)
            }
        },
        SetupAction::InitIommu => {
            if ok {
                SetupAction::AddAsyncUsedInfo(vm_id)
            } else {
                SetupAction::Halt(SetupFault::Iommu)
            }
        },
        SetupAction::AddAsyncUsedInfo(_) => SetupAction::Finish,
        SetupAction::Finish => SetupAction::Finish,
        SetupAction::Halt(fault) => SetupAction::Halt(fault),
    }
}

/// The steps after the first, given their outcomes.
pub open spec fn setup_run(vm_id: usize, vm_num_max: usize, outcomes: Seq<bool>) -> SetupAction
    decreases outcomes.len(),
{
    if outcomes.len() == 0 {
        SetupAction::InitCpu
    } else {
        setup_step(
            vm_id,
            vm_num_max,
            setup_run(vm_id, vm_num_max, outcomes.drop_last()),
            outcomes.last(),
        )
    }
}

/// How many steps lie before this one.
pub open spec fn setup_rank(action: SetupAction) -> int {
    match action {
        SetupAction::InitCpu => 0,
        SetupAction::InitMemory => 1,
        SetupAction::InitImage => 2,
        SetupAction::InitPassthrough => 3,
        SetupAction::InitIommu => 4,
        SetupAction::AddAsyncUsedInfo(_) => 5,
        SetupAction::Finish => 6,
        SetupAction::Halt(_) => 6,
    }
}

/// Every step brings the setup closer to its end, which it does not leave
/// again.
pub proof fn setup_comes_to_an_end(vm_id: usize, vm_num_max: usize, last: SetupAction, ok: bool)
    ensures
        setup_rank(last) < 6 ==> setup_rank(setup_step(vm_id, vm_num_max, last, ok)) > setup_rank(
            last,
        ),
        setup_rank(last) == 6 ==> setup_step(vm_id, vm_num_max, last, ok) == last,
{
}

/// A machine is set up exactly if there is room for it and memory, images,
/// devices and IOMMU all succeeded.
pub proof fn set_up_means_all_succeeded(vm_id: usize, vm_num_max: usize, outcomes: Seq<bool>)
    requires
        outcomes.len() == 6,
    ensures
        setup_run(vm_id, vm_num_max, outcomes) == SetupAction::Finish <==> vm_id < vm_num_max
            && outcomes[1] && outcomes[2] && outcomes[3] && outcomes[4],
{
    reveal_with_fuel(setup_run, 7);
    let o5 = outcomes.drop_last();
    let o4 = o5.drop_last();
    let o3 = o4.drop_last();
    let o2 = o3.drop_last();
    let o1 = o2.drop_last();
    assert(setup_run(vm_id, vm_num_max, o1) == setup_step(
        vm_id,
        vm_num_max,
        SetupAction::InitCpu,
        outcomes[0],
    ));
}

/// The steps of the setup follow each other in one order; what each needs to
/// go on, and the error it ends in otherwise.
pub proof fn setup_follows_its_order(vm_id: usize, vm_num_max: usize, other: usize, ok: bool)
    ensures
        vm_id < vm_num_max ==> setup_step(vm_id, vm_num_max, SetupAction::InitCpu, ok)
            == SetupAction::InitMemory,
        vm_id >= vm_num_max ==> setup_step(vm_id, vm_num_max, SetupAction::InitCpu, ok)
            == SetupAction::Halt(SetupFault::OutOfVm),
        setup_step(vm_id, vm_num_max, SetupAction::InitMemory, true) == SetupAction::InitImage,
        setup_step(vm_id, vm_num_max, SetupAction::InitImage, true) == SetupAction::InitPassthrough,
        setup_step(vm_id, vm_num_max, SetupAction::InitPassthrough, true) == SetupAction::InitIommu,
        setup_step(vm_id, vm_num_max, SetupAction::InitIommu, true)
            == SetupAction::AddAsyncUsedInfo(vm_id),
        setup_step(vm_id, vm_num_max, SetupAction::AddAsyncUsedInfo(other), ok)
            == SetupAction::Finish,
        setup_step(vm_id, vm_num_max, SetupAction::InitMemory, false) == SetupAction::Halt(
            SetupFault::Memory,
        ),
        setup_step(vm_id, vm_num_max, SetupAction::InitImage, false) == SetupAction::Halt(
            SetupFault::Image,
        ),
        setup_step(vm_id, vm_num_max, SetupAction::InitPassthrough, false) == SetupAction::Halt(
            SetupFault::Passthrough,
        ),
        setup_step(vm_id, vm_num_max, SetupAction::InitIommu, false) == SetupAction::Halt(
            SetupFault::Iommu,
        ),
{
}

} // verus!
