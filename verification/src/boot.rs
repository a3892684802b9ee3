//! The order in which a core goes through its bootstrap, and how it starts
//! the next core.
//!
//! Cores come up one after another. A core that has finished its one-time
//! initialization writes the address at which the next core shall start into
//! the slot which that core watches, makes the write visible, and wakes the
//! sleeping cores. Nothing is waited for.

use crate::register::Operation;
use vstd::prelude::*;

verus! {

/// Cores of the processor.
pub const CORE_COUNT: u32 = 4;

/// Bytes of a boot slot: it holds one address.
pub const BOOT_SLOT_SIZE: u64 = 8;

/// The address at which the boot code of the kernel image starts.
pub const KERNEL_BOOT_ADDRESS: u64 = 0x8_0000;

/// The address of the slot that the given core watches for its start
/// address. The first core is started by the hardware and has no slot, nor
/// has a core that does not exist.
pub open spec fn boot_slot(core: int) -> Option<u64> {
    if core == 1 {
        Some(0xe0u64)
    } else if core == 2 {
        Some(0xe8u64)
    } else if core == 3 {
        Some(0xf0u64)
    } else {
        None
    }
}

/// What a core does to start the core after it: store the jump target in
/// the slot of that core, write the slot back from the data cache to
/// memory, send an event. Where no core follows, nothing.
pub open spec fn release_of_next(core: u32, jump_target: u64) -> Seq<Operation> {
    match boot_slot(core + 1) {
        Some(address) => seq![
            Operation::Write64 { address, doubleword: jump_target },
            Operation::FlushDataCache { start: address, size: BOOT_SLOT_SIZE },
            Operation::SendEvent,
        ],
        None => seq![],
    }
}

/// Finds the slot that the given core watches for its start address.
pub fn slot_of(core: u32) -> (slot: Option<u64>)
    ensures
        slot == boot_slot(core as int),
{
    match core {
        1 => Some(0xe0),
        2 => Some(0xe8),
        3 => Some(0xf0),
        _ => None,
    }
}

/// Plans how the given core starts the core after it at `jump_target`. The
/// last core has nobody to start and plans nothing.
pub fn kickoff_next_core(core: u32, jump_target: u64) -> (operations: Vec<Operation>)
    ensures
        operations@ == release_of_next(core, jump_target),
{
    let mut operations: Vec<Operation> = Vec::new();
    let jump_store: u64 = match core {
        0 => 0xe0,
        1 => 0xe8,
        2 => 0xf0,
        _ => {
            assert(operations@ =~= release_of_next(core, jump_target));
            return operations;
        },
    };
    operations.push(Operation::Write64 { address: jump_store, doubleword: jump_target });
    operations.push(Operation::FlushDataCache { start: jump_store, size: 8 });
    operations.push(Operation::SendEvent);
    assert(operations@ =~= release_of_next(core, jump_target));
    operations
}

/// Whether the operation writes the data cache back for every byte from
/// `first` up to, and without, `end`.
pub open spec fn makes_visible(operation: Operation, first: int, end: int) -> bool {
    match operation {
        Operation::FlushDataCache { start, size } => start <= first && end <= start + size,
        _ => false,
    }
}

/// A core starts exactly the core that follows it: it writes to one slot at
/// most, to that of the next core, and it writes at all exactly if the next
/// core exists. Whenever it writes, it then writes the data cache back for
/// every byte of the slot it has written, and only after that wakes the
/// sleeping cores.
pub proof fn release_reaches_next_core_only(core: u32, jump_target: u64)
    ensures
        release_of_next(core, jump_target).len() > 0 <==> core + 1 < CORE_COUNT,
        core + 1 < CORE_COUNT ==> release_of_next(core, jump_target).len() == 3
            && release_of_next(core, jump_target)[0] == (Operation::Write64 {
            address: boot_slot(core + 1).unwrap(),
            doubleword: jump_target,
        }) && makes_visible(
            release_of_next(core, jump_target)[1],
            boot_slot(core + 1).unwrap() as int,
            boot_slot(core + 1).unwrap() + BOOT_SLOT_SIZE,
        ) && release_of_next(core, jump_target)[2] == Operation::SendEvent,
{
}

/// Every core but the first has a slot of its own: slots of different cores
/// lie eight bytes or more apart, each on an eight byte boundary.
pub proof fn boot_slots_are_apart(a: int, b: int)
    requires
        1 <= a < b < CORE_COUNT,
    ensures
        boot_slot(a) is Some,
        boot_slot(b) is Some,
        boot_slot(a).unwrap() + 8 <= boot_slot(b).unwrap(),
        boot_slot(a).unwrap() % 8 == 0,
        boot_slot(b).unwrap() % 8 == 0,
{
}

/// How far a core has come in its bootstrap.
#[derive(Clone, Copy, Debug, PartialEq, Eq, Structural)]
pub enum BootStage {
    /// The core has entered and done nothing yet.
    Entered,
    /// The MMU of the core is enabled.
    MmuEnabled,
    /// The console of the machine is up.
    ConsoleUp,
    /// What the console had to say before has drained.
    Settled,
    /// The one-time setup for the whole machine is done.
    MachineReady,
    /// The one-time initialization of the core has returned.
    Initialized,
    /// The next core has been started.
    NextReleased,
    /// The core is in its processing loop, for good.
    Running,
}

/// What a core does next in its bootstrap.
#[derive(Clone, Copy, Debug, PartialEq, Eq, Structural)]
pub enum BootAction {
    /// Set up and enable the MMU of the core.
    InitializeMmu { core: u32 },
    /// Bring up the console of the machine.
    BringUpConsole,
    /// Wait until the output of the console has drained.
    Settle,
    /// Register the interrupt manager.
    RegisterInterrupts,
    /// Call the one-time initialization of the core.
    StartUp { core: u32 },
    /// Start the core after this one.
    KickoffNext { core: u32 },
    /// Call the processing loop of the core, which does not return.
    Run { core: u32 },
}

/// The stage that follows `stage` and the action that leads there, for the
/// core with the given number. Only the first core sets up the machine:
/// console, settle delay, interrupt manager, in this order. Only a multi-core
/// configuration starts further cores. The processing loop is never left.
pub open spec fn step(stage: BootStage, core: u32, multicore: bool) -> (BootStage, BootAction) {
    match stage {
        BootStage::Entered => (BootStage::MmuEnabled, BootAction::InitializeMmu { core }),
        BootStage::MmuEnabled => if core == 0 {
            (BootStage::ConsoleUp, BootAction::BringUpConsole)
        } else {
            (BootStage::Initialized, BootAction::StartUp { core })
        },
        BootStage::ConsoleUp => (BootStage::Settled, BootAction::Settle),
        BootStage::Settled => (BootStage::MachineReady, BootAction::RegisterInterrupts),
        BootStage::MachineReady => (BootStage::Initialized, BootAction::StartUp { core }),
        BootStage::Initialized => if multicore {
            (BootStage::NextReleased, BootAction::KickoffNext { core })
        } else {
            (BootStage::Running, BootAction::Run { core })
        },
        BootStage::NextReleased => (BootStage::Running, BootAction::Run { core }),
        BootStage::Running => (BootStage::Running, BootAction::Run { core }),
    }
}

/// The actions of a whole bootstrap, in order.
pub open spec fn bootstrap(core: u32, multicore: bool) -> Seq<BootAction> {
    seq![BootAction::InitializeMmu { core }] + (if core == 0 {
        seq![BootAction::BringUpConsole, BootAction::Settle, BootAction::RegisterInterrupts]
    } else {
        seq![]
    }) + seq![BootAction::StartUp { core }] + (if multicore {
        seq![BootAction::KickoffNext { core }]
    } else {
        seq![]
    }) + seq![BootAction::Run { core }]
}

/// Decides what the core with the given number does next, and the stage it
/// is in once that is done.
pub fn advance(stage: BootStage, core: u32, multicore: bool) -> (next: (BootStage, BootAction))
    ensures
        next == step(stage, core, multicore),
{
    match stage {
        BootStage::Entered => (BootStage::MmuEnabled, BootAction::InitializeMmu { core }),
        BootStage::MmuEnabled => {
            if core == 0 {
                (BootStage::ConsoleUp, BootAction::BringUpConsole)
            } else {
                (BootStage::Initialized, BootAction::StartUp { core })
            }
        },
        BootStage::ConsoleUp => (BootStage::Settled, BootAction::Settle),
        BootStage::Settled => (BootStage::MachineReady, BootAction::RegisterInterrupts),
        BootStage::MachineReady => (BootStage::Initialized, BootAction::StartUp { core }),
        BootStage::Initialized => {
            if multicore {
                (BootStage::NextReleased, BootAction::KickoffNext { core })
            } else {
                (BootStage::Running, BootAction::Run { core })
            }
        },
        BootStage::NextReleased | BootStage::Running => (
            BootStage::Running,
            BootAction::Run { core },
        ),
    }
}

impl BootStage {
    /// How many stages lie before this one.
    pub open spec fn rank(self) -> nat {
        match self {
            BootStage::Entered => 0,
            BootStage::MmuEnabled => 1,
            BootStage::ConsoleUp => 2,
            BootStage::Settled => 3,
            BootStage::MachineReady => 4,
            BootStage::Initialized => 5,
            BootStage::NextReleased => 6,
            BootStage::Running => 7,
        }
    }

    /// Whether the core with the given number ever is in this stage: only
    /// the first core goes through the setup of the machine, and only a
    /// multi-core configuration starts further cores.
    pub open spec fn is_reached(self, core: u32, multicore: bool) -> bool {
        &&& self == BootStage::ConsoleUp || self == BootStage::Settled || self
            == BootStage::MachineReady ==> core == 0
        &&& self == BootStage::NextReleased ==> multicore
    }

    /// The actions that the core has behind it when it is in this stage.
    pub open spec fn performed(self, core: u32, multicore: bool) -> Seq<BootAction> {
        bootstrap(core, multicore).take(
            match self {
                BootStage::Entered => 0int,
                BootStage::MmuEnabled => 1,
                BootStage::ConsoleUp => 2,
                BootStage::Settled => 3,
                BootStage::MachineReady => 4,
                BootStage::Initialized => if core == 0 {
                    5
                } else {
                    2
                },
                BootStage::NextReleased => if core == 0 {
                    6
                } else {
                    3
                },
                BootStage::Running => bootstrap(core, multicore).len() as int,
            },
        )
    }
}

/// Each step of a core that is not yet in its processing loop takes it to a
/// later stage which it may be in, and the action of the step is the next
/// one of the bootstrap. So a core goes through the actions of the
/// bootstrap in order, none left out and none repeated.
pub proof fn step_follows_bootstrap(stage: BootStage, core: u32, multicore: bool)
    requires
        stage.is_reached(core, multicore),
        stage != BootStage::Running,
    ensures
        step(stage, core, multicore).0.rank() > stage.rank(),
        step(stage, core, multicore).0.is_reached(core, multicore),
        step(stage, core, multicore).0.performed(core, multicore) == stage.performed(
            core,
            multicore,
        ).push(step(stage, core, multicore).1),
{
    let next = step(stage, core, multicore).0;
    assert(next.performed(core, multicore) =~= stage.performed(core, multicore).push(
        step(stage, core, multicore).1,
    ));
}

/// A bootstrap begins with the MMU and ends in the processing loop, and no
/// action occurs twice. The first core, and no other, sets up the machine
/// before its one-time initialization: first the console, then the delay
/// that lets the console drain, then the interrupt manager. The next core
/// is started only after the one-time initialization has returned.
pub proof fn bootstrap_is_ordered(core: u32, multicore: bool)
    ensures
        bootstrap(core, multicore).first() == (BootAction::InitializeMmu { core }),
        bootstrap(core, multicore).last() == (BootAction::Run { core }),
        forall|i: int, j: int|
            0 <= i < bootstrap(core, multicore).len() && 0 <= j < bootstrap(core, multicore).len()
                && bootstrap(core, multicore)[i] == (BootAction::StartUp { core }) && bootstrap(
                core,
                multicore,
            )[j] == (BootAction::KickoffNext { core }) ==> i < j,
        bootstrap(core, multicore).contains(BootAction::KickoffNext { core }) <==> multicore,
        bootstrap(core, multicore).contains(BootAction::BringUpConsole) <==> core == 0,
        bootstrap(core, multicore).contains(BootAction::Settle) <==> core == 0,
        bootstrap(core, multicore).contains(BootAction::RegisterInterrupts) <==> core == 0,
        core == 0 ==> bootstrap(core, multicore).subrange(1, 5) == seq![
            BootAction::BringUpConsole,
            BootAction::Settle,
            BootAction::RegisterInterrupts,
            BootAction::StartUp { core },
        ],
        bootstrap(core, multicore).no_duplicates(),
{
    let actions = bootstrap(core, multicore);
    if multicore {
        assert(actions[actions.len() - 2] == (BootAction::KickoffNext { core }));
    }
    if core == 0 {
        assert(actions[1] == BootAction::BringUpConsole);
        assert(actions[2] == BootAction::Settle);
        assert(actions[3] == BootAction::RegisterInterrupts);
        assert(actions.subrange(1, 5) =~= seq![
            BootAction::BringUpConsole,
            BootAction::Settle,
            BootAction::RegisterInterrupts,
            BootAction::StartUp { core },
        ]);
    }
}

/// Lists what the core with the given number does from its entry until it
/// is in its processing loop.
pub fn rust_entry(core: u32, multicore: bool) -> (actions: Vec<BootAction>)
    ensures
        actions@ == bootstrap(core, multicore),
{
    let mut actions: Vec<BootAction> = Vec::new();
    let mut stage = BootStage::Entered;
    assert(actions@ =~= stage.performed(core, multicore));
    while stage != BootStage::Running
        invariant
            actions@ == stage.performed(core, multicore),
            stage.is_reached(core, multicore),
        decreases 7 - stage.rank(),
    {
        proof {
            step_follows_bootstrap(stage, core, multicore);
        }
        let (next, action) = advance(stage, core, multicore);
        actions.push(action);
        stage = next;
    }
    assert(actions@ =~= bootstrap(core, multicore));
    actions
}

/// The bootstrap of a whole machine: how far each core has come, which
/// cores have been started, and how often the translation tables have been
/// filled.
pub struct Machine {
    /// The stage of each core, by its number.
    pub stages: Seq<BootStage>,
    /// The cores that run: the first one from power-on, every other one
    /// from the moment its slot was written.
    pub started: Set<int>,
    /// How often the translation tables have been filled.
    pub table_builds: int,
}

impl Machine {
    /// The machine at power-on: the first core runs, nothing is done yet.
    pub open spec fn power_on() -> Machine {
        Machine {
            stages: Seq::new(CORE_COUNT as nat, |core: int| BootStage::Entered),
            started: set![0int],
            table_builds: 0,
        }
    }

    /// Whether the given core can take its next step: it runs and has not
    /// reached its processing loop.
    pub open spec fn can_step(self, core: int) -> bool {
        &&& 0 <= core < self.stages.len()
        &&& self.started.contains(core)
        &&& self.stages[core] != BootStage::Running
    }

    /// The machine after the given core has taken its next step. Starting
    /// the next core makes that core run, if it exists; setting up the MMU
    /// on the first core fills the tables.
    pub open spec fn after_step(self, core: int, multicore: bool) -> Machine {
        let (next, action) = step(self.stages[core], core as u32, multicore);
        Machine {
            stages: self.stages.update(core, next),
            started: if action is KickoffNext && boot_slot(core + 1) is Some {
                self.started.insert(core + 1)
            } else {
                self.started
            },
            table_builds: if action is InitializeMmu && core == 0 {
                self.table_builds + 1
            } else {
                self.table_builds
            },
        }
    }

    /// Whether the core after the given one runs only if the given one runs
    /// and has started it.
    pub open spec fn hands_over(self, core: int) -> bool {
        self.started.contains(core + 1) ==> self.started.contains(core)
            && self.stages[core].rank() >= BootStage::NextReleased.rank()
    }

    /// What holds of a machine at all times. A core other than the first
    /// runs only if the core before it runs and has started it, which that
    /// core does after its own one-time initialization. A core that does
    /// not run has done nothing. The tables have been filled once as soon
    /// as the first core has its MMU enabled, and not before.
    pub open spec fn is_ordered(self, multicore: bool) -> bool {
        &&& self.stages.len() == CORE_COUNT
        &&& self.started.contains(0)
        &&& forall|core: int| self.started.contains(core) ==> 0 <= core < CORE_COUNT
        &&& forall|core: int| 0 <= core < CORE_COUNT - 1 ==> #[trigger] self.hands_over(core)
        &&& forall|core: int|
            0 <= core < CORE_COUNT && !self.started.contains(core) ==> #[trigger] self.stages[core]
                == BootStage::Entered
        &&& forall|core: int|
            0 <= core < CORE_COUNT ==> (#[trigger] self.stages[core]).is_reached(
                core as u32,
                multicore,
            )
        &&& self.table_builds == if self.stages[0].rank() >= BootStage::MmuEnabled.rank() {
            1int
        } else {
            0int
        }
    }
}

/// A machine is ordered at power-on.
pub proof fn machine_starts_ordered(multicore: bool)
    ensures
        Machine::power_on().is_ordered(multicore),
{
}

/// A step of any core that can take one leaves an ordered machine ordered.
pub proof fn machine_stays_ordered(machine: Machine, core: int, multicore: bool)
    requires
        machine.is_ordered(multicore),
        machine.can_step(core),
    ensures
        machine.after_step(core, multicore).is_ordered(multicore),
{
    let after = machine.after_step(core, multicore);
    step_follows_bootstrap(machine.stages[core], core as u32, multicore);
    assert forall|other: int| 0 <= other < CORE_COUNT - 1 implies #[trigger] after.hands_over(
        other,
    ) by {
        assert(machine.hands_over(other));
    }
    assert forall|other: int|
        0 <= other < CORE_COUNT && !after.started.contains(other) implies #[trigger] after.stages[other]
        == BootStage::Entered by {
        assert(machine.stages[other] == BootStage::Entered);
    }
    assert forall|other: int| 0 <= other < CORE_COUNT implies (
    #[trigger] after.stages[other]).is_reached(other as u32, multicore) by {
        assert(machine.stages[other].is_reached(other as u32, multicore));
    }
}

/// In an ordered machine the cores run in the order of their numbers: with
/// a core run all cores before it, and each of those has finished its
/// one-time initialization. No core but the first runs before the tables
/// have been filled, and they are filled once.
pub proof fn cores_start_in_order(machine: Machine, core: int, multicore: bool)
    requires
        machine.is_ordered(multicore),
        machine.started.contains(core),
    ensures
        forall|earlier: int| 0 <= earlier < core ==> #[trigger] machine.started.contains(earlier),
        forall|earlier: int|
            0 <= earlier < core ==> (#[trigger] machine.stages[earlier]).rank()
                >= BootStage::Initialized.rank(),
        core > 0 ==> machine.table_builds == 1,
        machine.table_builds <= 1,
    decreases core,
{
    if core > 0 {
        assert(machine.hands_over(core - 1));
        cores_start_in_order(machine, core - 1, multicore);
    }
}

} // verus!
