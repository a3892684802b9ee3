use ruspiro_boot::boot::{advance, kickoff_next_core, rust_entry, slot_of, BootAction, BootStage};
use ruspiro_boot::register::Operation;

#[test]
fn first_core_starts_the_second() {
    let operations = kickoff_next_core(0, 0x8_0000);
    assert_eq!(
        operations,
        vec![
            Operation::Write64 { address: 0xe0, doubleword: 0x8_0000 },
            Operation::FlushDataCache { start: 0xe0, size: 8 },
            Operation::SendEvent,
        ]
    );
}

#[test]
fn jump_target_is_written_as_supplied() {
    let operations = kickoff_next_core(1, 0x1234_5678_9abc_def0);
    assert_eq!(
        operations,
        vec![
            Operation::Write64 { address: 0xe8, doubleword: 0x1234_5678_9abc_def0 },
            Operation::FlushDataCache { start: 0xe8, size: 8 },
            Operation::SendEvent,
        ]
    );
    assert_eq!(
        kickoff_next_core(2, 0),
        vec![
            Operation::Write64 { address: 0xf0, doubleword: 0 },
            Operation::FlushDataCache { start: 0xf0, size: 8 },
            Operation::SendEvent,
        ]
    );
}

#[test]
fn last_core_starts_nobody() {
    assert_eq!(kickoff_next_core(3, 0x8_0000), vec![]);
    assert_eq!(kickoff_next_core(4, 0x8_0000), vec![]);
    assert_eq!(kickoff_next_core(u32::MAX, 0x8_0000), vec![]);
}

#[test]
fn slots_belong_to_the_secondary_cores() {
    assert_eq!(slot_of(0), None);
    assert_eq!(slot_of(1), Some(0xe0));
    assert_eq!(slot_of(2), Some(0xe8));
    assert_eq!(slot_of(3), Some(0xf0));
    assert_eq!(slot_of(4), None);
    assert_eq!(slot_of(u32::MAX), None);
}

#[test]
fn kickoff_writes_the_slot_of_the_next_core() {
    for core in 0u32..3 {
        let operations = kickoff_next_core(core, 0x8_0000);
        assert_eq!(
            operations[0],
            Operation::Write64 { address: slot_of(core + 1).unwrap(), doubleword: 0x8_0000 }
        );
    }
}

#[test]
fn first_core_sets_up_the_machine() {
    assert_eq!(
        rust_entry(0, true),
        vec![
            BootAction::InitializeMmu { core: 0 },
            BootAction::BringUpConsole,
            BootAction::Settle,
            BootAction::RegisterInterrupts,
            BootAction::StartUp { core: 0 },
            BootAction::KickoffNext { core: 0 },
            BootAction::Run { core: 0 },
        ]
    );
}

#[test]
fn other_cores_skip_the_machine_setup() {
    assert_eq!(
        rust_entry(2, true),
        vec![
            BootAction::InitializeMmu { core: 2 },
            BootAction::StartUp { core: 2 },
            BootAction::KickoffNext { core: 2 },
            BootAction::Run { core: 2 },
        ]
    );
}

#[test]
fn single_core_starts_nobody() {
    assert_eq!(
        rust_entry(0, false),
        vec![
            BootAction::InitializeMmu { core: 0 },
            BootAction::BringUpConsole,
            BootAction::Settle,
            BootAction::RegisterInterrupts,
            BootAction::StartUp { core: 0 },
            BootAction::Run { core: 0 },
        ]
    );
    assert_eq!(
        rust_entry(1, false),
        vec![
            BootAction::InitializeMmu { core: 1 },
            BootAction::StartUp { core: 1 },
            BootAction::Run { core: 1 },
        ]
    );
}

#[test]
fn steps_lead_through_the_stages() {
    assert_eq!(
        advance(BootStage::Entered, 0, true),
        (BootStage::MmuEnabled, BootAction::InitializeMmu { core: 0 })
    );
    assert_eq!(
        advance(BootStage::MmuEnabled, 0, true),
        (BootStage::ConsoleUp, BootAction::BringUpConsole)
    );
    assert_eq!(advance(BootStage::ConsoleUp, 0, true), (BootStage::Settled, BootAction::Settle));
    assert_eq!(
        advance(BootStage::Settled, 0, false),
        (BootStage::MachineReady, BootAction::RegisterInterrupts)
    );
    assert_eq!(
        advance(BootStage::MmuEnabled, 1, true),
        (BootStage::Initialized, BootAction::StartUp { core: 1 })
    );
    assert_eq!(
        advance(BootStage::MachineReady, 0, false),
        (BootStage::Initialized, BootAction::StartUp { core: 0 })
    );
    assert_eq!(
        advance(BootStage::Initialized, 3, true),
        (BootStage::NextReleased, BootAction::KickoffNext { core: 3 })
    );
    assert_eq!(
        advance(BootStage::Initialized, 3, false),
        (BootStage::Running, BootAction::Run { core: 3 })
    );
    assert_eq!(
        advance(BootStage::NextReleased, 3, true),
        (BootStage::Running, BootAction::Run { core: 3 })
    );
    assert_eq!(
        advance(BootStage::Running, 3, true),
        (BootStage::Running, BootAction::Run { core: 3 })
    );
}

#[test]
fn stepping_yields_the_bootstrap() {
    for core in 0u32..4 {
        for multicore in [false, true] {
            let mut stage = BootStage::Entered;
            let mut actions = Vec::new();
            while stage != BootStage::Running {
                let (next, action) = advance(stage, core, multicore);
                actions.push(action);
                stage = next;
            }
            assert_eq!(actions, rust_entry(core, multicore));
            let started = actions
                .iter()
                .position(|a| *a == BootAction::StartUp { core })
                .unwrap();
            let released = actions.iter().position(|a| *a == BootAction::KickoffNext { core });
            assert_eq!(released.is_some(), multicore);
            if let Some(released) = released {
                assert!(started < released);
            }
        }
    }
}

fn simulate(order: &[u32], multicore: bool) -> Vec<u32> {
    let mut stages = [BootStage::Entered; 4];
    let mut started = vec![0u32];
    let mut table_builds = 0;
    let mut progress = true;
    while progress {
        progress = false;
        for core in order.iter().copied() {
            if !started.contains(&core) || stages[core as usize] == BootStage::Running {
                continue;
            }
            let (next, action) = advance(stages[core as usize], core, multicore);
            match action {
                BootAction::InitializeMmu { core: 0 } => table_builds += 1,
                BootAction::KickoffNext { core } => {
                    for earlier in 0..=core {
                        assert!(started.contains(&earlier));
                        assert!(stages[earlier as usize] != BootStage::Entered);
                        assert!(stages[earlier as usize] != BootStage::MmuEnabled);
                        assert!(stages[earlier as usize] != BootStage::ConsoleUp);
                        assert!(stages[earlier as usize] != BootStage::Settled);
                        assert!(stages[earlier as usize] != BootStage::MachineReady);
                    }
                    assert_eq!(table_builds, 1);
                    if !kickoff_next_core(core, 0x8_0000).is_empty() {
                        assert!(!started.contains(&(core + 1)));
                        started.push(core + 1);
                    }
                }
                _ => {}
            }
            stages[core as usize] = next;
            progress = true;
        }
    }
    assert_eq!(table_builds, 1);
    for core in started.iter() {
        assert_eq!(stages[*core as usize], BootStage::Running);
    }
    started
}

#[test]
fn cores_come_alive_in_the_order_of_their_numbers() {
    for order in [[0u32, 1, 2, 3], [3, 2, 1, 0], [2, 0, 3, 1], [1, 3, 0, 2]] {
        assert_eq!(simulate(&order, true), vec![0, 1, 2, 3]);
    }
}

#[test]
fn single_core_machine_keeps_the_others_asleep() {
    for order in [[0u32, 1, 2, 3], [3, 2, 1, 0]] {
        assert_eq!(simulate(&order, false), vec![0]);
    }
}

#[test]
fn machine_is_set_up_before_the_first_initialization() {
    for multicore in [false, true] {
        let actions = rust_entry(0, multicore);
        assert_eq!(
            actions[1..5],
            [
                BootAction::BringUpConsole,
                BootAction::Settle,
                BootAction::RegisterInterrupts,
                BootAction::StartUp { core: 0 },
            ]
        );
        for core in 1u32..4 {
            let actions = rust_entry(core, multicore);
            assert!(!actions.contains(&BootAction::BringUpConsole));
            assert!(!actions.contains(&BootAction::Settle));
            assert!(!actions.contains(&BootAction::RegisterInterrupts));
        }
    }
}

#[test]
fn written_slot_is_made_visible_before_the_wake_up() {
    for core in 0u32..3 {
        let operations = kickoff_next_core(core, 0x8_0000);
        let slot = slot_of(core + 1).unwrap();
        match (operations[0], operations[1], operations[2]) {
            (
                Operation::Write64 { address, .. },
                Operation::FlushDataCache { start, size },
                Operation::SendEvent,
            ) => {
                assert_eq!(address, slot);
                assert!(start <= slot);
                assert!(slot + 8 <= start + size);
            }
            other => panic!("unexpected plan {:?}", other),
        }
    }
}
