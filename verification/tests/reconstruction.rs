use blockbuster::instruction::{
    order_instructions, Bundle, CompiledInstruction, InnerInstructions, IxPair,
};
use blockbuster::keys::Pubkey;

fn pk(tag: u8) -> Pubkey {
    Pubkey::new_from_array([tag; 32])
}

fn ix(program_id_index: u8, data: Vec<u8>) -> CompiledInstruction {
    CompiledInstruction { program_id_index, accounts: vec![0, 1], data }
}

fn pair(key: Pubkey, instruction: &CompiledInstruction) -> IxPair {
    (
        key,
        CompiledInstruction {
            program_id_index: instruction.program_id_index,
            accounts: instruction.accounts.clone(),
            data: instruction.data.clone(),
        },
    )
}

#[test]
fn scenario_hoisted_then_outer_with_duplicate() {
    // tracked = {A}; one outer instruction of program A with payload d0;
    // inner list [X, (A, d1), Y].  The hoisted bundle comes first with run
    // [Y]; the outer bundle follows with the full inner list, the hoisted
    // entry included again.
    let a = pk(1);
    let x = pk(2);
    let y = pk(3);
    let keys = vec![a, x, y];
    let d0 = ix(0, vec![0xd0]);
    let inner_x = ix(1, vec![0x10]);
    let inner_a = ix(0, vec![0xd1]);
    let inner_y = ix(2, vec![0x20]);
    let groups = vec![InnerInstructions {
        index: 0,
        instructions: vec![
            CompiledInstruction { program_id_index: 1, accounts: vec![0, 1], data: vec![0x10] },
            CompiledInstruction { program_id_index: 0, accounts: vec![0, 1], data: vec![0xd1] },
            CompiledInstruction { program_id_index: 2, accounts: vec![0, 1], data: vec![0x20] },
        ],
    }];
    let outer = vec![CompiledInstruction {
        program_id_index: 0,
        accounts: vec![0, 1],
        data: vec![0xd0],
    }];
    let programs = vec![a];

    let out = order_instructions(&programs, &keys, &outer, &groups);

    let expected: Vec<Bundle> = vec![
        (pair(a, &inner_a), Some(vec![pair(y, &inner_y)])),
        (
            pair(a, &d0),
            Some(vec![pair(x, &inner_x), pair(a, &inner_a), pair(y, &inner_y)]),
        ),
    ];
    assert_eq!(out, expected);
}

#[test]
fn scenario_untracked_outer_empty_output() {
    // tracked = {A}; one outer instruction of untracked program B and no
    // inner instructions: nothing is emitted.
    let a = pk(1);
    let b = pk(2);
    let keys = vec![b];
    let outer = vec![ix(0, vec![1, 2, 3])];
    let out = order_instructions(&vec![a], &keys, &outer, &vec![]);
    assert!(out.is_empty());
}

#[test]
fn scenario_outer_resolution_failure_is_skipped() {
    // A key table of three entries and an outer instruction pointing at
    // index 99: the instruction is skipped, reconstruction completes with an
    // empty output.
    let keys = vec![pk(1), pk(2), pk(3)];
    let outer = vec![ix(99, vec![1])];
    let programs = vec![pk(1), pk(2), pk(3)];
    let out = order_instructions(&programs, &keys, &outer, &vec![]);
    assert!(out.is_empty());
}

#[test]
fn inner_resolution_failure_skips_single_instruction() {
    // An inner instruction with an out-of-range program id index is dropped;
    // the rest of its group is still processed.
    let a = pk(1);
    let keys = vec![a];
    let outer = vec![ix(0, vec![0xd0])];
    let groups = vec![InnerInstructions {
        index: 0,
        instructions: vec![ix(77, vec![9]), ix(0, vec![0xd1])],
    }];
    let out = order_instructions(&vec![a], &keys, &outer, &groups);
    // Hoisted (A, d1) with an empty run, then the outer bundle whose inner
    // list holds only the resolvable entry.
    assert_eq!(out.len(), 2);
    assert_eq!(out[0].0 .1.data, vec![0xd1]);
    assert_eq!(out[0].1.as_ref().unwrap().len(), 0);
    let full = out[1].1.as_ref().unwrap();
    assert_eq!(full.len(), 1);
    assert_eq!(full[0].1.data, vec![0xd1]);
}

#[test]
fn bundle_count_matches_tracked_occurrences() {
    // Two outer instructions, one tracked; three tracked occurrences across
    // the inner groups: five bundles in all.
    let a = pk(1);
    let b = pk(2);
    let keys = vec![a, b];
    let outer = vec![ix(0, vec![1]), ix(1, vec![2])];
    let groups = vec![
        InnerInstructions { index: 0, instructions: vec![ix(0, vec![3]), ix(1, vec![4])] },
        InnerInstructions { index: 1, instructions: vec![ix(0, vec![5]), ix(0, vec![6])] },
    ];
    let out = order_instructions(&vec![a], &keys, &outer, &groups);
    assert_eq!(out.len(), 1 + 3);
}

#[test]
fn bundles_of_lower_outer_index_come_first() {
    let a = pk(1);
    let keys = vec![a];
    let outer = vec![ix(0, vec![10]), ix(0, vec![20])];
    let groups = vec![
        InnerInstructions { index: 1, instructions: vec![ix(0, vec![21])] },
        InnerInstructions { index: 0, instructions: vec![ix(0, vec![11])] },
    ];
    let out = order_instructions(&vec![a], &keys, &outer, &groups);
    // index 0: hoisted [11] then outer [10]; index 1: hoisted [21] then
    // outer [20].
    let payloads: Vec<u8> = out.iter().map(|b| b.0 .1.data[0]).collect();
    assert_eq!(payloads, vec![11, 10, 21, 20]);
}

#[test]
fn hoisted_run_stops_at_same_program() {
    // The run attributed to a hoisted occurrence stops before the next
    // occurrence of the same program and contains no entry sharing its id.
    let a = pk(1);
    let x = pk(2);
    let keys = vec![a, x];
    let outer = vec![ix(1, vec![0])];
    let groups = vec![InnerInstructions {
        index: 0,
        instructions: vec![ix(0, vec![1]), ix(1, vec![2]), ix(0, vec![3]), ix(1, vec![4])],
    }];
    let out = order_instructions(&vec![a], &keys, &outer, &groups);
    assert_eq!(out.len(), 2);
    // First occurrence of A at position 0: run is [x@1] only, stopping at
    // the second A.
    let run0 = out[0].1.as_ref().unwrap();
    assert_eq!(run0.len(), 1);
    assert_eq!(run0[0].1.data, vec![2]);
    // Second occurrence of A at position 2: run is [x@3] to the end.
    let run1 = out[1].1.as_ref().unwrap();
    assert_eq!(run1.len(), 1);
    assert_eq!(run1[0].1.data, vec![4]);
}

#[test]
fn reconstruction_is_idempotent() {
    let a = pk(1);
    let b = pk(2);
    let keys = vec![a, b];
    let outer = vec![ix(0, vec![1]), ix(1, vec![2]), ix(9, vec![3])];
    let groups = vec![
        InnerInstructions { index: 0, instructions: vec![ix(1, vec![4]), ix(0, vec![5])] },
        InnerInstructions { index: 0, instructions: vec![ix(0, vec![6])] },
    ];
    let programs = vec![a];
    let first = order_instructions(&programs, &keys, &outer, &groups);
    let second = order_instructions(&programs, &keys, &outer, &groups);
    assert_eq!(first, second);
}

#[test]
fn groups_of_one_index_are_concatenated_in_order() {
    let a = pk(1);
    let keys = vec![a];
    let outer = vec![ix(0, vec![0xd0])];
    let groups = vec![
        InnerInstructions { index: 0, instructions: vec![ix(0, vec![1])] },
        InnerInstructions { index: 0, instructions: vec![ix(0, vec![2])] },
    ];
    let out = order_instructions(&vec![a], &keys, &outer, &groups);
    assert_eq!(out.len(), 3);
    let full = out[2].1.as_ref().unwrap();
    let payloads: Vec<u8> = full.iter().map(|p| p.1.data[0]).collect();
    assert_eq!(payloads, vec![1, 2]);
}

#[test]
fn default_bundle_is_empty() {
    let bundle = blockbuster::instruction::InstructionBundle::default();
    assert_eq!(bundle.txn_id, "");
    assert_eq!(bundle.program, Pubkey::new_from_array([0; 32]));
    assert!(bundle.instruction.is_none());
    assert!(bundle.inner_ix.is_none());
    assert!(bundle.keys.is_empty());
    assert_eq!(bundle.slot, 0);
}

#[test]
fn owning_index_is_a_single_byte_and_wraps() {
    // Owning indices are single bytes: a group with index 0 belongs to outer
    // index 0 and, in an oversized transaction, to outer index 256 as well.
    let a = pk(1);
    let keys = vec![a];
    let mut outer = Vec::new();
    for i in 0..257u32 {
        if i == 0 || i == 256 {
            outer.push(ix(0, vec![1]));
        } else {
            outer.push(ix(99, vec![2]));
        }
    }
    let groups = vec![InnerInstructions { index: 0, instructions: vec![ix(0, vec![3])] }];
    let out = order_instructions(&vec![a], &keys, &outer, &groups);
    // Each of the two matching outer indices yields one hoisted bundle and
    // one outer bundle with the same inner list.
    assert_eq!(out.len(), 4);
    assert_eq!(out[0].0 .1.data, vec![3]);
    assert_eq!(out[1].0 .1.data, vec![1]);
    assert_eq!(out[2].0 .1.data, vec![3]);
    assert_eq!(out[3].0 .1.data, vec![1]);
}
