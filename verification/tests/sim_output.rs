use arc_rw_lock::sim::group::AtomGroupInfo;
use arc_rw_lock::sim::group::ChangedPosition;
use arc_rw_lock::sim::group::GroupOption;
use arc_rw_lock::sim::group::ReplicaOption;
use arc_rw_lock::sim::output::ObservableOption;
use arc_rw_lock::sim::output::ObservableOutputOption;
use arc_rw_lock::sim::output::ObservableStreamOption;
use arc_rw_lock::sim::output::Observables;

type Output = ObservableOutputOption<u8, char, &'static str>;

#[test]
fn split_of_nothing_is_nothing() {
    let output: Output = ObservableOutputOption::Empty;
    assert!(matches!(output.split(), (None, None, ObservableStreamOption::Empty)));
}

#[test]
fn split_of_quantum_keeps_its_one_stream() {
    let output: Output =
        ObservableOutputOption::Quantum(Observables { observables: 7, stream: "q" });
    assert!(matches!(output.split(), (Some(7), None, ObservableStreamOption::One("q"))));
}

#[test]
fn split_of_debug_keeps_its_one_stream() {
    let output: Output =
        ObservableOutputOption::Debug(Observables { observables: 'd', stream: "d" });
    assert!(matches!(output.split(), (None, Some('d'), ObservableStreamOption::One("d"))));
}

#[test]
fn split_of_shared_keeps_the_shared_stream() {
    let output: Output = ObservableOutputOption::Shared { quantum: 7, debug: 'd', stream: "s" };
    assert!(matches!(output.split(), (Some(7), Some('d'), ObservableStreamOption::Shared("s"))));
}

#[test]
fn split_of_separate_keeps_both_streams_apart() {
    let output: Output = ObservableOutputOption::Separate {
        quantum: Observables { observables: 7, stream: "q" },
        debug: Observables { observables: 'd', stream: "d" },
    };
    assert!(matches!(
        output.split(),
        (Some(7), Some('d'), ObservableStreamOption::All { quantum: "q", debug: "d" })
    ));
}

#[test]
fn as_deref_mut_borrows_what_the_option_holds() {
    let mut output: Output = ObservableOutputOption::Empty;
    assert!(matches!(output.as_deref_mut(), ObservableOutputOption::Empty));

    let mut output: Output =
        ObservableOutputOption::Quantum(Observables { observables: 7, stream: "q" });
    match output.as_deref_mut() {
        ObservableOutputOption::Quantum(part) => {
            assert_eq!((*part.observables, *part.stream), (7, "q"));
            *part.observables = 8;
            *part.stream = "r";
        }
        _ => panic!("the option holds quantum observables"),
    }
    assert!(matches!(output.split(), (Some(8), None, ObservableStreamOption::One("r"))));

    let mut output: Output =
        ObservableOutputOption::Debug(Observables { observables: 'd', stream: "d" });
    match output.as_deref_mut() {
        ObservableOutputOption::Debug(part) => {
            *part.observables = 'e';
        }
        _ => panic!("the option holds debug observables"),
    }
    assert!(matches!(output.split(), (None, Some('e'), ObservableStreamOption::One("d"))));

    let mut output: Output = ObservableOutputOption::Shared { quantum: 7, debug: 'd', stream: "s" };
    match output.as_deref_mut() {
        ObservableOutputOption::Shared { quantum, debug, stream } => {
            *quantum += 1;
            *debug = 'e';
            *stream = "t";
        }
        _ => panic!("the option holds both kinds over one stream"),
    }
    assert!(matches!(output.split(), (Some(8), Some('e'), ObservableStreamOption::Shared("t"))));

    let mut output: Output = ObservableOutputOption::Separate {
        quantum: Observables { observables: 7, stream: "q" },
        debug: Observables { observables: 'd', stream: "d" },
    };
    match output.as_deref_mut() {
        ObservableOutputOption::Separate { quantum, debug } => {
            *quantum.stream = "Q";
            *debug.observables = 'D';
        }
        _ => panic!("the option holds both kinds over two streams"),
    }
    assert!(matches!(
        output.split(),
        (Some(7), Some('D'), ObservableStreamOption::All { quantum: "Q", debug: "d" })
    ));
}

#[test]
fn observable_options_name_what_is_measured() {
    let options: [ObservableOption<u8, char>; 4] = [
        ObservableOption::Empty,
        ObservableOption::Quantum(1),
        ObservableOption::Debug('d'),
        ObservableOption::All { quantum: 1, debug: 'd' },
    ];
    assert!(matches!(options[0], ObservableOption::Empty));
    assert!(matches!(options[1], ObservableOption::Quantum(1)));
    assert!(matches!(options[2], ObservableOption::Debug('d')));
    assert!(matches!(options[3], ObservableOption::All { quantum: 1, debug: 'd' }));
}

#[test]
fn a_group_counts_the_atoms_of_its_span() {
    assert_eq!(AtomGroupInfo { id: 0, start: 2, end: 5, mass: 1u8 }.atoms(), 3);
    assert_eq!(AtomGroupInfo { id: 0, start: 5, end: 5, mass: 1u8 }.atoms(), 0);
    assert_eq!(AtomGroupInfo { id: 0, start: 6, end: 5, mass: 1u8 }.atoms(), 0);
    assert_eq!(AtomGroupInfo { id: 0, start: 0, end: usize::MAX, mass: 1u8 }.atoms(), usize::MAX);
}

#[test]
fn a_group_finds_its_positions_among_all() {
    let all = [10, 11, 12, 13, 14];
    let group = AtomGroupInfo { id: 3, start: 1, end: 4, mass: 1u8 };
    assert_eq!(group.slice_of(&all), Some(&all[1..4]));
    let copy = group;
    assert_eq!((copy.id, copy.start, copy.end, copy.mass), (3, 1, 4, 1));
    assert_eq!(AtomGroupInfo { id: 0, start: 0, end: 5, mass: 1u8 }.slice_of(&all), Some(&all[..]));
    assert_eq!(
        AtomGroupInfo { id: 0, start: 5, end: 5, mass: 1u8 }.slice_of(&all),
        Some(&all[5..])
    );
    assert_eq!(AtomGroupInfo { id: 0, start: 3, end: 6, mass: 1u8 }.slice_of(&all), None);
    assert_eq!(AtomGroupInfo { id: 0, start: 4, end: 3, mass: 1u8 }.slice_of(&all), None);
}

#[test]
fn changes_name_where_they_happened() {
    let changed = ChangedPosition { group_idx: 1, position_idx: 2, old_value: 'x' };
    let copy = changed;
    assert_eq!((copy.group_idx, copy.position_idx, copy.old_value), (1, 2, 'x'));
    assert!(matches!(GroupOption::This(1), GroupOption::This(1)));
    assert!(matches!(
        GroupOption::Other { group_idx: 4, value: 1 },
        GroupOption::Other { group_idx: 4, value: 1 }
    ));
    assert!(matches!(ReplicaOption::Prev(1), ReplicaOption::Prev(1)));
    assert!(matches!(ReplicaOption::Next(1), ReplicaOption::Next(1)));
    assert!(matches!(ReplicaOption::This(1), ReplicaOption::This(1)));
    assert!(matches!(
        ReplicaOption::Other { replica_idx: 4, value: 1 },
        ReplicaOption::Other { replica_idx: 4, value: 1 }
    ));
}
