use equal_circuit::field::field_sub;
use equal_circuit::{
    AssignedCell, Column, ColumnKind, ConstraintSystem, EqualChip, EqualCircuit, EqualConfig, Error, Layouter,
};

const P: u64 = 18446744069414584321;

fn setup(rows: usize, height: usize) -> (EqualConfig, Layouter) {
    let mut cs = ConstraintSystem::new(P);
    let config = EqualCircuit::configure(&mut cs);
    let layouter = Layouter::new(&cs, rows, height);
    (config, layouter)
}

fn public_values(l: &Layouter) -> Vec<Option<u64>> {
    l.instance.iter().map(|b| b.0.value).collect()
}

#[test]
fn equal_witness_exposes_zero_difference() {
    let (config, mut l) = setup(16, 2);
    let c = EqualCircuit { x: Some(5), y: Some(5) };
    assert_eq!(c.synthesize(config, &mut l), Ok(()));
    assert_eq!(public_values(&l), vec![Some(5), Some(0)]);
    let rows: Vec<usize> = l.instance.iter().map(|b| b.2).collect();
    assert_eq!(rows, vec![0, 1]);
}

#[test]
fn unequal_witness_exposes_wrapped_difference() {
    let (config, mut l) = setup(16, 2);
    let c = EqualCircuit { x: Some(5), y: Some(7) };
    assert_eq!(c.synthesize(config, &mut l), Ok(()));
    assert_eq!(public_values(&l), vec![Some(7), Some(P - 2)]);
}

#[test]
fn from_inputs_gives_public_inputs() {
    let (c, public) = EqualCircuit::from_inputs(P, 5, 7);
    assert_eq!(c, EqualCircuit { x: Some(5), y: Some(7) });
    assert_eq!(public, vec![vec![7, P - 2]]);
    let (_, public) = EqualCircuit::from_inputs(P, 5, 5);
    assert_eq!(public, vec![vec![5, 0]]);
    let (c, public) = EqualCircuit::from_inputs(7, 10, 3);
    assert_eq!(c, EqualCircuit { x: Some(3), y: Some(3) });
    assert_eq!(public, vec![vec![3, 0]]);
}

#[test]
fn field_sub_wraps() {
    assert_eq!(field_sub(7, 2, 5), 4);
    assert_eq!(field_sub(7, 5, 2), 3);
    assert_eq!(field_sub(7, 4, 4), 0);
    assert_eq!(field_sub(P, 0, 1), P - 1);
}

#[test]
fn diff_assigns_difference_and_enables_gate() {
    let (config, mut l) = setup(16, 2);
    let chip = EqualChip::construct(config);
    let (x, y) = chip.assign_operands(&mut l, Some(9), Some(4)).unwrap();
    let d = chip.diff(&mut l, x, y).unwrap();
    assert_eq!(d.value, Some(5));
    assert_eq!(d.row, 3);
    assert_eq!(d.column, config.advice[0]);
    assert_eq!(l.enabled, vec![(config.selector, 2)]);
    assert_eq!(l.cells.len(), 5);
    assert_eq!(l.cells[2].value, Some(9));
    assert_eq!(l.cells[3].value, Some(4));
}

#[test]
fn diff_fails_without_second_row() {
    let (config, mut l) = setup(16, 1);
    let chip = EqualChip::construct(config);
    let (x, y) = chip.assign_operands(&mut l, Some(5), Some(7)).unwrap();
    assert_eq!(chip.diff(&mut l, x, y), Err(Error::RegionBound));
    let (config, mut l) = setup(16, 1);
    let c = EqualCircuit { x: Some(5), y: Some(7) };
    assert_eq!(c.synthesize(config, &mut l), Err(Error::RegionBound));
}

#[test]
fn region_out_of_rows() {
    let (config, mut l) = setup(3, 2);
    let c = EqualCircuit { x: Some(1), y: Some(2) };
    assert_eq!(c.synthesize(config, &mut l), Err(Error::NotEnoughRows));
}

#[test]
fn copy_needs_equality() {
    let cs = ConstraintSystem::new(P);
    let mut l = Layouter::new(&cs, 16, 2);
    let col = Column { index: 0, kind: ColumnKind::Advice };
    let start = l.open_region().unwrap();
    let cell = l.assign_advice(start, col, 0, Some(3)).unwrap();
    assert_eq!(l.copy_advice(cell, start, col, 1), Err(Error::EqualityNotEnabled));
    let inst = Column { index: 0, kind: ColumnKind::Instance };
    assert_eq!(l.constrain_instance(cell, inst, 0), Err(Error::EqualityNotEnabled));
    assert_eq!(l.assign_advice(start, col, 2, Some(3)), Err(Error::RegionBound));
}

#[test]
fn copy_binds_a_snapshot() {
    let mut cs = ConstraintSystem::new(P);
    let col = cs.advice_column();
    cs.enable_equality(col);
    let mut l = Layouter::new(&cs, 16, 2);
    let start = l.open_region().unwrap();
    let cell = l.assign_advice(start, col, 0, Some(3)).unwrap();
    let copied = l.copy_advice(cell, start, col, 1).unwrap();
    let _ = l.assign_advice(start, col, 0, Some(8)).unwrap();
    assert_eq!(copied, AssignedCell { column: col, row: 1, value: Some(3) });
    assert_eq!(l.cells[0].value, Some(3));
    assert_eq!(l.copies, vec![(cell, copied)]);
}

#[test]
fn configure_is_deterministic() {
    let mut a = ConstraintSystem::new(P);
    let mut b = ConstraintSystem::new(P);
    let ca = EqualCircuit::configure(&mut a);
    let cb = EqualCircuit::configure(&mut b);
    assert_eq!(ca.advice, cb.advice);
    assert_eq!(ca.instance, cb.instance);
    assert_eq!(ca.selector, cb.selector);
    assert_eq!(a.equality, b.equality);
    assert_eq!(a.gates, b.gates);
    assert_eq!((a.num_advice, a.num_instance, a.num_selectors), (2, 1, 1));
    assert_eq!(a.gates.len(), 1);
    assert_eq!(a.gates[0].lhs, ca.advice[0]);
    assert_eq!(a.gates[0].rhs, ca.advice[1]);
    assert_eq!(a.gates[0].out, ca.advice[0]);
}

#[test]
fn keygen_layout_matches_witnessed() {
    let c = EqualCircuit { x: Some(5), y: Some(7) };
    let k = c.without_witnesses();
    assert_eq!(k, EqualCircuit { x: None, y: None });
    assert_eq!(EqualCircuit::keygen_circuit(), k);
    let (config, mut l1) = setup(16, 2);
    let (_, mut l2) = setup(16, 2);
    assert_eq!(c.synthesize(config, &mut l1), Ok(()));
    assert_eq!(k.synthesize(config, &mut l2), Ok(()));
    let pos = |l: &Layouter| l.cells.iter().map(|c| (c.column, c.row)).collect::<Vec<_>>();
    assert_eq!(pos(&l1), pos(&l2));
    assert_eq!(l1.enabled, l2.enabled);
    assert_eq!(public_values(&l2), vec![None, None]);
}

#[test]
fn synthesized_layout_satisfies_gates() {
    for (x, y) in [(5u64, 7u64), (5, 5), (0, P - 1)] {
        let mut cs = ConstraintSystem::new(P);
        let config = EqualCircuit::configure(&mut cs);
        let mut l = Layouter::new(&cs, 16, 2);
        let c = EqualCircuit { x: Some(x), y: Some(y) };
        assert_eq!(c.synthesize(config, &mut l), Ok(()));
        assert!(l.is_satisfied(&cs.gates));
    }
}

#[test]
fn tampered_layout_fails_check() {
    let mut cs = ConstraintSystem::new(P);
    let config = EqualCircuit::configure(&mut cs);
    let mut l = Layouter::new(&cs, 16, 2);
    let c = EqualCircuit { x: Some(5), y: Some(7) };
    assert_eq!(c.synthesize(config, &mut l), Ok(()));
    let out = l.cells[4];
    assert_eq!(l.lookup(out.column, out.row), Some(Some(P - 2)));
    assert_eq!(l.lookup(out.column, 15), None);
    let mut wrong = l.clone();
    wrong.cells[4].value = Some(0);
    assert!(!wrong.is_satisfied(&cs.gates));
    assert!(!wrong.check_gate(cs.gates[0], 2));
    let mut broken_copy = l.clone();
    broken_copy.copies[0].1.value = Some(6);
    assert!(!broken_copy.is_satisfied(&cs.gates));
}
