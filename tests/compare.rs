use equal_circuit::compare::GOLDILOCKS;
use equal_circuit::{compare_x_y, CircuitInput, Error, Input, InputData, TemplateStructName};

#[test]
fn compare_equal_and_unequal() {
    assert!(compare_x_y(Input { x: 4, y: 4 }).equal);
    assert!(!compare_x_y(Input { x: 4, y: -4 }).equal);
}

#[test]
fn prove_connected_values() {
    let r = TemplateStructName::prove(&InputData { x: 9, y: 9 }).unwrap();
    assert_eq!(r.public_inputs, vec![9, 9]);
    let r = TemplateStructName::prove(&InputData { x: GOLDILOCKS + 2, y: 2 }).unwrap();
    assert_eq!(r.public_inputs, vec![2, 2]);
    assert!(matches!(
        TemplateStructName::prove(&InputData { x: 1, y: 2 }),
        Err(Error::ConstraintUnsatisfied)
    ));
}

#[test]
fn gate_library_instances() {
    let d = CircuitInput::default();
    assert_eq!(d, CircuitInput { x: 1, y: 1 });
    assert_eq!(d.create_circuit().instance(), vec![1, 1]);
    assert_eq!(CircuitInput { x: 5, y: 7 }.create_circuit().instance(), vec![7, 0]);
}
