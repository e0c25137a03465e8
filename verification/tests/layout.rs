use halo2_proofs::plonk::ConstraintSystem;
use halo2curves::bn256::Fr;
use poseidon_circuit::columns::Constraints;
use poseidon_circuit::error::CircuitError;
use poseidon_circuit::{DefaultCircuit, HashCircuit, HashSpec};
use std::marker::PhantomData;

fn fresh() -> Constraints {
    Constraints {
        inner: ConstraintSystem::<Fr>::default(),
    }
}

#[test]
fn layout_counts_the_columns() {
    let (meta, _) = DefaultCircuit::layout().unwrap();
    let system = format!("{:?}", meta.inner);
    assert!(system.contains("num_fixed_columns: 6,"), "{}", system);
    assert!(system.contains("num_advice_columns: 4,"), "{}", system);
    assert!(system.contains("num_instance_columns: 1,"), "{}", system);
    assert!(system.contains("num_selectors: 3,"), "{}", system);
}

#[test]
fn layout_names_the_input_and_output_columns() {
    let (_, config) = DefaultCircuit::layout().unwrap();
    assert_eq!(config.input.len(), 2);
    assert_eq!(
        format!("{:?}", config.input[0].inner),
        "Column { index: 0, column_type: Advice }"
    );
    assert_eq!(
        format!("{:?}", config.input[1].inner),
        "Column { index: 1, column_type: Advice }"
    );
    assert_eq!(
        format!("{:?}", config.expected.inner),
        "Column { index: 0, column_type: Instance }"
    );
}

#[test]
fn layout_enables_equality_and_constants() {
    let (meta, _) = DefaultCircuit::layout().unwrap();
    let system = format!("{:?}", meta.inner);
    assert!(
        system.contains("constants: [Column { index: 3, column_type: Fixed }]"),
        "{}",
        system
    );
    let columns = "columns: [Column { index: 0, column_type: Instance }, \
                   Column { index: 3, column_type: Fixed }, \
                   Column { index: 0, column_type: Advice }, \
                   Column { index: 1, column_type: Advice }, \
                   Column { index: 2, column_type: Advice }, \
                   Column { index: 4, column_type: Fixed }, \
                   Column { index: 5, column_type: Fixed }]";
    assert!(system.contains(columns), "{}", system);
}

#[test]
fn layout_of_a_shorter_message_reads_fewer_columns() {
    let (meta, config) = HashCircuit::<HashSpec<3, 2>, 3, 2, 1>::layout().unwrap();
    assert_eq!(config.input.len(), 1);
    assert_eq!(
        format!("{:?}", config.input[0].inner),
        "Column { index: 0, column_type: Advice }"
    );
    let system = format!("{:?}", meta.inner);
    assert!(system.contains("num_advice_columns: 4,"), "{}", system);
}

#[test]
fn configure_goes_on_from_the_columns_at_hand() {
    let mut meta = fresh();
    meta.inner.advice_column();
    meta.inner.advice_column();
    meta.inner.fixed_column();
    meta.inner.instance_column();
    let config = DefaultCircuit::configure(&mut meta).unwrap();
    let system = format!("{:?}", meta.inner);
    assert!(system.contains("num_fixed_columns: 7,"), "{}", system);
    assert!(system.contains("num_advice_columns: 6,"), "{}", system);
    assert!(system.contains("num_instance_columns: 2,"), "{}", system);
    assert_eq!(
        format!("{:?}", config.input[1].inner),
        "Column { index: 3, column_type: Advice }"
    );
    assert_eq!(
        format!("{:?}", config.expected.inner),
        "Column { index: 1, column_type: Instance }"
    );
    assert!(
        system.contains("constants: [Column { index: 4, column_type: Fixed }]"),
        "{}",
        system
    );
}

#[test]
fn longer_message_is_refused_at_configuration() {
    let mut meta = fresh();
    let before = format!("{:?}", meta.inner);
    let refused = HashCircuit::<HashSpec<3, 2>, 3, 2, 3>::configure(&mut meta);
    assert!(matches!(refused, Err(CircuitError::MessageTooLong)));
    assert_eq!(format!("{:?}", meta.inner), before);
    assert!(matches!(
        HashCircuit::<HashSpec<3, 2>, 3, 2, 3>::check_parameters(),
        Err(CircuitError::MessageTooLong)
    ));
    assert!(matches!(
        HashCircuit::<HashSpec<3, 2>, 3, 2, 64>::layout(),
        Err(CircuitError::MessageTooLong)
    ));
}

#[test]
fn empty_message_is_refused() {
    let mut meta = fresh();
    let before = format!("{:?}", meta.inner);
    let refused = HashCircuit::<HashSpec<3, 2>, 3, 2, 0>::configure(&mut meta);
    assert!(matches!(refused, Err(CircuitError::EmptyMessage)));
    assert_eq!(format!("{:?}", meta.inner), before);
    let circuit = HashCircuit::<HashSpec<3, 2>, 3, 2, 0> {
        message: Some([]),
        _spec: PhantomData,
    };
    assert!(matches!(circuit.digest(), Err(CircuitError::EmptyMessage)));
}

#[test]
fn other_widths_are_unsupported() {
    let mut meta = fresh();
    let before = format!("{:?}", meta.inner);
    let refused = HashCircuit::<HashSpec<5, 4>, 5, 4, 4>::configure(&mut meta);
    assert!(matches!(refused, Err(CircuitError::UnsupportedParameters)));
    assert_eq!(format!("{:?}", meta.inner), before);
    assert!(matches!(
        HashCircuit::<HashSpec<3, 3>, 3, 3, 2>::check_parameters(),
        Err(CircuitError::UnsupportedParameters)
    ));
    assert!(matches!(
        HashCircuit::<HashSpec<2, 2>, 2, 2, 5>::check_parameters(),
        Err(CircuitError::UnsupportedParameters)
    ));
    let circuit = HashCircuit::<HashSpec<5, 4>, 5, 4, 4> {
        message: Some([Fr::from(1u64); 4]),
        _spec: PhantomData,
    };
    assert!(matches!(
        circuit.digest(),
        Err(CircuitError::UnsupportedParameters)
    ));
}

#[test]
fn supported_parameters_pass() {
    assert!(DefaultCircuit::check_parameters().is_ok());
    assert!(HashCircuit::<HashSpec<3, 2>, 3, 2, 1>::check_parameters().is_ok());
}
