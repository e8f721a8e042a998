use diem_block_executor::{
    observe_sequential_execution_block_gas, GasHistograms, GasMetric, GasType, RegistrationError,
};

#[test]
fn families_register_on_their_own() {
    let first = GasHistograms::new();
    assert_eq!(first.register(GasMetric::BlockGas).0, Ok(()));
    let o = observe_sequential_execution_block_gas(9, GasType::IO_GAS);
    first.series(&o).0.observe(o.cost as f64);
    let names: Vec<String> =
        prometheus::gather().iter().map(|f| f.get_name().to_string()).collect();
    assert!(names.iter().any(|n| n == "diem_execution_block_gas"));

    let second = GasHistograms::new();
    assert_eq!(second.register(GasMetric::BlockGas).0, Err(RegistrationError));
    // The refused block family does not keep the transaction family out.
    assert_eq!(second.register(GasMetric::TxnGas).0, Ok(()));
    assert_eq!(first.register(GasMetric::TxnGas).0, Err(RegistrationError));
}
