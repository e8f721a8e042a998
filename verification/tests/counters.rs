use diem_block_executor::{
    observe_parallel_execution_block_gas, observe_parallel_execution_txn_gas,
    observe_sequential_execution_block_gas, observe_sequential_execution_txn_gas, GasHistograms,
    GasMetric, GasObservation, GasType, Mode,
};

const ALL_GAS_TYPES: [&str; 6] = [
    GasType::EXECUTION_GAS,
    GasType::IO_GAS,
    GasType::NON_STORAGE_GAS,
    GasType::STORAGE_FEE,
    GasType::STORAGE_GAS,
    GasType::TOTAL_GAS,
];

type Observer = fn(u64, &'static str) -> GasObservation;

const OBSERVERS: [Observer; 4] = [
    observe_parallel_execution_block_gas,
    observe_parallel_execution_txn_gas,
    observe_sequential_execution_block_gas,
    observe_sequential_execution_txn_gas,
];

#[test]
fn gas_type_names() {
    assert_eq!(GasType::EXECUTION_GAS, "execution_gas");
    assert_eq!(GasType::IO_GAS, "io_gas");
    assert_eq!(GasType::NON_STORAGE_GAS, "non_storage_gas");
    assert_eq!(GasType::STORAGE_FEE, "storage_in_octas");
    assert_eq!(GasType::STORAGE_GAS, "storage_in_gas");
    assert_eq!(GasType::TOTAL_GAS, "total_gas");
}

#[test]
fn gas_type_names_are_distinct() {
    for i in 0..ALL_GAS_TYPES.len() {
        for j in 0..ALL_GAS_TYPES.len() {
            assert_eq!(i == j, ALL_GAS_TYPES[i] == ALL_GAS_TYPES[j]);
        }
    }
}

#[test]
fn mode_names() {
    assert_eq!(Mode::PARALLEL, "parallel");
    assert_eq!(Mode::SEQUENTIAL, "sequential");
    assert_ne!(Mode::PARALLEL, Mode::SEQUENTIAL);
}

#[test]
fn parallel_block_gas_observation() {
    let o = observe_parallel_execution_block_gas(1234, GasType::EXECUTION_GAS);
    assert_eq!(o.metric, GasMetric::BlockGas);
    assert_eq!(o.mode, "parallel");
    assert_eq!(o.gas_type, "execution_gas");
    assert_eq!(o.cost, 1234);
    assert_eq!(o.label_values(), vec!["parallel", "execution_gas"]);
}

#[test]
fn parallel_txn_gas_observation() {
    let o = observe_parallel_execution_txn_gas(7, GasType::IO_GAS);
    assert_eq!(o.metric, GasMetric::TxnGas);
    assert_eq!(o.mode, "parallel");
    assert_eq!(o.gas_type, "io_gas");
    assert_eq!(o.cost, 7);
    assert_eq!(o.label_values(), vec!["parallel", "io_gas"]);
}

#[test]
fn sequential_block_gas_observation() {
    let o = observe_sequential_execution_block_gas(u64::MAX, GasType::STORAGE_FEE);
    assert_eq!(o.metric, GasMetric::BlockGas);
    assert_eq!(o.mode, "sequential");
    assert_eq!(o.gas_type, "storage_in_octas");
    assert_eq!(o.cost, u64::MAX);
    assert_eq!(o.label_values(), vec!["sequential", "storage_in_octas"]);
}

#[test]
fn sequential_txn_gas_observation() {
    let o = observe_sequential_execution_txn_gas(0, GasType::TOTAL_GAS);
    assert_eq!(o.metric, GasMetric::TxnGas);
    assert_eq!(o.mode, "sequential");
    assert_eq!(o.gas_type, "total_gas");
    assert_eq!(o.cost, 0);
    assert_eq!(o.label_values(), vec!["sequential", "total_gas"]);
}

#[test]
fn observation_keeps_any_gas_type_text() {
    let o = observe_parallel_execution_txn_gas(3, "custom_stage");
    assert_eq!(o.gas_type, "custom_stage");
    assert_eq!(o.label_values(), vec!["parallel", "custom_stage"]);
}

#[test]
fn gas_metric_descriptions() {
    assert_eq!(GasMetric::BlockGas.name(), "diem_execution_block_gas");
    assert_eq!(GasMetric::TxnGas.name(), "diem_execution_txn_gas");
    assert_eq!(
        GasMetric::BlockGas.help(),
        "Histogram for different block gas costs (execution, io, storage, storage fee, non-storage)"
    );
    assert_eq!(
        GasMetric::TxnGas.help(),
        "Histogram for different average txn gas costs (execution, io, storage, storage fee, non-storage)"
    );
    assert_eq!(GasMetric::BlockGas.label_names(), vec!["mode", "stage"]);
    assert_eq!(GasMetric::TxnGas.label_names(), vec!["mode", "stage"]);
    assert_ne!(GasMetric::BlockGas.name(), GasMetric::TxnGas.name());
}

#[test]
fn label_values_fit_label_names() {
    for observe in OBSERVERS {
        for gas_type in ALL_GAS_TYPES {
            let o = observe(10, gas_type);
            assert_eq!(o.label_values().len(), o.metric.label_names().len());
        }
    }
}

#[test]
fn observers_never_share_a_series() {
    let mut keys = Vec::new();
    for observe in OBSERVERS {
        let o = observe(1, GasType::IO_GAS);
        keys.push((o.metric, o.mode));
    }
    for i in 0..keys.len() {
        for j in 0..keys.len() {
            assert_eq!(i == j, keys[i] == keys[j]);
        }
    }
}

#[test]
fn series_records_samples() {
    let histograms = GasHistograms::new();
    let o = observe_parallel_execution_block_gas(40, GasType::EXECUTION_GAS);
    let series = histograms.series(&o).0;
    assert_eq!(series.get_sample_count(), 0);
    series.observe(o.cost as f64);
    let again = observe_parallel_execution_block_gas(2, GasType::EXECUTION_GAS);
    histograms.series(&again).0.observe(again.cost as f64);
    let series = histograms.series(&o).0;
    assert_eq!(series.get_sample_count(), 2);
    assert_eq!(series.get_sample_sum(), 42.0);
}

#[test]
fn distinct_observers_use_distinct_series() {
    let histograms = GasHistograms::new();
    for (k, observe) in OBSERVERS.iter().enumerate() {
        let o = observe(k as u64 + 1, GasType::STORAGE_GAS);
        histograms.series(&o).0.observe(o.cost as f64);
    }
    for (k, observe) in OBSERVERS.iter().enumerate() {
        let o = observe(0, GasType::STORAGE_GAS);
        let series = histograms.series(&o).0;
        assert_eq!(series.get_sample_count(), 1);
        assert_eq!(series.get_sample_sum(), (k + 1) as f64);
        let other = observe(0, GasType::IO_GAS);
        assert_eq!(histograms.series(&other).0.get_sample_count(), 0);
    }
}

#[test]
fn every_observation_has_a_series() {
    let histograms = GasHistograms::new();
    for observe in OBSERVERS {
        for gas_type in ALL_GAS_TYPES {
            let o = observe(5, gas_type);
            histograms.series(&o).0.observe(o.cost as f64);
            assert_eq!(histograms.series(&o).0.get_sample_count(), 1);
        }
    }
}

#[test]
fn series_carries_family_name() {
    let histograms = GasHistograms::new();
    for observe in OBSERVERS {
        let o = observe(1, GasType::TOTAL_GAS);
        let series = histograms.series(&o).0;
        assert_eq!(prometheus::core::Collector::desc(&series)[0].fq_name, o.metric.name());
    }
}

fn cumulative_counts(series: &prometheus::Histogram) -> Vec<(f64, u64)> {
    let metric = prometheus::core::Metric::metric(series);
    metric
        .get_histogram()
        .get_bucket()
        .iter()
        .map(|b| (b.get_upper_bound(), b.get_cumulative_count()))
        .collect()
}

#[test]
fn parallel_io_gas_sample_of_three() {
    let histograms = GasHistograms::new();
    let o = observe_parallel_execution_block_gas(3, GasType::IO_GAS);
    histograms.series(&o).0.observe(o.cost as f64);
    let series = histograms.series(&o).0;
    assert_eq!(series.get_sample_count(), 1);
    assert_eq!(series.get_sample_sum(), 3.0);
    for (bound, count) in cumulative_counts(&series) {
        assert_eq!(count, if 3.0 <= bound { 1 } else { 0 });
    }
    let sequential = observe_sequential_execution_block_gas(0, GasType::IO_GAS);
    assert_eq!(histograms.series(&sequential).0.get_sample_count(), 0);
}

#[test]
fn sequential_execution_gas_sample_of_forty_two() {
    let histograms = GasHistograms::new();
    let o = observe_sequential_execution_txn_gas(42, GasType::EXECUTION_GAS);
    histograms.series(&o).0.observe(o.cost as f64);
    let series = histograms.series(&o).0;
    assert_eq!(series.get_sample_count(), 1);
    assert_eq!(series.get_sample_sum(), 42.0);
    let parallel = observe_parallel_execution_txn_gas(0, GasType::EXECUTION_GAS);
    assert_eq!(histograms.series(&parallel).0.get_sample_count(), 0);
    let block = observe_sequential_execution_block_gas(0, GasType::EXECUTION_GAS);
    assert_eq!(histograms.series(&block).0.get_sample_count(), 0);
}

#[test]
fn unknown_stage_gets_a_new_series() {
    let histograms = GasHistograms::new();
    let known = observe_parallel_execution_block_gas(5, GasType::TOTAL_GAS);
    histograms.series(&known).0.observe(known.cost as f64);
    let unknown = observe_parallel_execution_block_gas(7, "brand_new_stage");
    let series = histograms.series(&unknown).0;
    assert_eq!(series.get_sample_count(), 0);
    series.observe(unknown.cost as f64);
    assert_eq!(histograms.series(&unknown).0.get_sample_count(), 1);
    assert_eq!(histograms.series(&known).0.get_sample_count(), 1);
}
