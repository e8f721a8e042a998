//! Gas metrics of the block executor: the gas categories and execution modes it
//! reports, the samples it records, and the prometheus histogram families they go to;
//! and the decisions of the node's service start-up.

mod counters;
mod histograms;
mod names;
mod startup;

pub use counters::{
    observe_parallel_execution_block_gas, observe_parallel_execution_txn_gas,
    observe_sequential_execution_block_gas, observe_sequential_execution_txn_gas, GasHistograms,
    GasMetric, GasObservation, GasType, Mode, RegistrationError,
};
pub use histograms::{RegistrationReceipt, SeriesLookup};
pub use startup::{
    api_indexer_first_step, api_indexer_next_step, peer_monitoring_plan, ApiIndexerStep,
    PeerMonitoringPlan,
};
