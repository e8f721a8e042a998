use vstd::prelude::*;
use prometheus::Histogram;

use crate::histograms::{
    family_help, family_label_names, family_name, histogram_name, HistogramFamily,
    RegistrationReceipt, SeriesLookup,
};
use crate::names::{
    histogram_description_accepted, ident_tail, lemma_ident_from_tail, str_views,
};

verus! {

/// Names of the gas categories that block execution reports.
pub struct GasType;

impl GasType {
    pub const EXECUTION_GAS: &'static str = "execution_gas";
    pub const IO_GAS: &'static str = "io_gas";
    pub const NON_STORAGE_GAS: &'static str = "non_storage_gas";
    pub const STORAGE_FEE: &'static str = "storage_in_octas";
    pub const STORAGE_GAS: &'static str = "storage_in_gas";
    pub const TOTAL_GAS: &'static str = "total_gas";
}

/// Names of the two execution modes of the block executor.
pub struct Mode;

impl Mode {
    pub const PARALLEL: &'static str = "parallel";
    pub const SEQUENTIAL: &'static str = "sequential";
}

/// The two gas histogram families: gas per block and gas per transaction.
#[derive(Debug, Clone, Copy, PartialEq, Eq, Structural)]
pub enum GasMetric {
    BlockGas,
    TxnGas,
}

impl GasMetric {
    /// The metric name of the family.
    pub open spec fn spec_name(self) -> &'static str {
        match self {
            GasMetric::BlockGas => "diem_execution_block_gas",
            GasMetric::TxnGas => "diem_execution_txn_gas",
        }
    }

    /// The help text of the family.
    pub open spec fn spec_help(self) -> &'static str {
        match self {
            GasMetric::BlockGas => "Histogram for different block gas costs (execution, io, storage, storage fee, non-storage)",
            GasMetric::TxnGas => "Histogram for different average txn gas costs (execution, io, storage, storage fee, non-storage)",
        }
    }

    /// The label names of the family: the execution mode, then the gas category.
    pub open spec fn spec_label_names(self) -> Seq<&'static str> {
        seq!["mode", "stage"]
    }

    pub fn name(&self) -> (name: &'static str)
        ensures
            name == self.spec_name(),
    {
        match self {
            GasMetric::BlockGas => "diem_execution_block_gas",
            GasMetric::TxnGas => "diem_execution_txn_gas",
        }
    }

    pub fn help(&self) -> (help: &'static str)
        ensures
            help == self.spec_help(),
    {
        match self {
            GasMetric::BlockGas => "Histogram for different block gas costs (execution, io, storage, storage fee, non-storage)",
            GasMetric::TxnGas => "Histogram for different average txn gas costs (execution, io, storage, storage fee, non-storage)",
        }
    }

    pub fn label_names(&self) -> (names: Vec<&'static str>)
        ensures
            names@ == self.spec_label_names(),
    {
        vec!["mode", "stage"]
    }
}

/// One gas sample and the series it belongs to: the family, and the label values
/// (execution mode, gas category) that pick the histogram within the family.
#[derive(Debug, Clone, Copy, PartialEq, Eq)]
pub struct GasObservation {
    pub metric: GasMetric,
    pub mode: &'static str,
    pub gas_type: &'static str,
    pub cost: u64,
}

impl GasObservation {
    /// The label values of the sample, in the order of the family's label names.
    pub open spec fn spec_label_values(self) -> Seq<&'static str> {
        seq![self.mode, self.gas_type]
    }

    pub fn label_values(&self) -> (values: Vec<&'static str>)
        ensures
            values@ == self.spec_label_values(),
    {
        vec![self.mode, self.gas_type]
    }
}

/// Two samples name the same series: the same family and the same label texts.
/// Prometheus looks a series up by a hash of the label texts run together, so samples
/// that name different series can still meet in one histogram (`("ab", "c")` and
/// `("a", "bc")` do); this predicate speaks of the series named, not of that lookup.
pub open spec fn same_series(a: GasObservation, b: GasObservation) -> bool {
    a.metric == b.metric && str_views(a.spec_label_values()) == str_views(b.spec_label_values())
}

/// Record the block gas during parallel execution.
pub fn observe_parallel_execution_block_gas(cost: u64, gas_type: &'static str) -> (observation:
    GasObservation)
    ensures
        observation == (GasObservation {
            metric: GasMetric::BlockGas,
            mode: Mode::PARALLEL,
            gas_type,
            cost,
        }),
{
    GasObservation { metric: GasMetric::BlockGas, mode: Mode::PARALLEL, gas_type, cost }
}

/// Record the txn gas during parallel execution.
pub fn observe_parallel_execution_txn_gas(cost: u64, gas_type: &'static str) -> (observation:
    GasObservation)
    ensures
        observation == (GasObservation {
            metric: GasMetric::TxnGas,
            mode: Mode::PARALLEL,
            gas_type,
            cost,
        }),
{
    GasObservation { metric: GasMetric::TxnGas, mode: Mode::PARALLEL, gas_type, cost }
}

/// Record the block gas during sequential execution.
pub fn observe_sequential_execution_block_gas(cost: u64, gas_type: &'static str) -> (observation:
    GasObservation)
    ensures
        observation == (GasObservation {
            metric: GasMetric::BlockGas,
            mode: Mode::SEQUENTIAL,
            gas_type,
            cost,
        }),
{
    GasObservation { metric: GasMetric::BlockGas, mode: Mode::SEQUENTIAL, gas_type, cost }
}

/// Record the txn gas during sequential execution.
pub fn observe_sequential_execution_txn_gas(cost: u64, gas_type: &'static str) -> (observation:
    GasObservation)
    ensures
        observation == (GasObservation {
            metric: GasMetric::TxnGas,
            mode: Mode::SEQUENTIAL,
            gas_type,
            cost,
        }),
{
    GasObservation { metric: GasMetric::TxnGas, mode: Mode::SEQUENTIAL, gas_type, cost }
}

/// The texts of the gas categories, in declaration order.
pub open spec fn gas_type_names() -> Seq<Seq<char>> {
    seq![
        GasType::EXECUTION_GAS@,
        GasType::IO_GAS@,
        GasType::NON_STORAGE_GAS@,
        GasType::STORAGE_FEE@,
        GasType::STORAGE_GAS@,
        GasType::TOTAL_GAS@,
    ]
}

/// No two gas categories share a name, so samples of different categories never
/// land in the same histogram.
pub proof fn lemma_gas_type_names_distinct()
    ensures
        gas_type_names().no_duplicates(),
{
    reveal_strlit("execution_gas");
    reveal_strlit("io_gas");
    reveal_strlit("non_storage_gas");
    reveal_strlit("storage_in_octas");
    reveal_strlit("storage_in_gas");
    reveal_strlit("total_gas");
    let names = gas_type_names();
    assert(names[0].len() == 13 && names[0][0] == 'e');
    assert(names[1].len() == 6);
    assert(names[2].len() == 15);
    assert(names[3].len() == 16);
    assert(names[4].len() == 14 && names[4][0] == 's');
    assert(names[5].len() == 9);
}

/// The two execution modes have different names.
pub proof fn lemma_mode_names_distinct()
    ensures
        Mode::PARALLEL@ != Mode::SEQUENTIAL@,
{
    reveal_strlit("parallel");
    reveal_strlit("sequential");
    assert(Mode::PARALLEL@.len() == 8);
    assert(Mode::SEQUENTIAL@.len() == 10);
}

/// Whatever the costs, two samples name the same series exactly when they belong to
/// the same family, name the same execution mode and name the same gas category. In
/// particular the four recording functions never share a histogram.
pub proof fn lemma_same_series_iff(a: GasObservation, b: GasObservation)
    requires
        a.mode == Mode::PARALLEL || a.mode == Mode::SEQUENTIAL,
        b.mode == Mode::PARALLEL || b.mode == Mode::SEQUENTIAL,
    ensures
        same_series(a, b) <==> (a.metric == b.metric && a.mode == b.mode && a.gas_type@
            == b.gas_type@),
{
    lemma_mode_names_distinct();
    let va = str_views(a.spec_label_values());
    let vb = str_views(b.spec_label_values());
    assert(va[0] == a.mode@ && va[1] == a.gas_type@);
    assert(vb[0] == b.mode@ && vb[1] == b.gas_type@);
    if a.metric == b.metric && a.mode == b.mode && a.gas_type@ == b.gas_type@ {
        assert(va =~= vb);
    }
}

/// A sample carries one label value per label name of its family.
pub proof fn lemma_label_values_fit_family(observation: GasObservation)
    ensures
        observation.spec_label_values().len() == observation.metric.spec_label_names().len(),
{
}

/// Each gas family is described so that prometheus accepts it, and no label name is
/// `le`, the name that histograms reserve.
pub proof fn lemma_gas_metric_description_accepted(metric: GasMetric)
    ensures
        histogram_description_accepted(
            metric.spec_name()@,
            metric.spec_help()@,
            str_views(metric.spec_label_names()),
        ),
        forall|i: int|
            0 <= i < metric.spec_label_names().len() ==> #[trigger] str_views(
                metric.spec_label_names(),
            )[i] != "le"@,
{
    reveal_strlit("diem_execution_block_gas");
    reveal_strlit("diem_execution_txn_gas");
    reveal_strlit("Histogram for different block gas costs (execution, io, storage, storage fee, non-storage)");
    reveal_strlit("Histogram for different average txn gas costs (execution, io, storage, storage fee, non-storage)");
    reveal_strlit("mode");
    reveal_strlit("stage");
    reveal_strlit("le");
    let name = metric.spec_name()@;
    let labels = str_views(metric.spec_label_names());
    assert(labels[0] == "mode"@ && labels[1] == "stage"@);
    assert(labels.len() == 2);
    assert("mode"@.len() == 4 && "stage"@.len() == 5 && "le"@.len() == 2);
    assert(metric.spec_help()@.len() > 0);
    assert(name.len() > 0 && name[0] == 'd');
    assert(ident_tail(name, 1, true)) by {
        reveal_with_fuel(ident_tail, 25);
    }
    lemma_ident_from_tail(name, true);
    assert("mode"@[0] == 'm' && "stage"@[0] == 's');
    assert(ident_tail("mode"@, 1, false)) by {
        reveal_with_fuel(ident_tail, 5);
    }
    assert(ident_tail("stage"@, 1, false)) by {
        reveal_with_fuel(ident_tail, 6);
    }
    lemma_ident_from_tail("mode"@, false);
    lemma_ident_from_tail("stage"@, false);
    assert(labels.no_duplicates());
}

/// The two gas families have different metric names, so registering one never clashes
/// with the other.
pub proof fn lemma_gas_metric_names_distinct()
    ensures
        GasMetric::BlockGas.spec_name()@ != GasMetric::TxnGas.spec_name()@,
{
    reveal_strlit("diem_execution_block_gas");
    reveal_strlit("diem_execution_txn_gas");
    assert(GasMetric::BlockGas.spec_name()@.len() == 24);
    assert(GasMetric::TxnGas.spec_name()@.len() == 22);
}

/// Registering a gas family failed: the process-wide registry holds a collector with
/// the same description already, or one with the same name but other label names or
/// help text.
#[derive(Debug, Clone, Copy, PartialEq, Eq, Structural)]
pub struct RegistrationError;

/// The series that `observation` is recorded in: its family's metric name and its label
/// texts (execution mode, gas category).
pub open spec fn series_key(observation: GasObservation) -> (Seq<char>, Seq<Seq<char>>) {
    (observation.metric.spec_name()@, str_views(observation.spec_label_values()))
}

/// A sample made by a recording function is looked up in its family's series named by
/// its mode and gas category: for `observe_parallel_execution_block_gas(cost, g)` that is
/// `diem_execution_block_gas` with labels `["parallel", g]`, and so on for the others.
pub proof fn lemma_recorded_series(metric: GasMetric, mode: &'static str, gas_type: &'static str, cost: u64)
    ensures
        series_key(GasObservation { metric, mode, gas_type, cost }) == (
            metric.spec_name()@,
            seq![mode@, gas_type@],
        ),
{
    let labels = str_views(GasObservation { metric, mode, gas_type, cost }.spec_label_values());
    assert(labels =~= seq![mode@, gas_type@]);
}

/// `lookup` records a lookup of the series that `observation` names: in the family of
/// its metric, by its label values.
pub open spec fn looked_up_for(lookup: SeriesLookup, observation: GasObservation) -> bool {
    (lookup.family(), lookup.label_values()) == series_key(observation)
}

/// Each label name paired with the label value in the same place.
pub open spec fn label_pairs(names: Seq<Seq<char>>, values: Seq<Seq<char>>) -> Seq<
    (Seq<char>, Seq<char>),
> {
    Seq::new(names.len(), |i: int| (names[i], values[i]))
}

/// A lookup for an observation gives the `mode` label the observation's execution mode
/// and the `stage` label its gas category, in the family of its metric.
pub proof fn lemma_lookup_label_pairs(observation: GasObservation, lookup: SeriesLookup)
    requires
        looked_up_for(lookup, observation),
    ensures
        lookup.family() == observation.metric.spec_name()@,
        label_pairs(str_views(observation.metric.spec_label_names()), lookup.label_values())
            == seq![("mode"@, observation.mode@), ("stage"@, observation.gas_type@)],
{
    let names = str_views(observation.metric.spec_label_names());
    assert(names[0] == "mode"@ && names[1] == "stage"@);
    assert(lookup.label_values()[0] == observation.mode@);
    assert(lookup.label_values()[1] == observation.gas_type@);
    assert(label_pairs(names, lookup.label_values()) =~= seq![
        ("mode"@, observation.mode@),
        ("stage"@, observation.gas_type@),
    ]);
}

/// Where each recording function's sample is looked up, for every cost and gas
/// category: parallel block gas in `diem_execution_block_gas` under
/// `mode="parallel", stage=gas_type`, and likewise for transaction gas and sequential
/// execution.
pub proof fn lemma_recordings_looked_up_in_their_series(
    cost: u64,
    gas_type: &'static str,
    lookup: SeriesLookup,
)
    ensures
        looked_up_for(lookup, GasObservation { metric: GasMetric::BlockGas, mode: Mode::PARALLEL, gas_type, cost })
            ==> lookup.family() == "diem_execution_block_gas"@ && lookup.label_values() == seq![
            "parallel"@,
            gas_type@,
        ],
        looked_up_for(lookup, GasObservation { metric: GasMetric::TxnGas, mode: Mode::PARALLEL, gas_type, cost })
            ==> lookup.family() == "diem_execution_txn_gas"@ && lookup.label_values() == seq![
            "parallel"@,
            gas_type@,
        ],
        looked_up_for(lookup, GasObservation { metric: GasMetric::BlockGas, mode: Mode::SEQUENTIAL, gas_type, cost })
            ==> lookup.family() == "diem_execution_block_gas"@ && lookup.label_values() == seq![
            "sequential"@,
            gas_type@,
        ],
        looked_up_for(lookup, GasObservation { metric: GasMetric::TxnGas, mode: Mode::SEQUENTIAL, gas_type, cost })
            ==> lookup.family() == "diem_execution_txn_gas"@ && lookup.label_values() == seq![
            "sequential"@,
            gas_type@,
        ],
{
    lemma_recorded_series(GasMetric::BlockGas, Mode::PARALLEL, gas_type, cost);
    lemma_recorded_series(GasMetric::TxnGas, Mode::PARALLEL, gas_type, cost);
    lemma_recorded_series(GasMetric::BlockGas, Mode::SEQUENTIAL, gas_type, cost);
    lemma_recorded_series(GasMetric::TxnGas, Mode::SEQUENTIAL, gas_type, cost);
}

/// Two lookups made for two samples were made in the same family by the same label
/// values exactly when the samples belong to the same family, name the same execution
/// mode and name the same gas category; the costs play no part.
pub proof fn lemma_lookups_agree_iff(
    a: GasObservation,
    b: GasObservation,
    lookup_a: SeriesLookup,
    lookup_b: SeriesLookup,
)
    requires
        a.mode == Mode::PARALLEL || a.mode == Mode::SEQUENTIAL,
        b.mode == Mode::PARALLEL || b.mode == Mode::SEQUENTIAL,
        looked_up_for(lookup_a, a),
        looked_up_for(lookup_b, b),
    ensures
        (lookup_a.family() == lookup_b.family() && lookup_a.label_values()
            == lookup_b.label_values()) <==> (a.metric == b.metric && a.mode == b.mode
            && a.gas_type@ == b.gas_type@),
{
    lemma_same_series_iff(a, b);
    lemma_gas_metric_names_distinct();
    assert(a.metric != b.metric ==> a.metric.spec_name()@ != b.metric.spec_name()@);
}

/// A registration receipt for one gas family never names the other.
pub proof fn lemma_receipt_names_only_its_family(metric: GasMetric, receipt: RegistrationReceipt)
    requires
        receipt.family() == metric.spec_name()@,
    ensures
        forall|other: GasMetric| other != metric ==> receipt.family() != #[trigger] other.spec_name()@,
{
    lemma_gas_metric_names_distinct();
}

/// The block and transaction gas histogram families, each labelled by execution mode
/// and gas category.
pub struct GasHistograms {
    block_gas: HistogramFamily,
    txn_gas: HistogramFamily,
}

impl GasHistograms {
    /// The family of `metric`.
    closed spec fn family(self, metric: GasMetric) -> HistogramFamily {
        match metric {
            GasMetric::BlockGas => self.block_gas,
            GasMetric::TxnGas => self.txn_gas,
        }
    }

    /// The label names that the family of `metric` was created with.
    pub closed spec fn family_labels(self, metric: GasMetric) -> Seq<Seq<char>> {
        family_label_names(self.family(metric))
    }

    /// The metric name that the family of `metric` was created with.
    pub closed spec fn family_metric_name(self, metric: GasMetric) -> Seq<char> {
        family_name(self.family(metric))
    }

    /// The help text that the family of `metric` was created with.
    pub closed spec fn family_help_text(self, metric: GasMetric) -> Seq<char> {
        family_help(self.family(metric))
    }

    /// Each family was created with the name, help text and label names of its metric.
    pub open spec fn matches_metrics(self) -> bool {
        forall|metric: GasMetric|
            #![trigger self.family_labels(metric)]
            #![trigger self.family_metric_name(metric)]
            #![trigger self.family_help_text(metric)]
            {
                &&& self.family_labels(metric) == str_views(metric.spec_label_names())
                &&& self.family_metric_name(metric) == metric.spec_name()@
                &&& self.family_help_text(metric) == metric.spec_help()@
            }
    }

    #[verifier::type_invariant]
    spec fn families_match_metrics(self) -> bool {
        self.matches_metrics()
    }

    fn create_family(metric: GasMetric) -> (family: HistogramFamily)
        ensures
            family_label_names(family) == str_views(metric.spec_label_names()),
            family_name(family) == metric.spec_name()@,
            family_help(family) == metric.spec_help()@,
    {
        let name = metric.name();
        let help = metric.help();
        let label_names = metric.label_names();
        proof {
            lemma_gas_metric_description_accepted(metric);
        }
        match HistogramFamily::create(name, help, label_names.as_slice()) {
            Ok(family) => family,
            Err(_) => vstd::pervasive::unreached(),
        }
    }

    /// Creates the two families, unregistered, each with the name, help text and label
    /// names of its metric. Prometheus accepts both descriptions, so this never fails.
    pub fn new() -> (histograms: Self)
        ensures
            histograms.matches_metrics(),
    {
        let block_gas = Self::create_family(GasMetric::BlockGas);
        let txn_gas = Self::create_family(GasMetric::TxnGas);
        let histograms = GasHistograms { block_gas, txn_gas };
        assert forall|metric: GasMetric|
            histograms.family_labels(metric) == str_views(metric.spec_label_names())
                && histograms.family_metric_name(metric) == metric.spec_name()@
                && histograms.family_help_text(metric) == metric.spec_help()@ by {
            match metric {
                GasMetric::BlockGas => {},
                GasMetric::TxnGas => {},
            }
        }
        histograms
    }

    /// Adds the family of `metric` to the process-wide default registry, on its own.
    /// Whether the registry accepts it depends on what it holds already. The receipt
    /// comes from the registration itself: it names the family handed to the registry
    /// and says whether the registry accepted it; the result is `Ok` exactly when it did.
    pub fn register(&self, metric: GasMetric) -> (outcome: (
        Result<(), RegistrationError>,
        RegistrationReceipt,
    ))
        ensures
            outcome.1.family() == metric.spec_name()@,
            outcome.0 is Ok <==> outcome.1.accepted(),
    {
        proof {
            use_type_invariant(self);
            assert(self.family_metric_name(metric) == metric.spec_name()@);
        }
        let (registered, receipt) = match metric {
            GasMetric::BlockGas => self.block_gas.register(),
            GasMetric::TxnGas => self.txn_gas.register(),
        };
        match registered {
            Ok(()) => (Ok(()), receipt),
            Err(_) => (Err(RegistrationError), receipt),
        }
    }

    /// The histogram that `observation` is recorded in: the one of its family for its
    /// label values. The record of the lookup comes from the lookup itself: it holds the
    /// histogram that came back, the family it was looked up in, and the label values it
    /// was looked up by, which together are the series named by the observation. The
    /// lookup cannot fail: a sample carries exactly as many label values as its family
    /// has label names.
    pub fn series(&self, observation: &GasObservation) -> (found: (Histogram, SeriesLookup))
        ensures
            found.1.histogram() == found.0,
            looked_up_for(found.1, *observation),
            histogram_name(found.0) == observation.metric.spec_name()@,
    {
        proof {
            use_type_invariant(self);
            assert(self.family_labels(observation.metric) == str_views(
                observation.metric.spec_label_names(),
            ));
            assert(self.family_metric_name(observation.metric) == observation.metric.spec_name()@);
            lemma_gas_metric_description_accepted(observation.metric);
        }
        let values = observation.label_values();
        match observation.metric {
            GasMetric::BlockGas => self.block_gas.series(values.as_slice()),
            GasMetric::TxnGas => self.txn_gas.series(values.as_slice()),
        }
    }
}

} // verus!
