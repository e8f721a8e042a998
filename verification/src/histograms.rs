use vstd::prelude::*;
use prometheus::{Histogram, HistogramOpts, HistogramVec};

use crate::names::{histogram_description_accepted, str_views};

verus! {

#[verifier::external_type_specification]
#[verifier::external_body]
pub struct ExHistogram(Histogram);

#[verifier::external_type_specification]
#[verifier::external_body]
pub struct ExPrometheusError(prometheus::Error);

/// A family of histograms partitioned by label values: a `prometheus::HistogramVec`.
/// Verus cannot be told of `HistogramVec` itself (its builder type is private to
/// prometheus), so the family is held here, out of Verus's sight.
#[verifier::external_body]
pub struct HistogramFamily {
    vec: HistogramVec,
}

/// The label names that a histogram family was created with.
pub uninterp spec fn family_label_names(family: HistogramFamily) -> Seq<Seq<char>>;

/// The metric name that a histogram family was created with.
pub uninterp spec fn family_name(family: HistogramFamily) -> Seq<char>;

/// The help text that a histogram family was created with.
pub uninterp spec fn family_help(family: HistogramFamily) -> Seq<char>;

/// The metric name of a histogram handed out by a family.
pub uninterp spec fn histogram_name(histogram: Histogram) -> Seq<char>;

/// What a lookup in a histogram family handed over and got back: the histogram, the
/// name of the family it was looked up in, and the label values it was looked up by.
/// Only `HistogramFamily::series` makes one, so whoever holds one holds the record of an
/// actual lookup.
pub struct SeriesLookup {
    record: Ghost<(Histogram, Seq<char>, Seq<Seq<char>>)>,
}

impl SeriesLookup {
    /// The histogram the lookup gave back.
    pub closed spec fn histogram(self) -> Histogram {
        self.record@.0
    }

    /// The name of the family the lookup was made in.
    pub closed spec fn family(self) -> Seq<char> {
        self.record@.1
    }

    /// The label values the lookup was made by, in the order of the family's label names.
    pub closed spec fn label_values(self) -> Seq<Seq<char>> {
        self.record@.2
    }
}

/// What a registration handed over and got back: the name of the family handed to the
/// registry, and whether the registry accepted it. Only `HistogramFamily::register`
/// makes one.
pub struct RegistrationReceipt {
    record: Ghost<(Seq<char>, bool)>,
}

impl RegistrationReceipt {
    /// The name of the family handed to the registry.
    pub closed spec fn family(self) -> Seq<char> {
        self.record@.0
    }

    /// Whether the registry accepted the family.
    pub closed spec fn accepted(self) -> bool {
        self.record@.1
    }
}

impl HistogramFamily {
    /// Calls `prometheus::HistogramVec::new(HistogramOpts::new(name, help), label_names)`.
    /// In prometheus 0.13.4 this describes the family with `Desc::new`, which fails
    /// exactly when the help text is empty, the name is not a metric name, a label name
    /// is not a label name, or a label name occurs twice; the family keeps the name, the
    /// help text and the label names it was given.
    #[verifier::external_body]
    pub(crate) fn create(name: &str, help: &str, label_names: &[&str]) -> (result: Result<
        HistogramFamily,
        prometheus::Error,
    >)
        ensures
            result is Ok <==> histogram_description_accepted(
                name@,
                help@,
                str_views(label_names@),
            ),
            result matches Ok(family) ==> family_label_names(family) == str_views(
                label_names@,
            ),
            result matches Ok(family) ==> family_name(family) == name@,
            result matches Ok(family) ==> family_help(family) == help@,
    {
        match HistogramVec::new(HistogramOpts::new(name, help), label_names) {
            Ok(vec) => Ok(HistogramFamily { vec }),
            Err(e) => Err(e),
        }
    }

    /// Calls `HistogramVec::with_label_values(values)`, which hands out the histogram of
    /// the family for these label values, creating it on first use. It panics when the
    /// number of values differs from the number of label names, or when a label name is
    /// `le` (reserved for bucket bounds); both are ruled out here. Every histogram of the
    /// family is built from the family's own options, so it carries the family's name.
    /// The record of the lookup holds the histogram that came back, this family's name
    /// and the label values handed to the lookup. Which histogram comes back for them
    /// depends on what the family holds already (prometheus finds it by a hash of the
    /// label values run together), so nothing more is stated of it.
    #[verifier::external_body]
    pub(crate) fn series(&self, values: &[&str]) -> (found: (Histogram, SeriesLookup))
        requires
            values@.len() == family_label_names(*self).len(),
            forall|i: int|
                0 <= i < family_label_names(*self).len() ==> #[trigger] family_label_names(
                    *self,
                )[i] != "le"@,
        ensures
            histogram_name(found.0) == family_name(*self),
            found.1.histogram() == found.0,
            found.1.family() == family_name(*self),
            found.1.label_values() == str_views(values@),
    {
        let histogram = self.vec.with_label_values(values);
        let lookup = SeriesLookup {
            record: Ghost((histogram, family_name(*self), str_views(values@))),
        };
        (histogram, lookup)
    }

    /// Calls `prometheus::register` on a handle of this family, adding it to the
    /// process-wide default registry. That fails when a collector with the same
    /// description was registered before, or one with the same name but other label
    /// names or help text. The outcome depends on the registry, so nothing is stated of
    /// when it succeeds; the receipt names this family and says whether the registry
    /// accepted it.
    #[verifier::external_body]
    pub(crate) fn register(&self) -> (registered: (Result<(), prometheus::Error>, RegistrationReceipt))
        ensures
            registered.1.family() == family_name(*self),
            registered.1.accepted() == (registered.0 is Ok),
    {
        let result = prometheus::register(Box::new(self.vec.clone()));
        let receipt = RegistrationReceipt { record: Ghost((family_name(*self), result is Ok)) };
        (result, receipt)
    }
}

} // verus!
