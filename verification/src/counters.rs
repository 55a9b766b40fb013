//! Families of counters, kept by the metrics library and keyed by label
//! set.

use prometheus_client::metrics::counter::Counter;
use prometheus_client::metrics::family::Family;
use prometheus_client::registry::Registry;
use vstd::multiset::Multiset;
use vstd::prelude::*;

verus! {

/// A label set as the counters are keyed by it: pairs of a label's name and
/// its value.
pub type LabelSetView = Seq<(Seq<char>, Seq<char>)>;

/// `prometheus_client::registry::Registry`: the metrics that an exporter
/// will encode. Nothing is claimed of what it holds.
#[verifier::external_type_specification]
#[verifier::external_body]
pub struct ExRegistry(Registry);

/// A `prometheus_client::metrics::family::Family` of
/// `prometheus_client::metrics::counter::Counter`, keyed by pairs of
/// strings. The one who holds it exclusively is the only one who counts.
#[verifier::external_body]
pub struct CounterFamily {
    family: Family<Vec<(String, String)>, Counter>,
}

/// The counters that a family holds: for each label set that was ever
/// counted, its count.
pub uninterp spec fn family_counts(family: CounterFamily) -> Map<LabelSetView, u64>;

/// The counts of a family in which nothing was counted yet.
pub open spec fn no_counts() -> Map<LabelSetView, u64> {
    Map::empty()
}

/// The count of `labels` in `counts`: zero for a label set that was never
/// counted.
pub open spec fn count_in(counts: Map<LabelSetView, u64>, labels: LabelSetView) -> u64 {
    if counts.contains_key(labels) {
        counts[labels]
    } else {
        0
    }
}

/// The count that follows `count`. A counter is a 64-bit number that
/// starts again at zero after its largest value.
pub open spec fn bumped(count: u64) -> u64 {
    if count == u64::MAX {
        0
    } else {
        (count + 1) as u64
    }
}

/// `counts` after one more event was counted under `labels`.
pub open spec fn counted(counts: Map<LabelSetView, u64>, labels: LabelSetView) -> Map<
    LabelSetView,
    u64,
> {
    counts.insert(labels, bumped(count_in(counts, labels)))
}

/// `Family::default`: a family without counters.
#[verifier::external_body]
pub(crate) fn family_new() -> (family: CounterFamily)
    ensures
        family_counts(family) == no_counts(),
{
    CounterFamily { family: Family::default() }
}

/// `Family::get_or_create` and `Counter::inc` on what it finds: the
/// counter of `labels` is created at zero if there was none, then goes up
/// by one, wrapping at the largest value. No other counter changes.
#[verifier::external_body]
pub(crate) fn family_increment(family: &mut CounterFamily, labels: &Vec<(String, String)>)
    ensures
        family_counts(*final(family)) == counted(family_counts(*old(family)), labels.deep_view()),
{
    family.family.get_or_create(labels).inc();
}

/// `Family::get` and `Counter::get` on what it finds: the count of
/// `labels`, if a counter for them exists.
#[verifier::external_body]
pub(crate) fn family_count(family: &CounterFamily, labels: &Vec<(String, String)>) -> (count:
    Option<u64>)
    ensures
        count == (if family_counts(*family).contains_key(labels.deep_view()) {
            Some(family_counts(*family)[labels.deep_view()])
        } else {
            None
        }),
{
    match family.family.get(labels) {
        Some(counter) => Some(counter.get()),
        None => None,
    }
}

/// One registered metric: the prefix of the registry that holds it, if it
/// has one, the metric's name, and its help text as the registry keeps it.
pub type RegistryEntry = (Option<Seq<char>>, Seq<char>, Seq<char>);

/// The metrics that were registered in a registry or in a registry below
/// it.
pub uninterp spec fn registry_metrics(registry: Registry) -> Multiset<RegistryEntry>;

/// The prefix that a registry puts before the names of its metrics, if it
/// has one.
pub uninterp spec fn registry_prefix(registry: Registry) -> Option<Seq<char>>;

/// The metrics of a registry in which nothing was registered yet.
pub open spec fn no_metrics() -> Multiset<RegistryEntry> {
    Multiset::empty()
}

/// The prefix of a registry that is made below one with the prefix
/// `parent`: the two joined by an underscore, or `prefix` alone under a
/// registry that has none.
pub open spec fn scoped_prefix(parent: Option<Seq<char>>, prefix: Seq<char>) -> Seq<char> {
    match parent {
        Some(p) => p + "_"@ + prefix,
        None => prefix,
    }
}

/// What a registry with this prefix keeps of a metric registered under
/// `name` with `help`: the help text gets a full stop.
pub open spec fn entry_of(prefix: Option<Seq<char>>, name: Seq<char>, help: Seq<char>)
    -> RegistryEntry {
    (prefix, name, help.push('.'))
}

/// `Registry::sub_registry_with_prefix`: a new registry below `registry`,
/// empty, whose prefix is that of `registry` joined with `prefix`. What is
/// registered in it counts among the metrics of `registry`, whose own
/// prefix and other metrics stay.
#[verifier::external_body]
pub(crate) fn registry_with_prefix<'a>(registry: &'a mut Registry, prefix: &str) -> (scoped:
    &'a mut Registry)
    ensures
        registry_prefix(*scoped) == Some(scoped_prefix(registry_prefix(*old(registry)), prefix@)),
        registry_metrics(*scoped) == no_metrics(),
        registry_prefix(*final(registry)) == registry_prefix(*old(registry)),
        registry_metrics(*final(registry)) == registry_metrics(*old(registry)).add(
            registry_metrics(*final(scoped)),
        ),
{
    registry.sub_registry_with_prefix(prefix)
}

/// `Registry::register` with a handle on `family`: the registry keeps one
/// more metric, under `name` and with `help` followed by a full stop, and
/// will encode the family's counters under it. Its prefix stays.
#[verifier::external_body]
pub(crate) fn family_register(
    registry: &mut Registry,
    name: &str,
    help: &str,
    family: &CounterFamily,
)
    ensures
        registry_prefix(*final(registry)) == registry_prefix(*old(registry)),
        registry_metrics(*final(registry)) == registry_metrics(*old(registry)).insert(
            entry_of(registry_prefix(*old(registry)), name@, help@),
        ),
{
    registry.register(name, help, family.family.clone());
}

} // verus!
