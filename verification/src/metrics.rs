//! Counters: what one is, what writes a group of them out, and three kinds.

use vstd::prelude::*;
use crate::json::{decimal_digits, encode_u64};

verus! {

/// `total + delta`, held at the largest count a counter can carry.
pub open spec fn saturating_sum(total: nat, delta: nat) -> nat {
    if total + delta > u64::MAX {
        u64::MAX as nat
    } else {
        total + delta
    }
}

/// A counter that can be added to and read.
///
/// The view is the counter's whole state. What an operation does is a spec
/// function from the view before to the view after, so that code generic over
/// the counter can still say exactly what it did to it.
pub trait Metric: View {
    /// The views that a counter of this kind can take.
    spec fn inv(v: Self::V) -> bool;

    /// The count that `count` reports in state `v`.
    spec fn count_spec(v: Self::V) -> nat;

    /// The state after `value` was added in state `v`.
    spec fn add_spec(v: Self::V, value: nat) -> Self::V;

    /// The state after a reset in state `v`.
    spec fn reset_spec(v: Self::V) -> Self::V;

    /// Adding keeps the state valid and never lowers the count.
    proof fn add_never_decreases(v: Self::V, value: nat)
        requires
            Self::inv(v),
        ensures
            Self::inv(Self::add_spec(v, value)),
            Self::count_spec(Self::add_spec(v, value)) >= Self::count_spec(v),
    ;

    /// Adds `value` to the counter.
    fn add(&mut self, value: u64)
        ensures
            final(self)@ == Self::add_spec(old(self)@, value as nat),
            Self::inv(final(self)@),
    ;

    /// Adds one to the counter.
    fn inc(&mut self)
        ensures
            final(self)@ == Self::add_spec(old(self)@, 1),
            Self::inv(final(self)@),
    {
        self.add(1)
    }

    /// The counter's current count.
    fn count(&self) -> (c: u64)
        ensures
            c as nat == Self::count_spec(self@),
            Self::inv(self@),
    ;

    /// Clears the counter, where its kind gives that a meaning.
    fn reset(&mut self)
        ensures
            final(self)@ == Self::reset_spec(old(self)@),
            Self::inv(final(self)@),
    ;
}

/// A counter that can report itself as one value of a flushed record. The
/// report carries the counter's count.
pub trait SerializeMetric: Metric {
    /// Whether the text of the report can be produced in state `v`.
    spec fn can_report(v: Self::V) -> bool;

    /// The state after a report went out in state `v`.
    spec fn settled(v: Self::V) -> Self::V;

    /// Settles the counter if its report went out, and leaves it as it is if
    /// not.
    fn settle(&mut self, emitted: bool)
        ensures
            final(self)@ == if emitted {
                Self::settled(old(self)@)
            } else {
                old(self)@
            },
            Self::inv(final(self)@),
    ;

    /// Reports the counter's count and settles the counter.
    fn snapshot(&mut self) -> (value: u64)
        ensures
            value as nat == Self::count_spec(old(self)@),
            final(self)@ == Self::settled(old(self)@),
            Self::inv(final(self)@),
    {
        let value = self.count();
        self.settle(true);
        value
    }

    /// Reports the counter's count as JSON text. The counter is settled only
    /// if the text could be produced; otherwise it is left as it was.
    fn serialize(&mut self) -> (res: Option<Vec<u8>>)
        ensures
            res is Some <==> Self::can_report(old(self)@),
            res matches Some(text) ==> text@ == decimal_digits(Self::count_spec(old(self)@))
                && final(self)@ == Self::settled(old(self)@),
            res is None ==> final(self)@ == old(self)@,
            Self::inv(final(self)@),
    ;
}

/// Something that writes its counters to a byte sink as one record.
pub trait MetricWriter: View {
    /// The bytes that a write in state `v` appends to the sink.
    spec fn emitted(v: Self::V) -> Seq<u8>;

    /// The state after a write in state `v`.
    spec fn written(v: Self::V) -> Self::V;

    /// Appends the record to `buffer`.
    fn write(&mut self, buffer: &mut Vec<u8>)
        ensures
            final(buffer)@ == old(buffer)@ + Self::emitted(old(self)@),
            final(self)@ == Self::written(old(self)@),
    ;
}

/// Counting switched off: nothing is written.
impl MetricWriter for () {
    open spec fn emitted(v: ()) -> Seq<u8> {
        Seq::empty()
    }

    open spec fn written(v: ()) -> () {
        ()
    }

    fn write(&mut self, buffer: &mut Vec<u8>) {
    }
}

/// Counting switched off: every operation does nothing and the count is zero.
impl Metric for () {
    open spec fn inv(v: ()) -> bool {
        true
    }

    open spec fn count_spec(v: ()) -> nat {
        0
    }

    open spec fn add_spec(v: (), value: nat) -> () {
        ()
    }

    open spec fn reset_spec(v: ()) -> () {
        ()
    }

    proof fn add_never_decreases(v: (), value: nat) {
    }

    fn add(&mut self, value: u64) {
    }

    fn count(&self) -> (c: u64)
        ensures
            c == 0,
    {
        0
    }

    fn reset(&mut self) {
    }
}

/// Counting switched off: there is never a report, so that a record of such
/// counters is never written.
impl SerializeMetric for () {
    open spec fn can_report(v: ()) -> bool {
        false
    }

    open spec fn settled(v: ()) -> () {
        ()
    }

    fn settle(&mut self, emitted: bool) {
    }

    fn serialize(&mut self) -> (res: Option<Vec<u8>>) {
        None
    }
}

/// A counter that keeps the running total of what was added to it: what an
/// atomic integer is to the one thread that holds it.
pub struct CumulativeMetric {
    value: u64,
}

impl View for CumulativeMetric {
    type V = nat;

    closed spec fn view(&self) -> nat {
        self.value as nat
    }
}

impl Default for CumulativeMetric {
    /// A counter at zero.
    fn default() -> (counter: Self)
        ensures
            counter@ == 0,
    {
        CumulativeMetric { value: 0 }
    }
}

impl Metric for CumulativeMetric {
    open spec fn inv(v: nat) -> bool {
        v <= u64::MAX
    }

    open spec fn count_spec(v: nat) -> nat {
        v
    }

    open spec fn add_spec(v: nat, value: nat) -> nat {
        saturating_sum(v, value)
    }

    open spec fn reset_spec(v: nat) -> nat {
        v
    }

    proof fn add_never_decreases(v: nat, value: nat) {
    }

    fn add(&mut self, value: u64) {
        self.value = self.value.saturating_add(value);
    }

    fn count(&self) -> (c: u64) {
        self.value
    }

    fn reset(&mut self) {
    }
}

impl SerializeMetric for CumulativeMetric {
    open spec fn can_report(v: nat) -> bool {
        true
    }

    open spec fn settled(v: nat) -> nat {
        v
    }

    fn settle(&mut self, emitted: bool) {
    }

    fn serialize(&mut self) -> (res: Option<Vec<u8>>) {
        let res = encode_u64(self.count());
        self.settle(res.is_some());
        res
    }
}

/// The state of a [`DiffMetric`]: the running total, and the total as it was
/// when the last report went out.
pub struct DiffMetricView {
    pub current: nat,
    pub previous: nat,
}

/// A counter that reports what was added since its last report.
pub struct DiffMetric {
    current_value: u64,
    previous_value: u64,
}

impl View for DiffMetric {
    type V = DiffMetricView;

    closed spec fn view(&self) -> DiffMetricView {
        DiffMetricView {
            current: self.current_value as nat,
            previous: self.previous_value as nat,
        }
    }
}

impl Default for DiffMetric {
    /// A counter to which nothing was added and which has reported nothing.
    fn default() -> (counter: Self)
        ensures
            counter@ == (DiffMetricView { current: 0, previous: 0 }),
    {
        DiffMetric { current_value: 0, previous_value: 0 }
    }
}

impl DiffMetric {
    #[verifier::type_invariant]
    spec fn baseline_behind(self) -> bool {
        self.previous_value <= self.current_value
    }
}

impl Metric for DiffMetric {
    open spec fn inv(v: DiffMetricView) -> bool {
        v.previous <= v.current <= u64::MAX
    }

    /// What was added since the last report.
    open spec fn count_spec(v: DiffMetricView) -> nat {
        (v.current - v.previous) as nat
    }

    open spec fn add_spec(v: DiffMetricView, value: nat) -> DiffMetricView {
        DiffMetricView { current: saturating_sum(v.current, value), previous: v.previous }
    }

    open spec fn reset_spec(v: DiffMetricView) -> DiffMetricView {
        v
    }

    proof fn add_never_decreases(v: DiffMetricView, value: nat) {
    }

    fn add(&mut self, value: u64) {
        proof {
            use_type_invariant(&*self);
        }
        self.current_value = self.current_value.saturating_add(value);
    }

    fn count(&self) -> (c: u64) {
        proof {
            use_type_invariant(self);
        }
        self.current_value - self.previous_value
    }

    fn reset(&mut self) {
        proof {
            use_type_invariant(&*self);
        }
    }
}

impl SerializeMetric for DiffMetric {
    open spec fn can_report(v: DiffMetricView) -> bool {
        true
    }

    open spec fn settled(v: DiffMetricView) -> DiffMetricView {
        DiffMetricView { current: v.current, previous: v.current }
    }

    fn settle(&mut self, emitted: bool) {
        proof {
            use_type_invariant(&*self);
        }
        if emitted {
            self.previous_value = self.current_value;
        }
    }

    fn serialize(&mut self) -> (res: Option<Vec<u8>>) {
        let res = encode_u64(self.count());
        self.settle(res.is_some());
        res
    }
}

/// The state that `n` increments lead to from state `v`.
pub open spec fn incremented<T: Metric>(v: T::V, n: nat) -> T::V
    decreases n,
{
    if n == 0 {
        v
    } else {
        T::add_spec(incremented::<T>(v, (n - 1) as nat), 1)
    }
}

/// A cumulative counter counts every increment: `n` of them raise its count
/// by `n`, up to the largest count. Starting from zero it reads `n` after `n`
/// increments, for every `n` that a count can hold.
pub proof fn cumulative_counts_increments(v: nat, n: nat)
    requires
        CumulativeMetric::inv(v),
    ensures
        CumulativeMetric::count_spec(incremented::<CumulativeMetric>(v, n)) == saturating_sum(
            CumulativeMetric::count_spec(v),
            n,
        ),
        v == 0 && n <= u64::MAX ==> CumulativeMetric::count_spec(
            incremented::<CumulativeMetric>(v, n),
        ) == n,
    decreases n,
{
    if n > 0 {
        cumulative_counts_increments(v, (n - 1) as nat);
    }
}

/// A diff counter reports every increment once: after `n` increments its next
/// report carries `n` more than it would have carried before, as long as the
/// running total does not reach the largest count. Starting from a new counter
/// the report after `n` increments is `n`, for every `n` that a count can
/// hold.
pub proof fn diff_reports_increments(v: DiffMetricView, n: nat)
    requires
        DiffMetric::inv(v),
    ensures
        DiffMetric::inv(incremented::<DiffMetric>(v, n)),
        incremented::<DiffMetric>(v, n) == (DiffMetricView {
            current: saturating_sum(v.current, n),
            previous: v.previous,
        }),
        v.current + n <= u64::MAX ==> DiffMetric::count_spec(incremented::<DiffMetric>(v, n))
            == DiffMetric::count_spec(v) + n,
        v == (DiffMetricView { current: 0, previous: 0 }) && n <= u64::MAX ==> DiffMetric::count_spec(
            incremented::<DiffMetric>(v, n),
        ) == n,
    decreases n,
{
    if n > 0 {
        diff_reports_increments(v, (n - 1) as nat);
    }
}

/// Two reports of a diff counter with nothing added in between: the first
/// carries all that was added since the report before it (the whole total, if
/// there was none), the second carries zero, and the counter is the same after
/// both.
pub proof fn diff_second_report_is_zero(v: DiffMetricView)
    requires
        DiffMetric::inv(v),
    ensures
        DiffMetric::count_spec(v) == v.current - v.previous,
        v.previous == 0 ==> DiffMetric::count_spec(v) == v.current,
        DiffMetric::inv(DiffMetric::settled(v)),
        DiffMetric::count_spec(DiffMetric::settled(v)) == 0,
        DiffMetric::settled(DiffMetric::settled(v)) == DiffMetric::settled(v),
{
}

/// With counting switched off nothing is ever counted or written: whatever
/// was done before, the count is zero, every operation leaves it so, there is
/// no report, and a write emits no byte.
pub proof fn null_counter_stays_empty(v: (), value: nat, n: nat)
    ensures
        <() as Metric>::count_spec(v) == 0,
        <() as Metric>::count_spec(<() as Metric>::add_spec(v, value)) == 0,
        <() as Metric>::count_spec(<() as Metric>::reset_spec(v)) == 0,
        <() as Metric>::count_spec(incremented::<()>(v, n)) == 0,
        !<() as SerializeMetric>::can_report(v),
        <() as MetricWriter>::emitted(v) == Seq::<u8>::empty(),
{
}

} // verus!
