//! The operators of the query builders and the numbers that stand for them in a query message.

use vstd::prelude::*;

verus! {

/// Log scan direction; logs default to newest-first.
#[derive(Debug, Clone, Copy, PartialEq, Eq, Structural)]
pub enum imbh_direction {
    Backward,
    Forward,
}

impl imbh_direction {
    /// The number that stands for the operator.
    pub open spec fn number(self) -> i32 {
        match self {
            imbh_direction::Backward => 0,
            imbh_direction::Forward => 1,
        }
    }

    /// The number that stands for the operator.
    pub fn code(self) -> (number: i32)
        ensures
            number == self.number(),
    {
        match self {
            imbh_direction::Backward => 0,
            imbh_direction::Forward => 1,
        }
    }
}

/// Numeric-comparison operator of a numeric attribute filter.
#[derive(Debug, Clone, Copy, PartialEq, Eq, Structural)]
pub enum imbh_num_op {
    Gt,
    Ge,
    Lt,
    Le,
}

impl imbh_num_op {
    /// The number that stands for the operator.
    pub open spec fn number(self) -> i32 {
        match self {
            imbh_num_op::Gt => 0,
            imbh_num_op::Ge => 1,
            imbh_num_op::Lt => 2,
            imbh_num_op::Le => 3,
        }
    }

    /// The number that stands for the operator.
    pub fn code(self) -> (number: i32)
        ensures
            number == self.number(),
    {
        match self {
            imbh_num_op::Gt => 0,
            imbh_num_op::Ge => 1,
            imbh_num_op::Lt => 2,
            imbh_num_op::Le => 3,
        }
    }
}

/// PromQL-style label operator: `=`, `!=`, `=~`, `!~`.
#[derive(Debug, Clone, Copy, PartialEq, Eq, Structural)]
pub enum imbh_label_op {
    Eq,
    Ne,
    Regex,
    NotRegex,
}

impl imbh_label_op {
    /// The number that stands for the operator.
    pub open spec fn number(self) -> i32 {
        match self {
            imbh_label_op::Eq => 0,
            imbh_label_op::Ne => 1,
            imbh_label_op::Regex => 2,
            imbh_label_op::NotRegex => 3,
        }
    }

    /// The number that stands for the operator.
    pub fn code(self) -> (number: i32)
        ensures
            number == self.number(),
    {
        match self {
            imbh_label_op::Eq => 0,
            imbh_label_op::Ne => 1,
            imbh_label_op::Regex => 2,
            imbh_label_op::NotRegex => 3,
        }
    }
}

/// Aggregation applied within each metric series or bucket.
#[derive(Debug, Clone, Copy, PartialEq, Eq, Structural)]
pub enum imbh_aggregation {
    Sum,
    Avg,
    Min,
    Max,
    Count,
}

impl imbh_aggregation {
    /// The number that stands for the operator.
    pub open spec fn number(self) -> i32 {
        match self {
            imbh_aggregation::Sum => 0,
            imbh_aggregation::Avg => 1,
            imbh_aggregation::Min => 2,
            imbh_aggregation::Max => 3,
            imbh_aggregation::Count => 4,
        }
    }

    /// The number that stands for the operator.
    pub fn code(self) -> (number: i32)
        ensures
            number == self.number(),
    {
        match self {
            imbh_aggregation::Sum => 0,
            imbh_aggregation::Avg => 1,
            imbh_aggregation::Min => 2,
            imbh_aggregation::Max => 3,
            imbh_aggregation::Count => 4,
        }
    }
}

/// How a metric range query turns per-bucket samples into a value.
#[derive(Debug, Clone, Copy, PartialEq, Eq, Structural)]
pub enum imbh_rate_mode {
    Off,
    Delta,
    Counter,
}

impl imbh_rate_mode {
    /// The number that stands for the operator.
    pub open spec fn number(self) -> i32 {
        match self {
            imbh_rate_mode::Off => 0,
            imbh_rate_mode::Delta => 1,
            imbh_rate_mode::Counter => 2,
        }
    }

    /// The number that stands for the operator.
    pub fn code(self) -> (number: i32)
        ensures
            number == self.number(),
    {
        match self {
            imbh_rate_mode::Off => 0,
            imbh_rate_mode::Delta => 1,
            imbh_rate_mode::Counter => 2,
        }
    }
}

/// The scalar metric family that a metric query targets.
#[derive(Debug, Clone, Copy, PartialEq, Eq, Structural)]
pub enum imbh_metric_table {
    Gauge,
    Sum,
}

impl imbh_metric_table {
    /// The number that stands for the operator.
    pub open spec fn number(self) -> i32 {
        match self {
            imbh_metric_table::Gauge => 0,
            imbh_metric_table::Sum => 1,
        }
    }

    /// The number that stands for the operator.
    pub fn code(self) -> (number: i32)
        ensures
            number == self.number(),
    {
        match self {
            imbh_metric_table::Gauge => 0,
            imbh_metric_table::Sum => 1,
        }
    }
}

/// The metric family that a metric-points query targets. Unlike [`imbh_metric_table`] it knows
/// histograms.
#[derive(Debug, Clone, Copy, PartialEq, Eq, Structural)]
pub enum imbh_metric_point_kind {
    Gauge,
    Sum,
    Histogram,
}

impl imbh_metric_point_kind {
    /// The number that stands for the operator.
    pub open spec fn number(self) -> i32 {
        match self {
            imbh_metric_point_kind::Gauge => 0,
            imbh_metric_point_kind::Sum => 1,
            imbh_metric_point_kind::Histogram => 2,
        }
    }

    /// The number that stands for the operator.
    pub fn code(self) -> (number: i32)
        ensures
            number == self.number(),
    {
        match self {
            imbh_metric_point_kind::Gauge => 0,
            imbh_metric_point_kind::Sum => 1,
            imbh_metric_point_kind::Histogram => 2,
        }
    }
}

/// Distinct operators have distinct numbers.
pub proof fn operators_are_told_apart_by_number()
    ensures
        forall|a: imbh_direction, b: imbh_direction| #[trigger]
            a.number() == #[trigger] b.number() ==> a == b,
        forall|a: imbh_num_op, b: imbh_num_op| #[trigger]
            a.number() == #[trigger] b.number() ==> a == b,
        forall|a: imbh_label_op, b: imbh_label_op| #[trigger]
            a.number() == #[trigger] b.number() ==> a == b,
        forall|a: imbh_aggregation, b: imbh_aggregation| #[trigger]
            a.number() == #[trigger] b.number() ==> a == b,
        forall|a: imbh_rate_mode, b: imbh_rate_mode| #[trigger]
            a.number() == #[trigger] b.number() ==> a == b,
        forall|a: imbh_metric_table, b: imbh_metric_table| #[trigger]
            a.number() == #[trigger] b.number() ==> a == b,
        forall|a: imbh_metric_point_kind, b: imbh_metric_point_kind| #[trigger]
            a.number() == #[trigger] b.number() ==> a == b,
{
}

/// Every operator stands in a query message as the number that the header gives it.
pub proof fn operators_have_the_numbers_of_the_header(
    direction: (imbh_direction, i32),
    num: (imbh_num_op, i32),
    label: (imbh_label_op, i32),
    aggregation: (imbh_aggregation, i32),
    rate: (imbh_rate_mode, i32),
    table: (imbh_metric_table, i32),
    points: (imbh_metric_point_kind, i32),
)
    requires
        call_ensures(imbh_direction::code, (direction.0,), direction.1),
        call_ensures(imbh_num_op::code, (num.0,), num.1),
        call_ensures(imbh_label_op::code, (label.0,), label.1),
        call_ensures(imbh_aggregation::code, (aggregation.0,), aggregation.1),
        call_ensures(imbh_rate_mode::code, (rate.0,), rate.1),
        call_ensures(imbh_metric_table::code, (table.0,), table.1),
        call_ensures(imbh_metric_point_kind::code, (points.0,), points.1),
    ensures
        direction.0 == imbh_direction::Backward <==> direction.1 == 0,
        direction.0 == imbh_direction::Forward <==> direction.1 == 1,
        num.0 == imbh_num_op::Gt <==> num.1 == 0,
        num.0 == imbh_num_op::Ge <==> num.1 == 1,
        num.0 == imbh_num_op::Lt <==> num.1 == 2,
        num.0 == imbh_num_op::Le <==> num.1 == 3,
        label.0 == imbh_label_op::Eq <==> label.1 == 0,
        label.0 == imbh_label_op::Ne <==> label.1 == 1,
        label.0 == imbh_label_op::Regex <==> label.1 == 2,
        label.0 == imbh_label_op::NotRegex <==> label.1 == 3,
        aggregation.0 == imbh_aggregation::Sum <==> aggregation.1 == 0,
        aggregation.0 == imbh_aggregation::Avg <==> aggregation.1 == 1,
        aggregation.0 == imbh_aggregation::Min <==> aggregation.1 == 2,
        aggregation.0 == imbh_aggregation::Max <==> aggregation.1 == 3,
        aggregation.0 == imbh_aggregation::Count <==> aggregation.1 == 4,
        rate.0 == imbh_rate_mode::Off <==> rate.1 == 0,
        rate.0 == imbh_rate_mode::Delta <==> rate.1 == 1,
        rate.0 == imbh_rate_mode::Counter <==> rate.1 == 2,
        table.0 == imbh_metric_table::Gauge <==> table.1 == 0,
        table.0 == imbh_metric_table::Sum <==> table.1 == 1,
        points.0 == imbh_metric_point_kind::Gauge <==> points.1 == 0,
        points.0 == imbh_metric_point_kind::Sum <==> points.1 == 1,
        points.0 == imbh_metric_point_kind::Histogram <==> points.1 == 2,
        direction.0.number() == direction.1,
        num.0.number() == num.1,
        label.0.number() == label.1,
        aggregation.0.number() == aggregation.1,
        rate.0.number() == rate.1,
        table.0.number() == table.1,
        points.0.number() == points.1,
{
}

} // verus!
