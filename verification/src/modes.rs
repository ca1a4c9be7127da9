//! The display choices of the editor: sensors, table metrics and view
//! modes, with their names and units.

use vstd::prelude::*;

verus! {

/// A sensor trace of the datalog graph.
#[derive(Debug, Clone, Copy, PartialEq, Eq, Structural)]
pub enum GraphSensor {
    Tps,
    Rpm,
    Afr,
    /// Manifold absolute pressure.
    ManifoldPressure,
    Batt,
    InjMs,
    Ign,
    Lambda,
    Boost,
    Vss,
}

/// Display name of a graph sensor.
pub open spec fn graph_sensor_label(s: GraphSensor) -> Seq<char> {
    match s {
        GraphSensor::Tps => "TPS"@,
        GraphSensor::Rpm => "RPM"@,
        GraphSensor::Afr => "AFR"@,
        GraphSensor::ManifoldPressure => "MAP"@,
        GraphSensor::Batt => "BATT"@,
        GraphSensor::InjMs => "INJ"@,
        GraphSensor::Ign => "IGN"@,
        GraphSensor::Lambda => "LAMBDA"@,
        GraphSensor::Boost => "BOOST"@,
        GraphSensor::Vss => "VSS"@,
    }
}

/// Unit of a graph sensor.
pub open spec fn graph_sensor_unit(s: GraphSensor) -> Seq<char> {
    match s {
        GraphSensor::Tps => "%"@,
        GraphSensor::Rpm => "rpm"@,
        GraphSensor::Afr => ""@,
        GraphSensor::ManifoldPressure => "mbar"@,
        GraphSensor::Batt => "V"@,
        GraphSensor::InjMs => "ms"@,
        GraphSensor::Ign => "deg"@,
        GraphSensor::Lambda => ""@,
        GraphSensor::Boost => "psi"@,
        GraphSensor::Vss => "km/h"@,
    }
}

impl GraphSensor {
    /// Every sensor, in menu order.
    pub fn all() -> (v: Vec<GraphSensor>)
        ensures
            v@ == seq![
                GraphSensor::Tps,
                GraphSensor::Rpm,
                GraphSensor::Afr,
                GraphSensor::ManifoldPressure,
                GraphSensor::Batt,
                GraphSensor::InjMs,
                GraphSensor::Ign,
                GraphSensor::Lambda,
                GraphSensor::Boost,
                GraphSensor::Vss,
            ],
    {
        vec![
            GraphSensor::Tps,
            GraphSensor::Rpm,
            GraphSensor::Afr,
            GraphSensor::ManifoldPressure,
            GraphSensor::Batt,
            GraphSensor::InjMs,
            GraphSensor::Ign,
            GraphSensor::Lambda,
            GraphSensor::Boost,
            GraphSensor::Vss,
        ]
    }

    /// Display name of the sensor.
    pub fn label(self) -> (s: &'static str)
        ensures
            s@ == graph_sensor_label(self),
    {
        match self {
            GraphSensor::Tps => "TPS",
            GraphSensor::Rpm => "RPM",
            GraphSensor::Afr => "AFR",
            GraphSensor::ManifoldPressure => "MAP",
            GraphSensor::Batt => "BATT",
            GraphSensor::InjMs => "INJ",
            GraphSensor::Ign => "IGN",
            GraphSensor::Lambda => "LAMBDA",
            GraphSensor::Boost => "BOOST",
            GraphSensor::Vss => "VSS",
        }
    }

    /// Unit of the sensor's value (empty for ratios).
    pub fn unit(self) -> (s: &'static str)
        ensures
            s@ == graph_sensor_unit(self),
    {
        match self {
            GraphSensor::Tps => "%",
            GraphSensor::Rpm => "rpm",
            GraphSensor::Afr => "",
            GraphSensor::ManifoldPressure => "mbar",
            GraphSensor::Batt => "V",
            GraphSensor::InjMs => "ms",
            GraphSensor::Ign => "deg",
            GraphSensor::Lambda => "",
            GraphSensor::Boost => "psi",
            GraphSensor::Vss => "km/h",
        }
    }
}

/// The quantity shown by the live datalog table.
#[derive(Debug, Clone, Copy, PartialEq, Eq, Structural)]
pub enum TableMetric {
    Afr,
    FuelValue,
    InjDuty,
    Ign,
}

/// Display name of a table metric.
pub open spec fn table_metric_label(m: TableMetric) -> Seq<char> {
    match m {
        TableMetric::Afr => "AFR"@,
        TableMetric::FuelValue => "FUEL VALUE"@,
        TableMetric::InjDuty => "INJ DUTY"@,
        TableMetric::Ign => "IGN"@,
    }
}

/// Unit of a table metric.
pub open spec fn table_metric_unit(m: TableMetric) -> Seq<char> {
    match m {
        TableMetric::Afr => ""@,
        TableMetric::FuelValue => "fv"@,
        TableMetric::InjDuty => "%"@,
        TableMetric::Ign => "deg"@,
    }
}

impl TableMetric {
    /// Every metric, in menu order.
    pub fn all() -> (v: Vec<TableMetric>)
        ensures
            v@ == seq![TableMetric::Afr, TableMetric::FuelValue, TableMetric::InjDuty, TableMetric::Ign],
    {
        vec![TableMetric::Afr, TableMetric::FuelValue, TableMetric::InjDuty, TableMetric::Ign]
    }

    /// Display name of the metric.
    pub fn label(self) -> (s: &'static str)
        ensures
            s@ == table_metric_label(self),
    {
        match self {
            TableMetric::Afr => "AFR",
            TableMetric::FuelValue => "FUEL VALUE",
            TableMetric::InjDuty => "INJ DUTY",
            TableMetric::Ign => "IGN",
        }
    }

    /// Unit of the metric's value (empty for AFR).
    pub fn unit(self) -> (s: &'static str)
        ensures
            s@ == table_metric_unit(self),
    {
        match self {
            TableMetric::Afr => "",
            TableMetric::FuelValue => "fv",
            TableMetric::InjDuty => "%",
            TableMetric::Ign => "deg",
        }
    }
}

/// How a ROM map is drawn.
#[derive(Debug, Clone, Copy, PartialEq, Eq, Structural)]
pub enum RomTableViewMode {
    TwoD,
    ThreeD,
}

impl RomTableViewMode {
    /// Display name of the view mode.
    pub fn label(self) -> (s: &'static str)
        ensures
            s@ == (match self {
                RomTableViewMode::TwoD => "2D"@,
                RomTableViewMode::ThreeD => "3D"@,
            }),
    {
        match self {
            RomTableViewMode::TwoD => "2D",
            RomTableViewMode::ThreeD => "3D",
        }
    }
}

/// Which map a panel embeds.
#[derive(Debug, Clone, Copy, PartialEq, Eq, Structural)]
pub enum RomEmbeddedView {
    /// No map is shown.
    Hidden,
    Fuel,
    Ign,
}

/// What the live tracking AFR map shows.
#[derive(Debug, Clone, Copy, PartialEq, Eq, Structural)]
pub enum LiveTrackingAfrMapMode {
    LiveAfr,
    TargetAfr,
    DiffPct,
}

impl LiveTrackingAfrMapMode {
    /// Display name of the map mode.
    pub fn label(self) -> (s: &'static str)
        ensures
            s@ == (match self {
                LiveTrackingAfrMapMode::LiveAfr => "LIVE AFR MAP"@,
                LiveTrackingAfrMapMode::TargetAfr => "AFR TARGET MAP"@,
                LiveTrackingAfrMapMode::DiffPct => "AFR DIFF % MAP"@,
            }),
    {
        match self {
            LiveTrackingAfrMapMode::LiveAfr => "LIVE AFR MAP",
            LiveTrackingAfrMapMode::TargetAfr => "AFR TARGET MAP",
            LiveTrackingAfrMapMode::DiffPct => "AFR DIFF % MAP",
        }
    }
}

/// How many map cells a live sample is recorded into.
#[derive(Debug, Clone, Copy, PartialEq, Eq, Structural)]
pub enum LiveTrackingCellMode {
    /// The nearest cell.
    Single,
    /// The up to four cells around the operating point.
    Quad,
}

impl LiveTrackingCellMode {
    /// Display name of the cell mode.
    pub fn label(self) -> (s: &'static str)
        ensures
            s@ == (match self {
                LiveTrackingCellMode::Single => "1 CELL"@,
                LiveTrackingCellMode::Quad => "4 CELLS"@,
            }),
    {
        match self {
            LiveTrackingCellMode::Single => "1 CELL",
            LiveTrackingCellMode::Quad => "4 CELLS",
        }
    }
}

} // verus!
