//! Physical qubit models and error correction schemes, with a built-in catalog.
use vstd::prelude::*;
use crate::error::EstimationError;
use crate::units::PROB_ONE;

verus! {

/// The longest operation time that a qubit model may state, in nanoseconds.
pub const MAX_TIME_NS: u64 = 1_000_000_000_000;

/// The largest coefficient that a scheme's formulas may use.
pub const MAX_FACTOR: u64 = 1000;

/// The largest code distance that a scheme may allow.
pub const MAX_CODE_DISTANCE: u64 = 10_001;

/// Physical parameters of a qubit technology.
///
/// Times are in nanoseconds, error rates in units of 10^-18.
#[derive(Debug)]
pub struct QubitParams {
    pub name: String,
    pub one_qubit_measurement_time: u64,
    pub one_qubit_gate_time: u64,
    pub two_qubit_gate_time: u64,
    pub t_gate_time: u64,
    pub one_qubit_measurement_error_rate: u64,
    pub one_qubit_gate_error_rate: u64,
    pub two_qubit_gate_error_rate: u64,
    pub t_gate_error_rate: u64,
    pub idle_error_rate: u64,
}

/// A quantum error correction scheme.
///
/// At code distance `d` a logical qubit takes
/// `physical_qubits_per_distance_squared * d * d` physical qubits, and a
/// logical cycle takes `(cycle_gate_factor * two_qubit_gate_time +
/// cycle_measurement_factor * one_qubit_measurement_time) * d` nanoseconds.
#[derive(Debug)]
pub struct QecScheme {
    pub name: String,
    pub error_correction_threshold: u64,
    pub crossing_prefactor: u64,
    pub physical_qubits_per_distance_squared: u64,
    pub cycle_gate_factor: u64,
    pub cycle_measurement_factor: u64,
    pub max_code_distance: u64,
}

/// Limits on the estimate that the caller imposes.
#[derive(Clone, Copy, Debug, PartialEq, Eq, Structural)]
pub struct Constraints {
    pub max_distillation_rounds: u64,
}

impl QubitParams {
    /// Error rates are probabilities and times are positive and bounded.
    pub open spec fn wf(&self) -> bool {
        &&& self.one_qubit_measurement_error_rate <= PROB_ONE
        &&& self.one_qubit_gate_error_rate <= PROB_ONE
        &&& self.two_qubit_gate_error_rate <= PROB_ONE
        &&& self.t_gate_error_rate <= PROB_ONE
        &&& self.idle_error_rate <= PROB_ONE
        &&& 0 < self.one_qubit_measurement_time <= MAX_TIME_NS
        &&& 0 < self.one_qubit_gate_time <= MAX_TIME_NS
        &&& 0 < self.two_qubit_gate_time <= MAX_TIME_NS
        &&& 0 < self.t_gate_time <= MAX_TIME_NS
    }

    /// The error rate of Clifford operations: the largest of the measurement,
    /// gate and idle error rates.
    pub open spec fn clifford_error_rate_spec(&self) -> nat {
        max_nat(
            max_nat(self.one_qubit_measurement_error_rate as nat, self.idle_error_rate as nat),
            max_nat(self.one_qubit_gate_error_rate as nat, self.two_qubit_gate_error_rate as nat),
        )
    }

    pub fn is_well_formed(&self) -> (r: bool)
        ensures
            r == self.wf(),
    {
        self.one_qubit_measurement_error_rate <= PROB_ONE
            && self.one_qubit_gate_error_rate <= PROB_ONE
            && self.two_qubit_gate_error_rate <= PROB_ONE
            && self.t_gate_error_rate <= PROB_ONE
            && self.idle_error_rate <= PROB_ONE
            && 0 < self.one_qubit_measurement_time && self.one_qubit_measurement_time <= MAX_TIME_NS
            && 0 < self.one_qubit_gate_time && self.one_qubit_gate_time <= MAX_TIME_NS
            && 0 < self.two_qubit_gate_time && self.two_qubit_gate_time <= MAX_TIME_NS
            && 0 < self.t_gate_time && self.t_gate_time <= MAX_TIME_NS
    }

    pub fn clifford_error_rate(&self) -> (r: u64)
        ensures
            r == self.clifford_error_rate_spec(),
    {
        let a = if self.one_qubit_measurement_error_rate >= self.idle_error_rate {
            self.one_qubit_measurement_error_rate
        } else {
            self.idle_error_rate
        };
        let b = if self.one_qubit_gate_error_rate >= self.two_qubit_gate_error_rate {
            self.one_qubit_gate_error_rate
        } else {
            self.two_qubit_gate_error_rate
        };
        if a >= b { a } else { b }
    }
}

impl Clone for QubitParams {
    fn clone(&self) -> (r: Self)
        ensures
            r == *self,
    {
        QubitParams {
            name: self.name.clone(),
            one_qubit_measurement_time: self.one_qubit_measurement_time,
            one_qubit_gate_time: self.one_qubit_gate_time,
            two_qubit_gate_time: self.two_qubit_gate_time,
            t_gate_time: self.t_gate_time,
            one_qubit_measurement_error_rate: self.one_qubit_measurement_error_rate,
            one_qubit_gate_error_rate: self.one_qubit_gate_error_rate,
            two_qubit_gate_error_rate: self.two_qubit_gate_error_rate,
            t_gate_error_rate: self.t_gate_error_rate,
            idle_error_rate: self.idle_error_rate,
        }
    }
}

impl Clone for QecScheme {
    fn clone(&self) -> (r: Self)
        ensures
            r == *self,
    {
        QecScheme {
            name: self.name.clone(),
            error_correction_threshold: self.error_correction_threshold,
            crossing_prefactor: self.crossing_prefactor,
            physical_qubits_per_distance_squared: self.physical_qubits_per_distance_squared,
            cycle_gate_factor: self.cycle_gate_factor,
            cycle_measurement_factor: self.cycle_measurement_factor,
            max_code_distance: self.max_code_distance,
        }
    }
}

/// The two qubit models agree in every time and error rate; names may differ.
pub open spec fn same_qubit_model(a: QubitParams, b: QubitParams) -> bool {
    &&& a.one_qubit_measurement_time == b.one_qubit_measurement_time
    &&& a.one_qubit_gate_time == b.one_qubit_gate_time
    &&& a.two_qubit_gate_time == b.two_qubit_gate_time
    &&& a.t_gate_time == b.t_gate_time
    &&& a.one_qubit_measurement_error_rate == b.one_qubit_measurement_error_rate
    &&& a.one_qubit_gate_error_rate == b.one_qubit_gate_error_rate
    &&& a.two_qubit_gate_error_rate == b.two_qubit_gate_error_rate
    &&& a.t_gate_error_rate == b.t_gate_error_rate
    &&& a.idle_error_rate == b.idle_error_rate
}

/// The two schemes agree in every parameter; names may differ.
pub open spec fn same_qec_model(a: QecScheme, b: QecScheme) -> bool {
    &&& a.error_correction_threshold == b.error_correction_threshold
    &&& a.crossing_prefactor == b.crossing_prefactor
    &&& a.physical_qubits_per_distance_squared == b.physical_qubits_per_distance_squared
    &&& a.cycle_gate_factor == b.cycle_gate_factor
    &&& a.cycle_measurement_factor == b.cycle_measurement_factor
    &&& a.max_code_distance == b.max_code_distance
}

pub open spec fn max_nat(a: nat, b: nat) -> nat {
    if a >= b { a } else { b }
}

impl QecScheme {
    /// The threshold is a positive probability and every coefficient is bounded.
    pub open spec fn wf(&self) -> bool {
        &&& 0 < self.error_correction_threshold <= PROB_ONE
        &&& 0 < self.physical_qubits_per_distance_squared <= MAX_FACTOR
        &&& self.cycle_gate_factor <= MAX_FACTOR
        &&& self.cycle_measurement_factor <= MAX_FACTOR
        &&& self.cycle_gate_factor + self.cycle_measurement_factor > 0
        &&& self.max_code_distance <= MAX_CODE_DISTANCE
    }

    pub fn is_well_formed(&self) -> (r: bool)
        ensures
            r == self.wf(),
    {
        0 < self.error_correction_threshold && self.error_correction_threshold <= PROB_ONE
            && 0 < self.physical_qubits_per_distance_squared
            && self.physical_qubits_per_distance_squared <= MAX_FACTOR
            && self.cycle_gate_factor <= MAX_FACTOR
            && self.cycle_measurement_factor <= MAX_FACTOR
            && (self.cycle_gate_factor > 0 || self.cycle_measurement_factor > 0)
            && self.max_code_distance <= MAX_CODE_DISTANCE
    }

    /// Physical qubits of one logical qubit at code distance `d`.
    pub open spec fn qubits_per_logical_spec(&self, d: nat) -> nat {
        (self.physical_qubits_per_distance_squared * d * d) as nat
    }

    /// Duration of one logical cycle at code distance `d`, in nanoseconds.
    pub open spec fn cycle_time_spec(&self, q: QubitParams, d: nat) -> nat {
        ((self.cycle_gate_factor * q.two_qubit_gate_time + self.cycle_measurement_factor
            * q.one_qubit_measurement_time) * d) as nat
    }
}

/// The names of the built-in qubit models.
pub open spec fn is_qubit_preset_name(n: Seq<char>) -> bool {
    n == "qubit_gate_ns_e3"@ || n == "qubit_gate_ns_e4"@ || n == "qubit_gate_us_e3"@
        || n == "qubit_gate_us_e4"@ || n == "qubit_maj_ns_e4"@ || n == "qubit_maj_ns_e6"@
}

/// The times and error rates of a built-in qubit model:
/// measurement, 1-qubit gate, 2-qubit gate and T-gate times, then
/// measurement, 1-qubit gate, 2-qubit gate, T-gate and idle error rates.
pub open spec fn qubit_preset_values(n: Seq<char>) -> (u64, u64, u64, u64, u64, u64, u64, u64, u64) {
    if n == "qubit_gate_ns_e3"@ {
        (100, 50, 50, 50, 1_000_000_000_000_000, 1_000_000_000_000_000,
         1_000_000_000_000_000, 1_000_000_000_000_000, 1_000_000_000_000_000)
    } else if n == "qubit_gate_ns_e4"@ {
        (100, 50, 50, 50, 100_000_000_000_000, 100_000_000_000_000,
         100_000_000_000_000, 100_000_000_000_000, 100_000_000_000_000)
    } else if n == "qubit_gate_us_e3"@ {
        (100_000, 100_000, 100_000, 100_000, 1_000_000_000_000_000, 1_000_000_000_000_000,
         1_000_000_000_000_000, 1_000_000_000_000, 1_000_000_000_000_000)
    } else if n == "qubit_gate_us_e4"@ {
        (100_000, 100_000, 100_000, 100_000, 100_000_000_000_000, 100_000_000_000_000,
         100_000_000_000_000, 1_000_000_000_000, 100_000_000_000_000)
    } else if n == "qubit_maj_ns_e4"@ {
        (100, 100, 100, 100, 100_000_000_000_000, 100_000_000_000_000,
         100_000_000_000_000, 50_000_000_000_000_000, 100_000_000_000_000)
    } else {
        (100, 100, 100, 100, 1_000_000_000_000, 1_000_000_000_000,
         1_000_000_000_000, 10_000_000_000_000_000, 1_000_000_000_000)
    }
}

/// The qubit's times and error rates are those of the built-in model `n`.
pub open spec fn has_qubit_preset_values(q: QubitParams, n: Seq<char>) -> bool {
    let v = qubit_preset_values(n);
    &&& q.one_qubit_measurement_time == v.0
    &&& q.one_qubit_gate_time == v.1
    &&& q.two_qubit_gate_time == v.2
    &&& q.t_gate_time == v.3
    &&& q.one_qubit_measurement_error_rate == v.4
    &&& q.one_qubit_gate_error_rate == v.5
    &&& q.two_qubit_gate_error_rate == v.6
    &&& q.t_gate_error_rate == v.7
    &&& q.idle_error_rate == v.8
}

fn same_name(a: &str, b: &str) -> (r: bool)
    ensures
        r == (a@ == b@),
{
    let x = String::from_str(a);
    let y = String::from_str(b);
    x == y
}

/// Looks up a built-in qubit model by name.
pub fn qubit_params_preset(name: &str) -> (r: Result<QubitParams, EstimationError>)
    ensures
        match r {
            Ok(q) => is_qubit_preset_name(name@) && q.name@ == name@
                && has_qubit_preset_values(q, name@) && q.wf(),
            Err(e) => !is_qubit_preset_name(name@) && e == EstimationError::ConfigurationError,
        },
{
    let v: (u64, u64, u64, u64, u64, u64, u64, u64, u64) = if same_name(name, "qubit_gate_ns_e3") {
        (100, 50, 50, 50, 1_000_000_000_000_000, 1_000_000_000_000_000,
         1_000_000_000_000_000, 1_000_000_000_000_000, 1_000_000_000_000_000)
    } else if same_name(name, "qubit_gate_ns_e4") {
        (100, 50, 50, 50, 100_000_000_000_000, 100_000_000_000_000,
         100_000_000_000_000, 100_000_000_000_000, 100_000_000_000_000)
    } else if same_name(name, "qubit_gate_us_e3") {
        (100_000, 100_000, 100_000, 100_000, 1_000_000_000_000_000, 1_000_000_000_000_000,
         1_000_000_000_000_000, 1_000_000_000_000, 1_000_000_000_000_000)
    } else if same_name(name, "qubit_gate_us_e4") {
        (100_000, 100_000, 100_000, 100_000, 100_000_000_000_000, 100_000_000_000_000,
         100_000_000_000_000, 1_000_000_000_000, 100_000_000_000_000)
    } else if same_name(name, "qubit_maj_ns_e4") {
        (100, 100, 100, 100, 100_000_000_000_000, 100_000_000_000_000,
         100_000_000_000_000, 50_000_000_000_000_000, 100_000_000_000_000)
    } else if same_name(name, "qubit_maj_ns_e6") {
        (100, 100, 100, 100, 1_000_000_000_000, 1_000_000_000_000,
         1_000_000_000_000, 10_000_000_000_000_000, 1_000_000_000_000)
    } else {
        return Err(EstimationError::ConfigurationError);
    };
    Ok(QubitParams {
        name: String::from_str(name),
        one_qubit_measurement_time: v.0,
        one_qubit_gate_time: v.1,
        two_qubit_gate_time: v.2,
        t_gate_time: v.3,
        one_qubit_measurement_error_rate: v.4,
        one_qubit_gate_error_rate: v.5,
        two_qubit_gate_error_rate: v.6,
        t_gate_error_rate: v.7,
        idle_error_rate: v.8,
    })
}

/// The names of the built-in error correction schemes.
pub open spec fn is_qec_preset_name(n: Seq<char>) -> bool {
    n == "surface_code"@ || n == "floquet_code"@
}

/// The scheme's parameters are those of the built-in scheme `n`.
pub open spec fn has_qec_preset_values(s: QecScheme, n: Seq<char>) -> bool {
    &&& s.error_correction_threshold == 10_000_000_000_000_000
    &&& s.max_code_distance == 50
    &&& if n == "surface_code"@ {
        &&& s.crossing_prefactor == 30_000_000_000_000_000
        &&& s.physical_qubits_per_distance_squared == 2
        &&& s.cycle_gate_factor == 4
        &&& s.cycle_measurement_factor == 2
    } else {
        &&& s.crossing_prefactor == 70_000_000_000_000_000
        &&& s.physical_qubits_per_distance_squared == 4
        &&& s.cycle_gate_factor == 0
        &&& s.cycle_measurement_factor == 3
    }
}

/// Looks up a built-in error correction scheme by name.
pub fn qec_scheme_preset(name: &str) -> (r: Result<QecScheme, EstimationError>)
    ensures
        match r {
            Ok(s) => is_qec_preset_name(name@) && s.name@ == name@
                && has_qec_preset_values(s, name@) && s.wf(),
            Err(e) => !is_qec_preset_name(name@) && e == EstimationError::ConfigurationError,
        },
{
    let v: (u64, u64, u64, u64) = if same_name(name, "surface_code") {
        (30_000_000_000_000_000, 2, 4, 2)
    } else if same_name(name, "floquet_code") {
        (70_000_000_000_000_000, 4, 0, 3)
    } else {
        return Err(EstimationError::ConfigurationError);
    };
    Ok(QecScheme {
        name: String::from_str(name),
        error_correction_threshold: 10_000_000_000_000_000,
        crossing_prefactor: v.0,
        physical_qubits_per_distance_squared: v.1,
        cycle_gate_factor: v.2,
        cycle_measurement_factor: v.3,
        max_code_distance: 50,
    })
}

} // verus!
