//! Named estimation configurations.
use vstd::prelude::*;
use crate::error::EstimationError;
use crate::hardware::{
    has_qec_preset_values, has_qubit_preset_values, is_qec_preset_name, is_qubit_preset_name,
    qec_scheme_preset, qubit_params_preset, QecScheme, QubitParams,
};

verus! {

/// A qubit model and an error correction scheme.
#[derive(Debug)]
pub struct Params {
    pub qubit_params: QubitParams,
    pub qec_scheme: QecScheme,
}

/// A labelled configuration of the hardware that an estimate assumes.
#[derive(Debug)]
pub struct EstimationConfig {
    pub label: String,
    pub detail: String,
    pub params: Params,
}

/// The qubit model is the built-in model `n`, under its own name.
pub open spec fn is_qubit_preset(q: QubitParams, n: Seq<char>) -> bool {
    q.name@ == n && has_qubit_preset_values(q, n)
}

/// The scheme is the built-in scheme `n`, under its own name.
pub open spec fn is_qec_preset(s: QecScheme, n: Seq<char>) -> bool {
    s.name@ == n && has_qec_preset_values(s, n)
}

/// Resolves a qubit model name and a scheme name from the built-in catalog.
pub fn resolve_params(qubit_name: &str, qec_name: &str) -> (r: Result<Params, EstimationError>)
    ensures
        match r {
            Ok(p) => is_qubit_preset_name(qubit_name@) && is_qec_preset_name(qec_name@)
                && is_qubit_preset(p.qubit_params, qubit_name@) && is_qec_preset(p.qec_scheme, qec_name@)
                && p.qubit_params.wf() && p.qec_scheme.wf(),
            Err(e) => e == EstimationError::ConfigurationError
                && (!is_qubit_preset_name(qubit_name@) || !is_qec_preset_name(qec_name@)),
        },
{
    let qubit_params = match qubit_params_preset(qubit_name) {
        Ok(q) => q,
        Err(e) => return Err(e),
    };
    let qec_scheme = match qec_scheme_preset(qec_name) {
        Ok(s) => s,
        Err(e) => return Err(e),
    };
    Ok(Params { qubit_params, qec_scheme })
}

/// The default configuration: Majorana qubits with a 10^-6 error rate under
/// the surface code.
pub fn default_estimation_config() -> (c: EstimationConfig)
    ensures
        c.label@ == "qubit_maj_ns_e6 + surface_code"@,
        c.detail@ == "Majorana qubit with 1e-6 error rate (surface code QEC)"@,
        is_qubit_preset(c.params.qubit_params, "qubit_maj_ns_e6"@),
        is_qec_preset(c.params.qec_scheme, "surface_code"@),
{
    let params = resolve_params("qubit_maj_ns_e6", "surface_code");
    proof {
        assert(is_qubit_preset_name("qubit_maj_ns_e6"@));
        assert(is_qec_preset_name("surface_code"@));
    }
    EstimationConfig {
        label: String::from_str("qubit_maj_ns_e6 + surface_code"),
        detail: String::from_str("Majorana qubit with 1e-6 error rate (surface code QEC)"),
        params: params.unwrap(),
    }
}

} // verus!
