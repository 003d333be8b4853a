//! Rendering an estimate for people: grouped counts and times with units.
use vstd::prelude::*;
use crate::estimator::EstimationResult;

verus! {

pub open spec fn digit_char(d: nat) -> char {
    if d == 0 { '0' } else if d == 1 { '1' } else if d == 2 { '2' } else if d == 3 { '3' }
    else if d == 4 { '4' } else if d == 5 { '5' } else if d == 6 { '6' } else if d == 7 { '7' }
    else if d == 8 { '8' } else { '9' }
}

/// The decimal digits of `n`.
pub open spec fn decimal(n: nat) -> Seq<char>
    decreases n,
{
    if n < 10 {
        seq![digit_char(n)]
    } else {
        decimal(n / 10) + seq![digit_char(n % 10)]
    }
}

/// The decimal digits of `n`, in groups of three separated by commas.
pub open spec fn grouped(n: nat) -> Seq<char>
    decreases n,
{
    if n < 1000 {
        decimal(n)
    } else {
        grouped(n / 1000) + seq![',', digit_char((n % 1000) / 100), digit_char((n % 100) / 10), digit_char(n % 10)]
    }
}

/// A duration in nanoseconds, in the largest of ns, us, ms and s in which it
/// is at least 1, rounded down.
pub open spec fn duration_text(ns: nat) -> Seq<char> {
    if ns < 1000 {
        grouped(ns) + "ns"@
    } else if ns < 1_000_000 {
        grouped(ns / 1000) + "us"@
    } else if ns < 1_000_000_000 {
        grouped(ns / 1_000_000) + "ms"@
    } else {
        grouped(ns / 1_000_000_000) + "s"@
    }
}

/// A probability in units of 10^-18, written exactly as `<units>e-18`.
pub open spec fn probability_text(units: nat) -> Seq<char> {
    decimal(units) + "e-18"@
}

/// An optional probability: its text, or "N/A" when it is absent.
pub open spec fn optional_probability_text(p: Option<u64>) -> Seq<char> {
    match p {
        Some(units) => probability_text(units as nat),
        None => "N/A"@,
    }
}

/// `part` as a whole percentage of `whole`, rounded down.
pub open spec fn percentage_text(part: nat, whole: nat) -> Seq<char> {
    decimal(if whole == 0 { 0 } else { part * 100 / whole }) + "%"@
}

fn push_digit(s: &mut String, d: u128)
    requires
        d < 10,
    ensures
        final(s)@ == old(s)@ + seq![digit_char(d as nat)],
{
    proof {
        reveal_strlit("0");
        reveal_strlit("1");
        reveal_strlit("2");
        reveal_strlit("3");
        reveal_strlit("4");
        reveal_strlit("5");
        reveal_strlit("6");
        reveal_strlit("7");
        reveal_strlit("8");
        reveal_strlit("9");
    }
    if d == 0 {
        s.append("0");
    } else if d == 1 {
        s.append("1");
    } else if d == 2 {
        s.append("2");
    } else if d == 3 {
        s.append("3");
    } else if d == 4 {
        s.append("4");
    } else if d == 5 {
        s.append("5");
    } else if d == 6 {
        s.append("6");
    } else if d == 7 {
        s.append("7");
    } else if d == 8 {
        s.append("8");
    } else {
        s.append("9");
    }
}

fn push_decimal(s: &mut String, n: u128)
    ensures
        final(s)@ == old(s)@ + decimal(n as nat),
    decreases n,
{
    if n >= 10 {
        push_decimal(s, n / 10);
    }
    push_digit(s, n % 10);
    proof {
        assert(final(s)@ =~= old(s)@ + decimal(n as nat));
    }
}

fn push_grouped(s: &mut String, n: u128)
    ensures
        final(s)@ == old(s)@ + grouped(n as nat),
    decreases n,
{
    if n < 1000 {
        push_decimal(s, n);
    } else {
        push_grouped(s, n / 1000);
        proof {
            reveal_strlit(",");
        }
        s.append(",");
        push_digit(s, (n % 1000) / 100);
        push_digit(s, (n % 100) / 10);
        push_digit(s, n % 10);
        proof {
            assert(final(s)@ =~= old(s)@ + grouped(n as nat));
        }
    }
}

/// Renders `n` with its digits grouped by three.
pub fn format_count(n: u128) -> (r: String)
    ensures
        r@ == grouped(n as nat),
{
    let mut s = String::new();
    push_grouped(&mut s, n);
    proof {
        assert(s@ =~= grouped(n as nat));
    }
    s
}

/// Renders a duration in nanoseconds with a unit chosen by its magnitude.
pub fn format_duration(ns: u128) -> (r: String)
    ensures
        r@ == duration_text(ns as nat),
{
    let mut s = String::new();
    if ns < 1000 {
        push_grouped(&mut s, ns);
        s.append("ns");
    } else if ns < 1_000_000 {
        push_grouped(&mut s, ns / 1000);
        s.append("us");
    } else if ns < 1_000_000_000 {
        push_grouped(&mut s, ns / 1_000_000);
        s.append("ms");
    } else {
        push_grouped(&mut s, ns / 1_000_000_000);
        s.append("s");
    }
    s
}

/// Renders a probability in units of 10^-18 exactly.
pub fn format_probability(units: u64) -> (r: String)
    ensures
        r@ == probability_text(units as nat),
{
    let mut s = String::new();
    push_decimal(&mut s, units as u128);
    s.append("e-18");
    s
}

/// Renders an optional probability, "N/A" when it is absent.
pub fn format_optional_probability(p: Option<u64>) -> (r: String)
    ensures
        r@ == optional_probability_text(p),
{
    match p {
        Some(units) => format_probability(units),
        None => String::from_str("N/A"),
    }
}

/// Renders `part` as a whole percentage of `whole`.
pub fn format_percentage(part: u128, whole: u128) -> (r: String)
    requires
        part <= whole,
        whole <= 0x1_0000_0000_0000_0000_0000_0000_0000,
    ensures
        r@ == percentage_text(part as nat, whole as nat),
{
    let mut s = String::new();
    let pct: u128 = if whole == 0 { 0 } else { (part * 100) / whole };
    push_decimal(&mut s, pct);
    s.append("%");
    s
}

/// The physical counts of an estimate, rendered for people.
#[derive(Debug)]
pub struct PhysicalCountsFormatted {
    pub runtime: String,
    pub rqops: String,
    pub physical_qubits: String,
    pub algorithmic_logical_qubits: String,
    pub algorithmic_logical_depth: String,
    pub logical_depth: String,
    pub num_tstates: String,
    pub num_tfactories: String,
    pub num_tfactory_runs: String,
    pub physical_qubits_for_algorithm: String,
    pub physical_qubits_for_tfactories: String,
    pub physical_qubits_for_tfactories_percentage: String,
    pub physical_qubits_per_logical_qubit: String,
    pub logical_cycle_time: String,
    pub clock_frequency: String,
    pub required_logical_qubit_error_rate: String,
    pub required_logical_tstate_error_rate: String,
    pub logical_error_rate: String,
}

/// The share of the physical qubits that the factories take, or "N/A" when
/// the counts do not describe a share.
pub open spec fn factory_share_text(part: nat, whole: nat) -> Seq<char> {
    if part <= whole && whole <= 0x1_0000_0000_0000_0000_0000_0000_0000 {
        percentage_text(part, whole)
    } else {
        "N/A"@
    }
}

impl EstimationResult {
    /// Renders the physical counts: counts grouped by three, times with a unit.
    pub fn physical_counts_formatted(&self) -> (f: PhysicalCountsFormatted)
        ensures
            f.runtime@ == duration_text(self.physical_counts.runtime as nat),
            f.rqops@ == grouped(self.physical_counts.rqops as nat),
            f.physical_qubits@ == grouped(self.physical_counts.physical_qubits as nat),
            f.algorithmic_logical_qubits@
                == grouped(self.physical_counts.breakdown.algorithmic_logical_qubits as nat),
            f.algorithmic_logical_depth@
                == grouped(self.physical_counts.breakdown.algorithmic_logical_depth as nat),
            f.logical_depth@ == grouped(self.physical_counts.breakdown.logical_depth as nat),
            f.num_tstates@ == grouped(self.physical_counts.breakdown.num_tstates as nat),
            f.num_tfactories@ == grouped(self.physical_counts.breakdown.num_tfactories as nat),
            f.num_tfactory_runs@ == grouped(self.physical_counts.breakdown.num_tfactory_runs as nat),
            f.physical_qubits_for_algorithm@
                == grouped(self.physical_counts.breakdown.physical_qubits_for_algorithm as nat),
            f.physical_qubits_for_tfactories@
                == grouped(self.physical_counts.breakdown.physical_qubits_for_tfactories as nat),
            f.physical_qubits_for_tfactories_percentage@ == factory_share_text(
                self.physical_counts.breakdown.physical_qubits_for_tfactories as nat,
                self.physical_counts.physical_qubits as nat,
            ),
            f.physical_qubits_per_logical_qubit@ == grouped(self.logical_qubit.physical_qubits as nat),
            f.logical_cycle_time@ == duration_text(self.logical_qubit.logical_cycle_time as nat),
            f.clock_frequency@ == grouped(self.physical_counts.breakdown.clock_frequency as nat) + "Hz"@,
            f.required_logical_qubit_error_rate@
                == probability_text(self.physical_counts.breakdown.required_logical_qubit_error_rate as nat),
            f.required_logical_tstate_error_rate@
                == optional_probability_text(self.physical_counts.breakdown.required_logical_tstate_error_rate),
            f.logical_error_rate@ == probability_text(self.logical_qubit.logical_error_rate as nat),
    {
        let pc = &self.physical_counts;
        let b = &pc.breakdown;
        let part = b.physical_qubits_for_tfactories;
        let whole = pc.physical_qubits;
        let share = if part <= whole && whole <= 0x1_0000_0000_0000_0000_0000_0000_0000 {
            format_percentage(part, whole)
        } else {
            String::from_str("N/A")
        };
        let mut clock = format_count(b.clock_frequency);
        clock.append("Hz");
        PhysicalCountsFormatted {
            runtime: format_duration(pc.runtime),
            rqops: format_count(pc.rqops),
            physical_qubits: format_count(pc.physical_qubits),
            algorithmic_logical_qubits: format_count(b.algorithmic_logical_qubits as u128),
            algorithmic_logical_depth: format_count(b.algorithmic_logical_depth as u128),
            logical_depth: format_count(b.logical_depth as u128),
            num_tstates: format_count(b.num_tstates as u128),
            num_tfactories: format_count(b.num_tfactories as u128),
            num_tfactory_runs: format_count(b.num_tfactory_runs as u128),
            physical_qubits_for_algorithm: format_count(b.physical_qubits_for_algorithm),
            physical_qubits_for_tfactories: format_count(part),
            physical_qubits_for_tfactories_percentage: share,
            physical_qubits_per_logical_qubit: format_count(self.logical_qubit.physical_qubits as u128),
            logical_cycle_time: format_duration(self.logical_qubit.logical_cycle_time),
            clock_frequency: clock,
            required_logical_qubit_error_rate: format_probability(b.required_logical_qubit_error_rate),
            required_logical_tstate_error_rate: format_optional_probability(b.required_logical_tstate_error_rate),
            logical_error_rate: format_probability(self.logical_qubit.logical_error_rate),
        }
    }
}

/// One labelled quantity of a report.
#[derive(Debug)]
pub struct ReportEntry {
    pub path: String,
    pub label: String,
    pub description: String,
    pub explanation: String,
}

/// A titled group of report entries.
#[derive(Debug)]
pub struct ReportGroup {
    pub title: String,
    pub always_visible: bool,
    pub entries: Vec<ReportEntry>,
}

/// The groups of a report and the simplifications the estimate relies on.
#[derive(Debug)]
pub struct ReportData {
    pub groups: Vec<ReportGroup>,
    pub assumptions: Vec<String>,
}

/// The paths of the entries of the first report group, the summary.
pub open spec fn summary_paths() -> Seq<Seq<char>> {
    seq!["physicalCounts/physicalQubits"@, "physicalCounts/runtime"@, "physicalCounts/rqops"@]
}

/// The paths of the entries of the second report group, the breakdown.
pub open spec fn breakdown_paths() -> Seq<Seq<char>> {
    seq![
        "physicalCounts/breakdown/algorithmicLogicalQubits"@,
        "physicalCounts/breakdown/algorithmicLogicalDepth"@,
        "physicalCounts/breakdown/numTstates"@,
        "physicalCounts/breakdown/numTfactories"@,
        "logicalQubit/codeDistance"@,
    ]
}

pub open spec fn summary_labels() -> Seq<Seq<char>> {
    seq!["Physical qubits"@, "Runtime"@, "rQOPS"@]
}

pub open spec fn summary_descriptions() -> Seq<Seq<char>> {
    seq!["Number of physical qubits"@, "Total runtime"@, "Reliable quantum operations per second"@]
}

/// The explanations of the summary: the rendered qubits, runtime and rQOPS.
pub open spec fn summary_explanations(r: EstimationResult) -> Seq<Seq<char>> {
    seq![
        grouped(r.physical_counts.physical_qubits as nat),
        duration_text(r.physical_counts.runtime as nat),
        grouped(r.physical_counts.rqops as nat),
    ]
}

pub open spec fn breakdown_labels() -> Seq<Seq<char>> {
    seq![
        "Logical algorithmic qubits"@,
        "Algorithmic depth"@,
        "Number of T states"@,
        "Number of T factories"@,
        "Code distance"@,
    ]
}

pub open spec fn breakdown_descriptions() -> Seq<Seq<char>> {
    seq![
        "Number of logical qubits of the layout"@,
        "Number of logical cycles of the algorithm"@,
        "T states the algorithm consumes"@,
        "T factories that run in parallel"@,
        "Code distance of the logical qubits"@,
    ]
}

/// The explanations of the breakdown: the rendered counts and code distance.
pub open spec fn breakdown_explanations(r: EstimationResult) -> Seq<Seq<char>> {
    let b = r.physical_counts.breakdown;
    seq![
        grouped(b.algorithmic_logical_qubits as nat),
        grouped(b.algorithmic_logical_depth as nat),
        grouped(b.num_tstates as nat),
        grouped(b.num_tfactories as nat),
        grouped(r.logical_qubit.code_distance as nat),
    ]
}

/// The simplifications that every estimate relies on.
pub open spec fn assumption_texts() -> Seq<Seq<char>> {
    seq![
        "Classical control overhead is ignored."@,
        "T factories run on physical qubits, next to the algorithm."@,
        "Error rates are rounded up to multiples of 10^-18."@,
    ]
}

/// The group's entries are exactly these, in this order.
pub open spec fn has_entries(
    g: ReportGroup,
    paths: Seq<Seq<char>>,
    labels: Seq<Seq<char>>,
    descriptions: Seq<Seq<char>>,
    explanations: Seq<Seq<char>>,
) -> bool {
    &&& g.entries@.len() == paths.len()
    &&& forall|i: int| 0 <= i < paths.len() ==> {
        &&& (#[trigger] g.entries@[i]).path@ == paths[i]
        &&& g.entries@[i].label@ == labels[i]
        &&& g.entries@[i].description@ == descriptions[i]
        &&& g.entries@[i].explanation@ == explanations[i]
    }
}

fn report_entry(path: &str, label: &str, description: &str, explanation: String) -> (e: ReportEntry)
    ensures
        e.path@ == path@,
        e.label@ == label@,
        e.description@ == description@,
        e.explanation == explanation,
{
    ReportEntry {
        path: String::from_str(path),
        label: String::from_str(label),
        description: String::from_str(description),
        explanation,
    }
}

impl EstimationResult {
    /// The report of the estimate: a summary group that is always shown, a
    /// breakdown group, and the assumptions of the estimate.
    pub fn report_data(&self) -> (r: ReportData)
        ensures
            r.groups@.len() == 2,
            r.groups@[0].title@ == "Physical resource estimates"@,
            r.groups@[0].always_visible,
            has_entries(r.groups@[0], summary_paths(), summary_labels(), summary_descriptions(),
                summary_explanations(*self)),
            r.groups@[1].title@ == "Resource estimates breakdown"@,
            !r.groups@[1].always_visible,
            has_entries(r.groups@[1], breakdown_paths(), breakdown_labels(), breakdown_descriptions(),
                breakdown_explanations(*self)),
            r.assumptions@.len() == assumption_texts().len(),
            forall|i: int| 0 <= i < r.assumptions@.len() ==> (#[trigger] r.assumptions@[i])@ == assumption_texts()[i],
    {
        let f = self.physical_counts_formatted();
        let mut summary: Vec<ReportEntry> = Vec::new();
        summary.push(report_entry(
            "physicalCounts/physicalQubits",
            "Physical qubits",
            "Number of physical qubits",
            f.physical_qubits,
        ));
        summary.push(report_entry("physicalCounts/runtime", "Runtime", "Total runtime", f.runtime));
        summary.push(report_entry(
            "physicalCounts/rqops",
            "rQOPS",
            "Reliable quantum operations per second",
            f.rqops,
        ));
        let mut breakdown: Vec<ReportEntry> = Vec::new();
        breakdown.push(report_entry(
            "physicalCounts/breakdown/algorithmicLogicalQubits",
            "Logical algorithmic qubits",
            "Number of logical qubits of the layout",
            f.algorithmic_logical_qubits,
        ));
        breakdown.push(report_entry(
            "physicalCounts/breakdown/algorithmicLogicalDepth",
            "Algorithmic depth",
            "Number of logical cycles of the algorithm",
            f.algorithmic_logical_depth,
        ));
        breakdown.push(report_entry(
            "physicalCounts/breakdown/numTstates",
            "Number of T states",
            "T states the algorithm consumes",
            f.num_tstates,
        ));
        breakdown.push(report_entry(
            "physicalCounts/breakdown/numTfactories",
            "Number of T factories",
            "T factories that run in parallel",
            f.num_tfactories,
        ));
        breakdown.push(report_entry(
            "logicalQubit/codeDistance",
            "Code distance",
            "Code distance of the logical qubits",
            format_count(self.logical_qubit.code_distance as u128),
        ));
        let mut groups: Vec<ReportGroup> = Vec::new();
        groups.push(ReportGroup {
            title: String::from_str("Physical resource estimates"),
            always_visible: true,
            entries: summary,
        });
        groups.push(ReportGroup {
            title: String::from_str("Resource estimates breakdown"),
            always_visible: false,
            entries: breakdown,
        });
        let mut assumptions: Vec<String> = Vec::new();
        assumptions.push(String::from_str("Classical control overhead is ignored."));
        assumptions.push(String::from_str("T factories run on physical qubits, next to the algorithm."));
        assumptions.push(String::from_str("Error rates are rounded up to multiples of 10^-18."));
        proof {
            assert(has_entries(groups@[0], summary_paths(), summary_labels(), summary_descriptions(),
                summary_explanations(*self)));
            assert(has_entries(groups@[1], breakdown_paths(), breakdown_labels(), breakdown_descriptions(),
                breakdown_explanations(*self)));
        }
        ReportData { groups, assumptions }
    }
}

} // verus!
