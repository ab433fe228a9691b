//! The network detector: two heuristics on what the system's utilities print
//! of the network interfaces, and their disjunction.
//!
//! The output of a utility is taken as bytes and read line by line. A utility
//! that could not be run is `None`; of one that ran, the output counts only if
//! it ended with status zero. What does not count is no evidence.

use crate::lossy::{decode_lossy, utf8_lossy};
use crate::signature::{
    any_observed, lemma_observed_pairs, mode_matches, MatchMode, SignatureTable,
};
use crate::text::{
    chars_of, contains, lines, rows_of, split_lines, starts_with, trim, trimmed,
};
use crate::verdict::any_true;
use vstd::prelude::*;

verus! {

/// What a utility left when it ended.
#[derive(Clone, Debug, PartialEq, Eq)]
pub struct UtilityOutput {
    /// The status with which it ended, where the platform tells one.
    pub exit_code: Option<i32>,
    /// What it wrote to its standard output.
    pub stdout: Vec<u8>,
}

/// The view of an output.
pub struct OutputModel {
    pub exit_code: Option<i32>,
    pub stdout: Seq<u8>,
}

impl View for UtilityOutput {
    type V = OutputModel;

    open spec fn view(&self) -> OutputModel {
        OutputModel { exit_code: self.exit_code, stdout: self.stdout@ }
    }
}

/// What the network detector reads of the host.
#[derive(Clone, Debug)]
pub struct NetworkSnapshot {
    /// The run of the utility that lists the interfaces and their addresses.
    pub interfaces: Option<UtilityOutput>,
    /// The run of the utility that lists the configuration of the interfaces.
    pub configuration: Option<UtilityOutput>,
}

/// The view of a snapshot.
pub struct NetworkEvidence {
    pub interfaces: Option<OutputModel>,
    pub configuration: Option<OutputModel>,
}

/// The view of a run.
pub open spec fn run_of(output: Option<UtilityOutput>) -> Option<OutputModel> {
    match output {
        Some(run) => Some(run@),
        None => None,
    }
}

/// The bytes that count of a run: what the utility printed, if it ran and
/// ended with status zero.
pub open spec fn listing_of(output: Option<OutputModel>) -> Option<Seq<u8>> {
    match output {
        Some(run) => if run.exit_code == Some(0i32) {
            Some(run.stdout)
        } else {
            None
        },
        None => None,
    }
}

impl View for NetworkSnapshot {
    type V = NetworkEvidence;

    open spec fn view(&self) -> NetworkEvidence {
        NetworkEvidence {
            interfaces: run_of(self.interfaces),
            configuration: run_of(self.configuration),
        }
    }
}

/// The tables of the network detector, one for each heuristic.
#[derive(Clone, Debug)]
pub struct NetworkSignatures {
    /// The first three octets of addresses that are given to virtual
    /// interfaces, as they are printed.
    pub mac_prefixes: SignatureTable,
    /// Pieces of the display names of virtual adapters.
    pub adapter_names: SignatureTable,
}

/// The view of the tables.
pub struct NetworkPatterns {
    pub mac_prefixes: Seq<Seq<char>>,
    pub adapter_names: Seq<Seq<char>>,
}

impl View for NetworkSignatures {
    type V = NetworkPatterns;

    open spec fn view(&self) -> NetworkPatterns {
        NetworkPatterns { mac_prefixes: self.mac_prefixes@, adapter_names: self.adapter_names@ }
    }
}

/// The known first octets of the addresses of virtual interfaces.
pub open spec fn standard_mac_prefixes() -> Seq<Seq<char>> {
    seq!["00:05:69"@, "00:0C:29"@, "00:1C:14"@, "00:50:56"@, "08:00:27"@, "52:54:00"@]
}

/// The known display names of virtual adapters.
pub open spec fn standard_adapter_names() -> Seq<Seq<char>> {
    seq![
        "VMware Virtual Ethernet Adapter"@,
        "VirtualBox Host-Only Ethernet Adapter"@,
        "VirtualBox Bridged Networking Driver"@,
        "Intel(R) PRO/1000 MT Desktop Adapter"@,
        "Intel(R) PRO/1000 MT Server Adapter"@,
    ]
}

fn mac_prefix_table() -> (table: SignatureTable)
    ensures
        table@ == standard_mac_prefixes(),
{
    let mut table = SignatureTable::new();
    table.push("00:05:69");
    table.push("00:0C:29");
    table.push("00:1C:14");
    table.push("00:50:56");
    table.push("08:00:27");
    table.push("52:54:00");
    assert(table@ =~= standard_mac_prefixes());
    table
}

fn adapter_name_table() -> (table: SignatureTable)
    ensures
        table@ == standard_adapter_names(),
{
    let mut table = SignatureTable::new();
    table.push("VMware Virtual Ethernet Adapter");
    table.push("VirtualBox Host-Only Ethernet Adapter");
    table.push("VirtualBox Bridged Networking Driver");
    table.push("Intel(R) PRO/1000 MT Desktop Adapter");
    table.push("Intel(R) PRO/1000 MT Server Adapter");
    assert(table@ =~= standard_adapter_names());
    table
}

impl NetworkSignatures {
    /// Two tables without patterns.
    pub fn empty() -> (signatures: Self)
        ensures
            signatures@.mac_prefixes.len() == 0,
            signatures@.adapter_names.len() == 0,
    {
        NetworkSignatures {
            mac_prefixes: SignatureTable::new(),
            adapter_names: SignatureTable::new(),
        }
    }

    /// The tables of known values.
    pub fn standard() -> (signatures: Self)
        ensures
            signatures@.mac_prefixes == standard_mac_prefixes(),
            signatures@.adapter_names == standard_adapter_names(),
    {
        NetworkSignatures { mac_prefixes: mac_prefix_table(), adapter_names: adapter_name_table() }
    }
}

impl NetworkSnapshot {
    /// The snapshot of a host on which neither utility gave an output.
    pub fn unanswered() -> (snapshot: Self)
        ensures
            snapshot@.interfaces is None,
            snapshot@.configuration is None,
    {
        NetworkSnapshot { interfaces: None, configuration: None }
    }
}

/// The lines of `text`, each without the white space on either side.
pub open spec fn trimmed_lines(text: Seq<char>) -> Seq<Seq<char>> {
    Seq::new(lines(text).len(), |i: int| trim(lines(text)[i]))
}

/// A line of `text`, without the white space around it, begins with a prefix
/// of the table.
pub open spec fn mac_text_flagged(text: Seq<char>, prefixes: Seq<Seq<char>>) -> bool {
    any_observed(MatchMode::Prefix, trimmed_lines(text), prefixes)
}

/// A line of `text` holds a name of the table.
pub open spec fn adapter_text_flagged(text: Seq<char>, names: Seq<Seq<char>>) -> bool {
    any_observed(MatchMode::Substring, lines(text), names)
}

/// The listing of the interfaces counts and is flagged as text.
pub open spec fn mac_flagged(output: Option<OutputModel>, prefixes: Seq<Seq<char>>) -> bool {
    listing_of(output) matches Some(bytes) && mac_text_flagged(utf8_lossy(bytes), prefixes)
}

/// The listing of the configuration counts and is flagged as text.
pub open spec fn adapters_flagged(output: Option<OutputModel>, names: Seq<Seq<char>>) -> bool {
    listing_of(output) matches Some(bytes) && adapter_text_flagged(utf8_lossy(bytes), names)
}

/// The results of the two checks, in their order.
pub open spec fn network_checks(evidence: NetworkEvidence, patterns: NetworkPatterns) -> Seq<bool> {
    seq![
        mac_flagged(evidence.interfaces, patterns.mac_prefixes),
        adapters_flagged(evidence.configuration, patterns.adapter_names),
    ]
}

/// The verdict of the detector.
pub open spec fn network_verdict(evidence: NetworkEvidence, patterns: NetworkPatterns) -> bool {
    any_true(network_checks(evidence, patterns))
}

/// Whether a line of the listing `text` begins, after the white space before
/// it, with a prefix of `prefixes`.
pub fn check_mac_text(text: &str, prefixes: &SignatureTable) -> (flagged: bool)
    ensures
        flagged == mac_text_flagged(text@, prefixes@),
{
    let rows = split_lines(&chars_of(text));
    let mut stripped: Vec<Vec<char>> = Vec::new();
    let mut i: usize = 0;
    while i < rows.len()
        invariant
            i <= rows.len(),
            stripped@.len() == i,
            forall|k: int| 0 <= k < i ==> (#[trigger] stripped@[k])@ == trim(rows_of(rows@)[k]),
        decreases rows.len() - i,
    {
        stripped.push(trimmed(&rows[i]));
        i += 1;
    }
    assert(rows_of(stripped@) =~= trimmed_lines(text@));
    prefixes.any_observed_among(MatchMode::Prefix, &stripped)
}

/// Whether a line of the listing `text` holds a name of `names`.
pub fn check_adapter_text(text: &str, names: &SignatureTable) -> (flagged: bool)
    ensures
        flagged == adapter_text_flagged(text@, names@),
{
    let rows = split_lines(&chars_of(text));
    names.any_observed_among(MatchMode::Substring, &rows)
}

/// The bytes that count of a run.
pub fn listing(output: &Option<UtilityOutput>) -> (bytes: Option<&Vec<u8>>)
    ensures
        bytes matches Some(list) ==> listing_of(run_of(*output)) == Some(list@),
        bytes is None ==> listing_of(run_of(*output)) is None,
{
    match output {
        Some(run) => match run.exit_code {
            Some(code) => if code == 0 {
                Some(&run.stdout)
            } else {
                None
            },
            None => None,
        },
        None => None,
    }
}

/// Whether the listing of the interfaces shows an address that begins with a
/// prefix of `prefixes`.
pub fn check_mac_addresses(
    output: &Option<UtilityOutput>,
    prefixes: &SignatureTable,
) -> (flagged: bool)
    ensures
        flagged == mac_flagged(run_of(*output), prefixes@),
{
    match listing(output) {
        Some(bytes) => {
            let text = decode_lossy(bytes.as_slice());
            check_mac_text(text.as_str(), prefixes)
        },
        None => false,
    }
}

/// Whether the listing of the configuration shows an adapter whose name holds
/// a name of `names`.
pub fn check_network_adapters(
    output: &Option<UtilityOutput>,
    names: &SignatureTable,
) -> (flagged: bool)
    ensures
        flagged == adapters_flagged(run_of(*output), names@),
{
    match listing(output) {
        Some(bytes) => {
            let text = decode_lossy(bytes.as_slice());
            check_adapter_text(text.as_str(), names)
        },
        None => false,
    }
}

/// The verdict of the network detector on `snapshot`: positive as soon as one
/// of the two checks is.
pub fn check_network(snapshot: &NetworkSnapshot, signatures: &NetworkSignatures) -> (verdict: bool)
    ensures
        verdict == network_verdict(snapshot@, signatures@),
{
    proof {
        law_network_verdict_is_disjunction(snapshot@, signatures@);
    }
    check_mac_addresses(&snapshot.interfaces, &signatures.mac_prefixes) || check_network_adapters(
        &snapshot.configuration,
        &signatures.adapter_names,
    )
}

/// The verdict is positive exactly when at least one of the two checks is,
/// and negative exactly when both are.
pub proof fn law_network_verdict_is_disjunction(
    evidence: NetworkEvidence,
    patterns: NetworkPatterns,
)
    ensures
        network_verdict(evidence, patterns) <==> (mac_flagged(
            evidence.interfaces,
            patterns.mac_prefixes,
        ) || adapters_flagged(evidence.configuration, patterns.adapter_names)),
        !network_verdict(evidence, patterns) <==> (!mac_flagged(
            evidence.interfaces,
            patterns.mac_prefixes,
        ) && !adapters_flagged(evidence.configuration, patterns.adapter_names)),
        mac_flagged(evidence.interfaces, patterns.mac_prefixes) ==> network_verdict(
            evidence,
            patterns,
        ),
{
    let checks = network_checks(evidence, patterns);
    assert(checks.len() == 2);
    if mac_flagged(evidence.interfaces, patterns.mac_prefixes) {
        assert(checks[0]);
    }
    if adapters_flagged(evidence.configuration, patterns.adapter_names) {
        assert(checks[1]);
    }
}

/// The verdict depends on what the utilities printed and on the tables alone:
/// two snapshots with the same view, held against tables with the same view,
/// get the same result from each check and the same verdict.
pub proof fn law_network_same_state_same_verdict(
    first: NetworkSnapshot,
    second: NetworkSnapshot,
    tables: NetworkSignatures,
    same_tables: NetworkSignatures,
)
    requires
        first@ == second@,
        tables@ == same_tables@,
    ensures
        network_checks(first@, tables@) == network_checks(second@, same_tables@),
        network_verdict(first@, tables@) == network_verdict(second@, same_tables@),
{
}

/// How each table is matched: an address prefix must stand at the start of a
/// line, once the white space around the line is taken off; an adapter name
/// may stand anywhere in a line.
pub proof fn law_network_match_modes(text: Seq<char>, patterns: NetworkPatterns)
    ensures
        mac_text_flagged(text, patterns.mac_prefixes) <==> exists|i: int, l: int|
            0 <= i < patterns.mac_prefixes.len() && 0 <= l < lines(text).len() && starts_with(
                trim(#[trigger] lines(text)[l]),
                #[trigger] patterns.mac_prefixes[i],
            ),
        adapter_text_flagged(text, patterns.adapter_names) <==> exists|i: int, l: int|
            0 <= i < patterns.adapter_names.len() && 0 <= l < lines(text).len() && contains(
                #[trigger] lines(text)[l],
                #[trigger] patterns.adapter_names[i],
            ),
{
    let prefixes = patterns.mac_prefixes;
    let rows = lines(text);
    let stripped = trimmed_lines(text);
    lemma_observed_pairs(MatchMode::Substring, rows, patterns.adapter_names);
    lemma_observed_pairs(MatchMode::Prefix, stripped, prefixes);
    if mac_text_flagged(text, prefixes) {
        let (i, l) = choose|i: int, l: int|
            0 <= i < prefixes.len() && 0 <= l < stripped.len() && mode_matches(
                MatchMode::Prefix,
                #[trigger] stripped[l],
                #[trigger] prefixes[i],
            );
        assert(starts_with(trim(rows[l]), prefixes[i]));
    }
    if exists|i: int, l: int|
        0 <= i < prefixes.len() && 0 <= l < rows.len() && starts_with(
            trim(#[trigger] rows[l]),
            #[trigger] prefixes[i],
        ) {
        let (i, l) = choose|i: int, l: int|
            0 <= i < prefixes.len() && 0 <= l < rows.len() && starts_with(
                trim(#[trigger] rows[l]),
                #[trigger] prefixes[i],
            );
        assert(mode_matches(MatchMode::Prefix, stripped[l], prefixes[i]));
    }
}

/// A check whose table holds no pattern is negative, whatever was printed;
/// with both tables empty the verdict is negative.
pub proof fn law_network_empty_table_is_negative(
    evidence: NetworkEvidence,
    patterns: NetworkPatterns,
)
    ensures
        patterns.mac_prefixes.len() == 0 ==> !mac_flagged(
            evidence.interfaces,
            patterns.mac_prefixes,
        ),
        patterns.adapter_names.len() == 0 ==> !adapters_flagged(
            evidence.configuration,
            patterns.adapter_names,
        ),
        patterns.mac_prefixes.len() == 0 && patterns.adapter_names.len() == 0 ==> !network_verdict(
            evidence,
            patterns,
        ),
{
    law_network_verdict_is_disjunction(evidence, patterns);
}

/// A run counts exactly when the utility ran and ended with status zero.
pub proof fn law_listing_counts(output: Option<OutputModel>)
    ensures
        listing_of(output) is Some <==> output is Some && output->0.exit_code == Some(0i32),
        listing_of(output) is Some ==> listing_of(output)->0 == output->0.stdout,
{
}

/// A utility that could not be run, or that failed, is no evidence.
pub proof fn law_network_no_output_is_negative(evidence: NetworkEvidence, patterns: NetworkPatterns)
    ensures
        listing_of(evidence.interfaces) is None ==> !mac_flagged(
            evidence.interfaces,
            patterns.mac_prefixes,
        ),
        listing_of(evidence.configuration) is None ==> !adapters_flagged(
            evidence.configuration,
            patterns.adapter_names,
        ),
        listing_of(evidence.interfaces) is None && listing_of(evidence.configuration) is None
            ==> !network_verdict(evidence, patterns),
{
    law_network_verdict_is_disjunction(evidence, patterns);
}

} // verus!
