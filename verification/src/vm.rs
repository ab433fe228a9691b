//! The virtualisation detector: six heuristics on the processor, the registry,
//! the running processes, the loaded drivers and the file system, and their
//! disjunction.
//!
//! Every heuristic holds what was observed on the host against a table of
//! known values. An enumeration that the platform refused is `None`, and
//! counts as no evidence.

use crate::lossy::{decode_lossy, utf8_lossy};
use crate::registry::{
    components, key_covers, key_opens, keys_of, opens, parse_registry_path, registry_target,
    KeyModel, RegistryKey,
};
use crate::signature::{
    all_kept, any_observed, law_more_observed_keeps_match, lemma_observed_pairs, mode_matches,
    observed, observed_among, MatchMode, SignatureTable,
};
use crate::text::{chars_of, contains, rows_from, views_of};
use crate::verdict::{any_true, law_verdict_monotone};
use vstd::prelude::*;

verus! {

/// What the identification instruction of the processor returns in three of
/// its registers for leaf 0: the vendor of the processor, four bytes in each.
#[derive(Clone, Copy, Debug, PartialEq, Eq)]
pub struct CpuidRegisters {
    pub ebx: u32,
    pub ecx: u32,
    pub edx: u32,
}

/// What the virtualisation detector reads of the host.
#[derive(Clone, Debug)]
pub struct VmSnapshot {
    /// The vendor registers of the processor.
    pub cpuid: Option<CpuidRegisters>,
    /// Registry keys that are known to exist.
    pub registry_keys: Vec<RegistryKey>,
    /// The base names of the running processes.
    pub processes: Option<Vec<String>>,
    /// The base names of the loaded drivers.
    pub drivers: Option<Vec<String>>,
    /// Directories that are known to exist.
    pub directories: Vec<String>,
    /// Files that are known to exist.
    pub files: Vec<String>,
}

/// The view of a snapshot.
pub struct VmEvidence {
    pub cpuid: Option<CpuidRegisters>,
    pub registry_keys: Seq<KeyModel>,
    pub processes: Option<Seq<Seq<char>>>,
    pub drivers: Option<Seq<Seq<char>>>,
    pub directories: Seq<Seq<char>>,
    pub files: Seq<Seq<char>>,
}

/// The views of the names in an enumeration.
pub open spec fn names_of(names: Option<Vec<String>>) -> Option<Seq<Seq<char>>> {
    match names {
        Some(list) => Some(views_of(list@)),
        None => None,
    }
}

impl View for VmSnapshot {
    type V = VmEvidence;

    open spec fn view(&self) -> VmEvidence {
        VmEvidence {
            cpuid: self.cpuid,
            registry_keys: keys_of(self.registry_keys@),
            processes: names_of(self.processes),
            drivers: names_of(self.drivers),
            directories: views_of(self.directories@),
            files: views_of(self.files@),
        }
    }
}

/// The tables of the virtualisation detector, one for each heuristic.
#[derive(Clone, Debug)]
pub struct VmSignatures {
    /// Pieces of the vendor strings of hypervisors.
    pub vendors: SignatureTable,
    /// Paths of registry keys, each beginning with the name of its hive.
    pub registry_keys: SignatureTable,
    /// Names of processes of guest tools.
    pub processes: SignatureTable,
    /// Names of drivers of hypervisors.
    pub drivers: SignatureTable,
    /// Directories in which guest tools are installed.
    pub directories: SignatureTable,
    /// Files of hypervisor drivers.
    pub files: SignatureTable,
}

/// The view of the tables.
pub struct VmPatterns {
    pub vendors: Seq<Seq<char>>,
    pub registry_keys: Seq<Seq<char>>,
    pub processes: Seq<Seq<char>>,
    pub drivers: Seq<Seq<char>>,
    pub directories: Seq<Seq<char>>,
    pub files: Seq<Seq<char>>,
}

impl View for VmSignatures {
    type V = VmPatterns;

    open spec fn view(&self) -> VmPatterns {
        VmPatterns {
            vendors: self.vendors@,
            registry_keys: self.registry_keys@,
            processes: self.processes@,
            drivers: self.drivers@,
            directories: self.directories@,
            files: self.files@,
        }
    }
}

/// The known pieces of hypervisor vendor strings.
pub open spec fn standard_vendors() -> Seq<Seq<char>> {
    seq!["VMware"@, "VBox"@, "KVM"@]
}

/// The known registry keys of hypervisors and guest tools.
pub open spec fn standard_registry_keys() -> Seq<Seq<char>> {
    seq![
        "HKEY_LOCAL_MACHINE\\HARDWARE\\ACPI\\DSDT\\VBOX__"@,
        "HKEY_LOCAL_MACHINE\\HARDWARE\\ACPI\\FADT\\VBOX__"@,
        "HKEY_LOCAL_MACHINE\\HARDWARE\\ACPI\\RSDT\\VBOX__"@,
        "HKEY_LOCAL_MACHINE\\SYSTEM\\CurrentControlSet\\Services\\VBox*"@,
        "HKEY_LOCAL_MACHINE\\SOFTWARE\\Oracle\\VirtualBox Guest Additions\\"@,
        "HKEY_CURRENT_USER\\Software\\VMware, Inc.\\"@,
        "HKEY_LOCAL_MACHINE\\SOFTWARE\\VMware, Inc.\\"@,
        "HKEY_LOCAL_MACHINE\\SYSTEM\\CurrentControlSet\\Enum\\SCSI\\*VMware*\\"@,
        "HKEY_LOCAL_MACHINE\\SYSTEM\\CurrentControlSet\\Services\\*VMware*\\"@,
    ]
}

/// The known names of guest tool processes.
pub open spec fn standard_processes() -> Seq<Seq<char>> {
    seq!["VBoxService.exe"@, "VBoxTray.exe"@, "vmtoolsd.exe"@, "vmwaretray.exe"@]
}

/// The known names of hypervisor drivers.
pub open spec fn standard_drivers() -> Seq<Seq<char>> {
    seq![
        "VBoxMouse.sys"@,
        "VBoxGuest.sys"@,
        "VBoxSF.sys"@,
        "VBoxVideo.sys"@,
        "vmmouse.sys"@,
        "vmhgfs.sys"@,
        "vm3dmp.sys"@,
    ]
}

/// The known directories of guest tools.
pub open spec fn standard_directories() -> Seq<Seq<char>> {
    seq![
        "C:\\Program Files\\Oracle\\VirtualBox Guest Additions"@,
        "C:\\Program Files\\VMware\\VMware Tools"@,
    ]
}

/// The known files of hypervisor drivers.
pub open spec fn standard_files() -> Seq<Seq<char>> {
    seq![
        "C:\\Windows\\System32\\drivers\\vmhgfs.sys"@,
        "C:\\Windows\\System32\\drivers\\vmmemctl.sys"@,
        "C:\\Windows\\System32\\drivers\\vmmouse.sys"@,
        "C:\\Windows\\System32\\drivers\\vmrawdsk.sys"@,
        "C:\\Windows\\System32\\drivers\\VBoxMouse.sys"@,
        "C:\\Windows\\System32\\drivers\\VBoxGuest.sys"@,
        "C:\\Windows\\System32\\drivers\\VBoxSF.sys"@,
        "C:\\Windows\\System32\\drivers\\VBoxVideo.sys"@,
    ]
}

fn vendor_table() -> (table: SignatureTable)
    ensures
        table@ == standard_vendors(),
{
    let mut table = SignatureTable::new();
    table.push("VMware");
    table.push("VBox");
    table.push("KVM");
    assert(table@ =~= standard_vendors());
    table
}

fn registry_table() -> (table: SignatureTable)
    ensures
        table@ == standard_registry_keys(),
{
    let mut table = SignatureTable::new();
    table.push("HKEY_LOCAL_MACHINE\\HARDWARE\\ACPI\\DSDT\\VBOX__");
    table.push("HKEY_LOCAL_MACHINE\\HARDWARE\\ACPI\\FADT\\VBOX__");
    table.push("HKEY_LOCAL_MACHINE\\HARDWARE\\ACPI\\RSDT\\VBOX__");
    table.push("HKEY_LOCAL_MACHINE\\SYSTEM\\CurrentControlSet\\Services\\VBox*");
    table.push("HKEY_LOCAL_MACHINE\\SOFTWARE\\Oracle\\VirtualBox Guest Additions\\");
    table.push("HKEY_CURRENT_USER\\Software\\VMware, Inc.\\");
    table.push("HKEY_LOCAL_MACHINE\\SOFTWARE\\VMware, Inc.\\");
    table.push("HKEY_LOCAL_MACHINE\\SYSTEM\\CurrentControlSet\\Enum\\SCSI\\*VMware*\\");
    table.push("HKEY_LOCAL_MACHINE\\SYSTEM\\CurrentControlSet\\Services\\*VMware*\\");
    assert(table@ =~= standard_registry_keys());
    table
}

fn process_table() -> (table: SignatureTable)
    ensures
        table@ == standard_processes(),
{
    let mut table = SignatureTable::new();
    table.push("VBoxService.exe");
    table.push("VBoxTray.exe");
    table.push("vmtoolsd.exe");
    table.push("vmwaretray.exe");
    assert(table@ =~= standard_processes());
    table
}

fn driver_table() -> (table: SignatureTable)
    ensures
        table@ == standard_drivers(),
{
    let mut table = SignatureTable::new();
    table.push("VBoxMouse.sys");
    table.push("VBoxGuest.sys");
    table.push("VBoxSF.sys");
    table.push("VBoxVideo.sys");
    table.push("vmmouse.sys");
    table.push("vmhgfs.sys");
    table.push("vm3dmp.sys");
    assert(table@ =~= standard_drivers());
    table
}

fn directory_table() -> (table: SignatureTable)
    ensures
        table@ == standard_directories(),
{
    let mut table = SignatureTable::new();
    table.push("C:\\Program Files\\Oracle\\VirtualBox Guest Additions");
    table.push("C:\\Program Files\\VMware\\VMware Tools");
    assert(table@ =~= standard_directories());
    table
}

fn file_table() -> (table: SignatureTable)
    ensures
        table@ == standard_files(),
{
    let mut table = SignatureTable::new();
    table.push("C:\\Windows\\System32\\drivers\\vmhgfs.sys");
    table.push("C:\\Windows\\System32\\drivers\\vmmemctl.sys");
    table.push("C:\\Windows\\System32\\drivers\\vmmouse.sys");
    table.push("C:\\Windows\\System32\\drivers\\vmrawdsk.sys");
    table.push("C:\\Windows\\System32\\drivers\\VBoxMouse.sys");
    table.push("C:\\Windows\\System32\\drivers\\VBoxGuest.sys");
    table.push("C:\\Windows\\System32\\drivers\\VBoxSF.sys");
    table.push("C:\\Windows\\System32\\drivers\\VBoxVideo.sys");
    assert(table@ =~= standard_files());
    table
}

impl VmSignatures {
    /// Six tables without patterns.
    pub fn empty() -> (signatures: Self)
        ensures
            signatures@.vendors.len() == 0,
            signatures@.registry_keys.len() == 0,
            signatures@.processes.len() == 0,
            signatures@.drivers.len() == 0,
            signatures@.directories.len() == 0,
            signatures@.files.len() == 0,
    {
        VmSignatures {
            vendors: SignatureTable::new(),
            registry_keys: SignatureTable::new(),
            processes: SignatureTable::new(),
            drivers: SignatureTable::new(),
            directories: SignatureTable::new(),
            files: SignatureTable::new(),
        }
    }

    /// The tables of known values.
    pub fn standard() -> (signatures: Self)
        ensures
            signatures@.vendors == standard_vendors(),
            signatures@.registry_keys == standard_registry_keys(),
            signatures@.processes == standard_processes(),
            signatures@.drivers == standard_drivers(),
            signatures@.directories == standard_directories(),
            signatures@.files == standard_files(),
    {
        VmSignatures {
            vendors: vendor_table(),
            registry_keys: registry_table(),
            processes: process_table(),
            drivers: driver_table(),
            directories: directory_table(),
            files: file_table(),
        }
    }
}

impl VmSnapshot {
    /// The snapshot of a host of which nothing is known: no query answered,
    /// nothing found.
    pub fn unanswered() -> (snapshot: Self)
        ensures
            snapshot@.cpuid is None,
            snapshot@.registry_keys.len() == 0,
            snapshot@.processes is None,
            snapshot@.drivers is None,
            snapshot@.directories.len() == 0,
            snapshot@.files.len() == 0,
    {
        VmSnapshot {
            cpuid: None,
            registry_keys: Vec::new(),
            processes: None,
            drivers: None,
            directories: Vec::new(),
            files: Vec::new(),
        }
    }
}

/// The four bytes of `word`, the lowest first.
pub open spec fn word_bytes(word: u32) -> Seq<u8> {
    seq![
        (word % 0x100) as u8,
        (word / 0x100 % 0x100) as u8,
        (word / 0x1_0000 % 0x100) as u8,
        (word / 0x100_0000) as u8,
    ]
}

/// The twelve bytes of the vendor: those of `ebx`, of `edx` and of `ecx`.
pub open spec fn vendor_bytes(registers: CpuidRegisters) -> Seq<u8> {
    word_bytes(registers.ebx) + word_bytes(registers.edx) + word_bytes(registers.ecx)
}

/// The vendor as text.
pub open spec fn vendor_text(registers: CpuidRegisters) -> Seq<char> {
    utf8_lossy(vendor_bytes(registers))
}

/// The vendor was read and holds a pattern of the table.
pub open spec fn vendor_flagged(cpuid: Option<CpuidRegisters>, vendors: Seq<Seq<char>>) -> bool {
    cpuid matches Some(registers) && any_observed(
        MatchMode::Substring,
        seq![vendor_text(registers)],
        vendors,
    )
}

/// The configured path names a key, and that key opens.
pub open spec fn registry_key_flagged(path: Seq<char>, present: Seq<KeyModel>) -> bool {
    registry_target(path) matches Some(target) && key_opens(target, present)
}

/// A path of the table names a key that opens.
pub open spec fn registry_flagged(paths: Seq<Seq<char>>, present: Seq<KeyModel>) -> bool {
    exists|i: int| 0 <= i < paths.len() && registry_key_flagged(#[trigger] paths[i], present)
}

/// The processes were enumerated and one of them bears a name of the table.
pub open spec fn processes_flagged(names: Seq<Seq<char>>, running: Option<Seq<Seq<char>>>) -> bool {
    running matches Some(list) && any_observed(MatchMode::Exact, list, names)
}

/// The drivers were enumerated and the name of one of them holds a name of
/// the table.
pub open spec fn drivers_flagged(names: Seq<Seq<char>>, loaded: Option<Seq<Seq<char>>>) -> bool {
    loaded matches Some(list) && any_observed(MatchMode::Substring, list, names)
}

/// A path of the table is among the existing ones.
pub open spec fn paths_flagged(paths: Seq<Seq<char>>, existing: Seq<Seq<char>>) -> bool {
    any_observed(MatchMode::Exact, existing, paths)
}

/// The results of the six checks, in their order.
pub open spec fn vm_checks(evidence: VmEvidence, patterns: VmPatterns) -> Seq<bool> {
    seq![
        vendor_flagged(evidence.cpuid, patterns.vendors),
        registry_flagged(patterns.registry_keys, evidence.registry_keys),
        processes_flagged(patterns.processes, evidence.processes),
        drivers_flagged(patterns.drivers, evidence.drivers),
        paths_flagged(patterns.directories, evidence.directories),
        paths_flagged(patterns.files, evidence.files),
    ]
}

/// The verdict of the detector.
pub open spec fn vm_verdict(evidence: VmEvidence, patterns: VmPatterns) -> bool {
    any_true(vm_checks(evidence, patterns))
}

fn push_word(out: &mut Vec<u8>, word: u32)
    ensures
        final(out)@ == old(out)@ + word_bytes(word),
{
    out.push((word % 0x100) as u8);
    out.push((word / 0x100 % 0x100) as u8);
    out.push((word / 0x1_0000 % 0x100) as u8);
    out.push((word / 0x100_0000) as u8);
    assert(out@ =~= old(out)@ + word_bytes(word));
}

/// The twelve bytes of the vendor.
pub fn vendor_id(registers: &CpuidRegisters) -> (bytes: Vec<u8>)
    ensures
        bytes@ == vendor_bytes(*registers),
{
    let mut bytes: Vec<u8> = Vec::new();
    push_word(&mut bytes, registers.ebx);
    push_word(&mut bytes, registers.edx);
    push_word(&mut bytes, registers.ecx);
    assert(bytes@ =~= vendor_bytes(*registers));
    bytes
}

/// The vendor as text.
pub fn vendor_string(registers: &CpuidRegisters) -> (vendor: String)
    ensures
        vendor@ == vendor_text(*registers),
{
    let bytes = vendor_id(registers);
    decode_lossy(bytes.as_slice())
}

/// Whether the vendor text `vendor` holds a pattern of `vendors`.
pub fn check_vendor_text(vendor: &str, vendors: &SignatureTable) -> (flagged: bool)
    ensures
        flagged == any_observed(MatchMode::Substring, seq![vendor@], vendors@),
{
    vendors.matches(MatchMode::Substring, vendor)
}

/// Whether the vendor of the processor holds a pattern of `vendors`.
pub fn check_vm_by_vendor(
    cpuid: &Option<CpuidRegisters>,
    vendors: &SignatureTable,
) -> (flagged: bool)
    ensures
        flagged == vendor_flagged(*cpuid, vendors@),
{
    match cpuid {
        Some(registers) => {
            let vendor = vendor_string(registers);
            check_vendor_text(vendor.as_str(), vendors)
        },
        None => false,
    }
}

/// Whether the configured path `path` names a key that opens, given the keys
/// `present`.
pub fn check_registry_key(path: &str, present: &Vec<RegistryKey>) -> (flagged: bool)
    ensures
        flagged == registry_key_flagged(path@, keys_of(present@)),
{
    match parse_registry_path(path) {
        Some(target) => opens(&target, present),
        None => false,
    }
}

/// Whether a path of `paths` names a key that opens, given the keys `present`.
pub fn check_vm_by_registry(paths: &SignatureTable, present: &Vec<RegistryKey>) -> (flagged: bool)
    ensures
        flagged == registry_flagged(paths@, keys_of(present@)),
{
    let mut i: usize = 0;
    while i < paths.len()
        invariant
            i <= paths@.len(),
            forall|k: int|
                0 <= k < i ==> !registry_key_flagged(#[trigger] paths@[k], keys_of(present@)),
        decreases paths@.len() - i,
    {
        match paths.pattern(i) {
            Some(path) => {
                if check_registry_key(path, present) {
                    return true;
                }
            },
            None => {},
        }
        i += 1;
    }
    false
}

/// Whether a process named `name` is among `running`.
pub fn is_process_running(name: &str, running: &Vec<String>) -> (found: bool)
    ensures
        found == observed(MatchMode::Exact, views_of(running@), name@),
{
    let rows = rows_from(running);
    observed_among(MatchMode::Exact, &rows, &chars_of(name))
}

/// Whether a running process bears a name of `names`.
pub fn check_vm_by_processes(
    names: &SignatureTable,
    running: &Option<Vec<String>>,
) -> (flagged: bool)
    ensures
        flagged == processes_flagged(names@, names_of(*running)),
{
    match running {
        Some(list) => {
            let mut i: usize = 0;
            while i < names.len()
                invariant
                    i <= names@.len(),
                    names_of(*running) == Some(views_of(list@)),
                    forall|k: int|
                        0 <= k < i ==> !observed(
                            MatchMode::Exact,
                            views_of(list@),
                            #[trigger] names@[k],
                        ),
                decreases names@.len() - i,
            {
                match names.pattern(i) {
                    Some(name) => {
                        if is_process_running(name, list) {
                            assert(observed(MatchMode::Exact, views_of(list@), names@[i as int]));
                            return true;
                        }
                    },
                    None => {},
                }
                i += 1;
            }
            false
        },
        None => false,
    }
}

/// Whether the name of one of the drivers `loaded` holds `name`.
pub fn check_driver(name: &str, loaded: &Vec<String>) -> (found: bool)
    ensures
        found == observed(MatchMode::Substring, views_of(loaded@), name@),
{
    let rows = rows_from(loaded);
    observed_among(MatchMode::Substring, &rows, &chars_of(name))
}

/// Whether the name of a loaded driver holds a name of `names`.
pub fn check_vm_by_drivers(names: &SignatureTable, loaded: &Option<Vec<String>>) -> (flagged: bool)
    ensures
        flagged == drivers_flagged(names@, names_of(*loaded)),
{
    match loaded {
        Some(list) => {
            let mut i: usize = 0;
            while i < names.len()
                invariant
                    i <= names@.len(),
                    names_of(*loaded) == Some(views_of(list@)),
                    forall|k: int|
                        0 <= k < i ==> !observed(
                            MatchMode::Substring,
                            views_of(list@),
                            #[trigger] names@[k],
                        ),
                decreases names@.len() - i,
            {
                match names.pattern(i) {
                    Some(name) => {
                        if check_driver(name, list) {
                            assert(observed(
                                MatchMode::Substring,
                                views_of(list@),
                                names@[i as int],
                            ));
                            return true;
                        }
                    },
                    None => {},
                }
                i += 1;
            }
            false
        },
        None => false,
    }
}

/// Whether a directory of `directories` is among the `existing` ones.
pub fn check_vm_by_directories(
    directories: &SignatureTable,
    existing: &Vec<String>,
) -> (flagged: bool)
    ensures
        flagged == paths_flagged(directories@, views_of(existing@)),
{
    directories.matches_any(MatchMode::Exact, existing)
}

/// Whether a file of `files` is among the `existing` ones.
pub fn check_vm_by_files(files: &SignatureTable, existing: &Vec<String>) -> (flagged: bool)
    ensures
        flagged == paths_flagged(files@, views_of(existing@)),
{
    files.matches_any(MatchMode::Exact, existing)
}

/// The verdict of the virtualisation detector on `snapshot`: the six checks in
/// their order, positive as soon as one of them is.
pub fn check_vm(snapshot: &VmSnapshot, signatures: &VmSignatures) -> (verdict: bool)
    ensures
        verdict == vm_verdict(snapshot@, signatures@),
{
    proof {
        law_vm_verdict_is_disjunction(snapshot@, signatures@);
    }
    check_vm_by_vendor(&snapshot.cpuid, &signatures.vendors) || check_vm_by_registry(
        &signatures.registry_keys,
        &snapshot.registry_keys,
    ) || check_vm_by_processes(&signatures.processes, &snapshot.processes) || check_vm_by_drivers(
        &signatures.drivers,
        &snapshot.drivers,
    ) || check_vm_by_directories(&signatures.directories, &snapshot.directories)
        || check_vm_by_files(&signatures.files, &snapshot.files)
}

/// The verdict is positive exactly when at least one of the six checks is,
/// and negative exactly when all six are.
pub proof fn law_vm_verdict_is_disjunction(evidence: VmEvidence, patterns: VmPatterns)
    ensures
        vm_verdict(evidence, patterns) <==> (vendor_flagged(evidence.cpuid, patterns.vendors)
            || registry_flagged(patterns.registry_keys, evidence.registry_keys)
            || processes_flagged(patterns.processes, evidence.processes) || drivers_flagged(
            patterns.drivers,
            evidence.drivers,
        ) || paths_flagged(patterns.directories, evidence.directories) || paths_flagged(
            patterns.files,
            evidence.files,
        )),
        !vm_verdict(evidence, patterns) <==> (!vendor_flagged(evidence.cpuid, patterns.vendors)
            && !registry_flagged(patterns.registry_keys, evidence.registry_keys)
            && !processes_flagged(patterns.processes, evidence.processes) && !drivers_flagged(
            patterns.drivers,
            evidence.drivers,
        ) && !paths_flagged(patterns.directories, evidence.directories) && !paths_flagged(
            patterns.files,
            evidence.files,
        )),
{
    let checks = vm_checks(evidence, patterns);
    assert(checks.len() == 6);
    if vendor_flagged(evidence.cpuid, patterns.vendors) {
        assert(checks[0]);
    }
    if registry_flagged(patterns.registry_keys, evidence.registry_keys) {
        assert(checks[1]);
    }
    if processes_flagged(patterns.processes, evidence.processes) {
        assert(checks[2]);
    }
    if drivers_flagged(patterns.drivers, evidence.drivers) {
        assert(checks[3]);
    }
    if paths_flagged(patterns.directories, evidence.directories) {
        assert(checks[4]);
    }
    if paths_flagged(patterns.files, evidence.files) {
        assert(checks[5]);
    }
}

/// The verdict depends on what was observed and on the tables alone: two
/// snapshots with the same view, held against tables with the same view, get
/// the same result from each check and the same verdict.
pub proof fn law_vm_same_state_same_verdict(
    first: VmSnapshot,
    second: VmSnapshot,
    tables: VmSignatures,
    same_tables: VmSignatures,
)
    requires
        first@ == second@,
        tables@ == same_tables@,
    ensures
        vm_checks(first@, tables@) == vm_checks(second@, same_tables@),
        vm_verdict(first@, tables@) == vm_verdict(second@, same_tables@),
{
}

/// How each table is matched. The vendor of the processor and the names of
/// the drivers are searched for a pattern; the names of the processes and the
/// paths of directories and files are compared whole; a configured registry
/// path is matched, component by component of its key, by a key of the same
/// hive that lies at or below it.
pub proof fn law_vm_match_modes(evidence: VmEvidence, patterns: VmPatterns)
    ensures
        vendor_flagged(evidence.cpuid, patterns.vendors) <==> evidence.cpuid is Some && exists|
            i: int,
        |
            0 <= i < patterns.vendors.len() && contains(
                vendor_text(evidence.cpuid->0),
                #[trigger] patterns.vendors[i],
            ),
        registry_flagged(patterns.registry_keys, evidence.registry_keys) <==> exists|
            i: int,
            k: int,
        |
            0 <= i < patterns.registry_keys.len() && 0 <= k < evidence.registry_keys.len()
                && registry_target(#[trigger] patterns.registry_keys[i]) is Some && registry_target(
                patterns.registry_keys[i],
            )->0.hive == (#[trigger] evidence.registry_keys[k]).hive && components(
                registry_target(patterns.registry_keys[i])->0.path,
            ).is_prefix_of(components(evidence.registry_keys[k].path)),
        processes_flagged(patterns.processes, evidence.processes) <==> evidence.processes is Some
            && exists|i: int, j: int|
            0 <= i < patterns.processes.len() && 0 <= j < evidence.processes->0.len() && (
            #[trigger] evidence.processes->0[j]) == (#[trigger] patterns.processes[i]),
        drivers_flagged(patterns.drivers, evidence.drivers) <==> evidence.drivers is Some
            && exists|i: int, j: int|
            0 <= i < patterns.drivers.len() && 0 <= j < evidence.drivers->0.len() && contains(
                #[trigger] evidence.drivers->0[j],
                #[trigger] patterns.drivers[i],
            ),
        paths_flagged(patterns.directories, evidence.directories) <==> exists|i: int, j: int|
            0 <= i < patterns.directories.len() && 0 <= j < evidence.directories.len() && (
            #[trigger] evidence.directories[j]) == (#[trigger] patterns.directories[i]),
        paths_flagged(patterns.files, evidence.files) <==> exists|i: int, j: int|
            0 <= i < patterns.files.len() && 0 <= j < evidence.files.len() && (
            #[trigger] evidence.files[j]) == (#[trigger] patterns.files[i]),
{
    lemma_observed_pairs(MatchMode::Exact, evidence.directories, patterns.directories);
    lemma_observed_pairs(MatchMode::Exact, evidence.files, patterns.files);
    if evidence.processes is Some {
        lemma_observed_pairs(MatchMode::Exact, evidence.processes->0, patterns.processes);
    }
    if evidence.drivers is Some {
        lemma_observed_pairs(MatchMode::Substring, evidence.drivers->0, patterns.drivers);
    }
    if evidence.cpuid is Some {
        let subjects = seq![vendor_text(evidence.cpuid->0)];
        lemma_observed_pairs(MatchMode::Substring, subjects, patterns.vendors);
        if any_observed(MatchMode::Substring, subjects, patterns.vendors) {
            let (i, j) = choose|i: int, j: int|
                0 <= i < patterns.vendors.len() && 0 <= j < subjects.len() && mode_matches(
                    MatchMode::Substring,
                    #[trigger] subjects[j],
                    #[trigger] patterns.vendors[i],
                );
            assert(contains(vendor_text(evidence.cpuid->0), patterns.vendors[i]));
        }
        if exists|i: int|
            0 <= i < patterns.vendors.len() && contains(
                vendor_text(evidence.cpuid->0),
                #[trigger] patterns.vendors[i],
            ) {
            let i = choose|i: int|
                0 <= i < patterns.vendors.len() && contains(
                    vendor_text(evidence.cpuid->0),
                    #[trigger] patterns.vendors[i],
                );
            assert(mode_matches(MatchMode::Substring, subjects[0], patterns.vendors[i]));
        }
    }
    let paths = patterns.registry_keys;
    let present = evidence.registry_keys;
    if registry_flagged(paths, present) {
        let i = choose|i: int|
            0 <= i < paths.len() && registry_key_flagged(#[trigger] paths[i], present);
        let target = registry_target(paths[i])->0;
        let k = choose|k: int| 0 <= k < present.len() && key_covers(target, #[trigger] present[k]);
        assert(registry_target(paths[i]) is Some && target.hive == present[k].hive);
    }
    if exists|i: int, k: int|
        0 <= i < paths.len() && 0 <= k < present.len() && registry_target(#[trigger] paths[i])
            is Some && registry_target(paths[i])->0.hive == (#[trigger] present[k]).hive
            && components(registry_target(paths[i])->0.path).is_prefix_of(
            components(present[k].path),
        ) {
        let (i, k) = choose|i: int, k: int|
            0 <= i < paths.len() && 0 <= k < present.len() && registry_target(#[trigger] paths[i])
                is Some && registry_target(paths[i])->0.hive == (#[trigger] present[k]).hive
                && components(registry_target(paths[i])->0.path).is_prefix_of(
                components(present[k].path),
            );
        assert(key_covers(registry_target(paths[i])->0, present[k]));
        assert(registry_key_flagged(paths[i], present));
    }
}

/// A check whose table holds no pattern is negative, whatever was observed;
/// with all six tables empty the verdict is negative.
pub proof fn law_vm_empty_table_is_negative(evidence: VmEvidence, patterns: VmPatterns)
    ensures
        patterns.vendors.len() == 0 ==> !vendor_flagged(evidence.cpuid, patterns.vendors),
        patterns.registry_keys.len() == 0 ==> !registry_flagged(
            patterns.registry_keys,
            evidence.registry_keys,
        ),
        patterns.processes.len() == 0 ==> !processes_flagged(
            patterns.processes,
            evidence.processes,
        ),
        patterns.drivers.len() == 0 ==> !drivers_flagged(patterns.drivers, evidence.drivers),
        patterns.directories.len() == 0 ==> !paths_flagged(
            patterns.directories,
            evidence.directories,
        ),
        patterns.files.len() == 0 ==> !paths_flagged(patterns.files, evidence.files),
        patterns.vendors.len() == 0 && patterns.registry_keys.len() == 0
            && patterns.processes.len() == 0 && patterns.drivers.len() == 0
            && patterns.directories.len() == 0 && patterns.files.len() == 0 ==> !vm_verdict(
            evidence,
            patterns,
        ),
{
    law_vm_verdict_is_disjunction(evidence, patterns);
}

/// A query that was not answered, and a search that found nothing, are no
/// evidence: on the snapshot of a host of which nothing is known every check
/// is negative, whatever the tables hold.
pub proof fn law_vm_no_evidence_is_negative(evidence: VmEvidence, patterns: VmPatterns)
    ensures
        evidence.cpuid is None ==> !vendor_flagged(evidence.cpuid, patterns.vendors),
        evidence.registry_keys.len() == 0 ==> !registry_flagged(
            patterns.registry_keys,
            evidence.registry_keys,
        ),
        evidence.processes is None || evidence.processes->0.len() == 0 ==> !processes_flagged(
            patterns.processes,
            evidence.processes,
        ),
        evidence.drivers is None || evidence.drivers->0.len() == 0 ==> !drivers_flagged(
            patterns.drivers,
            evidence.drivers,
        ),
        evidence.directories.len() == 0 ==> !paths_flagged(
            patterns.directories,
            evidence.directories,
        ),
        evidence.files.len() == 0 ==> !paths_flagged(patterns.files, evidence.files),
{
}

/// `after` holds all the evidence of `before`: every answer that `before` has
/// is still there, and every key, name and path that it lists is still listed.
pub open spec fn evidence_kept(before: VmEvidence, after: VmEvidence) -> bool {
    &&& before.cpuid is Some ==> after.cpuid == before.cpuid
    &&& forall|k: int|
        0 <= k < before.registry_keys.len() ==> after.registry_keys.contains(
            #[trigger] before.registry_keys[k],
        )
    &&& before.processes is Some ==> after.processes is Some && all_kept(
        before.processes->0,
        after.processes->0,
    )
    &&& before.drivers is Some ==> after.drivers is Some && all_kept(
        before.drivers->0,
        after.drivers->0,
    )
    &&& all_kept(before.directories, after.directories)
    &&& all_kept(before.files, after.files)
}

/// Evidence only adds: a check that is positive stays positive when more is
/// known of the host, and so does the verdict.
pub proof fn law_vm_more_evidence_keeps_verdict(
    before: VmEvidence,
    after: VmEvidence,
    patterns: VmPatterns,
)
    requires
        evidence_kept(before, after),
    ensures
        forall|i: int|
            0 <= i < 6 && vm_checks(before, patterns)[i] ==> vm_checks(after, patterns)[i],
        vm_verdict(before, patterns) ==> vm_verdict(after, patterns),
{
    let paths = patterns.registry_keys;
    if registry_flagged(paths, before.registry_keys) {
        let i = choose|i: int|
            0 <= i < paths.len() && registry_key_flagged(#[trigger] paths[i], before.registry_keys);
        let target = registry_target(paths[i])->0;
        let k = choose|k: int|
            0 <= k < before.registry_keys.len() && key_covers(
                target,
                #[trigger] before.registry_keys[k],
            );
        assert(after.registry_keys.contains(before.registry_keys[k]));
        let m = choose|m: int|
            0 <= m < after.registry_keys.len() && after.registry_keys[m]
                == before.registry_keys[k];
        assert(key_covers(target, after.registry_keys[m]));
        assert(registry_key_flagged(paths[i], after.registry_keys));
    }
    if before.processes is Some {
        law_more_observed_keeps_match(
            MatchMode::Exact,
            before.processes->0,
            after.processes->0,
            patterns.processes,
        );
    }
    if before.drivers is Some {
        law_more_observed_keeps_match(
            MatchMode::Substring,
            before.drivers->0,
            after.drivers->0,
            patterns.drivers,
        );
    }
    law_more_observed_keeps_match(
        MatchMode::Exact,
        before.directories,
        after.directories,
        patterns.directories,
    );
    law_more_observed_keeps_match(MatchMode::Exact, before.files, after.files, patterns.files);
    law_verdict_monotone(vm_checks(before, patterns), vm_checks(after, patterns));
}

} // verus!
