use envprobe::network::{
    check_adapter_text, check_mac_addresses, check_mac_text, check_network,
    check_network_adapters, listing, NetworkSignatures, NetworkSnapshot, UtilityOutput,
};
use envprobe::signature::SignatureTable;

fn output(text: &str) -> Option<UtilityOutput> {
    printed(text.as_bytes())
}

fn printed(bytes: &[u8]) -> Option<UtilityOutput> {
    Some(UtilityOutput { exit_code: Some(0), stdout: bytes.to_vec() })
}

fn table(list: &[&str]) -> SignatureTable {
    SignatureTable::from_patterns(list.iter().map(|pattern| String::from(*pattern)).collect())
}

fn listed(table: &SignatureTable) -> Vec<String> {
    let mut out = Vec::new();
    let mut i = 0;
    while let Some(pattern) = table.pattern(i) {
        out.push(String::from(pattern));
        i += 1;
    }
    out
}

const PHYSICAL_INTERFACES: &str = "\r\nPhysical Address    Transport Name\r\n\
=================== ==========================================================\r\n\
3C:52:82:11:22:33   \\Device\\Tcpip_{0A1B2C3D-0000-1111-2222-333344445555}\r\n\
A4:5E:60:AA:BB:CC   Media disconnected\r\n";

const VIRTUAL_INTERFACES: &str = "\r\nPhysical Address    Transport Name\r\n\
=================== ==========================================================\r\n\
3C:52:82:11:22:33   \\Device\\Tcpip_{0A1B2C3D-0000-1111-2222-333344445555}\r\n\
08:00:27:AA:BB:CC   \\Device\\Tcpip_{99999999-0000-1111-2222-333344445555}\r\n";

const PHYSICAL_CONFIGURATION: &str = "\r\nWindows IP Configuration\r\n\r\n\
\r\nEthernet adapter Ethernet:\r\n\r\n\
   Connection-specific DNS Suffix  . : lan\r\n\
   Description . . . . . . . . . . . : Realtek PCIe GbE Family Controller\r\n\
   IPv4 Address. . . . . . . . . . . : 192.168.1.20\r\n";

const VIRTUAL_CONFIGURATION: &str = "\r\nWindows IP Configuration\r\n\r\n\
\r\nEthernet adapter Ethernet:\r\n\r\n\
   Description . . . . . . . . . . . : Intel(R) PRO/1000 MT Desktop Adapter\r\n\
   IPv4 Address. . . . . . . . . . . : 10.0.2.15\r\n";

#[test]
fn a_line_that_begins_with_a_monitored_prefix_is_flagged() {
    let signatures = NetworkSignatures::standard();
    let interfaces = output("08:00:27-12-34-56   \\Device\\Tcpip_{1}\r\n");
    assert!(check_mac_addresses(&interfaces, &signatures.mac_prefixes));
    let alone = NetworkSnapshot { interfaces: interfaces.clone(), configuration: None };
    assert!(check_network(&alone, &signatures));
    let with_physical = NetworkSnapshot {
        interfaces: interfaces.clone(),
        configuration: output(PHYSICAL_CONFIGURATION),
    };
    assert!(!check_network_adapters(&with_physical.configuration, &signatures.adapter_names));
    assert!(check_network(&with_physical, &signatures));
    let with_virtual =
        NetworkSnapshot { interfaces, configuration: output(VIRTUAL_CONFIGURATION) };
    assert!(check_network_adapters(&with_virtual.configuration, &signatures.adapter_names));
    assert!(check_network(&with_virtual, &signatures));
}

#[test]
fn the_prefix_is_looked_for_at_the_start_of_each_trimmed_line() {
    let prefixes = NetworkSignatures::standard().mac_prefixes;
    assert!(check_mac_text("08:00:27", &prefixes));
    assert!(check_mac_text("   08:00:27:00:00:01\n", &prefixes));
    assert!(check_mac_text("\t52:54:00:12:34:56\r\n", &prefixes));
    assert!(check_mac_text("header\n\n00:50:56:C0:00:08  vmnet8\nfooter", &prefixes));
    assert!(check_mac_text("\u{a0}00:1C:14:00:00:00", &prefixes));
    assert!(check_mac_text(VIRTUAL_INTERFACES, &prefixes));
    assert!(!check_mac_text(PHYSICAL_INTERFACES, &prefixes));
    assert!(!check_mac_text("address 08:00:27:00:00:01", &prefixes));
    assert!(!check_mac_text("08:00:2\n7:00:00:01", &prefixes));
    assert!(!check_mac_text("08-00-27-00-00-01", &prefixes));
    assert!(!check_mac_text("00:0c:29:00:00:01", &prefixes));
    assert!(!check_mac_text("", &prefixes));
    assert!(!check_mac_text("\n\n\n", &prefixes));
}

#[test]
fn a_prefix_that_ends_in_white_space_needs_it_inside_the_line() {
    let prefixes = table(&["08:00:27 "]);
    assert!(check_mac_text("08:00:27 x", &prefixes));
    assert!(!check_mac_text("08:00:27 ", &prefixes));
    assert_eq!("08:00:27 ".trim().starts_with("08:00:27 "), false);
    let carriage = table(&["a\r"]);
    assert!(!check_mac_text("a\r\n", &carriage));
    assert!(!check_mac_text("a\r", &carriage));
    assert!(check_mac_text("a\rb", &carriage));
}

#[test]
fn an_adapter_name_is_looked_for_anywhere_in_a_line() {
    let names = NetworkSignatures::standard().adapter_names;
    assert!(check_adapter_text(VIRTUAL_CONFIGURATION, &names));
    assert!(!check_adapter_text(PHYSICAL_CONFIGURATION, &names));
    assert!(check_adapter_text("VMware Virtual Ethernet Adapter for VMnet8", &names));
    assert!(check_adapter_text("x\n  Description: VirtualBox Host-Only Ethernet Adapter #2\n", &names));
    assert!(check_adapter_text("VirtualBox Bridged Networking Driver", &names));
    assert!(check_adapter_text("Intel(R) PRO/1000 MT Server Adapter", &names));
    assert!(!check_adapter_text("VirtualBox Host-Only\nEthernet Adapter", &names));
    assert!(!check_adapter_text("virtualbox host-only ethernet adapter", &names));
    assert!(!check_adapter_text("Intel(R) PRO/1000 MT", &names));
    assert!(!check_adapter_text("", &names));
}

#[test]
fn a_line_ends_before_its_terminator() {
    let names = table(&["end\r", "end\n"]);
    assert!(!check_adapter_text("the end\r\nnext", &names));
    assert!(!check_adapter_text("the end\nnext", &names));
    assert!(check_adapter_text("the end\r", &names));
    assert!(check_adapter_text("the end\r\r\n", &names));
    let empty_name = table(&[""]);
    assert!(check_adapter_text("x", &empty_name));
    assert!(check_adapter_text("\n", &empty_name));
    assert!(!check_adapter_text("", &empty_name));
}

#[test]
fn bytes_that_are_no_text_are_decoded_with_replacement_characters() {
    let prefixes = NetworkSignatures::standard().mac_prefixes;
    let broken_start = printed(b"\xff08:00:27:00:00:01\r\n");
    assert!(!check_mac_addresses(&broken_start, &prefixes));
    assert!(check_mac_addresses(&broken_start, &table(&["\u{fffd}08:00:27"])));
    let broken_later = printed(b"08:00:27:\xc3\x28\r\n");
    assert!(check_mac_addresses(&broken_later, &prefixes));
    assert!(check_mac_addresses(&broken_later, &table(&["08:00:27:\u{fffd}("])));
    let encoded = printed(b"Beschreibung: Adapter f\xc3\xbcr VMware\n");
    assert!(check_network_adapters(&encoded, &table(&["f\u{fc}r VMware"])));
    let latin = printed(b"Beschreibung: Adapter f\xfcr VMware\n");
    assert!(!check_network_adapters(&latin, &table(&["f\u{fc}r VMware"])));
    assert!(check_network_adapters(&latin, &table(&["f\u{fffd}r VMware"])));
    let split_name = printed(b"VMware\xff Virtual Ethernet Adapter");
    assert!(!check_network_adapters(&split_name, &NetworkSignatures::standard().adapter_names));
}

#[test]
fn a_utility_that_gave_no_output_is_no_evidence() {
    let signatures = NetworkSignatures::standard();
    assert!(!check_mac_addresses(&None, &signatures.mac_prefixes));
    assert!(!check_network_adapters(&None, &signatures.adapter_names));
    let snapshot = NetworkSnapshot::unanswered();
    assert_eq!(snapshot.interfaces, None);
    assert_eq!(snapshot.configuration, None);
    assert!(!check_network(&snapshot, &signatures));
    assert!(!check_mac_addresses(&printed(b""), &signatures.mac_prefixes));
    assert!(!check_network_adapters(&printed(b""), &signatures.adapter_names));
}

#[test]
fn the_output_of_a_utility_that_failed_does_not_count() {
    let signatures = NetworkSignatures::standard();
    for exit_code in [Some(1), Some(-1), Some(i32::MAX), Some(i32::MIN), None] {
        let interfaces =
            Some(UtilityOutput { exit_code, stdout: VIRTUAL_INTERFACES.as_bytes().to_vec() });
        let configuration =
            Some(UtilityOutput { exit_code, stdout: VIRTUAL_CONFIGURATION.as_bytes().to_vec() });
        assert_eq!(listing(&interfaces), None);
        assert!(!check_mac_addresses(&interfaces, &signatures.mac_prefixes));
        assert!(!check_network_adapters(&configuration, &signatures.adapter_names));
        assert!(!check_network(&NetworkSnapshot { interfaces, configuration }, &signatures));
    }
    let interfaces = output(VIRTUAL_INTERFACES);
    assert_eq!(listing(&interfaces), Some(&VIRTUAL_INTERFACES.as_bytes().to_vec()));
    assert_eq!(listing(&None), None);
    let failed =
        Some(UtilityOutput { exit_code: Some(2), stdout: VIRTUAL_CONFIGURATION.as_bytes().to_vec() });
    let mixed = NetworkSnapshot { interfaces, configuration: failed };
    assert!(check_network(&mixed, &signatures));
}

#[test]
fn the_network_verdict_is_the_disjunction_of_the_two_checks() {
    let signatures = NetworkSignatures::standard();
    for mac in [false, true] {
        for adapter in [false, true] {
            let snapshot = NetworkSnapshot {
                interfaces: output(if mac { VIRTUAL_INTERFACES } else { PHYSICAL_INTERFACES }),
                configuration: output(if adapter {
                    VIRTUAL_CONFIGURATION
                } else {
                    PHYSICAL_CONFIGURATION
                }),
            };
            assert_eq!(check_mac_addresses(&snapshot.interfaces, &signatures.mac_prefixes), mac);
            assert_eq!(
                check_network_adapters(&snapshot.configuration, &signatures.adapter_names),
                adapter
            );
            assert_eq!(check_network(&snapshot, &signatures), mac || adapter);
        }
    }
}

#[test]
fn empty_network_tables_flag_nothing() {
    let empty = NetworkSignatures::empty();
    assert!(empty.mac_prefixes.is_empty());
    assert!(empty.adapter_names.is_empty());
    let snapshot = NetworkSnapshot {
        interfaces: output(VIRTUAL_INTERFACES),
        configuration: output(VIRTUAL_CONFIGURATION),
    };
    assert!(check_network(&snapshot, &NetworkSignatures::standard()));
    assert!(!check_mac_addresses(&snapshot.interfaces, &empty.mac_prefixes));
    assert!(!check_network_adapters(&snapshot.configuration, &empty.adapter_names));
    assert!(!check_mac_text(VIRTUAL_INTERFACES, &empty.mac_prefixes));
    assert!(!check_adapter_text(VIRTUAL_CONFIGURATION, &empty.adapter_names));
    assert!(!check_network(&snapshot, &empty));
}

#[test]
fn the_standard_network_tables_hold_the_known_values() {
    let signatures = NetworkSignatures::standard();
    assert_eq!(
        listed(&signatures.mac_prefixes),
        vec!["00:05:69", "00:0C:29", "00:1C:14", "00:50:56", "08:00:27", "52:54:00"]
    );
    assert_eq!(
        listed(&signatures.adapter_names),
        vec![
            "VMware Virtual Ethernet Adapter",
            "VirtualBox Host-Only Ethernet Adapter",
            "VirtualBox Bridged Networking Driver",
            "Intel(R) PRO/1000 MT Desktop Adapter",
            "Intel(R) PRO/1000 MT Server Adapter",
        ]
    );
}

#[test]
fn every_standard_prefix_is_found() {
    let signatures = NetworkSignatures::standard();
    for prefix in listed(&signatures.mac_prefixes) {
        let line = format!("  {}:01:02:03   \\Device\\Tcpip_{{X}}\r\n", prefix);
        assert!(check_mac_text(&line, &signatures.mac_prefixes), "{}", prefix);
        assert!(check_mac_addresses(&output(&line), &signatures.mac_prefixes), "{}", prefix);
    }
}

#[test]
fn the_same_network_snapshot_gives_the_same_verdict() {
    let signatures = NetworkSignatures::standard();
    let snapshots = [
        NetworkSnapshot::unanswered(),
        NetworkSnapshot { interfaces: output(VIRTUAL_INTERFACES), configuration: None },
        NetworkSnapshot { interfaces: None, configuration: output(PHYSICAL_CONFIGURATION) },
    ];
    for snapshot in snapshots {
        let copy = snapshot.clone();
        let first = check_network(&snapshot, &signatures);
        assert_eq!(check_network(&snapshot, &signatures), first);
        assert_eq!(check_network(&copy, &NetworkSignatures::standard()), first);
    }
}
