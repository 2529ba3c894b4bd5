use puppis_core::tables::{arp_clients, routes_conflict, rows};

const ROUTES: &str = "Iface\tDestination\tGateway \tFlags\tRefCnt\tUse\tMetric\tMask\t\tMTU\tWindow\tIRTT\n\
eth0\t00000000\t0101A8C0\t0003\t0\t0\t100\t00000000\t0\t0\t0\n\
enx001\t0089A8C0\t00000000\t0001\t0\t0\t0\t00FFFFFF\t0\t0\t0\n";

const ARP: &str = "IP address       HW type     Flags       HW address            Mask     Device\n\
192.168.137.21   0x1         0x2         02:00:00:00:02:01     *        enx001\n\
192.168.137.20   0x1         0x2         02:00:00:00:02:01     *        enx001\n\
192.168.137.22   0x1         0x0         02:00:00:00:02:03     *        enx001\n\
192.168.1.1      0x1         0x2         AA:BB:CC:00:00:01     *        eth0\n\
192.168.137.20   0x1         0x2         02:00:00:00:02:01     *        enx001\n";

#[test]
fn table_rows_are_white_space_separated_fields() {
    let table = rows("a  b\tc\r\n\n d\n");
    assert_eq!(table, vec![vec!["a", "b", "c"], vec![], vec!["d"], vec![]]);
}

#[test]
fn only_another_interface_routing_the_subnet_conflicts() {
    assert!(!routes_conflict(ROUTES, "enx001"));
    assert!(routes_conflict(ROUTES, "enx002"));
    assert!(routes_conflict(&ROUTES.replace("0089A8C0", "0089a8c0"), "enx002"));
    assert!(!routes_conflict("enx009\t0089A8C0\t00000000\n", "enx001"));
}

#[test]
fn neighbours_are_complete_entries_of_the_interface_sorted_without_repeats() {
    let clients = arp_clients(ARP, "enx001");

    assert_eq!(clients.len(), 2);
    assert_eq!(clients[0].hardware_address, "02:00:00:00:02:01");
    assert_eq!(clients[0].address.as_deref(), Some("192.168.137.20"));
    assert_eq!(clients[1].address.as_deref(), Some("192.168.137.21"));
    assert_eq!(arp_clients(ARP, "eth0")[0].hardware_address, "aa:bb:cc:00:00:01");
}
