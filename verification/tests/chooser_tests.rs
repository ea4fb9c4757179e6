use qiniu_sdk::chooser::{Chooser, ShuffledChooser, SubnetChooser};
use qiniu_sdk::endpoint::{IpAddr, IpAddrWithPort};
use std::collections::HashSet;

fn ip(a: u8, b: u8, c: u8, d: u8) -> IpAddrWithPort {
    IpAddrWithPort::new(IpAddr::V4(a, b, c, d), None)
}

fn subnet_1() -> Vec<IpAddrWithPort> {
    vec![ip(192, 168, 1, 1), ip(192, 168, 1, 2), ip(192, 168, 1, 3)]
}

fn subnet_2() -> Vec<IpAddrWithPort> {
    vec![ip(192, 168, 2, 1), ip(192, 168, 2, 2)]
}

fn all_ips() -> Vec<IpAddrWithPort> {
    [subnet_1(), subnet_2()].concat()
}

/// The group that a deterministic pick of the largest group would choose.
fn largest(groups: &[Vec<IpAddrWithPort>]) -> Vec<IpAddrWithPort> {
    groups.iter().max_by_key(|g| g.len()).cloned().unwrap()
}

fn groups_as_set(groups: Vec<Vec<IpAddrWithPort>>) -> HashSet<Vec<IpAddrWithPort>> {
    groups.into_iter().collect()
}

#[test]
fn test_subnet_chooser() {
    let mut chooser = SubnetChooser::new();
    let (groups, need) = chooser.subnet_groups(&all_ips(), 0);
    assert!(!need);
    assert_eq!(largest(&groups), subnet_1());
    assert_eq!(groups_as_set(groups), groups_as_set(vec![subnet_1(), subnet_2()]));
    let chosen = chooser.choose_ips(&all_ips(), 0);
    assert!(chosen == subnet_1() || chosen == subnet_2());

    chooser.feedback(&[ip(192, 168, 1, 1), ip(192, 168, 1, 2)], true, 0);
    let (groups, _) = chooser.subnet_groups(&all_ips(), 0);
    assert_eq!(largest(&groups), subnet_2());
    assert_eq!(
        groups_as_set(groups),
        groups_as_set(vec![vec![ip(192, 168, 1, 3)], subnet_2()])
    );

    chooser.feedback(&[ip(192, 168, 2, 1), ip(192, 168, 2, 2)], true, 0);
    assert_eq!(chooser.choose_ips(&all_ips(), 0), vec![ip(192, 168, 1, 3)]);

    chooser.feedback(&[ip(192, 168, 1, 3)], true, 0);
    chooser.feedback(&[ip(192, 168, 2, 1)], false, 0);
    assert_eq!(chooser.choose_ips(&all_ips(), 0), vec![ip(192, 168, 2, 1)]);
}

#[test]
fn test_subnet_chooser_expiration_and_shrink() {
    let mut chooser = SubnetChooser::builder()
        .block_duration(1000)
        .shrink_interval(500)
        .build();
    chooser.feedback(&[ip(192, 168, 1, 1), ip(192, 168, 1, 2)], true, 0);
    assert_eq!(chooser.len(), 2);
    let (groups, need) = chooser.subnet_groups(&all_ips(), 10);
    assert!(!need);
    assert_eq!(
        groups_as_set(groups),
        groups_as_set(vec![vec![ip(192, 168, 1, 3)], subnet_2()])
    );

    let (groups, need) = chooser.subnet_groups(&all_ips(), 1000);
    assert!(need);
    assert_eq!(groups_as_set(groups), groups_as_set(vec![subnet_1(), subnet_2()]));

    let _ = chooser.choose_ips(&all_ips(), 1000);
    assert_eq!(chooser.len(), 0);
}

#[test]
fn blocked_addresses_come_back_after_block_duration() {
    let mut chooser = SubnetChooser::builder().block_duration(100).build();
    let ips = vec![ip(10, 0, 0, 1)];
    chooser.feedback(&ips, true, 50);
    assert!(chooser.choose_ips(&ips, 149).is_empty());
    assert_eq!(chooser.choose_ips(&ips, 150), ips);
}

#[test]
fn network_addresses_keep_the_prefix() {
    let chooser = SubnetChooser::builder()
        .ipv4_netmask_prefix_length(20)
        .ipv6_netmask_prefix_length(40)
        .build();
    assert_eq!(
        chooser.get_network_address(IpAddrWithPort::new(IpAddr::V4(192, 168, 31, 200), Some(80))),
        IpAddrWithPort::new(IpAddr::V4(192, 168, 16, 0), Some(80))
    );
    assert_eq!(
        chooser.get_network_address(IpAddrWithPort::new(
            IpAddr::V6(0x2001, 0x0db8, 0xabcd, 0x1234, 1, 2, 3, 4),
            None
        )),
        IpAddrWithPort::new(IpAddr::V6(0x2001, 0x0db8, 0xab00, 0, 0, 0, 0, 0), None)
    );
    let whole = SubnetChooser::builder().ipv4_netmask_prefix_length(32).build();
    assert_eq!(
        whole.get_network_address(ip(1, 2, 3, 4)),
        ip(1, 2, 3, 4)
    );
    let none = SubnetChooser::builder().ipv4_netmask_prefix_length(0).build();
    assert_eq!(none.get_network_address(ip(1, 2, 3, 4)), ip(0, 0, 0, 0));
}

fn make_set(ips: &[IpAddrWithPort]) -> HashSet<IpAddrWithPort> {
    ips.iter().copied().collect()
}

#[test]
fn test_shuffled_chooser() {
    let ips = subnet_1();
    let mut chooser = ShuffledChooser::new(SubnetChooser::builder().ipv4_netmask_prefix_length(0).build());
    assert_eq!(make_set(&chooser.choose_ips(&ips, 0)), make_set(&ips));
    chooser.feedback(&[ip(192, 168, 1, 1), ip(192, 168, 1, 2)], true, 0);
    assert_eq!(make_set(&chooser.choose_ips(&ips, 0)), make_set(&[ip(192, 168, 1, 3)]));
    chooser.feedback(&ips, true, 0);
    assert_eq!(chooser.choose_ips(&ips, 0), vec![]);
    chooser.feedback(&[ip(192, 168, 1, 1), ip(192, 168, 1, 2)], false, 0);
    assert_eq!(
        make_set(&chooser.choose_ips(&ips, 0)),
        make_set(&[ip(192, 168, 1, 1), ip(192, 168, 1, 2)])
    );
}
