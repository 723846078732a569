use sink::socket_addrs::{Addr, Ip, SocketAddrs};

#[test]
fn single_forms_stand_for_one_address() {
    assert_eq!(vec![Addr::V4([127, 0, 0, 1], 80)], SocketAddrs::FromAddr(Addr::V4([127, 0, 0, 1], 80)).to_vec());
    assert_eq!(vec![Addr::V4([10, 0, 0, 2], 8080)], SocketAddrs::FromIpV4Port(([10, 0, 0, 2], 8080)).to_vec());
    assert_eq!(
        vec![Addr::V6([0, 0, 0, 0, 0, 0, 0, 1], 443, 0, 0)],
        SocketAddrs::FromIpPort((Ip::V6([0, 0, 0, 0, 0, 0, 0, 1]), 443)).to_vec()
    );
    assert_eq!(
        vec![Addr::V6([1, 2, 3, 4, 5, 6, 7, 8], 9, 10, 11)],
        SocketAddrs::FromAddrV6(([1, 2, 3, 4, 5, 6, 7, 8], 9, 10, 11)).to_vec()
    );
}

#[test]
fn lists_flatten_in_order() {
    let nested = SocketAddrs::List(vec![
        SocketAddrs::FromAddrV4(([1, 1, 1, 1], 1)),
        SocketAddrs::List(vec![]),
        SocketAddrs::List(vec![SocketAddrs::FromIpV6Port(([0, 0, 0, 0, 0, 0, 0, 2], 2)), SocketAddrs::FromIpPort((Ip::V4([3, 3, 3, 3]), 3))]),
    ]);
    assert_eq!(
        vec![Addr::V4([1, 1, 1, 1], 1), Addr::V6([0, 0, 0, 0, 0, 0, 0, 2], 2, 0, 0), Addr::V4([3, 3, 3, 3], 3)],
        nested.to_vec()
    );
}

#[test]
fn resolved_addresses_are_classified_by_count() {
    assert!(matches!(SocketAddrs::from_resolved(vec![]), SocketAddrs::List(l) if l.is_empty()));
    let one = Addr::V4([127, 0, 0, 1], 80);
    assert!(matches!(SocketAddrs::from_resolved(vec![one]), SocketAddrs::FromAddr(a) if a == one));
    let two = vec![one, Addr::V4([127, 0, 0, 2], 81)];
    let form = SocketAddrs::from_resolved(two.clone());
    assert!(matches!(&form, SocketAddrs::List(l) if l.len() == 2));
    assert_eq!(two, form.to_vec());
}
