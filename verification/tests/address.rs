use forward_proxy::address::{select_address, Lookup, SocketAddress};

#[test]
fn first_candidate_wins() {
    let first = SocketAddress::V4 { ip: 0x5db8_d822, port: 443 };
    let second = SocketAddress::V6 { ip: 1, port: 443, flowinfo: 0, scope_id: 0 };
    assert_eq!(select_address(&Lookup::Candidates(vec![first, second])), Some(first));
    assert_eq!(select_address(&Lookup::Candidates(vec![second, first])), Some(second));
}

#[test]
fn single_candidate_is_chosen() {
    let only = SocketAddress::V6 { ip: 1, port: 8080, flowinfo: 7, scope_id: 3 };
    assert_eq!(select_address(&Lookup::Candidates(vec![only])), Some(only));
}

#[test]
fn no_candidate_gives_none() {
    assert_eq!(select_address(&Lookup::Candidates(vec![])), None);
}

#[test]
fn failed_lookup_gives_none() {
    assert_eq!(select_address(&Lookup::Failed), None);
}
