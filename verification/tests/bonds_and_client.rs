use block_indexer::block::Id;
use block_indexer::bond::{Amount, Bond, BondAddresses};
use block_indexer::client::default_headers;

#[test]
fn fake_bond_fields() {
    let mut starts = std::collections::BTreeSet::new();
    for _ in 0..200 {
        let validator = Id::Account("tnam1validator".to_string());
        let bond = Bond::fake(validator.clone(), "tnam1source".to_string(), Amount(12));
        assert_eq!(bond.source, Id::Account("tnam1source".to_string()));
        assert_eq!(bond.target, validator);
        assert_eq!(bond.amount, Amount(12));
        assert!(bond.start >= 1 && bond.start < 1000);
        starts.insert(bond.start);
    }
    assert!(starts.len() > 1);
}

#[test]
fn bond_addresses_compare_by_ends() {
    let a = BondAddresses {
        source: Id::Account("a".to_string()),
        target: Id::Account("b".to_string()),
    };
    let b = a.clone();
    assert_eq!(a, b);
}

#[test]
fn client_headers() {
    let headers = default_headers("1.2.3");
    assert_eq!(
        headers,
        vec![
            ("x-namada".to_string(), "1.2.3".to_string()),
            ("User-Agent".to_string(), "namada-indexer".to_string()),
        ]
    );
}
