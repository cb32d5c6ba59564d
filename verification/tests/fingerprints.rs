use heritage_cli::errors::Error;
use heritage_cli::fingerprints::{
    entity_label, get_fingerprints, resolve_create_fingerprint, EntityKind, NamedEntity,
};

fn entity(kind: EntityKind, name: &str, fingerprint: Option<u32>) -> NamedEntity {
    NamedEntity { kind, name: name.to_owned(), fingerprint }
}

#[test]
fn labels_carry_kind_and_name() {
    assert_eq!(entity_label(&entity(EntityKind::Wallet, "main", None)), "wallet:main");
    assert_eq!(entity_label(&entity(EntityKind::Heir, "bob", None)), "heir:bob");
    assert_eq!(entity_label(&entity(EntityKind::HeirWallet, "bob", None)), "heir-wallet:bob");
}

#[test]
fn shared_fingerprints_collect_their_owners_in_order() {
    let entities = vec![
        entity(EntityKind::Heir, "bob", Some(0xAA)),
        entity(EntityKind::HeirWallet, "bob", Some(0xAA)),
        entity(EntityKind::Wallet, "main", Some(0xBB)),
    ];
    let index = get_fingerprints(&entities);
    assert_eq!(index.len(), 2);
    let aa = index.iter().find(|e| e.fingerprint == 0xAA).unwrap();
    assert_eq!(aa.labels, vec!["heir:bob".to_owned(), "heir-wallet:bob".to_owned()]);
    let bb = index.iter().find(|e| e.fingerprint == 0xBB).unwrap();
    assert_eq!(bb.labels, vec!["wallet:main".to_owned()]);
}

#[test]
fn unresolvable_fingerprints_are_skipped_not_errors() {
    let entities = vec![
        entity(EntityKind::Wallet, "watch-only", None),
        entity(EntityKind::Heir, "bob", Some(1)),
    ];
    let index = get_fingerprints(&entities);
    assert_eq!(index.len(), 1);
    assert_eq!(index[0].fingerprint, 1);
}

#[test]
fn empty_entity_list_gives_an_empty_index() {
    assert!(get_fingerprints(&vec![]).is_empty());
}

#[test]
fn explicit_fingerprint_wins_over_the_derived_one() {
    assert_eq!(resolve_create_fingerprint(Some(7), Some(9)), Ok(7));
    assert_eq!(resolve_create_fingerprint(None, Some(9)), Ok(9));
    assert_eq!(resolve_create_fingerprint(Some(7), None), Ok(7));
}

#[test]
fn creation_without_any_fingerprint_is_rejected() {
    assert_eq!(resolve_create_fingerprint(None, None), Err(Error::MissingFingerprint));
}
