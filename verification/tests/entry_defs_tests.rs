use sweettest_utils::entry_defs::{
    dna_entry_names, entry_def_name_string, zome_entry_names, EntryDefId, EntryNameRegistry,
};

fn s(x: &str) -> String {
    x.to_string()
}

#[test]
fn names_of_entry_definitions() {
    assert_eq!(entry_def_name_string(&EntryDefId::App(s("post"))), "post");
    assert_eq!(entry_def_name_string(&EntryDefId::CapClaim), "CapClaim");
    assert_eq!(entry_def_name_string(&EntryDefId::CapGrant), "CapGrant");
}

#[test]
fn zome_names_keep_callback_order() {
    let defs = vec![
        EntryDefId::App(s("post")),
        EntryDefId::CapGrant,
        EntryDefId::App(s("comment")),
        EntryDefId::CapClaim,
    ];
    assert_eq!(
        zome_entry_names(&defs),
        vec![s("post"), s("CapGrant"), s("comment"), s("CapClaim")]
    );
    assert_eq!(zome_entry_names(&vec![]), Vec::<String>::new());
}

#[test]
fn dna_names_zome_by_zome() {
    let zomes = vec![
        vec![EntryDefId::App(s("profile"))],
        vec![],
        vec![EntryDefId::CapClaim, EntryDefId::App(s("path"))],
    ];
    assert_eq!(
        dna_entry_names(&zomes),
        vec![vec![s("profile")], vec![], vec![s("CapClaim"), s("path")]]
    );
}

#[test]
fn registry_starts_empty() {
    let registry = EntryNameRegistry::new();
    assert!(registry.get_entry_names().is_empty());
}

#[test]
fn registry_read_gives_back_last_write() {
    let mut registry = EntryNameRegistry::new();
    registry.set_entry_names(vec![vec![s("a")]]);
    let names = vec![vec![s("post"), s("comment")], vec![s("CapGrant")]];
    registry.set_entry_names(names.clone());
    assert_eq!(registry.get_entry_names(), names);
    assert_eq!(registry.get_entry_names(), names);
}
