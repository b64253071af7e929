use sweettest_utils::chain::{
    print_element, source_chain_dump, ChainElement, EntryKind, Header, Visibility,
};

fn s(x: &str) -> String {
    x.to_string()
}

fn names() -> Vec<Vec<String>> {
    vec![vec![s("profile"), s("post")], vec![s("comment")]]
}

fn element(header: Header, is_genesis: bool) -> ChainElement {
    ChainElement {
        header,
        header_address: s("uhCkkHEADER"),
        entry_hash: s("Some(EntryHash(uhCEkENTRY))"),
        author: s("uhCAkAUTHOR"),
        is_genesis,
    }
}

fn expected_line(head: &str) -> String {
    format!("{:<40} ({}) ({})", head, "uhCkkHEADER", "Some(EntryHash(uhCEkENTRY))")
}

fn plain_create_of_app_entry() {
    colored::control::set_override(false);
    let e = element(
        Header::Create {
            entry_type: EntryKind::App { zome_index: 0, entry_index: 1, visibility: Visibility::Public },
        },
        false,
    );
    assert_eq!(print_element(&e, &names()), expected_line("Create AppEntry 'post'"));
}

fn coloured_create_of_public_and_private_entries() {
    colored::control::set_override(true);
    let public = element(
        Header::Create {
            entry_type: EntryKind::App { zome_index: 1, entry_index: 0, visibility: Visibility::Public },
        },
        false,
    );
    assert_eq!(
        print_element(&public, &names()),
        expected_line("Create \u{1b}[32mAppEntry 'comment'\u{1b}[0m")
    );
    let private = element(
        Header::Create {
            entry_type: EntryKind::App { zome_index: 1, entry_index: 0, visibility: Visibility::Private },
        },
        false,
    );
    assert_eq!(
        print_element(&private, &names()),
        expected_line("Create \u{1b}[31mAppEntry 'comment'\u{1b}[0m")
    );
}

fn create_and_update_of_system_entries() {
    colored::control::set_override(true);
    let create = element(Header::Create { entry_type: EntryKind::AgentPubKey }, false);
    assert_eq!(
        print_element(&create, &names()),
        expected_line("Create \u{1b}[32mAgentPubKey\u{1b}[0m")
    );
    let update = element(Header::Update { entry_type: EntryKind::CapGrant }, false);
    assert_eq!(
        print_element(&update, &names()),
        expected_line("Update \u{1b}[33mCapGrant\u{1b}[0m")
    );
    colored::control::set_override(false);
    let claim = element(Header::Create { entry_type: EntryKind::CapClaim }, false);
    assert_eq!(print_element(&claim, &names()), expected_line("Create CapClaim"));
}

fn update_of_app_entry_is_yellow() {
    colored::control::set_override(true);
    let e = element(
        Header::Update {
            entry_type: EntryKind::App { zome_index: 0, entry_index: 0, visibility: Visibility::Private },
        },
        false,
    );
    assert_eq!(
        print_element(&e, &names()),
        expected_line("Update \u{1b}[33mAppEntry 'profile'\u{1b}[0m")
    );
}

fn link_tags_are_cut_to_twenty_characters() {
    colored::control::set_override(false);
    let e = element(Header::CreateLink { tag: b"a-rather-long-link-tag-value".to_vec() }, false);
    assert_eq!(print_element(&e, &names()), expected_line("CreateLink 'a-rather-long-link-t'"));
    let short = element(Header::CreateLink { tag: vec![b'x', 0xff] }, false);
    assert_eq!(print_element(&short, &names()), expected_line("CreateLink 'x\u{fffd}'"));
}

fn removed_addresses_are_cut_to_twenty_five_characters() {
    colored::control::set_override(true);
    let address = s("uhCkkABCDEFGHIJKLMNOPQRSTUVWXYZ0123456789");
    let delete_link = element(Header::DeleteLink { link_add_address: address.clone() }, false);
    assert_eq!(
        print_element(&delete_link, &names()),
        expected_line("DeleteLink \u{1b}[33m'uhCkkABCDEFGHIJKLMNOPQRST'\u{1b}[0m")
    );
    let delete = element(Header::Delete { deletes_address: address }, false);
    assert_eq!(
        print_element(&delete, &names()),
        expected_line("Delete \u{1b}[32m'uhCkkABCDEFGHIJKLMNOPQRST'\u{1b}[0m")
    );
}

fn headers_without_detail() {
    colored::control::set_override(true);
    for (header, name) in [
        (Header::Dna, "Dna"),
        (Header::AgentValidationPkg, "AgentValidationPkg"),
        (Header::InitZomesComplete, "InitZomesComplete"),
        (Header::OpenChain, "OpenChain"),
        (Header::CloseChain, "CloseChain"),
    ] {
        let e = element(header, false);
        assert_eq!(print_element(&e, &names()), expected_line(&format!("{} ", name)));
    }
}

fn genesis_lines_are_blue() {
    colored::control::set_override(true);
    let e = element(Header::Dna, true);
    assert_eq!(
        print_element(&e, &names()),
        format!("\u{1b}[34m{}\u{1b}[0m", expected_line("Dna "))
    );
    colored::control::set_override(false);
    assert_eq!(print_element(&e, &names()), expected_line("Dna "));
}

fn genesis_line_around_a_coloured_detail() {
    colored::control::set_override(true);
    let e = element(Header::CreateLink { tag: b"t".to_vec() }, true);
    let inner = expected_line("CreateLink \u{1b}[33m't'\u{1b}[0m");
    let rearmed = inner.replace("\u{1b}[0m", "\u{1b}[0m\u{1b}[34m");
    assert_eq!(print_element(&e, &names()), format!("\u{1b}[34m{}\u{1b}[0m", rearmed));
}

#[test]
fn dump_of_empty_chain() {
    assert_eq!(
        source_chain_dump(&vec![], 0, &names()),
        "\n\n>>>>>> SOURCE-CHAIN EMPTY <<<<<<\n\n\n"
    );
}

fn dump_numbers_every_element() {
    colored::control::set_override(false);
    let mut elements = Vec::new();
    for _ in 0..11 {
        elements.push(element(Header::OpenChain, false));
    }
    let dump = source_chain_dump(&elements, 17, &names());
    let mut expected = String::from("\n====== SOURCE-CHAIN STATE DUMP START ===== uhCAkAUTHOR\n");
    for i in 0..11 {
        expected += &format!(" {:2}. {}\n", i, expected_line("OpenChain "));
    }
    expected += "====== SOURCE-CHAIN STATE DUMP END  ===== 11 / 17\n\n";
    assert_eq!(dump, expected);
}

/// The colouring switch is process-wide, so every rendering that depends on
/// it runs in this one test, one step after another.
#[test]
fn rendering_with_and_without_colour() {
    plain_create_of_app_entry();
    coloured_create_of_public_and_private_entries();
    create_and_update_of_system_entries();
    update_of_app_entry_is_yellow();
    link_tags_are_cut_to_twenty_characters();
    removed_addresses_are_cut_to_twenty_five_characters();
    headers_without_detail();
    genesis_lines_are_blue();
    genesis_line_around_a_coloured_detail();
    dump_numbers_every_element();
}
