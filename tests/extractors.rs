use geo_substream::aggregate::{block_output, geo_out};
use geo_substream::block::{composite_id, Block, ChainEvent, LogEntry};
use geo_substream::entries::map_entries_added;
use geo_substream::extract::{
    map_edits_published, map_editors_added, map_editors_removed, map_governance_plugins_created,
    map_initial_editors_added, map_members_added, map_members_removed,
    map_personal_admin_plugins_created, map_proposals_executed,
    map_publish_edits_proposals_created, map_spaces_created, map_subspaces_added,
    map_subspaces_removed, map_successor_spaces_created, map_votes_cast,
};
use geo_substream::helpers::format_hex;
use geo_substream::roles::{
    get_role, map_role_changes, Role, RoleChange, ADMIN_ROLE, EDITOR_CONTROLLER_ROLE, EDITOR_ROLE,
};
use geo_substream::rpc::Operation;
use geo_substream::schema::{EditorAdded, InitialEditorAdded, MemberAdded};
use geo_substream::store::SpaceStore;

fn addr(b: u8) -> Vec<u8> {
    vec![b; 20]
}

fn hex_of(b: u8) -> String {
    format!("0x{}", format!("{:02x}", b).repeat(20))
}

fn log(address: u8, tx: u8, index: u32, event: ChainEvent) -> LogEntry {
    LogEntry { address: addr(address), tx_hash: vec![tx; 32], log_index: index, event }
}

fn block(number: u64, logs: Vec<LogEntry>) -> Block {
    Block { number, logs }
}

fn mixed_block() -> Block {
    block(
        7,
        vec![
            log(0x10, 1, 0, ChainEvent::MemberAdded { dao: addr(0x01), member: addr(0x02) }),
            log(0x11, 1, 1, ChainEvent::Unrecognized),
            log(0x12, 1, 2, ChainEvent::EditorAdded { dao: addr(0x03), editor: addr(0x04) }),
            log(0x13, 2, 0, ChainEvent::MemberAdded { dao: addr(0x05), member: addr(0x06) }),
            log(0x14, 2, 1, ChainEvent::SpacePluginCreated { dao: addr(0x07), plugin: addr(0x08) }),
        ],
    )
}

#[test]
fn format_hex_is_lowercase_with_prefix() {
    assert_eq!(format_hex(&[0xab, 0xcd, 0xef]), "0xabcdef");
    assert_eq!(format_hex(&[0x00, 0x0f, 0xf0]), "0x000ff0");
    assert_eq!(format_hex(&[]), "0x");
    let a = format_hex(&addr(0xAB));
    assert_eq!(a.len(), 42);
    assert_eq!(a, hex_of(0xab));
}

#[test]
fn format_hex_distinct_inputs_differ() {
    assert_ne!(format_hex(&[0x01, 0x23]), format_hex(&[0x12, 0x03]));
    assert_ne!(format_hex(&[0x00]), format_hex(&[0x00, 0x00]));
}

#[test]
fn composite_id_joins_locator() {
    let id = composite_id(12345, &[0xab; 32], 7);
    assert_eq!(id, format!("12345-0x{}-7", "ab".repeat(32)));
    assert_eq!(composite_id(0, &[], 0), "0-0x-0");
    assert_eq!(composite_id(u64::MAX, &[0x0a], u32::MAX), "18446744073709551615-0x0a-4294967295");
    assert_eq!(composite_id(10, &[0x00], 100), "10-0x00-100");
}

#[test]
fn composite_ids_of_distinct_logs_differ() {
    let a = composite_id(5, &[0x01; 32], 1);
    let b = composite_id(5, &[0x01; 32], 2);
    let c = composite_id(5, &[0x02; 32], 1);
    assert_ne!(a, b);
    assert_ne!(a, c);
    assert_ne!(b, c);
    assert_ne!(composite_id(1, &[0x01], 11), composite_id(11, &[0x01], 1));
}

#[test]
fn role_classifier_matches_known_identifiers_only() {
    assert_eq!(get_role(&EDITOR_CONTROLLER_ROLE), Role::Moderator);
    assert_eq!(get_role(&EDITOR_ROLE), Role::Member);
    assert_eq!(get_role(&ADMIN_ROLE), Role::Admin);
    assert_eq!(get_role(&[0u8; 32]), Role::NullRole);
    let mut near = ADMIN_ROLE;
    near[31] ^= 1;
    assert_eq!(get_role(&near), Role::NullRole);
    assert_eq!(get_role(&ADMIN_ROLE[..31]), Role::NullRole);
    assert_eq!(Role::NullRole.value(), 0);
    assert_eq!(Role::Moderator.value(), 1);
    assert_eq!(Role::Member.value(), 2);
    assert_eq!(Role::Admin.value(), 3);
}

#[test]
fn admin_role_granted_gives_one_granted_record() {
    let b = block(
        42,
        vec![log(
            0xAA,
            0x05,
            3,
            ChainEvent::RoleGranted { role: ADMIN_ROLE.to_vec(), account: addr(0xBB), sender: addr(0xCC) },
        )],
    );
    let out = map_role_changes(&b);
    assert_eq!(out.changes.len(), 1);
    match &out.changes[0] {
        RoleChange::Granted(r) => {
            assert_eq!(r.role, Role::Admin);
            assert_eq!(r.role.value(), 3);
            assert_eq!(r.account, hex_of(0xbb));
            assert_eq!(r.sender, hex_of(0xcc));
            assert_eq!(r.space, hex_of(0xaa));
            assert_eq!(r.id, composite_id(42, &[0x05; 32], 3));
        }
        RoleChange::Revoked(_) => panic!("expected a granted role"),
    }
    assert!(out.changes[0].is_granted());
}

#[test]
fn role_revoked_with_unknown_role() {
    let b = block(
        1,
        vec![
            log(0x01, 1, 0, ChainEvent::Unrecognized),
            log(0xAA, 1, 1, ChainEvent::RoleRevoked { role: vec![9; 32], account: addr(2), sender: addr(3) }),
        ],
    );
    let out = map_role_changes(&b);
    assert_eq!(out.changes.len(), 1);
    assert!(!out.changes[0].is_granted());
    let r = out.changes[0].record();
    assert_eq!(r.role, Role::NullRole);
    assert_eq!(r.id, format!("1-0x{}-1", "01".repeat(32)));
}

#[test]
fn editors_added_lists_keep_order() {
    let b = block(
        3,
        vec![
            log(0x50, 1, 0, ChainEvent::EditorsAdded { dao: addr(0x60), editors: vec![addr(0xDD), addr(0xEE)] }),
            log(0x50, 1, 1, ChainEvent::EditorsAdded { dao: addr(0x60), editors: vec![addr(0xFF)] }),
        ],
    );
    let out = map_initial_editors_added(&b);
    assert_eq!(
        out.editors,
        vec![
            InitialEditorAdded {
                addresses: vec![hex_of(0xdd), hex_of(0xee)],
                plugin_address: hex_of(0x50),
                dao_address: hex_of(0x60),
            },
            InitialEditorAdded {
                addresses: vec![hex_of(0xff)],
                plugin_address: hex_of(0x50),
                dao_address: hex_of(0x60),
            },
        ]
    );
}

#[test]
fn extractor_output_follows_log_order() {
    let out = map_members_added(&mixed_block());
    assert_eq!(
        out.members,
        vec![
            MemberAdded {
                member_address: hex_of(0x02),
                main_voting_plugin_address: hex_of(0x10),
                change_type: "added".to_string(),
                dao_address: hex_of(0x01),
            },
            MemberAdded {
                member_address: hex_of(0x06),
                main_voting_plugin_address: hex_of(0x13),
                change_type: "added".to_string(),
                dao_address: hex_of(0x05),
            },
        ]
    );
}

#[test]
fn other_kinds_never_reach_an_extractor() {
    let b = mixed_block();
    let editors = map_editors_added(&b);
    assert_eq!(
        editors.editors,
        vec![EditorAdded {
            editor_address: hex_of(0x04),
            main_voting_plugin_address: hex_of(0x12),
            change_type: "added".to_string(),
            dao_address: hex_of(0x03),
        }]
    );
    assert!(map_editors_removed(&b).editors.is_empty());
    assert!(map_members_removed(&b).members.is_empty());
    assert!(map_votes_cast(&b).votes.is_empty());
    assert_eq!(map_spaces_created(&b).spaces.len(), 1);
    assert!(map_spaces_created(&block(1, vec![])).spaces.is_empty());
}

#[test]
fn space_and_plugin_creation_records() {
    let b = block(
        9,
        vec![
            log(0x20, 1, 0, ChainEvent::SpacePluginCreated { dao: addr(0x21), plugin: addr(0x22) }),
            log(
                0x30,
                1,
                1,
                ChainEvent::GovernancePluginsCreated {
                    dao: addr(0x31),
                    main_voting_plugin: addr(0x32),
                    member_access_plugin: addr(0x33),
                },
            ),
            log(
                0x40,
                1,
                2,
                ChainEvent::PersonalAdminPluginCreated {
                    dao: addr(0x41),
                    personal_admin_plugin: addr(0x42),
                    initial_editor: addr(0x43),
                },
            ),
            log(0x50, 1, 3, ChainEvent::SuccessorSpaceCreated { predecessor_space: addr(0x51), dao: addr(0x52) }),
        ],
    );
    let spaces = map_spaces_created(&b).spaces;
    assert_eq!(spaces.len(), 1);
    assert_eq!(spaces[0].dao_address, hex_of(0x21));
    assert_eq!(spaces[0].space_address, hex_of(0x22));
    let gov = map_governance_plugins_created(&b).plugins;
    assert_eq!(gov.len(), 1);
    assert_eq!(gov[0].dao_address, hex_of(0x31));
    assert_eq!(gov[0].main_voting_address, hex_of(0x32));
    assert_eq!(gov[0].member_access_address, hex_of(0x33));
    let personal = map_personal_admin_plugins_created(&b).plugins;
    assert_eq!(personal.len(), 1);
    assert_eq!(personal[0].dao_address, hex_of(0x41));
    assert_eq!(personal[0].personal_admin_address, hex_of(0x42));
    assert_eq!(personal[0].initial_editor, hex_of(0x43));
    let successors = map_successor_spaces_created(&b).spaces;
    assert_eq!(successors.len(), 1);
    assert_eq!(successors[0].predecessor_space, hex_of(0x51));
    assert_eq!(successors[0].plugin_address, hex_of(0x50));
    assert_eq!(successors[0].dao_address, hex_of(0x52));
}

#[test]
fn subspace_and_removal_records_carry_change_kind() {
    let b = block(
        2,
        vec![
            log(0x70, 1, 0, ChainEvent::SubspaceAccepted { subspace_dao: addr(0x71), dao: addr(0x72) }),
            log(0x70, 1, 1, ChainEvent::SubspaceRemoved { subspace_dao: addr(0x73), dao: addr(0x72) }),
            log(0x80, 1, 2, ChainEvent::MemberRemoved { dao: addr(0x81), member: addr(0x82) }),
            log(0x80, 1, 3, ChainEvent::EditorRemoved { dao: addr(0x81), editor: addr(0x83) }),
        ],
    );
    let added = map_subspaces_added(&b).subspaces;
    assert_eq!(added.len(), 1);
    assert_eq!(added[0].subspace, hex_of(0x71));
    assert_eq!(added[0].plugin_address, hex_of(0x70));
    assert_eq!(added[0].change_type, "added");
    assert_eq!(added[0].dao_address, hex_of(0x72));
    let removed = map_subspaces_removed(&b).subspaces;
    assert_eq!(removed.len(), 1);
    assert_eq!(removed[0].subspace, hex_of(0x73));
    assert_eq!(removed[0].change_type, "removed");
    let members = map_members_removed(&b).members;
    assert_eq!(members.len(), 1);
    assert_eq!(members[0].member_address, hex_of(0x82));
    assert_eq!(members[0].plugin_address, hex_of(0x80));
    assert_eq!(members[0].change_type, "removed");
    let editors = map_editors_removed(&b).editors;
    assert_eq!(editors.len(), 1);
    assert_eq!(editors[0].editor_address, hex_of(0x83));
    assert_eq!(editors[0].dao_address, hex_of(0x81));
    assert_eq!(editors[0].change_type, "removed");
}

#[test]
fn proposal_numbers_become_decimal_text() {
    let b = block(
        4,
        vec![
            log(0x90, 1, 0, ChainEvent::ProposalExecuted { proposal_id: vec![0x01, 0x00] }),
            log(0x90, 1, 1, ChainEvent::VoteCast { proposal_id: vec![0; 32], voter: addr(0x91), vote_option: 2 }),
            log(
                0x90,
                1,
                2,
                ChainEvent::PublishEditsProposalCreated {
                    proposal_id: vec![0x30, 0x39],
                    creator: addr(0x92),
                    start_date: vec![0x65, 0xaf, 0xc3, 0x80],
                    end_date: vec![0xff; 8],
                    content_uri: "ipfs://edit".to_string(),
                    dao: addr(0x93),
                },
            ),
            log(0x94, 1, 3, ChainEvent::EditsPublished { content_uri: "ipfs://content".to_string(), dao: addr(0x95) }),
        ],
    );
    let executed = map_proposals_executed(&b).executed_proposals;
    assert_eq!(executed.len(), 1);
    assert_eq!(executed[0].proposal_id, "256");
    assert_eq!(executed[0].plugin_address, hex_of(0x90));
    let votes = map_votes_cast(&b).votes;
    assert_eq!(votes.len(), 1);
    assert_eq!(votes[0].onchain_proposal_id, "0");
    assert_eq!(votes[0].voter, hex_of(0x91));
    assert_eq!(votes[0].vote_option, 2);
    let proposals = map_publish_edits_proposals_created(&b).edits;
    assert_eq!(proposals.len(), 1);
    assert_eq!(proposals[0].proposal_id, "12345");
    assert_eq!(proposals[0].creator, hex_of(0x92));
    assert_eq!(proposals[0].start_time, "1706017664");
    assert_eq!(proposals[0].end_time, "18446744073709551615");
    assert_eq!(proposals[0].content_uri, "ipfs://edit");
    assert_eq!(proposals[0].dao_address, hex_of(0x93));
    assert_eq!(proposals[0].plugin_address, hex_of(0x90));
    let edits = map_edits_published(&b).edits;
    assert_eq!(edits.len(), 1);
    assert_eq!(edits[0].content_uri, "ipfs://content");
    assert_eq!(edits[0].plugin_address, hex_of(0x94));
    assert_eq!(edits[0].dao_address, hex_of(0x95));
}

#[test]
fn large_proposal_id_in_decimal() {
    let b = block(1, vec![log(0x90, 1, 0, ChainEvent::ProposalExecuted { proposal_id: vec![0xff; 32] })]);
    let executed = map_proposals_executed(&b).executed_proposals;
    assert_eq!(
        executed[0].proposal_id,
        "115792089237316195423570985008687907853269984665640564039457584007913129639935"
    );
}

#[test]
fn entries_get_composite_ids() {
    let b = block(
        100,
        vec![
            log(0xA1, 0x0c, 4, ChainEvent::EntryAdded { index: vec![0x0a], uri: "ipfs://a".to_string(), author: addr(0xB1) }),
            log(0xA2, 0x0d, 0, ChainEvent::Unrecognized),
            log(0xA1, 0x0d, 5, ChainEvent::EntryAdded { index: vec![], uri: "ipfs://b".to_string(), author: addr(0xB2) }),
        ],
    );
    let out = map_entries_added(&b).entries;
    assert_eq!(out.len(), 2);
    assert_eq!(out[0].id, format!("100-0x{}-4", "0c".repeat(32)));
    assert_eq!(out[0].index, "10");
    assert_eq!(out[0].uri, "ipfs://a");
    assert_eq!(out[0].author, hex_of(0xb1));
    assert_eq!(out[0].space, hex_of(0xa1));
    assert_eq!(out[1].id, format!("100-0x{}-5", "0d".repeat(32)));
    assert_eq!(out[1].index, "0");
    assert_ne!(out[0].id, out[1].id);
}

#[test]
fn store_keeps_first_write() {
    let mut store = SpaceStore::new();
    let key = "0xaa".to_string();
    store.set_if_absent(&key, &"first".to_string());
    store.set_if_absent(&key, &"second".to_string());
    assert_eq!(store.get(&key), Some("first".to_string()));
    assert_eq!(store.get(&"0xbb".to_string()), None);
}

#[test]
fn store_records_each_space_once() {
    let b = block(
        5,
        vec![
            log(0xA1, 1, 0, ChainEvent::EntryAdded { index: vec![1], uri: "u1".to_string(), author: addr(1) }),
            log(0xA2, 1, 1, ChainEvent::EntryAdded { index: vec![2], uri: "u2".to_string(), author: addr(2) }),
            log(0xA1, 1, 2, ChainEvent::EntryAdded { index: vec![3], uri: "u3".to_string(), author: addr(3) }),
        ],
    );
    let entries = map_entries_added(&b);
    let mut once = SpaceStore::new();
    once.record_spaces(&entries);
    let mut twice = SpaceStore::new();
    twice.record_spaces(&entries);
    twice.record_spaces(&entries);
    for a in [0xa1u8, 0xa2] {
        assert_eq!(once.get(&hex_of(a)), Some(hex_of(a)));
        assert_eq!(twice.get(&hex_of(a)), once.get(&hex_of(a)));
    }
    assert_eq!(once.get(&hex_of(0xa3)), None);
}

#[test]
fn block_output_is_deterministic_and_assembled() {
    let b = mixed_block();
    let first = block_output(&b);
    let second = block_output(&b);
    assert_eq!(first, second);
    assert_eq!(first.members_added, map_members_added(&b).members);
    assert_eq!(first.editors_added, map_editors_added(&b).editors);
    assert_eq!(first.spaces_created, map_spaces_created(&b).spaces);
    assert!(first.votes_cast.is_empty());
    assert!(first.proposed_added_members.is_empty());
}

#[test]
fn geo_out_keeps_lists_unchanged() {
    let b = mixed_block();
    let out = geo_out(
        map_spaces_created(&b),
        map_governance_plugins_created(&b),
        map_initial_editors_added(&b),
        map_votes_cast(&b),
        map_edits_published(&b),
        map_successor_spaces_created(&b),
        map_subspaces_added(&b),
        map_subspaces_removed(&b),
        map_proposals_executed(&b),
        map_members_added(&b),
        map_editors_added(&b),
        map_personal_admin_plugins_created(&b),
        map_members_removed(&b),
        map_editors_removed(&b),
        map_publish_edits_proposals_created(&b),
    );
    assert_eq!(out.members_added.len(), 2);
    assert_eq!(out.members_added[0].member_address, hex_of(0x02));
    assert_eq!(out.members_added[1].member_address, hex_of(0x06));
    assert_eq!(out.editors_added.len(), 1);
    assert_eq!(out.spaces_created.len(), 1);
    assert_eq!(out, block_output(&b));
}

#[test]
fn operation_names_round_trip() {
    assert_eq!(Operation::Unset.as_str_name(), "UNSET");
    assert_eq!(Operation::Create.as_str_name(), "CREATE");
    assert_eq!(Operation::Update.as_str_name(), "UPDATE");
    assert_eq!(Operation::Delete.as_str_name(), "DELETE");
    for op in [Operation::Unset, Operation::Create, Operation::Update, Operation::Delete] {
        assert_eq!(Operation::from_str_name(op.as_str_name()), Some(op));
    }
    assert_eq!(Operation::from_str_name("create"), None);
    assert_eq!(Operation::from_str_name(""), None);
    assert_eq!(Operation::from_str_name("DELETED"), None);
}
