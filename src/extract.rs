//! One extractor per event kind: each scans a block's logs in order and keeps
//! a normalized record for every log that decoded to its event kind.

use vstd::prelude::*;
use crate::block::{collect, lemma_collect_step, Block, ChainEvent, LogEntry};
use crate::helpers::{
    be_decimal_string, be_value, decimal, format_hex, format_hex_all, hex_text, hex_texts,
};
use crate::schema::{
    EditPublished, EditorAdded, EditorRemoved, EditorsAdded, EditorsRemoved, EditsPublished,
    GeoGovernancePluginCreated, GeoGovernancePluginsCreated, GeoPersonalSpaceAdminPluginCreated,
    GeoPersonalSpaceAdminPluginsCreated, GeoSpaceCreated, GeoSpacesCreated, InitialEditorAdded,
    InitialEditorsAdded, MemberAdded, MemberRemoved, MembersAdded, MembersRemoved,
    ProposalExecuted, ProposalsExecuted, PublishEditProposalCreated, PublishEditsProposalsCreated,
    SubspaceAdded, SubspaceRemoved, SubspacesAdded, SubspacesRemoved, SuccessorSpaceCreated,
    SuccessorSpacesCreated, VoteCast, VotesCast,
};

verus! {

/// The change kind of records that add something.
pub open spec fn added_text() -> Seq<char> {
    seq!['a', 'd', 'd', 'e', 'd']
}

/// The change kind of records that remove something.
pub open spec fn removed_text() -> Seq<char> {
    seq!['r', 'e', 'm', 'o', 'v', 'e', 'd']
}

fn added_string() -> (r: String)
    ensures
        r@ == added_text(),
{
    let s = String::from_str("added");
    proof {
        reveal_strlit("added");
        assert(s@ =~= added_text());
    }
    s
}

fn removed_string() -> (r: String)
    ensures
        r@ == removed_text(),
{
    let s = String::from_str("removed");
    proof {
        reveal_strlit("removed");
        assert(s@ =~= removed_text());
    }
    s
}

/// The record of a log that decoded to `SuccessorSpaceCreated`; `None` for any other log.
pub open spec fn successor_space_of(l: LogEntry) -> Option<<SuccessorSpaceCreated as View>::V> {
    match l.event {
        ChainEvent::SuccessorSpaceCreated { predecessor_space, dao } => Some(
            (hex_text(predecessor_space@), hex_text(l.address@), hex_text(dao@)),
        ),
        _ => None,
    }
}

/// The records of this kind that the logs give, in log order.
pub open spec fn successor_spaces_of(logs: Seq<LogEntry>) -> Seq<<SuccessorSpaceCreated as View>::V> {
    collect(logs, |l: LogEntry| successor_space_of(l))
}

/// Spaces created as successors of other spaces.
pub fn map_successor_spaces_created(block: &Block) -> (r: SuccessorSpacesCreated)
    ensures
        r@ == successor_spaces_of(block.logs@),
{
    let mut spaces: Vec<SuccessorSpaceCreated> = Vec::new();
    let mut i: usize = 0;
    while i < block.logs.len()
        invariant
            i <= block.logs.len(),
            spaces@.map_values(|r: SuccessorSpaceCreated| r@) == successor_spaces_of(
                block.logs@.subrange(0, i as int),
            ),
        decreases block.logs.len() - i,
    {
        let log = &block.logs[i];
        proof {
            lemma_collect_step(block.logs@, i as int, |l: LogEntry| successor_space_of(l));
        }
        if let ChainEvent::SuccessorSpaceCreated { predecessor_space, dao } = &log.event {
            let record = SuccessorSpaceCreated {
                plugin_address: format_hex(&log.address),
                predecessor_space: format_hex(predecessor_space),
                dao_address: format_hex(dao),
            };
            let ghost before = spaces@;
            spaces.push(record);
            proof {
                assert(spaces@.map_values(|r: SuccessorSpaceCreated| r@) =~= before.map_values(
                    |r: SuccessorSpaceCreated| r@,
                ).push(record@));
            }
        }
        i += 1;
    }
    proof {
        assert(block.logs@.subrange(0, block.logs.len() as int) =~= block.logs@);
    }
    SuccessorSpacesCreated { spaces }
}

/// The record of a log that decoded to `SpacePluginCreated`; `None` for any other log.
pub open spec fn space_created_of(l: LogEntry) -> Option<<GeoSpaceCreated as View>::V> {
    match l.event {
        ChainEvent::SpacePluginCreated { dao, plugin } => Some((hex_text(dao@), hex_text(plugin@))),
        _ => None,
    }
}

/// The records of this kind that the logs give, in log order.
pub open spec fn spaces_created_of(logs: Seq<LogEntry>) -> Seq<<GeoSpaceCreated as View>::V> {
    collect(logs, |l: LogEntry| space_created_of(l))
}

/// Space plugins created for DAOs.
pub fn map_spaces_created(block: &Block) -> (r: GeoSpacesCreated)
    ensures
        r@ == spaces_created_of(block.logs@),
{
    let mut spaces: Vec<GeoSpaceCreated> = Vec::new();
    let mut i: usize = 0;
    while i < block.logs.len()
        invariant
            i <= block.logs.len(),
            spaces@.map_values(|r: GeoSpaceCreated| r@) == spaces_created_of(block.logs@.subrange(0, i as int)),
        decreases block.logs.len() - i,
    {
        let log = &block.logs[i];
        proof {
            lemma_collect_step(block.logs@, i as int, |l: LogEntry| space_created_of(l));
        }
        if let ChainEvent::SpacePluginCreated { dao, plugin } = &log.event {
            let record = GeoSpaceCreated {
                dao_address: format_hex(dao),
                space_address: format_hex(plugin),
            };
            let ghost before = spaces@;
            spaces.push(record);
            proof {
                assert(spaces@.map_values(|r: GeoSpaceCreated| r@) =~= before.map_values(|r: GeoSpaceCreated| r@).push(record@));
            }
        }
        i += 1;
    }
    proof {
        assert(block.logs@.subrange(0, block.logs.len() as int) =~= block.logs@);
    }
    GeoSpacesCreated { spaces }
}

/// The record of a log that decoded to `SubspaceAccepted`; `None` for any other log.
pub open spec fn subspace_added_of(l: LogEntry) -> Option<<SubspaceAdded as View>::V> {
    match l.event {
        ChainEvent::SubspaceAccepted { subspace_dao, dao } => Some((hex_text(subspace_dao@), hex_text(l.address@), added_text(), hex_text(dao@))),
        _ => None,
    }
}

/// The records of this kind that the logs give, in log order.
pub open spec fn subspaces_added_of(logs: Seq<LogEntry>) -> Seq<<SubspaceAdded as View>::V> {
    collect(logs, |l: LogEntry| subspace_added_of(l))
}

/// Subspaces accepted into a space's hierarchy.
pub fn map_subspaces_added(block: &Block) -> (r: SubspacesAdded)
    ensures
        r@ == subspaces_added_of(block.logs@),
{
    let mut subspaces: Vec<SubspaceAdded> = Vec::new();
    let mut i: usize = 0;
    while i < block.logs.len()
        invariant
            i <= block.logs.len(),
            subspaces@.map_values(|r: SubspaceAdded| r@) == subspaces_added_of(block.logs@.subrange(0, i as int)),
        decreases block.logs.len() - i,
    {
        let log = &block.logs[i];
        proof {
            lemma_collect_step(block.logs@, i as int, |l: LogEntry| subspace_added_of(l));
        }
        if let ChainEvent::SubspaceAccepted { subspace_dao, dao } = &log.event {
            let record = SubspaceAdded {
                subspace: format_hex(subspace_dao),
                plugin_address: format_hex(&log.address),
                change_type: added_string(),
                dao_address: format_hex(dao),
            };
            let ghost before = subspaces@;
            subspaces.push(record);
            proof {
                assert(subspaces@.map_values(|r: SubspaceAdded| r@) =~= before.map_values(|r: SubspaceAdded| r@).push(record@));
            }
        }
        i += 1;
    }
    proof {
        assert(block.logs@.subrange(0, block.logs.len() as int) =~= block.logs@);
    }
    SubspacesAdded { subspaces }
}

/// The record of a log that decoded to `SubspaceRemoved`; `None` for any other log.
pub open spec fn subspace_removed_of(l: LogEntry) -> Option<<SubspaceRemoved as View>::V> {
    match l.event {
        ChainEvent::SubspaceRemoved { subspace_dao, dao } => Some((hex_text(subspace_dao@), hex_text(l.address@), removed_text(), hex_text(dao@))),
        _ => None,
    }
}

/// The records of this kind that the logs give, in log order.
pub open spec fn subspaces_removed_of(logs: Seq<LogEntry>) -> Seq<<SubspaceRemoved as View>::V> {
    collect(logs, |l: LogEntry| subspace_removed_of(l))
}

/// Subspaces removed from a space's hierarchy.
pub fn map_subspaces_removed(block: &Block) -> (r: SubspacesRemoved)
    ensures
        r@ == subspaces_removed_of(block.logs@),
{
    let mut subspaces: Vec<SubspaceRemoved> = Vec::new();
    let mut i: usize = 0;
    while i < block.logs.len()
        invariant
            i <= block.logs.len(),
            subspaces@.map_values(|r: SubspaceRemoved| r@) == subspaces_removed_of(block.logs@.subrange(0, i as int)),
        decreases block.logs.len() - i,
    {
        let log = &block.logs[i];
        proof {
            lemma_collect_step(block.logs@, i as int, |l: LogEntry| subspace_removed_of(l));
        }
        if let ChainEvent::SubspaceRemoved { subspace_dao, dao } = &log.event {
            let record = SubspaceRemoved {
                subspace: format_hex(subspace_dao),
                plugin_address: format_hex(&log.address),
                change_type: removed_string(),
                dao_address: format_hex(dao),
            };
            let ghost before = subspaces@;
            subspaces.push(record);
            proof {
                assert(subspaces@.map_values(|r: SubspaceRemoved| r@) =~= before.map_values(|r: SubspaceRemoved| r@).push(record@));
            }
        }
        i += 1;
    }
    proof {
        assert(block.logs@.subrange(0, block.logs.len() as int) =~= block.logs@);
    }
    SubspacesRemoved { subspaces }
}

/// The record of a log that decoded to `GovernancePluginsCreated`; `None` for any other log.
pub open spec fn governance_plugin_of(l: LogEntry) -> Option<<GeoGovernancePluginCreated as View>::V> {
    match l.event {
        ChainEvent::GovernancePluginsCreated { dao, main_voting_plugin, member_access_plugin } => Some((hex_text(dao@), hex_text(main_voting_plugin@), hex_text(member_access_plugin@))),
        _ => None,
    }
}

/// The records of this kind that the logs give, in log order.
pub open spec fn governance_plugins_of(logs: Seq<LogEntry>) -> Seq<<GeoGovernancePluginCreated as View>::V> {
    collect(logs, |l: LogEntry| governance_plugin_of(l))
}

/// Governance plugin pairs created for DAOs.
pub fn map_governance_plugins_created(block: &Block) -> (r: GeoGovernancePluginsCreated)
    ensures
        r@ == governance_plugins_of(block.logs@),
{
    let mut plugins: Vec<GeoGovernancePluginCreated> = Vec::new();
    let mut i: usize = 0;
    while i < block.logs.len()
        invariant
            i <= block.logs.len(),
            plugins@.map_values(|r: GeoGovernancePluginCreated| r@) == governance_plugins_of(block.logs@.subrange(0, i as int)),
        decreases block.logs.len() - i,
    {
        let log = &block.logs[i];
        proof {
            lemma_collect_step(block.logs@, i as int, |l: LogEntry| governance_plugin_of(l));
        }
        if let ChainEvent::GovernancePluginsCreated { dao, main_voting_plugin, member_access_plugin } = &log.event {
            let record = GeoGovernancePluginCreated {
                dao_address: format_hex(dao),
                main_voting_address: format_hex(main_voting_plugin),
                member_access_address: format_hex(member_access_plugin),
            };
            let ghost before = plugins@;
            plugins.push(record);
            proof {
                assert(plugins@.map_values(|r: GeoGovernancePluginCreated| r@) =~= before.map_values(|r: GeoGovernancePluginCreated| r@).push(record@));
            }
        }
        i += 1;
    }
    proof {
        assert(block.logs@.subrange(0, block.logs.len() as int) =~= block.logs@);
    }
    GeoGovernancePluginsCreated { plugins }
}

/// The record of a log that decoded to `PersonalAdminPluginCreated`; `None` for any other log.
pub open spec fn personal_admin_plugin_of(l: LogEntry) -> Option<<GeoPersonalSpaceAdminPluginCreated as View>::V> {
    match l.event {
        ChainEvent::PersonalAdminPluginCreated { dao, personal_admin_plugin, initial_editor } => Some((hex_text(dao@), hex_text(personal_admin_plugin@), hex_text(initial_editor@))),
        _ => None,
    }
}

/// The records of this kind that the logs give, in log order.
pub open spec fn personal_admin_plugins_of(logs: Seq<LogEntry>) -> Seq<<GeoPersonalSpaceAdminPluginCreated as View>::V> {
    collect(logs, |l: LogEntry| personal_admin_plugin_of(l))
}

/// Personal-space admin plugins created for DAOs.
pub fn map_personal_admin_plugins_created(block: &Block) -> (r: GeoPersonalSpaceAdminPluginsCreated)
    ensures
        r@ == personal_admin_plugins_of(block.logs@),
{
    let mut plugins: Vec<GeoPersonalSpaceAdminPluginCreated> = Vec::new();
    let mut i: usize = 0;
    while i < block.logs.len()
        invariant
            i <= block.logs.len(),
            plugins@.map_values(|r: GeoPersonalSpaceAdminPluginCreated| r@) == personal_admin_plugins_of(block.logs@.subrange(0, i as int)),
        decreases block.logs.len() - i,
    {
        let log = &block.logs[i];
        proof {
            lemma_collect_step(block.logs@, i as int, |l: LogEntry| personal_admin_plugin_of(l));
        }
        if let ChainEvent::PersonalAdminPluginCreated { dao, personal_admin_plugin, initial_editor } = &log.event {
            let record = GeoPersonalSpaceAdminPluginCreated {
                dao_address: format_hex(dao),
                personal_admin_address: format_hex(personal_admin_plugin),
                initial_editor: format_hex(initial_editor),
            };
            let ghost before = plugins@;
            plugins.push(record);
            proof {
                assert(plugins@.map_values(|r: GeoPersonalSpaceAdminPluginCreated| r@) =~= before.map_values(|r: GeoPersonalSpaceAdminPluginCreated| r@).push(record@));
            }
        }
        i += 1;
    }
    proof {
        assert(block.logs@.subrange(0, block.logs.len() as int) =~= block.logs@);
    }
    GeoPersonalSpaceAdminPluginsCreated { plugins }
}

/// The record of a log that decoded to `EditorsAdded`; `None` for any other log.
pub open spec fn initial_editor_list_of(l: LogEntry) -> Option<<InitialEditorAdded as View>::V> {
    match l.event {
        ChainEvent::EditorsAdded { dao, editors } => Some((hex_texts(editors@), hex_text(l.address@), hex_text(dao@))),
        _ => None,
    }
}

/// The records of this kind that the logs give, in log order.
pub open spec fn initial_editors_added_of(logs: Seq<LogEntry>) -> Seq<<InitialEditorAdded as View>::V> {
    collect(logs, |l: LogEntry| initial_editor_list_of(l))
}

/// Editors a governance plugin starts with, each list formatted element-wise in its order.
pub fn map_initial_editors_added(block: &Block) -> (r: InitialEditorsAdded)
    ensures
        r@ == initial_editors_added_of(block.logs@),
{
    let mut editors: Vec<InitialEditorAdded> = Vec::new();
    let mut i: usize = 0;
    while i < block.logs.len()
        invariant
            i <= block.logs.len(),
            editors@.map_values(|r: InitialEditorAdded| r@) == initial_editors_added_of(block.logs@.subrange(0, i as int)),
        decreases block.logs.len() - i,
    {
        let log = &block.logs[i];
        proof {
            lemma_collect_step(block.logs@, i as int, |l: LogEntry| initial_editor_list_of(l));
        }
        if let ChainEvent::EditorsAdded { dao, editors: listed } = &log.event {
            let record = InitialEditorAdded {
                addresses: format_hex_all(listed),
                plugin_address: format_hex(&log.address),
                dao_address: format_hex(dao),
            };
            let ghost before = editors@;
            editors.push(record);
            proof {
                assert(editors@.map_values(|r: InitialEditorAdded| r@) =~= before.map_values(|r: InitialEditorAdded| r@).push(record@));
            }
        }
        i += 1;
    }
    proof {
        assert(block.logs@.subrange(0, block.logs.len() as int) =~= block.logs@);
    }
    InitialEditorsAdded { editors }
}

/// The record of a log that decoded to `MemberAdded`; `None` for any other log.
pub open spec fn member_added_of(l: LogEntry) -> Option<<MemberAdded as View>::V> {
    match l.event {
        ChainEvent::MemberAdded { dao, member } => Some((hex_text(member@), hex_text(l.address@), added_text(), hex_text(dao@))),
        _ => None,
    }
}

/// The records of this kind that the logs give, in log order.
pub open spec fn members_added_of(logs: Seq<LogEntry>) -> Seq<<MemberAdded as View>::V> {
    collect(logs, |l: LogEntry| member_added_of(l))
}

/// Members added to spaces.
pub fn map_members_added(block: &Block) -> (r: MembersAdded)
    ensures
        r@ == members_added_of(block.logs@),
{
    let mut members: Vec<MemberAdded> = Vec::new();
    let mut i: usize = 0;
    while i < block.logs.len()
        invariant
            i <= block.logs.len(),
            members@.map_values(|r: MemberAdded| r@) == members_added_of(block.logs@.subrange(0, i as int)),
        decreases block.logs.len() - i,
    {
        let log = &block.logs[i];
        proof {
            lemma_collect_step(block.logs@, i as int, |l: LogEntry| member_added_of(l));
        }
        if let ChainEvent::MemberAdded { dao, member } = &log.event {
            let record = MemberAdded {
                member_address: format_hex(member),
                main_voting_plugin_address: format_hex(&log.address),
                change_type: added_string(),
                dao_address: format_hex(dao),
            };
            let ghost before = members@;
            members.push(record);
            proof {
                assert(members@.map_values(|r: MemberAdded| r@) =~= before.map_values(|r: MemberAdded| r@).push(record@));
            }
        }
        i += 1;
    }
    proof {
        assert(block.logs@.subrange(0, block.logs.len() as int) =~= block.logs@);
    }
    MembersAdded { members }
}

/// The record of a log that decoded to `MemberRemoved`; `None` for any other log.
pub open spec fn member_removed_of(l: LogEntry) -> Option<<MemberRemoved as View>::V> {
    match l.event {
        ChainEvent::MemberRemoved { dao, member } => Some((hex_text(member@), hex_text(l.address@), removed_text(), hex_text(dao@))),
        _ => None,
    }
}

/// The records of this kind that the logs give, in log order.
pub open spec fn members_removed_of(logs: Seq<LogEntry>) -> Seq<<MemberRemoved as View>::V> {
    collect(logs, |l: LogEntry| member_removed_of(l))
}

/// Members removed from spaces.
pub fn map_members_removed(block: &Block) -> (r: MembersRemoved)
    ensures
        r@ == members_removed_of(block.logs@),
{
    let mut members: Vec<MemberRemoved> = Vec::new();
    let mut i: usize = 0;
    while i < block.logs.len()
        invariant
            i <= block.logs.len(),
            members@.map_values(|r: MemberRemoved| r@) == members_removed_of(block.logs@.subrange(0, i as int)),
        decreases block.logs.len() - i,
    {
        let log = &block.logs[i];
        proof {
            lemma_collect_step(block.logs@, i as int, |l: LogEntry| member_removed_of(l));
        }
        if let ChainEvent::MemberRemoved { dao, member } = &log.event {
            let record = MemberRemoved {
                member_address: format_hex(member),
                plugin_address: format_hex(&log.address),
                change_type: removed_string(),
                dao_address: format_hex(dao),
            };
            let ghost before = members@;
            members.push(record);
            proof {
                assert(members@.map_values(|r: MemberRemoved| r@) =~= before.map_values(|r: MemberRemoved| r@).push(record@));
            }
        }
        i += 1;
    }
    proof {
        assert(block.logs@.subrange(0, block.logs.len() as int) =~= block.logs@);
    }
    MembersRemoved { members }
}

/// The record of a log that decoded to `EditorAdded`; `None` for any other log.
pub open spec fn editor_added_of(l: LogEntry) -> Option<<EditorAdded as View>::V> {
    match l.event {
        ChainEvent::EditorAdded { dao, editor } => Some((hex_text(editor@), hex_text(l.address@), added_text(), hex_text(dao@))),
        _ => None,
    }
}

/// The records of this kind that the logs give, in log order.
pub open spec fn editors_added_of(logs: Seq<LogEntry>) -> Seq<<EditorAdded as View>::V> {
    collect(logs, |l: LogEntry| editor_added_of(l))
}

/// Editors added to spaces.
pub fn map_editors_added(block: &Block) -> (r: EditorsAdded)
    ensures
        r@ == editors_added_of(block.logs@),
{
    let mut editors: Vec<EditorAdded> = Vec::new();
    let mut i: usize = 0;
    while i < block.logs.len()
        invariant
            i <= block.logs.len(),
            editors@.map_values(|r: EditorAdded| r@) == editors_added_of(block.logs@.subrange(0, i as int)),
        decreases block.logs.len() - i,
    {
        let log = &block.logs[i];
        proof {
            lemma_collect_step(block.logs@, i as int, |l: LogEntry| editor_added_of(l));
        }
        if let ChainEvent::EditorAdded { dao, editor } = &log.event {
            let record = EditorAdded {
                editor_address: format_hex(editor),
                main_voting_plugin_address: format_hex(&log.address),
                change_type: added_string(),
                dao_address: format_hex(dao),
            };
            let ghost before = editors@;
            editors.push(record);
            proof {
                assert(editors@.map_values(|r: EditorAdded| r@) =~= before.map_values(|r: EditorAdded| r@).push(record@));
            }
        }
        i += 1;
    }
    proof {
        assert(block.logs@.subrange(0, block.logs.len() as int) =~= block.logs@);
    }
    EditorsAdded { editors }
}

/// The record of a log that decoded to `EditorRemoved`; `None` for any other log.
pub open spec fn editor_removed_of(l: LogEntry) -> Option<<EditorRemoved as View>::V> {
    match l.event {
        ChainEvent::EditorRemoved { dao, editor } => Some((hex_text(editor@), hex_text(l.address@), removed_text(), hex_text(dao@))),
        _ => None,
    }
}

/// The records of this kind that the logs give, in log order.
pub open spec fn editors_removed_of(logs: Seq<LogEntry>) -> Seq<<EditorRemoved as View>::V> {
    collect(logs, |l: LogEntry| editor_removed_of(l))
}

/// Editors removed from spaces.
pub fn map_editors_removed(block: &Block) -> (r: EditorsRemoved)
    ensures
        r@ == editors_removed_of(block.logs@),
{
    let mut editors: Vec<EditorRemoved> = Vec::new();
    let mut i: usize = 0;
    while i < block.logs.len()
        invariant
            i <= block.logs.len(),
            editors@.map_values(|r: EditorRemoved| r@) == editors_removed_of(block.logs@.subrange(0, i as int)),
        decreases block.logs.len() - i,
    {
        let log = &block.logs[i];
        proof {
            lemma_collect_step(block.logs@, i as int, |l: LogEntry| editor_removed_of(l));
        }
        if let ChainEvent::EditorRemoved { dao, editor } = &log.event {
            let record = EditorRemoved {
                editor_address: format_hex(editor),
                plugin_address: format_hex(&log.address),
                change_type: removed_string(),
                dao_address: format_hex(dao),
            };
            let ghost before = editors@;
            editors.push(record);
            proof {
                assert(editors@.map_values(|r: EditorRemoved| r@) =~= before.map_values(|r: EditorRemoved| r@).push(record@));
            }
        }
        i += 1;
    }
    proof {
        assert(block.logs@.subrange(0, block.logs.len() as int) =~= block.logs@);
    }
    EditorsRemoved { editors }
}

/// The record of a log that decoded to `ProposalExecuted`; `None` for any other log.
pub open spec fn proposal_executed_of(l: LogEntry) -> Option<<ProposalExecuted as View>::V> {
    match l.event {
        ChainEvent::ProposalExecuted { proposal_id } => Some((decimal(be_value(proposal_id@)), hex_text(l.address@))),
        _ => None,
    }
}

/// The records of this kind that the logs give, in log order.
pub open spec fn proposals_executed_of(logs: Seq<LogEntry>) -> Seq<<ProposalExecuted as View>::V> {
    collect(logs, |l: LogEntry| proposal_executed_of(l))
}

/// Proposals executed by voting plugins.
pub fn map_proposals_executed(block: &Block) -> (r: ProposalsExecuted)
    ensures
        r@ == proposals_executed_of(block.logs@),
{
    let mut executed_proposals: Vec<ProposalExecuted> = Vec::new();
    let mut i: usize = 0;
    while i < block.logs.len()
        invariant
            i <= block.logs.len(),
            executed_proposals@.map_values(|r: ProposalExecuted| r@) == proposals_executed_of(block.logs@.subrange(0, i as int)),
        decreases block.logs.len() - i,
    {
        let log = &block.logs[i];
        proof {
            lemma_collect_step(block.logs@, i as int, |l: LogEntry| proposal_executed_of(l));
        }
        if let ChainEvent::ProposalExecuted { proposal_id } = &log.event {
            let record = ProposalExecuted {
                proposal_id: be_decimal_string(proposal_id),
                plugin_address: format_hex(&log.address),
            };
            let ghost before = executed_proposals@;
            executed_proposals.push(record);
            proof {
                assert(executed_proposals@.map_values(|r: ProposalExecuted| r@) =~= before.map_values(|r: ProposalExecuted| r@).push(record@));
            }
        }
        i += 1;
    }
    proof {
        assert(block.logs@.subrange(0, block.logs.len() as int) =~= block.logs@);
    }
    ProposalsExecuted { executed_proposals }
}

/// The record of a log that decoded to `EditsPublished`; `None` for any other log.
pub open spec fn edit_published_of(l: LogEntry) -> Option<<EditPublished as View>::V> {
    match l.event {
        ChainEvent::EditsPublished { content_uri, dao } => Some((content_uri@, hex_text(l.address@), hex_text(dao@))),
        _ => None,
    }
}

/// The records of this kind that the logs give, in log order.
pub open spec fn edits_published_of(logs: Seq<LogEntry>) -> Seq<<EditPublished as View>::V> {
    collect(logs, |l: LogEntry| edit_published_of(l))
}

/// Content published by space plugins.
pub fn map_edits_published(block: &Block) -> (r: EditsPublished)
    ensures
        r@ == edits_published_of(block.logs@),
{
    let mut edits: Vec<EditPublished> = Vec::new();
    let mut i: usize = 0;
    while i < block.logs.len()
        invariant
            i <= block.logs.len(),
            edits@.map_values(|r: EditPublished| r@) == edits_published_of(block.logs@.subrange(0, i as int)),
        decreases block.logs.len() - i,
    {
        let log = &block.logs[i];
        proof {
            lemma_collect_step(block.logs@, i as int, |l: LogEntry| edit_published_of(l));
        }
        if let ChainEvent::EditsPublished { content_uri, dao } = &log.event {
            let record = EditPublished {
                content_uri: content_uri.clone(),
                plugin_address: format_hex(&log.address),
                dao_address: format_hex(dao),
            };
            let ghost before = edits@;
            edits.push(record);
            proof {
                assert(edits@.map_values(|r: EditPublished| r@) =~= before.map_values(|r: EditPublished| r@).push(record@));
            }
        }
        i += 1;
    }
    proof {
        assert(block.logs@.subrange(0, block.logs.len() as int) =~= block.logs@);
    }
    EditsPublished { edits }
}

/// The record of a log that decoded to `VoteCast`; `None` for any other log.
pub open spec fn vote_of(l: LogEntry) -> Option<<VoteCast as View>::V> {
    match l.event {
        ChainEvent::VoteCast { proposal_id, voter, vote_option } => Some((decimal(be_value(proposal_id@)), hex_text(voter@), vote_option, hex_text(l.address@))),
        _ => None,
    }
}

/// The records of this kind that the logs give, in log order.
pub open spec fn votes_of(logs: Seq<LogEntry>) -> Seq<<VoteCast as View>::V> {
    collect(logs, |l: LogEntry| vote_of(l))
}

/// Votes cast on proposals; the vote option stays an integer.
pub fn map_votes_cast(block: &Block) -> (r: VotesCast)
    ensures
        r@ == votes_of(block.logs@),
{
    let mut votes: Vec<VoteCast> = Vec::new();
    let mut i: usize = 0;
    while i < block.logs.len()
        invariant
            i <= block.logs.len(),
            votes@.map_values(|r: VoteCast| r@) == votes_of(block.logs@.subrange(0, i as int)),
        decreases block.logs.len() - i,
    {
        let log = &block.logs[i];
        proof {
            lemma_collect_step(block.logs@, i as int, |l: LogEntry| vote_of(l));
        }
        if let ChainEvent::VoteCast { proposal_id, voter, vote_option } = &log.event {
            let record = VoteCast {
                onchain_proposal_id: be_decimal_string(proposal_id),
                voter: format_hex(voter),
                vote_option: *vote_option,
                plugin_address: format_hex(&log.address),
            };
            let ghost before = votes@;
            votes.push(record);
            proof {
                assert(votes@.map_values(|r: VoteCast| r@) =~= before.map_values(|r: VoteCast| r@).push(record@));
            }
        }
        i += 1;
    }
    proof {
        assert(block.logs@.subrange(0, block.logs.len() as int) =~= block.logs@);
    }
    VotesCast { votes }
}

/// The record of a log that decoded to `PublishEditsProposalCreated`; `None` for any other log.
pub open spec fn edit_proposal_of(l: LogEntry) -> Option<<PublishEditProposalCreated as View>::V> {
    match l.event {
        ChainEvent::PublishEditsProposalCreated { proposal_id, creator, start_date, end_date, content_uri, dao } => Some((decimal(be_value(proposal_id@)), hex_text(creator@), decimal(be_value(start_date@)), decimal(be_value(end_date@)), content_uri@, hex_text(dao@), hex_text(l.address@))),
        _ => None,
    }
}

/// The records of this kind that the logs give, in log order.
pub open spec fn edit_proposals_of(logs: Seq<LogEntry>) -> Seq<<PublishEditProposalCreated as View>::V> {
    collect(logs, |l: LogEntry| edit_proposal_of(l))
}

/// Proposals to publish content.
pub fn map_publish_edits_proposals_created(block: &Block) -> (r: PublishEditsProposalsCreated)
    ensures
        r@ == edit_proposals_of(block.logs@),
{
    let mut edits: Vec<PublishEditProposalCreated> = Vec::new();
    let mut i: usize = 0;
    while i < block.logs.len()
        invariant
            i <= block.logs.len(),
            edits@.map_values(|r: PublishEditProposalCreated| r@) == edit_proposals_of(block.logs@.subrange(0, i as int)),
        decreases block.logs.len() - i,
    {
        let log = &block.logs[i];
        proof {
            lemma_collect_step(block.logs@, i as int, |l: LogEntry| edit_proposal_of(l));
        }
        if let ChainEvent::PublishEditsProposalCreated { proposal_id, creator, start_date, end_date, content_uri, dao } = &log.event {
            let record = PublishEditProposalCreated {
                proposal_id: be_decimal_string(proposal_id),
                creator: format_hex(creator),
                start_time: be_decimal_string(start_date),
                end_time: be_decimal_string(end_date),
                content_uri: content_uri.clone(),
                dao_address: format_hex(dao),
                plugin_address: format_hex(&log.address),
            };
            let ghost before = edits@;
            edits.push(record);
            proof {
                assert(edits@.map_values(|r: PublishEditProposalCreated| r@) =~= before.map_values(|r: PublishEditProposalCreated| r@).push(record@));
            }
        }
        i += 1;
    }
    proof {
        assert(block.logs@.subrange(0, block.logs.len() as int) =~= block.logs@);
    }
    PublishEditsProposalsCreated { edits }
}

} // verus!
