//! Assembly of the extractors' lists into the per-block output envelope.

use vstd::prelude::*;
use crate::block::{Block, LogEntry};
use crate::extract::{
    map_editors_added, map_editors_removed, map_edits_published, map_governance_plugins_created, map_initial_editors_added, map_members_added, map_members_removed, map_personal_admin_plugins_created, map_proposals_executed, map_publish_edits_proposals_created, map_spaces_created, map_subspaces_added, map_subspaces_removed, map_successor_spaces_created, map_votes_cast, edit_proposals_of, edits_published_of, editors_added_of, editors_removed_of, governance_plugins_of, initial_editors_added_of, members_added_of, members_removed_of, personal_admin_plugins_of, proposals_executed_of, spaces_created_of, subspaces_added_of, subspaces_removed_of, successor_spaces_of, votes_of,
};
use crate::schema::{
    AddEditorProposalCreated, AddMemberProposalCreated, AddSubspaceProposalCreated, RemoveEditorProposalCreated, RemoveMemberProposalCreated, RemoveSubspaceProposalCreated, EditorsAdded, EditorsRemoved, EditsPublished, GeoGovernancePluginsCreated, GeoOutput, GeoOutputView, GeoPersonalSpaceAdminPluginsCreated, GeoSpacesCreated, InitialEditorsAdded, MembersAdded, MembersRemoved, ProposalsExecuted, PublishEditsProposalsCreated, SubspacesAdded, SubspacesRemoved, SuccessorSpacesCreated, VotesCast,
};

verus! {

/// The output envelope holding each list unchanged, in its own order; the
/// proposal lists that no extractor fills are empty.
pub fn geo_out(
    spaces_created: GeoSpacesCreated,
    governance_plugins_created: GeoGovernancePluginsCreated,
    initial_editors_added: InitialEditorsAdded,
    votes_cast: VotesCast,
    edits_published: EditsPublished,
    successor_spaces_created: SuccessorSpacesCreated,
    subspaces_added: SubspacesAdded,
    subspaces_removed: SubspacesRemoved,
    proposals_executed: ProposalsExecuted,
    members_added: MembersAdded,
    editors_added: EditorsAdded,
    personal_admin_plugins_created: GeoPersonalSpaceAdminPluginsCreated,
    members_removed: MembersRemoved,
    editors_removed: EditorsRemoved,
    edit_proposals: PublishEditsProposalsCreated,
) -> (r: GeoOutput)
    ensures
        r@ == (GeoOutputView {
            spaces_created: spaces_created@,
            governance_plugins_created: governance_plugins_created@,
            initial_editors_added: initial_editors_added@,
            votes_cast: votes_cast@,
            edits_published: edits_published@,
            successor_spaces_created: successor_spaces_created@,
            subspaces_added: subspaces_added@,
            subspaces_removed: subspaces_removed@,
            executed_proposals: proposals_executed@,
            members_added: members_added@,
            editors_added: editors_added@,
            personal_plugins_created: personal_admin_plugins_created@,
            members_removed: members_removed@,
            editors_removed: editors_removed@,
            edits: edit_proposals@,
            proposed_added_members: Seq::empty(),
            proposed_removed_members: Seq::empty(),
            proposed_added_editors: Seq::empty(),
            proposed_removed_editors: Seq::empty(),
            proposed_added_subspaces: Seq::empty(),
            proposed_removed_subspaces: Seq::empty(),
        }),
{
    let out = GeoOutput {
        spaces_created: spaces_created.spaces,
        governance_plugins_created: governance_plugins_created.plugins,
        initial_editors_added: initial_editors_added.editors,
        votes_cast: votes_cast.votes,
        edits_published: edits_published.edits,
        successor_spaces_created: successor_spaces_created.spaces,
        subspaces_added: subspaces_added.subspaces,
        subspaces_removed: subspaces_removed.subspaces,
        executed_proposals: proposals_executed.executed_proposals,
        members_added: members_added.members,
        editors_added: editors_added.editors,
        personal_plugins_created: personal_admin_plugins_created.plugins,
        members_removed: members_removed.members,
        editors_removed: editors_removed.editors,
        edits: edit_proposals.edits,
        proposed_added_members: Vec::new(),
        proposed_removed_members: Vec::new(),
        proposed_added_editors: Vec::new(),
        proposed_removed_editors: Vec::new(),
        proposed_added_subspaces: Vec::new(),
        proposed_removed_subspaces: Vec::new(),
    };
    proof {
        assert(out.proposed_added_members@.map_values(|r: AddMemberProposalCreated| r@) =~= Seq::empty());
        assert(out.proposed_removed_members@.map_values(|r: RemoveMemberProposalCreated| r@) =~= Seq::empty());
        assert(out.proposed_added_editors@.map_values(|r: AddEditorProposalCreated| r@) =~= Seq::empty());
        assert(out.proposed_removed_editors@.map_values(|r: RemoveEditorProposalCreated| r@) =~= Seq::empty());
        assert(out.proposed_added_subspaces@.map_values(|r: AddSubspaceProposalCreated| r@) =~= Seq::empty());
        assert(out.proposed_removed_subspaces@.map_values(|r: RemoveSubspaceProposalCreated| r@) =~= Seq::empty());
    }
    out
}

/// What the output envelope of a block with these logs holds.
pub open spec fn geo_output_of(logs: Seq<LogEntry>) -> GeoOutputView {
    GeoOutputView {
        spaces_created: spaces_created_of(logs),
        governance_plugins_created: governance_plugins_of(logs),
        initial_editors_added: initial_editors_added_of(logs),
        votes_cast: votes_of(logs),
        edits_published: edits_published_of(logs),
        successor_spaces_created: successor_spaces_of(logs),
        subspaces_added: subspaces_added_of(logs),
        subspaces_removed: subspaces_removed_of(logs),
        executed_proposals: proposals_executed_of(logs),
        members_added: members_added_of(logs),
        editors_added: editors_added_of(logs),
        personal_plugins_created: personal_admin_plugins_of(logs),
        members_removed: members_removed_of(logs),
        editors_removed: editors_removed_of(logs),
        edits: edit_proposals_of(logs),
        proposed_added_members: Seq::empty(),
        proposed_removed_members: Seq::empty(),
        proposed_added_editors: Seq::empty(),
        proposed_removed_editors: Seq::empty(),
        proposed_added_subspaces: Seq::empty(),
        proposed_removed_subspaces: Seq::empty(),
    }
}

/// Runs every extractor on the block and assembles their lists.
pub fn block_output(block: &Block) -> (r: GeoOutput)
    ensures
        r@ == geo_output_of(block.logs@),
{
    geo_out(
        map_spaces_created(block),
        map_governance_plugins_created(block),
        map_initial_editors_added(block),
        map_votes_cast(block),
        map_edits_published(block),
        map_successor_spaces_created(block),
        map_subspaces_added(block),
        map_subspaces_removed(block),
        map_proposals_executed(block),
        map_members_added(block),
        map_editors_added(block),
        map_personal_admin_plugins_created(block),
        map_members_removed(block),
        map_editors_removed(block),
        map_publish_edits_proposals_created(block),
    )
}

/// Determinism: two runs over the same block produce the same output, record
/// for record and character for character.
pub proof fn lemma_block_output_deterministic(first_run: GeoOutput, second_run: GeoOutput, block: Block)
    requires
        first_run@ == geo_output_of(block.logs@),
        second_run@ == geo_output_of(block.logs@),
    ensures
        first_run@ == second_run@,
{
}

} // verus!
