//! The output records of the extractors and the per-block output envelope.

use vstd::prelude::*;

verus! {

/// A space created as the continuation of a predecessor space.
#[derive(Clone, Debug, PartialEq, Eq)]
pub struct SuccessorSpaceCreated {
    pub predecessor_space: String,
    pub plugin_address: String,
    pub dao_address: String,
}

impl View for SuccessorSpaceCreated {
    type V = (Seq<char>, Seq<char>, Seq<char>);

    open spec fn view(&self) -> Self::V {
        (self.predecessor_space@, self.plugin_address@, self.dao_address@)
    }
}

/// A space plugin created for a DAO.
#[derive(Clone, Debug, PartialEq, Eq)]
pub struct GeoSpaceCreated {
    pub dao_address: String,
    pub space_address: String,
}

impl View for GeoSpaceCreated {
    type V = (Seq<char>, Seq<char>);

    open spec fn view(&self) -> Self::V {
        (self.dao_address@, self.space_address@)
    }
}

/// The governance plugins (main voting and member access) created for a DAO.
#[derive(Clone, Debug, PartialEq, Eq)]
pub struct GeoGovernancePluginCreated {
    pub dao_address: String,
    pub main_voting_address: String,
    pub member_access_address: String,
}

impl View for GeoGovernancePluginCreated {
    type V = (Seq<char>, Seq<char>, Seq<char>);

    open spec fn view(&self) -> Self::V {
        (self.dao_address@, self.main_voting_address@, self.member_access_address@)
    }
}

/// A personal-space admin plugin created for a DAO, with its first editor.
#[derive(Clone, Debug, PartialEq, Eq)]
pub struct GeoPersonalSpaceAdminPluginCreated {
    pub dao_address: String,
    pub personal_admin_address: String,
    pub initial_editor: String,
}

impl View for GeoPersonalSpaceAdminPluginCreated {
    type V = (Seq<char>, Seq<char>, Seq<char>);

    open spec fn view(&self) -> Self::V {
        (self.dao_address@, self.personal_admin_address@, self.initial_editor@)
    }
}

/// The editors a governance plugin starts with, in the order the event lists them.
#[derive(Clone, Debug, PartialEq, Eq)]
pub struct InitialEditorAdded {
    pub addresses: Vec<String>,
    pub plugin_address: String,
    pub dao_address: String,
}

impl View for InitialEditorAdded {
    type V = (Seq<Seq<char>>, Seq<char>, Seq<char>);

    open spec fn view(&self) -> Self::V {
        (self.addresses@.map_values(|a: String| a@), self.plugin_address@, self.dao_address@)
    }
}

/// A proposal executed by a main voting plugin; the proposal id is scoped to the plugin.
#[derive(Clone, Debug, PartialEq, Eq)]
pub struct ProposalExecuted {
    pub proposal_id: String,
    pub plugin_address: String,
}

impl View for ProposalExecuted {
    type V = (Seq<char>, Seq<char>);

    open spec fn view(&self) -> Self::V {
        (self.proposal_id@, self.plugin_address@)
    }
}

/// Content published by a space plugin.
#[derive(Clone, Debug, PartialEq, Eq)]
pub struct EditPublished {
    pub content_uri: String,
    pub plugin_address: String,
    pub dao_address: String,
}

impl View for EditPublished {
    type V = (Seq<char>, Seq<char>, Seq<char>);

    open spec fn view(&self) -> Self::V {
        (self.content_uri@, self.plugin_address@, self.dao_address@)
    }
}

/// A subspace linked into a space's hierarchy.
#[derive(Clone, Debug, PartialEq, Eq)]
pub struct SubspaceAdded {
    pub subspace: String,
    pub plugin_address: String,
    pub change_type: String,
    pub dao_address: String,
}

impl View for SubspaceAdded {
    type V = (Seq<char>, Seq<char>, Seq<char>, Seq<char>);

    open spec fn view(&self) -> Self::V {
        (self.subspace@, self.plugin_address@, self.change_type@, self.dao_address@)
    }
}

/// A subspace unlinked from a space's hierarchy.
#[derive(Clone, Debug, PartialEq, Eq)]
pub struct SubspaceRemoved {
    pub subspace: String,
    pub plugin_address: String,
    pub change_type: String,
    pub dao_address: String,
}

impl View for SubspaceRemoved {
    type V = (Seq<char>, Seq<char>, Seq<char>, Seq<char>);

    open spec fn view(&self) -> Self::V {
        (self.subspace@, self.plugin_address@, self.change_type@, self.dao_address@)
    }
}

/// A vote on a proposal of a voting plugin.
#[derive(Clone, Debug, PartialEq, Eq)]
pub struct VoteCast {
    pub onchain_proposal_id: String,
    pub voter: String,
    pub vote_option: u64,
    pub plugin_address: String,
}

impl View for VoteCast {
    type V = (Seq<char>, Seq<char>, u64, Seq<char>);

    open spec fn view(&self) -> Self::V {
        (self.onchain_proposal_id@, self.voter@, self.vote_option, self.plugin_address@)
    }
}

/// A member added to a space.
#[derive(Clone, Debug, PartialEq, Eq)]
pub struct MemberAdded {
    pub member_address: String,
    pub main_voting_plugin_address: String,
    pub change_type: String,
    pub dao_address: String,
}

impl View for MemberAdded {
    type V = (Seq<char>, Seq<char>, Seq<char>, Seq<char>);

    open spec fn view(&self) -> Self::V {
        (self.member_address@, self.main_voting_plugin_address@, self.change_type@, self.dao_address@)
    }
}

/// A member removed from a space.
#[derive(Clone, Debug, PartialEq, Eq)]
pub struct MemberRemoved {
    pub member_address: String,
    pub plugin_address: String,
    pub change_type: String,
    pub dao_address: String,
}

impl View for MemberRemoved {
    type V = (Seq<char>, Seq<char>, Seq<char>, Seq<char>);

    open spec fn view(&self) -> Self::V {
        (self.member_address@, self.plugin_address@, self.change_type@, self.dao_address@)
    }
}

/// An editor added to a space.
#[derive(Clone, Debug, PartialEq, Eq)]
pub struct EditorAdded {
    pub editor_address: String,
    pub main_voting_plugin_address: String,
    pub change_type: String,
    pub dao_address: String,
}

impl View for EditorAdded {
    type V = (Seq<char>, Seq<char>, Seq<char>, Seq<char>);

    open spec fn view(&self) -> Self::V {
        (self.editor_address@, self.main_voting_plugin_address@, self.change_type@, self.dao_address@)
    }
}

/// An editor removed from a space.
#[derive(Clone, Debug, PartialEq, Eq)]
pub struct EditorRemoved {
    pub editor_address: String,
    pub plugin_address: String,
    pub change_type: String,
    pub dao_address: String,
}

impl View for EditorRemoved {
    type V = (Seq<char>, Seq<char>, Seq<char>, Seq<char>);

    open spec fn view(&self) -> Self::V {
        (self.editor_address@, self.plugin_address@, self.change_type@, self.dao_address@)
    }
}

/// A proposal to publish content; ids and times are decimal text.
#[derive(Clone, Debug, PartialEq, Eq)]
pub struct PublishEditProposalCreated {
    pub proposal_id: String,
    pub creator: String,
    pub start_time: String,
    pub end_time: String,
    pub content_uri: String,
    pub dao_address: String,
    pub plugin_address: String,
}

impl View for PublishEditProposalCreated {
    type V = (Seq<char>, Seq<char>, Seq<char>, Seq<char>, Seq<char>, Seq<char>, Seq<char>);

    open spec fn view(&self) -> Self::V {
        (self.proposal_id@, self.creator@, self.start_time@, self.end_time@, self.content_uri@, self.dao_address@, self.plugin_address@)
    }
}

/// The SuccessorSpaceCreated records of one block, in log order.
#[derive(Clone, Debug, PartialEq, Eq)]
pub struct SuccessorSpacesCreated {
    pub spaces: Vec<SuccessorSpaceCreated>,
}

impl View for SuccessorSpacesCreated {
    type V = Seq<<SuccessorSpaceCreated as View>::V>;

    open spec fn view(&self) -> Self::V {
        self.spaces@.map_values(|r: SuccessorSpaceCreated| r@)
    }
}

/// The GeoSpaceCreated records of one block, in log order.
#[derive(Clone, Debug, PartialEq, Eq)]
pub struct GeoSpacesCreated {
    pub spaces: Vec<GeoSpaceCreated>,
}

impl View for GeoSpacesCreated {
    type V = Seq<<GeoSpaceCreated as View>::V>;

    open spec fn view(&self) -> Self::V {
        self.spaces@.map_values(|r: GeoSpaceCreated| r@)
    }
}

/// The GeoGovernancePluginCreated records of one block, in log order.
#[derive(Clone, Debug, PartialEq, Eq)]
pub struct GeoGovernancePluginsCreated {
    pub plugins: Vec<GeoGovernancePluginCreated>,
}

impl View for GeoGovernancePluginsCreated {
    type V = Seq<<GeoGovernancePluginCreated as View>::V>;

    open spec fn view(&self) -> Self::V {
        self.plugins@.map_values(|r: GeoGovernancePluginCreated| r@)
    }
}

/// The GeoPersonalSpaceAdminPluginCreated records of one block, in log order.
#[derive(Clone, Debug, PartialEq, Eq)]
pub struct GeoPersonalSpaceAdminPluginsCreated {
    pub plugins: Vec<GeoPersonalSpaceAdminPluginCreated>,
}

impl View for GeoPersonalSpaceAdminPluginsCreated {
    type V = Seq<<GeoPersonalSpaceAdminPluginCreated as View>::V>;

    open spec fn view(&self) -> Self::V {
        self.plugins@.map_values(|r: GeoPersonalSpaceAdminPluginCreated| r@)
    }
}

/// The InitialEditorAdded records of one block, in log order.
#[derive(Clone, Debug, PartialEq, Eq)]
pub struct InitialEditorsAdded {
    pub editors: Vec<InitialEditorAdded>,
}

impl View for InitialEditorsAdded {
    type V = Seq<<InitialEditorAdded as View>::V>;

    open spec fn view(&self) -> Self::V {
        self.editors@.map_values(|r: InitialEditorAdded| r@)
    }
}

/// The ProposalExecuted records of one block, in log order.
#[derive(Clone, Debug, PartialEq, Eq)]
pub struct ProposalsExecuted {
    pub executed_proposals: Vec<ProposalExecuted>,
}

impl View for ProposalsExecuted {
    type V = Seq<<ProposalExecuted as View>::V>;

    open spec fn view(&self) -> Self::V {
        self.executed_proposals@.map_values(|r: ProposalExecuted| r@)
    }
}

/// The EditPublished records of one block, in log order.
#[derive(Clone, Debug, PartialEq, Eq)]
pub struct EditsPublished {
    pub edits: Vec<EditPublished>,
}

impl View for EditsPublished {
    type V = Seq<<EditPublished as View>::V>;

    open spec fn view(&self) -> Self::V {
        self.edits@.map_values(|r: EditPublished| r@)
    }
}

/// The SubspaceAdded records of one block, in log order.
#[derive(Clone, Debug, PartialEq, Eq)]
pub struct SubspacesAdded {
    pub subspaces: Vec<SubspaceAdded>,
}

impl View for SubspacesAdded {
    type V = Seq<<SubspaceAdded as View>::V>;

    open spec fn view(&self) -> Self::V {
        self.subspaces@.map_values(|r: SubspaceAdded| r@)
    }
}

/// The SubspaceRemoved records of one block, in log order.
#[derive(Clone, Debug, PartialEq, Eq)]
pub struct SubspacesRemoved {
    pub subspaces: Vec<SubspaceRemoved>,
}

impl View for SubspacesRemoved {
    type V = Seq<<SubspaceRemoved as View>::V>;

    open spec fn view(&self) -> Self::V {
        self.subspaces@.map_values(|r: SubspaceRemoved| r@)
    }
}

/// The VoteCast records of one block, in log order.
#[derive(Clone, Debug, PartialEq, Eq)]
pub struct VotesCast {
    pub votes: Vec<VoteCast>,
}

impl View for VotesCast {
    type V = Seq<<VoteCast as View>::V>;

    open spec fn view(&self) -> Self::V {
        self.votes@.map_values(|r: VoteCast| r@)
    }
}

/// The MemberAdded records of one block, in log order.
#[derive(Clone, Debug, PartialEq, Eq)]
pub struct MembersAdded {
    pub members: Vec<MemberAdded>,
}

impl View for MembersAdded {
    type V = Seq<<MemberAdded as View>::V>;

    open spec fn view(&self) -> Self::V {
        self.members@.map_values(|r: MemberAdded| r@)
    }
}

/// The MemberRemoved records of one block, in log order.
#[derive(Clone, Debug, PartialEq, Eq)]
pub struct MembersRemoved {
    pub members: Vec<MemberRemoved>,
}

impl View for MembersRemoved {
    type V = Seq<<MemberRemoved as View>::V>;

    open spec fn view(&self) -> Self::V {
        self.members@.map_values(|r: MemberRemoved| r@)
    }
}

/// The EditorAdded records of one block, in log order.
#[derive(Clone, Debug, PartialEq, Eq)]
pub struct EditorsAdded {
    pub editors: Vec<EditorAdded>,
}

impl View for EditorsAdded {
    type V = Seq<<EditorAdded as View>::V>;

    open spec fn view(&self) -> Self::V {
        self.editors@.map_values(|r: EditorAdded| r@)
    }
}

/// The EditorRemoved records of one block, in log order.
#[derive(Clone, Debug, PartialEq, Eq)]
pub struct EditorsRemoved {
    pub editors: Vec<EditorRemoved>,
}

impl View for EditorsRemoved {
    type V = Seq<<EditorRemoved as View>::V>;

    open spec fn view(&self) -> Self::V {
        self.editors@.map_values(|r: EditorRemoved| r@)
    }
}

/// The PublishEditProposalCreated records of one block, in log order.
#[derive(Clone, Debug, PartialEq, Eq)]
pub struct PublishEditsProposalsCreated {
    pub edits: Vec<PublishEditProposalCreated>,
}

impl View for PublishEditsProposalsCreated {
    type V = Seq<<PublishEditProposalCreated as View>::V>;

    open spec fn view(&self) -> Self::V {
        self.edits@.map_values(|r: PublishEditProposalCreated| r@)
    }
}

/// A governance proposal on the member of a space; ids and times are decimal text.
#[derive(Clone, Debug, PartialEq, Eq)]
pub struct AddMemberProposalCreated {
    pub proposal_id: String,
    pub creator: String,
    pub start_time: String,
    pub end_time: String,
    pub member: String,
    pub dao_address: String,
    pub plugin_address: String,
    pub change_type: String,
}

impl View for AddMemberProposalCreated {
    type V = (Seq<char>, Seq<char>, Seq<char>, Seq<char>, Seq<char>, Seq<char>, Seq<char>, Seq<char>);

    open spec fn view(&self) -> Self::V {
        (self.proposal_id@, self.creator@, self.start_time@, self.end_time@, self.member@, self.dao_address@, self.plugin_address@, self.change_type@)
    }
}

/// The proposals of this kind created in one block, in log order.
#[derive(Clone, Debug, PartialEq, Eq)]
pub struct AddMemberProposalsCreated {
    pub proposed_members: Vec<AddMemberProposalCreated>,
}

/// A governance proposal on the member of a space; ids and times are decimal text.
#[derive(Clone, Debug, PartialEq, Eq)]
pub struct RemoveMemberProposalCreated {
    pub proposal_id: String,
    pub creator: String,
    pub start_time: String,
    pub end_time: String,
    pub member: String,
    pub dao_address: String,
    pub plugin_address: String,
    pub change_type: String,
}

impl View for RemoveMemberProposalCreated {
    type V = (Seq<char>, Seq<char>, Seq<char>, Seq<char>, Seq<char>, Seq<char>, Seq<char>, Seq<char>);

    open spec fn view(&self) -> Self::V {
        (self.proposal_id@, self.creator@, self.start_time@, self.end_time@, self.member@, self.dao_address@, self.plugin_address@, self.change_type@)
    }
}

/// The proposals of this kind created in one block, in log order.
#[derive(Clone, Debug, PartialEq, Eq)]
pub struct RemoveMemberProposalsCreated {
    pub proposed_members: Vec<RemoveMemberProposalCreated>,
}

/// A governance proposal on the editor of a space; ids and times are decimal text.
#[derive(Clone, Debug, PartialEq, Eq)]
pub struct AddEditorProposalCreated {
    pub proposal_id: String,
    pub creator: String,
    pub start_time: String,
    pub end_time: String,
    pub editor: String,
    pub dao_address: String,
    pub plugin_address: String,
    pub change_type: String,
}

impl View for AddEditorProposalCreated {
    type V = (Seq<char>, Seq<char>, Seq<char>, Seq<char>, Seq<char>, Seq<char>, Seq<char>, Seq<char>);

    open spec fn view(&self) -> Self::V {
        (self.proposal_id@, self.creator@, self.start_time@, self.end_time@, self.editor@, self.dao_address@, self.plugin_address@, self.change_type@)
    }
}

/// The proposals of this kind created in one block, in log order.
#[derive(Clone, Debug, PartialEq, Eq)]
pub struct AddEditorProposalsCreated {
    pub proposed_editors: Vec<AddEditorProposalCreated>,
}

/// A governance proposal on the editor of a space; ids and times are decimal text.
#[derive(Clone, Debug, PartialEq, Eq)]
pub struct RemoveEditorProposalCreated {
    pub proposal_id: String,
    pub creator: String,
    pub start_time: String,
    pub end_time: String,
    pub editor: String,
    pub dao_address: String,
    pub plugin_address: String,
    pub change_type: String,
}

impl View for RemoveEditorProposalCreated {
    type V = (Seq<char>, Seq<char>, Seq<char>, Seq<char>, Seq<char>, Seq<char>, Seq<char>, Seq<char>);

    open spec fn view(&self) -> Self::V {
        (self.proposal_id@, self.creator@, self.start_time@, self.end_time@, self.editor@, self.dao_address@, self.plugin_address@, self.change_type@)
    }
}

/// The proposals of this kind created in one block, in log order.
#[derive(Clone, Debug, PartialEq, Eq)]
pub struct RemoveEditorProposalsCreated {
    pub proposed_editors: Vec<RemoveEditorProposalCreated>,
}

/// A governance proposal on the subspace of a space; ids and times are decimal text.
#[derive(Clone, Debug, PartialEq, Eq)]
pub struct AddSubspaceProposalCreated {
    pub proposal_id: String,
    pub creator: String,
    pub start_time: String,
    pub end_time: String,
    pub subspace: String,
    pub dao_address: String,
    pub plugin_address: String,
    pub change_type: String,
}

impl View for AddSubspaceProposalCreated {
    type V = (Seq<char>, Seq<char>, Seq<char>, Seq<char>, Seq<char>, Seq<char>, Seq<char>, Seq<char>);

    open spec fn view(&self) -> Self::V {
        (self.proposal_id@, self.creator@, self.start_time@, self.end_time@, self.subspace@, self.dao_address@, self.plugin_address@, self.change_type@)
    }
}

/// The proposals of this kind created in one block, in log order.
#[derive(Clone, Debug, PartialEq, Eq)]
pub struct AddSubspaceProposalsCreated {
    pub proposed_subspaces: Vec<AddSubspaceProposalCreated>,
}

/// A governance proposal on the subspace of a space; ids and times are decimal text.
#[derive(Clone, Debug, PartialEq, Eq)]
pub struct RemoveSubspaceProposalCreated {
    pub proposal_id: String,
    pub creator: String,
    pub start_time: String,
    pub end_time: String,
    pub subspace: String,
    pub dao_address: String,
    pub plugin_address: String,
    pub change_type: String,
}

impl View for RemoveSubspaceProposalCreated {
    type V = (Seq<char>, Seq<char>, Seq<char>, Seq<char>, Seq<char>, Seq<char>, Seq<char>, Seq<char>);

    open spec fn view(&self) -> Self::V {
        (self.proposal_id@, self.creator@, self.start_time@, self.end_time@, self.subspace@, self.dao_address@, self.plugin_address@, self.change_type@)
    }
}

/// The proposals of this kind created in one block, in log order.
#[derive(Clone, Debug, PartialEq, Eq)]
pub struct RemoveSubspaceProposalsCreated {
    pub proposed_subspaces: Vec<RemoveSubspaceProposalCreated>,
}

/// The output envelope of one block: one list per extractor kind.
#[derive(Clone, Debug, PartialEq, Eq)]
pub struct GeoOutput {
    pub spaces_created: Vec<GeoSpaceCreated>,
    pub governance_plugins_created: Vec<GeoGovernancePluginCreated>,
    pub initial_editors_added: Vec<InitialEditorAdded>,
    pub votes_cast: Vec<VoteCast>,
    pub edits_published: Vec<EditPublished>,
    pub successor_spaces_created: Vec<SuccessorSpaceCreated>,
    pub subspaces_added: Vec<SubspaceAdded>,
    pub subspaces_removed: Vec<SubspaceRemoved>,
    pub executed_proposals: Vec<ProposalExecuted>,
    pub members_added: Vec<MemberAdded>,
    pub editors_added: Vec<EditorAdded>,
    pub personal_plugins_created: Vec<GeoPersonalSpaceAdminPluginCreated>,
    pub members_removed: Vec<MemberRemoved>,
    pub editors_removed: Vec<EditorRemoved>,
    pub edits: Vec<PublishEditProposalCreated>,
    pub proposed_added_members: Vec<AddMemberProposalCreated>,
    pub proposed_removed_members: Vec<RemoveMemberProposalCreated>,
    pub proposed_added_editors: Vec<AddEditorProposalCreated>,
    pub proposed_removed_editors: Vec<RemoveEditorProposalCreated>,
    pub proposed_added_subspaces: Vec<AddSubspaceProposalCreated>,
    pub proposed_removed_subspaces: Vec<RemoveSubspaceProposalCreated>,
}

/// The contents of a `GeoOutput`, each list as the sequence of its records' views.
pub ghost struct GeoOutputView {
    pub spaces_created: Seq<<GeoSpaceCreated as View>::V>,
    pub governance_plugins_created: Seq<<GeoGovernancePluginCreated as View>::V>,
    pub initial_editors_added: Seq<<InitialEditorAdded as View>::V>,
    pub votes_cast: Seq<<VoteCast as View>::V>,
    pub edits_published: Seq<<EditPublished as View>::V>,
    pub successor_spaces_created: Seq<<SuccessorSpaceCreated as View>::V>,
    pub subspaces_added: Seq<<SubspaceAdded as View>::V>,
    pub subspaces_removed: Seq<<SubspaceRemoved as View>::V>,
    pub executed_proposals: Seq<<ProposalExecuted as View>::V>,
    pub members_added: Seq<<MemberAdded as View>::V>,
    pub editors_added: Seq<<EditorAdded as View>::V>,
    pub personal_plugins_created: Seq<<GeoPersonalSpaceAdminPluginCreated as View>::V>,
    pub members_removed: Seq<<MemberRemoved as View>::V>,
    pub editors_removed: Seq<<EditorRemoved as View>::V>,
    pub edits: Seq<<PublishEditProposalCreated as View>::V>,
    pub proposed_added_members: Seq<<AddMemberProposalCreated as View>::V>,
    pub proposed_removed_members: Seq<<RemoveMemberProposalCreated as View>::V>,
    pub proposed_added_editors: Seq<<AddEditorProposalCreated as View>::V>,
    pub proposed_removed_editors: Seq<<RemoveEditorProposalCreated as View>::V>,
    pub proposed_added_subspaces: Seq<<AddSubspaceProposalCreated as View>::V>,
    pub proposed_removed_subspaces: Seq<<RemoveSubspaceProposalCreated as View>::V>,
}

impl View for GeoOutput {
    type V = GeoOutputView;

    open spec fn view(&self) -> GeoOutputView {
        GeoOutputView {
            spaces_created: self.spaces_created@.map_values(|r: GeoSpaceCreated| r@),
            governance_plugins_created: self.governance_plugins_created@.map_values(|r: GeoGovernancePluginCreated| r@),
            initial_editors_added: self.initial_editors_added@.map_values(|r: InitialEditorAdded| r@),
            votes_cast: self.votes_cast@.map_values(|r: VoteCast| r@),
            edits_published: self.edits_published@.map_values(|r: EditPublished| r@),
            successor_spaces_created: self.successor_spaces_created@.map_values(|r: SuccessorSpaceCreated| r@),
            subspaces_added: self.subspaces_added@.map_values(|r: SubspaceAdded| r@),
            subspaces_removed: self.subspaces_removed@.map_values(|r: SubspaceRemoved| r@),
            executed_proposals: self.executed_proposals@.map_values(|r: ProposalExecuted| r@),
            members_added: self.members_added@.map_values(|r: MemberAdded| r@),
            editors_added: self.editors_added@.map_values(|r: EditorAdded| r@),
            personal_plugins_created: self.personal_plugins_created@.map_values(|r: GeoPersonalSpaceAdminPluginCreated| r@),
            members_removed: self.members_removed@.map_values(|r: MemberRemoved| r@),
            editors_removed: self.editors_removed@.map_values(|r: EditorRemoved| r@),
            edits: self.edits@.map_values(|r: PublishEditProposalCreated| r@),
            proposed_added_members: self.proposed_added_members@.map_values(|r: AddMemberProposalCreated| r@),
            proposed_removed_members: self.proposed_removed_members@.map_values(|r: RemoveMemberProposalCreated| r@),
            proposed_added_editors: self.proposed_added_editors@.map_values(|r: AddEditorProposalCreated| r@),
            proposed_removed_editors: self.proposed_removed_editors@.map_values(|r: RemoveEditorProposalCreated| r@),
            proposed_added_subspaces: self.proposed_added_subspaces@.map_values(|r: AddSubspaceProposalCreated| r@),
            proposed_removed_subspaces: self.proposed_removed_subspaces@.map_values(|r: RemoveSubspaceProposalCreated| r@),
        }
    }
}

} // verus!
