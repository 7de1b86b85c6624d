//! Role identifiers and the classification of role-change events.

use vstd::prelude::*;
use crate::block::{collect, composite_id, composite_id_text, lemma_collect_step, Block, ChainEvent, LogEntry};
use crate::helpers::{format_hex, hex_text};

verus! {

/// `keccak256("EDITOR_CONTROLLER_ROLE")`.
pub const EDITOR_CONTROLLER_ROLE: [u8; 32] = [
    0xbc, 0x2c, 0x04, 0xb1, 0x64, 0x35, 0xc5, 0xf4,
    0xea, 0xa3, 0x7f, 0xec, 0x9a, 0xd8, 0x08, 0xfe,
    0xc5, 0x63, 0xd6, 0x65, 0xb1, 0xfe, 0xbf, 0x40,
    0x77, 0x53, 0x80, 0xf3, 0xf1, 0xb5, 0x92, 0xb4,
];

/// `keccak256("EDITOR_ROLE")`.
pub const EDITOR_ROLE: [u8; 32] = [
    0x21, 0xd1, 0x16, 0x79, 0x72, 0xf6, 0x21, 0xf7,
    0x59, 0x04, 0xfb, 0x06, 0x51, 0x36, 0xbc, 0x8b,
    0x53, 0xc7, 0xba, 0x1c, 0x60, 0xcc, 0xd3, 0xa7,
    0x75, 0x8f, 0xbe, 0xe4, 0x65, 0x85, 0x1e, 0x9c,
];

/// `keccak256("ADMIN_ROLE")`.
pub const ADMIN_ROLE: [u8; 32] = [
    0xa4, 0x98, 0x07, 0x20, 0x5c, 0xe4, 0xd3, 0x55,
    0x09, 0x2e, 0xf5, 0xa8, 0xa1, 0x8f, 0x56, 0xe8,
    0x91, 0x3c, 0xf4, 0xa2, 0x01, 0xfb, 0xe2, 0x87,
    0x82, 0x5b, 0x09, 0x56, 0x93, 0xc2, 0x17, 0x75,
];

/// The role a role identifier stands for; `NullRole` for any identifier that
/// is none of the known ones.
#[derive(Clone, Copy, Debug, PartialEq, Eq, Structural)]
pub enum Role {
    NullRole,
    Moderator,
    Member,
    Admin,
}

impl Role {
    pub open spec fn spec_value(self) -> u32 {
        match self {
            Role::NullRole => 0,
            Role::Moderator => 1,
            Role::Member => 2,
            Role::Admin => 3,
        }
    }

    /// The wire value of the role.
    pub fn value(&self) -> (r: u32)
        ensures
            r == self.spec_value(),
    {
        match self {
            Role::NullRole => 0,
            Role::Moderator => 1,
            Role::Member => 2,
            Role::Admin => 3,
        }
    }
}

/// The role of an identifier, by exact equality with the known identifiers.
pub open spec fn role_of(id: Seq<u8>) -> Role {
    if id == EDITOR_CONTROLLER_ROLE@ {
        Role::Moderator
    } else if id == EDITOR_ROLE@ {
        Role::Member
    } else if id == ADMIN_ROLE@ {
        Role::Admin
    } else {
        Role::NullRole
    }
}

fn bytes_equal(a: &[u8], b: &[u8]) -> (r: bool)
    ensures
        r == (a@ == b@),
{
    if a.len() != b.len() {
        return false;
    }
    let mut i: usize = 0;
    while i < a.len()
        invariant
            a.len() == b.len(),
            i <= a.len(),
            forall|j: int| 0 <= j < i ==> a@[j] == b@[j],
        decreases a.len() - i,
    {
        if a[i] != b[i] {
            return false;
        }
        i += 1;
    }
    proof {
        assert(a@ =~= b@);
    }
    true
}

/// Classifies a role identifier.
pub fn get_role(id: &[u8]) -> (r: Role)
    ensures
        r == role_of(id@),
{
    if bytes_equal(id, &EDITOR_CONTROLLER_ROLE) {
        Role::Moderator
    } else if bytes_equal(id, &EDITOR_ROLE) {
        Role::Member
    } else if bytes_equal(id, &ADMIN_ROLE) {
        Role::Admin
    } else {
        Role::NullRole
    }
}

/// Role classification is total: every identifier gets one of the four roles,
/// and a role other than `NullRole` exactly when the identifier equals one of
/// the known identifiers, each of which keeps its own role.
pub proof fn lemma_role_classification_total(id: Seq<u8>)
    ensures
        role_of(id).spec_value() <= 3,
        role_of(id).spec_value() != 0 <==> (id == EDITOR_CONTROLLER_ROLE@ || id == EDITOR_ROLE@ || id
            == ADMIN_ROLE@),
        role_of(EDITOR_CONTROLLER_ROLE@) == Role::Moderator,
        role_of(EDITOR_ROLE@) == Role::Member,
        role_of(ADMIN_ROLE@) == Role::Admin,
{
    assert(EDITOR_CONTROLLER_ROLE@[0] != EDITOR_ROLE@[0]);
    assert(EDITOR_CONTROLLER_ROLE@[0] != ADMIN_ROLE@[0]);
    assert(EDITOR_ROLE@[0] != ADMIN_ROLE@[0]);
}

/// The fields shared by both kinds of role change. `id` is the composite log
/// locator, `space` the emitting contract.
#[derive(Clone, Debug, PartialEq, Eq)]
pub struct RoleChangeRecord {
    pub id: String,
    pub role: Role,
    pub account: String,
    pub sender: String,
    pub space: String,
}

impl View for RoleChangeRecord {
    type V = (Seq<char>, Role, Seq<char>, Seq<char>, Seq<char>);

    open spec fn view(&self) -> Self::V {
        (self.id@, self.role, self.account@, self.sender@, self.space@)
    }
}

/// A role granted or revoked: exactly one of the two, with its fields.
#[derive(Clone, Debug, PartialEq, Eq)]
pub enum RoleChange {
    Granted(RoleChangeRecord),
    Revoked(RoleChangeRecord),
}

impl View for RoleChange {
    /// Whether the role was granted, and the fields.
    type V = (bool, <RoleChangeRecord as View>::V);

    open spec fn view(&self) -> Self::V {
        match self {
            RoleChange::Granted(r) => (true, r@),
            RoleChange::Revoked(r) => (false, r@),
        }
    }
}

impl RoleChange {
    /// The fields, whichever the kind of change.
    pub fn record(&self) -> (r: &RoleChangeRecord)
        ensures
            r@ == self@.1,
    {
        match self {
            RoleChange::Granted(r) => r,
            RoleChange::Revoked(r) => r,
        }
    }

    pub fn is_granted(&self) -> (r: bool)
        ensures
            r == self@.0,
    {
        match self {
            RoleChange::Granted(_) => true,
            RoleChange::Revoked(_) => false,
        }
    }
}

/// The role changes of one block, in log order.
#[derive(Clone, Debug, PartialEq, Eq)]
pub struct RoleChanges {
    pub changes: Vec<RoleChange>,
}

impl View for RoleChanges {
    type V = Seq<<RoleChange as View>::V>;

    open spec fn view(&self) -> Self::V {
        self.changes@.map_values(|c: RoleChange| c@)
    }
}

/// The role change a log of block `number` gives, if it is one.
pub open spec fn role_change_of(number: u64, l: LogEntry) -> Option<<RoleChange as View>::V> {
    match l.event {
        ChainEvent::RoleGranted { role, account, sender } => Some(
            (
                true,
                (
                    composite_id_text(number, l.tx_hash@, l.log_index),
                    role_of(role@),
                    hex_text(account@),
                    hex_text(sender@),
                    hex_text(l.address@),
                ),
            ),
        ),
        ChainEvent::RoleRevoked { role, account, sender } => Some(
            (
                false,
                (
                    composite_id_text(number, l.tx_hash@, l.log_index),
                    role_of(role@),
                    hex_text(account@),
                    hex_text(sender@),
                    hex_text(l.address@),
                ),
            ),
        ),
        _ => None,
    }
}

pub open spec fn role_changes_of(number: u64, logs: Seq<LogEntry>) -> Seq<<RoleChange as View>::V> {
    collect(logs, |l: LogEntry| role_change_of(number, l))
}

/// Roles granted and revoked in the block.
pub fn map_role_changes(block: &Block) -> (r: RoleChanges)
    ensures
        r@ == role_changes_of(block.number, block.logs@),
{
    let mut changes: Vec<RoleChange> = Vec::new();
    let mut i: usize = 0;
    while i < block.logs.len()
        invariant
            i <= block.logs.len(),
            changes@.map_values(|c: RoleChange| c@) == role_changes_of(
                block.number,
                block.logs@.subrange(0, i as int),
            ),
        decreases block.logs.len() - i,
    {
        let log = &block.logs[i];
        proof {
            lemma_collect_step(block.logs@, i as int, |l: LogEntry| role_change_of(block.number, l));
        }
        let change = match &log.event {
            ChainEvent::RoleGranted { role, account, sender } => Some(
                RoleChange::Granted(
                    RoleChangeRecord {
                        id: composite_id(block.number, &log.tx_hash, log.log_index),
                        role: get_role(role),
                        account: format_hex(account),
                        sender: format_hex(sender),
                        space: format_hex(&log.address),
                    },
                ),
            ),
            ChainEvent::RoleRevoked { role, account, sender } => Some(
                RoleChange::Revoked(
                    RoleChangeRecord {
                        id: composite_id(block.number, &log.tx_hash, log.log_index),
                        role: get_role(role),
                        account: format_hex(account),
                        sender: format_hex(sender),
                        space: format_hex(&log.address),
                    },
                ),
            ),
            _ => None,
        };
        if let Some(c) = change {
            let ghost before = changes@;
            changes.push(c);
            proof {
                assert(changes@.map_values(|c: RoleChange| c@) =~= before.map_values(
                    |c: RoleChange| c@,
                ).push(c@));
            }
        }
        i += 1;
    }
    proof {
        assert(block.logs@.subrange(0, block.logs.len() as int) =~= block.logs@);
    }
    RoleChanges { changes }
}

} // verus!
