//! The block model handed to the extractors: an ordered sequence of log
//! entries, each carrying the event its payload decoded to.

use vstd::prelude::*;
use crate::helpers::{
    decimal, format_hex, hex_text, lemma_decimal_injective, lemma_decimal_no_dash,
    lemma_hex_text_injective, lemma_hex_text_no_dash, u64_decimal_string,
};

verus! {

/// The typed field set of a log whose payload decoded against one of the
/// known event signatures. Addresses are raw 20-byte values, on-chain unsigned
/// integers are big-endian byte strings.
pub enum ChainEvent {
    SuccessorSpaceCreated { predecessor_space: Vec<u8>, dao: Vec<u8> },
    SpacePluginCreated { dao: Vec<u8>, plugin: Vec<u8> },
    SubspaceAccepted { subspace_dao: Vec<u8>, dao: Vec<u8> },
    SubspaceRemoved { subspace_dao: Vec<u8>, dao: Vec<u8> },
    GovernancePluginsCreated {
        dao: Vec<u8>,
        main_voting_plugin: Vec<u8>,
        member_access_plugin: Vec<u8>,
    },
    PersonalAdminPluginCreated { dao: Vec<u8>, personal_admin_plugin: Vec<u8>, initial_editor: Vec<u8> },
    EditorsAdded { dao: Vec<u8>, editors: Vec<Vec<u8>> },
    MemberAdded { dao: Vec<u8>, member: Vec<u8> },
    MemberRemoved { dao: Vec<u8>, member: Vec<u8> },
    EditorAdded { dao: Vec<u8>, editor: Vec<u8> },
    EditorRemoved { dao: Vec<u8>, editor: Vec<u8> },
    ProposalExecuted { proposal_id: Vec<u8> },
    EditsPublished { content_uri: String, dao: Vec<u8> },
    VoteCast { proposal_id: Vec<u8>, voter: Vec<u8>, vote_option: u64 },
    PublishEditsProposalCreated {
        proposal_id: Vec<u8>,
        creator: Vec<u8>,
        start_date: Vec<u8>,
        end_date: Vec<u8>,
        content_uri: String,
        dao: Vec<u8>,
    },
    RoleGranted { role: Vec<u8>, account: Vec<u8>, sender: Vec<u8> },
    RoleRevoked { role: Vec<u8>, account: Vec<u8>, sender: Vec<u8> },
    EntryAdded { index: Vec<u8>, uri: String, author: Vec<u8> },
    /// The payload matches none of the known event signatures.
    Unrecognized,
}

/// One log entry of a block, with its locator and the emitting contract.
pub struct LogEntry {
    pub address: Vec<u8>,
    pub tx_hash: Vec<u8>,
    pub log_index: u32,
    pub event: ChainEvent,
}

/// A block: its number and its log entries in block order (ascending by
/// transaction position, then by log index within the transaction).
pub struct Block {
    pub number: u64,
    pub logs: Vec<LogEntry>,
}

/// The records an extractor keeps: `f` applied to each log in order, the logs
/// on which it gives `None` skipped.
pub open spec fn collect<T>(logs: Seq<LogEntry>, f: spec_fn(LogEntry) -> Option<T>) -> Seq<T>
    decreases logs.len(),
{
    if logs.len() == 0 {
        Seq::empty()
    } else {
        let rest = collect(logs.drop_last(), f);
        match f(logs.last()) {
            Some(v) => rest.push(v),
            None => rest,
        }
    }
}

/// The positions of the logs on which `f` gives a record, ascending.
pub open spec fn match_positions<T>(logs: Seq<LogEntry>, f: spec_fn(LogEntry) -> Option<T>) -> Seq<int>
    decreases logs.len(),
{
    if logs.len() == 0 {
        Seq::empty()
    } else {
        let rest = match_positions(logs.drop_last(), f);
        if f(logs.last()) is Some {
            rest.push(logs.len() - 1)
        } else {
            rest
        }
    }
}

/// Order preservation: record `k` of an extraction comes from the `k`-th
/// matching log, so the records stand in the logs' block order, and every
/// matching log gives exactly one record.
pub proof fn lemma_collect_in_log_order<T>(logs: Seq<LogEntry>, f: spec_fn(LogEntry) -> Option<T>)
    ensures
        match_positions(logs, f).len() == collect(logs, f).len(),
        forall|k: int|
            0 <= k < collect(logs, f).len() ==> 0 <= #[trigger] match_positions(logs, f)[k] < logs.len()
                && f(logs[match_positions(logs, f)[k]]) == Some(collect(logs, f)[k]),
        forall|k1: int, k2: int|
            0 <= k1 < k2 < collect(logs, f).len() ==> #[trigger] match_positions(logs, f)[k1]
                < #[trigger] match_positions(logs, f)[k2],
        forall|i: int|
            0 <= i < logs.len() && (#[trigger] f(logs[i])) is Some ==> exists|k: int|
                0 <= k < collect(logs, f).len() && match_positions(logs, f)[k] == i,
    decreases logs.len(),
{
    if logs.len() > 0 {
        let p = logs.drop_last();
        lemma_collect_in_log_order(p, f);
        let n = logs.len() - 1;
        assert forall|i: int| 0 <= i < logs.len() && (#[trigger] f(logs[i])) is Some implies exists|k: int|
            0 <= k < collect(logs, f).len() && match_positions(logs, f)[k] == i by {
            if i < n {
                assert(p[i] == logs[i]);
                let k = choose|k: int| 0 <= k < collect(p, f).len() && match_positions(p, f)[k] == i;
                assert(match_positions(logs, f)[k] == i);
            } else {
                let k = collect(p, f).len() as int;
                assert(match_positions(logs, f)[k] == i);
            }
        }
        assert forall|k: int| 0 <= k < collect(logs, f).len() implies 0 <= #[trigger] match_positions(
            logs,
            f,
        )[k] < logs.len() && f(logs[match_positions(logs, f)[k]]) == Some(collect(logs, f)[k]) by {
            if k < collect(p, f).len() {
                assert(p[match_positions(p, f)[k]] == logs[match_positions(p, f)[k]]);
            }
        }
    }
}

/// Non-interference: an extraction holds only records that `f` gives on some
/// log of the block; a log on which `f` gives `None` contributes nothing.
pub proof fn lemma_collect_only_matching<T>(logs: Seq<LogEntry>, f: spec_fn(LogEntry) -> Option<T>)
    ensures
        forall|k: int|
            #![trigger collect(logs, f)[k]]
            0 <= k < collect(logs, f).len() ==> exists|i: int|
                #![trigger f(logs[i])]
                0 <= i < logs.len() && f(logs[i]) == Some(collect(logs, f)[k]),
        (forall|i: int| 0 <= i < logs.len() ==> (#[trigger] f(logs[i])) is None) ==> collect(logs, f).len()
            == 0,
{
    lemma_collect_in_log_order(logs, f);
    assert forall|k: int| #![trigger collect(logs, f)[k]] 0 <= k < collect(logs, f).len() implies exists|i: int|
        #![trigger f(logs[i])]
        0 <= i < logs.len() && f(logs[i]) == Some(collect(logs, f)[k]) by {
        let i = match_positions(logs, f)[k];
        assert(f(logs[i]) == Some(collect(logs, f)[k]));
    }
    if collect(logs, f).len() > 0 {
        let i = match_positions(logs, f)[0];
        assert(f(logs[i]) is Some);
    }
}

/// Extending the scanned prefix by one log extends the extraction by that
/// log's record, if any.
pub proof fn lemma_collect_step<T>(logs: Seq<LogEntry>, i: int, f: spec_fn(LogEntry) -> Option<T>)
    requires
        0 <= i < logs.len(),
    ensures
        collect(logs.subrange(0, i + 1), f) == match f(logs[i]) {
            Some(v) => collect(logs.subrange(0, i), f).push(v),
            None => collect(logs.subrange(0, i), f),
        },
{
    assert(logs.subrange(0, i + 1).drop_last() =~= logs.subrange(0, i));
}

/// `"{block_number}-{tx_hash}-{log_index}"`, the hash in canonical hex text.
pub open spec fn composite_id_text(block_number: u64, tx_hash: Seq<u8>, log_index: u32) -> Seq<char> {
    decimal(block_number as nat) + seq!['-'] + hex_text(tx_hash) + seq!['-'] + decimal(log_index as nat)
}

/// The identifier of a log locator, for events that carry no natural key.
pub fn composite_id(block_number: u64, tx_hash: &[u8], log_index: u32) -> (r: String)
    ensures
        r@ == composite_id_text(block_number, tx_hash@, log_index),
{
    let mut out = u64_decimal_string(block_number);
    proof {
        reveal_strlit("-");
    }
    out.append("-");
    let hash = format_hex(tx_hash);
    out.append(hash.as_str());
    out.append("-");
    let index = u64_decimal_string(log_index as u64);
    out.append(index.as_str());
    proof {
        assert(out@ =~= composite_id_text(block_number, tx_hash@, log_index));
    }
    out
}

/// Two texts with no dash before their first dash split the same way.
proof fn lemma_split_at_dash(p1: Seq<char>, r1: Seq<char>, p2: Seq<char>, r2: Seq<char>)
    requires
        !p1.contains('-'),
        !p2.contains('-'),
        p1 + seq!['-'] + r1 == p2 + seq!['-'] + r2,
    ensures
        p1 == p2,
        r1 == r2,
{
    let s1 = p1 + seq!['-'] + r1;
    let s2 = p2 + seq!['-'] + r2;
    if p1.len() < p2.len() {
        assert(s1[p1.len() as int] == '-');
        assert(s2[p1.len() as int] == p2[p1.len() as int]);
    } else if p2.len() < p1.len() {
        assert(s2[p2.len() as int] == '-');
        assert(s1[p2.len() as int] == p1[p2.len() as int]);
    }
    assert(p1 =~= s1.subrange(0, p1.len() as int));
    assert(p2 =~= s2.subrange(0, p2.len() as int));
    assert(r1 =~= s1.subrange(p1.len() as int + 1, s1.len() as int));
    assert(r2 =~= s2.subrange(p2.len() as int + 1, s2.len() as int));
}

/// Composite id uniqueness: within one block, two log locators that differ in
/// transaction hash or log index have different identifiers.
pub proof fn lemma_composite_id_unique(
    block_number: u64,
    tx1: Seq<u8>,
    index1: u32,
    tx2: Seq<u8>,
    index2: u32,
)
    requires
        tx1 != tx2 || index1 != index2,
    ensures
        composite_id_text(block_number, tx1, index1) != composite_id_text(block_number, tx2, index2),
{
    if composite_id_text(block_number, tx1, index1) == composite_id_text(block_number, tx2, index2) {
        let d = decimal(block_number as nat);
        let rest1 = hex_text(tx1) + seq!['-'] + decimal(index1 as nat);
        let rest2 = hex_text(tx2) + seq!['-'] + decimal(index2 as nat);
        lemma_decimal_no_dash(block_number as nat);
        assert(composite_id_text(block_number, tx1, index1) =~= d + seq!['-'] + rest1);
        assert(composite_id_text(block_number, tx2, index2) =~= d + seq!['-'] + rest2);
        lemma_split_at_dash(d, rest1, d, rest2);
        lemma_hex_text_no_dash(tx1);
        lemma_hex_text_no_dash(tx2);
        lemma_split_at_dash(hex_text(tx1), decimal(index1 as nat), hex_text(tx2), decimal(index2 as nat));
        lemma_hex_text_injective(tx1, tx2);
        lemma_decimal_injective(index1 as nat, index2 as nat);
    }
}

} // verus!
