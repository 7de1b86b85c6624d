//! Content entries and the store that remembers each space that wrote one.

use vstd::prelude::*;
use crate::block::{collect, composite_id, composite_id_text, lemma_collect_step, Block, ChainEvent, LogEntry};
use crate::helpers::{be_decimal_string, be_value, decimal, format_hex, hex_text};

verus! {

/// A content entry added to a space. `id` is the composite log locator, `index`
/// the on-chain entry index as decimal text, `space` the emitting contract.
#[derive(Clone, Debug, PartialEq, Eq)]
pub struct EntryAdded {
    pub id: String,
    pub index: String,
    pub uri: String,
    pub author: String,
    pub space: String,
}

impl View for EntryAdded {
    type V = (Seq<char>, Seq<char>, Seq<char>, Seq<char>, Seq<char>);

    open spec fn view(&self) -> Self::V {
        (self.id@, self.index@, self.uri@, self.author@, self.space@)
    }
}

/// The entries of one block, in log order.
#[derive(Clone, Debug, PartialEq, Eq)]
pub struct EntriesAdded {
    pub entries: Vec<EntryAdded>,
}

impl View for EntriesAdded {
    type V = Seq<<EntryAdded as View>::V>;

    open spec fn view(&self) -> Self::V {
        self.entries@.map_values(|e: EntryAdded| e@)
    }
}

/// The entry a log of block `number` gives, if it is one.
pub open spec fn entry_of(number: u64, l: LogEntry) -> Option<<EntryAdded as View>::V> {
    match l.event {
        ChainEvent::EntryAdded { index, uri, author } => Some(
            (
                composite_id_text(number, l.tx_hash@, l.log_index),
                decimal(be_value(index@)),
                uri@,
                hex_text(author@),
                hex_text(l.address@),
            ),
        ),
        _ => None,
    }
}

pub open spec fn entries_of(number: u64, logs: Seq<LogEntry>) -> Seq<<EntryAdded as View>::V> {
    collect(logs, |l: LogEntry| entry_of(number, l))
}

/// Content entries added in the block.
pub fn map_entries_added(block: &Block) -> (r: EntriesAdded)
    ensures
        r@ == entries_of(block.number, block.logs@),
{
    let mut entries: Vec<EntryAdded> = Vec::new();
    let mut i: usize = 0;
    while i < block.logs.len()
        invariant
            i <= block.logs.len(),
            entries@.map_values(|e: EntryAdded| e@) == entries_of(
                block.number,
                block.logs@.subrange(0, i as int),
            ),
        decreases block.logs.len() - i,
    {
        let log = &block.logs[i];
        proof {
            lemma_collect_step(block.logs@, i as int, |l: LogEntry| entry_of(block.number, l));
        }
        if let ChainEvent::EntryAdded { index, uri, author } = &log.event {
            let entry = EntryAdded {
                id: composite_id(block.number, &log.tx_hash, log.log_index),
                index: be_decimal_string(index),
                uri: uri.clone(),
                author: format_hex(author),
                space: format_hex(&log.address),
            };
            let ghost before = entries@;
            entries.push(entry);
            proof {
                assert(entries@.map_values(|e: EntryAdded| e@) =~= before.map_values(
                    |e: EntryAdded| e@,
                ).push(entry@));
            }
        }
        i += 1;
    }
    proof {
        assert(block.logs@.subrange(0, block.logs.len() as int) =~= block.logs@);
    }
    EntriesAdded { entries }
}

} // verus!
