//! The bulletin board: an append-only store nodes use to exchange messages.

use crate::curve::g2_eq;
use crate::types::{DiversifiedPublicKey, DpkView, Message, MessageView, ProtocolResult};
use vstd::prelude::*;

verus! {

/// One posting: a message, the receiver's index, and the diversified key it
/// is addressed to.
pub struct BulletinBoardEntry {
    /// The message.
    pub message: Message,
    /// Index of the receiver.
    pub receiver_index: usize,
    /// Addressed to this diversified public key.
    pub addressed_to: DiversifiedPublicKey,
}

/// The mathematical value of one posting.
pub ghost struct EntryView {
    pub message: MessageView,
    pub receiver_index: usize,
    pub addressed_to: DpkView,
}

impl View for BulletinBoardEntry {
    type V = EntryView;

    open spec fn view(&self) -> EntryView {
        EntryView {
            message: self.message@,
            receiver_index: self.receiver_index,
            addressed_to: self.addressed_to@,
        }
    }
}

impl Clone for BulletinBoardEntry {
    fn clone(&self) -> (r: Self)
        ensures
            r@ == self@,
    {
        BulletinBoardEntry {
            message: self.message.clone(),
            receiver_index: self.receiver_index,
            addressed_to: self.addressed_to,
        }
    }
}

/// An append-only store of postings.  `post` appends one entry;
/// `get_messages_for` matches on exact equality of both diversified-key
/// components.
pub trait BulletinBoard {
    /// The postings so far, in order.
    spec fn board(&self) -> Seq<EntryView>;

    /// Post a message anonymously.
    fn post(&mut self, entry: BulletinBoardEntry) -> (r: ProtocolResult<()>)
        ensures
            r is Ok,
            final(self).board() == old(self).board().push(entry@),
    ;

    /// All postings, for scanning.
    fn get_all_messages(&self) -> (r: Vec<BulletinBoardEntry>)
        ensures
            r@.map_values(|e: BulletinBoardEntry| e@) == self.board(),
    ;

    /// The postings addressed to one diversified public key.
    fn get_messages_for(&self, ppk: &DiversifiedPublicKey) -> (r: Vec<BulletinBoardEntry>)
        ensures
            r@.map_values(|e: BulletinBoardEntry| e@) == self.board().filter(
                |e: EntryView| e.addressed_to == ppk@,
            ),
    ;
}

/// A simple in-memory bulletin board.
pub struct InMemoryBulletinBoard {
    entries: Vec<BulletinBoardEntry>,
}

impl InMemoryBulletinBoard {
    /// An empty board.
    pub fn new() -> (r: Self)
        ensures
            r.board() == Seq::<EntryView>::empty(),
    {
        let r = InMemoryBulletinBoard { entries: Vec::new() };
        proof {
            assert(r.board() =~= Seq::<EntryView>::empty());
        }
        r
    }
}

impl Default for InMemoryBulletinBoard {
    fn default() -> (r: Self)
        ensures
            r.board() == Seq::<EntryView>::empty(),
    {
        InMemoryBulletinBoard::new()
    }
}

impl BulletinBoard for InMemoryBulletinBoard {
    closed spec fn board(&self) -> Seq<EntryView> {
        self.entries@.map_values(|e: BulletinBoardEntry| e@)
    }

    fn post(&mut self, entry: BulletinBoardEntry) -> (r: ProtocolResult<()>) {
        let ghost pre = self.board();
        self.entries.push(entry);
        proof {
            assert(self.board() =~= pre.push(entry@));
        }
        Ok(())
    }

    fn get_all_messages(&self) -> (r: Vec<BulletinBoardEntry>) {
        let mut out: Vec<BulletinBoardEntry> = Vec::new();
        let mut i: usize = 0;
        while i < self.entries.len()
            invariant
                i <= self.entries@.len(),
                out@.len() == i as nat,
                forall|j: int| 0 <= j < i ==> out@[j]@ == self.entries@[j]@,
            decreases self.entries@.len() - i,
        {
            out.push(self.entries[i].clone());
            i = i + 1;
        }
        proof {
            assert(out@.map_values(|e: BulletinBoardEntry| e@) =~= self.board());
        }
        out
    }

    fn get_messages_for(&self, ppk: &DiversifiedPublicKey) -> (r: Vec<BulletinBoardEntry>) {
        let mut out: Vec<BulletinBoardEntry> = Vec::new();
        let mut i: usize = 0;
        proof {
            reveal(Seq::filter);
            assert(self.entries@.subrange(0, 0).map_values(|e: BulletinBoardEntry| e@)
                =~= Seq::<EntryView>::empty());
        }
        while i < self.entries.len()
            invariant
                i <= self.entries@.len(),
                out@.map_values(|e: BulletinBoardEntry| e@) == self.entries@.subrange(
                    0,
                    i as int,
                ).map_values(|e: BulletinBoardEntry| e@).filter(
                    |e: EntryView| e.addressed_to == ppk@,
                ),
            decreases self.entries@.len() - i,
        {
            let entry = &self.entries[i];
            let ghost pre_mapped = self.entries@.subrange(0, i as int).map_values(
                |e: BulletinBoardEntry| e@,
            );
            let ghost pre_out = out@;
            let matched = g2_eq(&entry.addressed_to.ppk_1, &ppk.ppk_1) && g2_eq(
                &entry.addressed_to.ppk_2,
                &ppk.ppk_2,
            );
            if matched {
                out.push(entry.clone());
            }
            proof {
                reveal(Seq::filter);
                let post_mapped = self.entries@.subrange(0, i + 1 as int).map_values(
                    |e: BulletinBoardEntry| e@,
                );
                assert(post_mapped.drop_last() =~= pre_mapped);
                assert(post_mapped.last() == self.entries@[i as int]@);
                if matched {
                    assert(out@.map_values(|e: BulletinBoardEntry| e@) =~= pre_out.map_values(
                        |e: BulletinBoardEntry| e@,
                    ).push(self.entries@[i as int]@));
                } else {
                    assert(out@.map_values(|e: BulletinBoardEntry| e@) =~= pre_out.map_values(
                        |e: BulletinBoardEntry| e@,
                    ));
                }
            }
            i = i + 1;
        }
        proof {
            assert(self.entries@.subrange(0, self.entries@.len() as int) =~= self.entries@);
        }
        out
    }
}

} // verus!
