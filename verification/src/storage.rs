//! The credential store's record set: one record per mailbox.

use crate::outlook::OutlookMailbox;
use vstd::prelude::*;
use vstd::string::StringExecFns;

verus! {

/// The mailboxes whose credentials are kept, in the order they were added.
#[derive(Debug, PartialEq, Eq)]
pub struct Storage {
    pub outlook: Vec<OutlookMailbox>,
}

impl Default for Storage {
    fn default() -> (storage: Storage)
        ensures
            storage.outlook@.len() == 0,
    {
        Storage { outlook: Vec::new() }
    }
}

/// The first position at or after `from` of a mailbox with the identifier
/// `id`.
pub open spec fn mailbox_position_from(mailboxes: Seq<OutlookMailbox>, id: Seq<char>, from: int)
    -> Option<int>
    decreases mailboxes.len() - from,
{
    if from < 0 || from >= mailboxes.len() {
        None
    } else if mailboxes[from].client_id@ == id {
        Some(from)
    } else {
        mailbox_position_from(mailboxes, id, from + 1)
    }
}

/// The position of the first mailbox with the identifier `id`.
pub open spec fn mailbox_position(mailboxes: Seq<OutlookMailbox>, id: Seq<char>) -> Option<int> {
    mailbox_position_from(mailboxes, id, 0)
}

/// `mailbox_position_from` gives the least position at or after `from` of a
/// mailbox with the identifier, and none only where no mailbox from there
/// on has it.
pub proof fn lemma_mailbox_position_from(mailboxes: Seq<OutlookMailbox>, id: Seq<char>, from: int)
    requires
        0 <= from,
    ensures
        match mailbox_position_from(mailboxes, id, from) {
            Some(i) => from <= i < mailboxes.len() && mailboxes[i].client_id@ == id && forall|
                j: int,
            |
                from <= j < i ==> (#[trigger] mailboxes[j]).client_id@ != id,
            None => forall|j: int|
                from <= j < mailboxes.len() ==> (#[trigger] mailboxes[j]).client_id@ != id,
        },
    decreases mailboxes.len() - from,
{
    if from < mailboxes.len() && mailboxes[from].client_id@ != id {
        lemma_mailbox_position_from(mailboxes, id, from + 1);
    }
}

impl Storage {
    /// No two mailboxes of the store have the same identifier.
    pub open spec fn wf(&self) -> bool {
        forall|i: int, j: int|
            0 <= i < j < self.outlook@.len() ==> (#[trigger] self.outlook@[i]).client_id@ != (
            #[trigger] self.outlook@[j]).client_id@
    }

    /// The position of the first mailbox with the identifier `id`, if
    /// there is one.
    pub fn position_of(&self, id: &str) -> (found: Option<usize>)
        ensures
            match found {
                Some(i) => mailbox_position(self.outlook@, id@) == Some(i as int) && i
                    < self.outlook@.len() && self.outlook@[i as int].client_id@ == id@,
                None => mailbox_position(self.outlook@, id@) is None,
            },
    {
        let wanted = String::from_str(id);
        let mut i: usize = 0;
        proof {
            lemma_mailbox_position_from(self.outlook@, id@, 0);
        }
        while i < self.outlook.len()
            invariant
                i <= self.outlook.len(),
                wanted@ == id@,
                mailbox_position(self.outlook@, id@) == mailbox_position_from(
                    self.outlook@,
                    id@,
                    i as int,
                ),
            decreases self.outlook.len() - i,
        {
            if self.outlook[i].client_id == wanted {
                return Some(i);
            }
            i += 1;
        }
        None
    }

    /// The first mailbox with the identifier `id`, if there is one.
    pub fn get_mailbox_by_id(&self, id: &str) -> (found: Option<&OutlookMailbox>)
        ensures
            match found {
                Some(mailbox) => mailbox_position(self.outlook@, id@) matches Some(i)
                    && *mailbox == self.outlook@[i],
                None => mailbox_position(self.outlook@, id@) is None,
            },
            found matches Some(mailbox) ==> mailbox.client_id@ == id@,
            found is None <==> forall|j: int|
                0 <= j < self.outlook@.len() ==> (#[trigger] self.outlook@[j]).client_id@ != id@,
    {
        proof {
            lemma_mailbox_position_from(self.outlook@, id@, 0);
        }
        match self.position_of(id) {
            Some(i) => Some(&self.outlook[i]),
            None => None,
        }
    }
}

} // verus!
