//! The journal as a mathematical value: which profiles and entries exist, what each
//! operation answers, and what it leaves behind.
use vstd::prelude::*;

use crate::error::{DiaryError, JournalError};
use crate::identity::Identity;
use crate::states::{DiaryAccountView, UserProfileView};
use crate::{
    profile_after_add, profile_after_remove, spec_check_entry, spec_date_seed, spec_remove_diary,
};

verus! {

/// All records of a journal. A profile is found by its owner, an entry by its owner
/// and the key bytes of its date.
pub struct JournalView {
    pub profiles: Map<Identity, UserProfileView>,
    pub entries: Map<(Identity, Seq<u8>), DiaryAccountView>,
}

/// The profile that initialisation writes for `who`.
pub open spec fn fresh_profile(who: Identity) -> UserProfileView {
    UserProfileView { authority: who, diary_count: 0, last_diary_date: Seq::empty() }
}

/// What finds the entry of `who` for `date`.
pub open spec fn entry_key(who: Identity, date: Seq<char>) -> (Identity, Seq<u8>) {
    (who, spec_date_seed(date))
}

impl JournalView {
    /// The journal without any record.
    pub open spec fn empty() -> JournalView {
        JournalView { profiles: Map::empty(), entries: Map::empty() }
    }

    /// The keys of the entries that `who` owns.
    pub open spec fn entries_of(self, who: Identity) -> Set<(Identity, Seq<u8>)> {
        self.entries.dom().filter(|k: (Identity, Seq<u8>)| k.0 == who)
    }

    /// What holds of every journal that the operations can reach: records sit under
    /// their own keys, every entry belongs to a profile, and every profile counts
    /// exactly the entries that its owner has.
    pub open spec fn wf(self) -> bool {
        &&& self.profiles.dom().finite()
        &&& self.entries.dom().finite()
        &&& forall|who: Identity| #[trigger]
            self.profiles.contains_key(who) ==> self.profiles[who].authority == who
        &&& forall|k: (Identity, Seq<u8>)| #[trigger]
            self.entries.contains_key(k) ==> {
                &&& self.entries[k].authority == k.0
                &&& spec_date_seed(self.entries[k].date) == k.1
                &&& self.profiles.contains_key(k.0)
            }
        &&& forall|who: Identity| #[trigger]
            self.profiles.contains_key(who) ==> self.profiles[who].diary_count
                == self.entries_of(who).len()
    }

    /// The answer to initialising a profile for `who`.
    pub open spec fn create_profile_verdict(self, who: Identity) -> Result<(), JournalError> {
        if self.profiles.contains_key(who) {
            Err(JournalError::AlreadyExists)
        } else {
            Ok(())
        }
    }

    /// The journal after initialising a profile for `who` was asked for.
    pub open spec fn create_profile(self, who: Identity) -> JournalView {
        if self.create_profile_verdict(who) is Ok {
            JournalView {
                profiles: self.profiles.insert(who, fresh_profile(who)),
                entries: self.entries,
            }
        } else {
            self
        }
    }

    /// The answer to creating an entry. In this order: the profile must exist, the
    /// request must pass the rules on date, title and content, no entry may exist under
    /// the same key, and the counter must have room.
    pub open spec fn append_entry_verdict(
        self,
        who: Identity,
        date: Seq<char>,
        title: Seq<char>,
        content: Seq<char>,
    ) -> Result<(), JournalError> {
        if !self.profiles.contains_key(who) {
            Err(JournalError::NotFound)
        } else {
            match spec_check_entry(self.profiles[who], who, date, title, content) {
                Err(e) => Err(JournalError::Rejected(e)),
                Ok(_) => if self.entries.contains_key(entry_key(who, date)) {
                    Err(JournalError::AlreadyExists)
                } else if self.profiles[who].diary_count >= u8::MAX {
                    Err(JournalError::Rejected(DiaryError::MathOverflow))
                } else {
                    Ok(())
                },
            }
        }
    }

    /// The journal after creating an entry was asked for.
    pub open spec fn append_entry(
        self,
        who: Identity,
        date: Seq<char>,
        content: Seq<char>,
        title: Seq<char>,
        image: Seq<char>,
        uuid: Seq<char>,
    ) -> JournalView {
        if self.append_entry_verdict(who, date, title, content) is Ok {
            JournalView {
                profiles: self.profiles.insert(who, profile_after_add(self.profiles[who], date)),
                entries: self.entries.insert(
                    entry_key(who, date),
                    DiaryAccountView { authority: who, content, title, image, date, uuid },
                ),
            }
        } else {
            self
        }
    }

    /// The answer to removing the entry of `who` for `date`: profile and entry must
    /// exist, and then the operation decides.
    pub open spec fn remove_entry_verdict(self, who: Identity, date: Seq<char>) -> Result<
        (),
        JournalError,
    > {
        if !self.profiles.contains_key(who) || !self.entries.contains_key(entry_key(who, date)) {
            Err(JournalError::NotFound)
        } else {
            match spec_remove_diary(self.profiles[who], self.entries[entry_key(who, date)], who) {
                Err(e) => Err(JournalError::Rejected(e)),
                Ok(_) => Ok(()),
            }
        }
    }

    /// The journal after removing the entry of `who` for `date` was asked for.
    pub open spec fn remove_entry(self, who: Identity, date: Seq<char>) -> JournalView {
        if self.remove_entry_verdict(who, date) is Ok {
            JournalView {
                profiles: self.profiles.insert(who, profile_after_remove(self.profiles[who])),
                entries: self.entries.remove(entry_key(who, date)),
            }
        } else {
            self
        }
    }

    /// The entries of each owner are finitely many.
    pub proof fn lemma_entries_of_finite(self, who: Identity)
        requires
            self.entries.dom().finite(),
        ensures
            self.entries_of(who).finite(),
    {
        self.entries.dom().lemma_len_filter(|k: (Identity, Seq<u8>)| k.0 == who);
    }

    /// The empty journal is well formed.
    pub proof fn empty_is_wf()
        ensures
            Self::empty().wf(),
    {
    }

    /// Initialising a profile keeps the journal well formed.
    pub proof fn create_profile_preserves_wf(self, who: Identity)
        requires
            self.wf(),
        ensures
            self.create_profile(who).wf(),
    {
        let next = self.create_profile(who);
        if self.create_profile_verdict(who) is Ok {
            assert(self.entries_of(who) =~= Set::empty()) by {
                assert forall|k: (Identity, Seq<u8>)| !self.entries_of(who).contains(k) by {
                    if self.entries.contains_key(k) && k.0 == who {
                        assert(self.profiles.contains_key(k.0));
                    }
                }
            }
            assert forall|w: Identity| #[trigger] next.profiles.contains_key(w) implies
                next.profiles[w].diary_count == next.entries_of(w).len() by {
                assert(next.entries_of(w) == self.entries_of(w));
                if w != who {
                    assert(self.profiles.contains_key(w));
                }
            }
        }
    }

    /// Creating an entry keeps the journal well formed.
    pub proof fn append_entry_preserves_wf(
        self,
        who: Identity,
        date: Seq<char>,
        content: Seq<char>,
        title: Seq<char>,
        image: Seq<char>,
        uuid: Seq<char>,
    )
        requires
            self.wf(),
        ensures
            self.append_entry(who, date, content, title, image, uuid).wf(),
    {
        let next = self.append_entry(who, date, content, title, image, uuid);
        if self.append_entry_verdict(who, date, title, content) is Ok {
            let key = entry_key(who, date);
            assert(self.profiles.contains_key(who));
            assert(!self.entries.contains_key(key));
            assert forall|w: Identity| #[trigger] next.profiles.contains_key(w) implies
                next.profiles[w].diary_count == next.entries_of(w).len() by {
                assert(self.profiles.contains_key(w));
                self.lemma_entries_of_finite(w);
                if w == who {
                    assert(next.entries_of(w) =~= self.entries_of(w).insert(key));
                    assert(!self.entries_of(w).contains(key));
                } else {
                    assert(next.entries_of(w) =~= self.entries_of(w));
                }
            }
            assert forall|k: (Identity, Seq<u8>)| #[trigger] next.entries.contains_key(k) implies {
                &&& next.entries[k].authority == k.0
                &&& spec_date_seed(next.entries[k].date) == k.1
                &&& next.profiles.contains_key(k.0)
            } by {
                if k != key {
                    assert(self.entries.contains_key(k));
                }
            }
            assert forall|w: Identity| #[trigger] next.profiles.contains_key(w) implies
                next.profiles[w].authority == w by {
                assert(self.profiles.contains_key(w));
            }
        }
    }

    /// Removing an entry keeps the journal well formed.
    pub proof fn remove_entry_preserves_wf(self, who: Identity, date: Seq<char>)
        requires
            self.wf(),
        ensures
            self.remove_entry(who, date).wf(),
    {
        let next = self.remove_entry(who, date);
        if self.remove_entry_verdict(who, date) is Ok {
            let key = entry_key(who, date);
            assert(self.profiles.contains_key(who));
            assert(self.entries.contains_key(key));
            assert forall|w: Identity| #[trigger] next.profiles.contains_key(w) implies
                next.profiles[w].diary_count == next.entries_of(w).len() by {
                assert(self.profiles.contains_key(w));
                self.lemma_entries_of_finite(w);
                if w == who {
                    assert(next.entries_of(w) =~= self.entries_of(w).remove(key));
                    assert(self.entries_of(w).contains(key));
                } else {
                    assert(next.entries_of(w) =~= self.entries_of(w));
                }
            }
            assert forall|k: (Identity, Seq<u8>)| #[trigger] next.entries.contains_key(k) implies {
                &&& next.entries[k].authority == k.0
                &&& spec_date_seed(next.entries[k].date) == k.1
                &&& next.profiles.contains_key(k.0)
            } by {
                assert(self.entries.contains_key(k));
            }
            assert forall|w: Identity| #[trigger] next.profiles.contains_key(w) implies
                next.profiles[w].authority == w by {
                assert(self.profiles.contains_key(w));
            }
        }
    }
}

} // verus!
