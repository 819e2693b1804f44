//! The record store: every profile and every entry, and the three operations applied
//! to the records they name.
use vstd::prelude::*;

use crate::error::JournalError;
use crate::identity::Identity;
use crate::model::{entry_key, JournalView};
use crate::states::{DiaryAccount, UserProfile};
use crate::table::{
    distinct_keys, lemma_table_at, lemma_table_dom, lemma_table_push, lemma_table_remove,
    lemma_table_update, table, Keyed,
};
use crate::{
    add_diary, check_entry, date_seed, initialize_user, remove_diary, AddDiary, InitializeUser,
    RemoveDiary,
};

verus! {

impl Keyed for UserProfile {
    type Key = Identity;

    open spec fn key(&self) -> Identity {
        self.authority
    }
}

impl Keyed for DiaryAccount {
    type Key = (Identity, Seq<u8>);

    open spec fn key(&self) -> (Identity, Seq<u8>) {
        entry_key(self.authority, self.date@)
    }
}

/// Whether two byte strings are the same.
fn same_bytes(a: &[u8], b: &[u8]) -> (same: bool)
    ensures
        same == (a@ == b@),
{
    if a.len() != b.len() {
        return false;
    }
    let mut i: usize = 0;
    while i < a.len()
        invariant
            i <= a@.len(),
            a@.len() == b@.len(),
            forall|j: int| 0 <= j < i ==> a@[j] == b@[j],
        decreases a@.len() - i,
    {
        if a[i] != b[i] {
            return false;
        }
        i += 1;
    }
    assert(a@ =~= b@);
    true
}

/// A second record with the same contents.
fn copy_profile(profile: &UserProfile) -> (copy: UserProfile)
    ensures
        copy == *profile,
{
    UserProfile {
        authority: profile.authority,
        diary_count: profile.diary_count,
        last_diary_date: profile.last_diary_date.clone(),
    }
}

/// Where the profile of `who` stands, if there is one.
fn find_profile(profiles: &Vec<UserProfile>, who: &Identity) -> (found: Option<usize>)
    ensures
        match found {
            Some(i) => i < profiles@.len() && profiles@[i as int].key() == *who,
            None => forall|i: int| 0 <= i < profiles@.len() ==> profiles@[i].key() != *who,
        },
{
    let mut i: usize = 0;
    while i < profiles.len()
        invariant
            i <= profiles@.len(),
            forall|j: int| 0 <= j < i ==> profiles@[j].key() != *who,
        decreases profiles@.len() - i,
    {
        if profiles[i].authority == *who {
            return Some(i);
        }
        i += 1;
    }
    None
}

/// Where the entry of `who` with the key bytes `seed` stands, if there is one.
fn find_entry(entries: &Vec<DiaryAccount>, who: &Identity, seed: &[u8]) -> (found: Option<usize>)
    ensures
        match found {
            Some(i) => i < entries@.len() && entries@[i as int].key() == (*who, seed@),
            None => forall|i: int| 0 <= i < entries@.len() ==> entries@[i].key() != (*who, seed@),
        },
{
    let mut i: usize = 0;
    while i < entries.len()
        invariant
            i <= entries@.len(),
            forall|j: int| 0 <= j < i ==> entries@[j].key() != (*who, seed@),
        decreases entries@.len() - i,
    {
        if entries[i].authority == *who && same_bytes(date_seed(entries[i].date.as_str()), seed) {
            return Some(i);
        }
        i += 1;
    }
    None
}

/// All profiles and entries, each found by its key.
pub struct Journal {
    profiles: Vec<UserProfile>,
    entries: Vec<DiaryAccount>,
}

impl View for Journal {
    type V = JournalView;

    closed spec fn view(&self) -> JournalView {
        JournalView { profiles: table(self.profiles@), entries: table(self.entries@) }
    }
}

impl Journal {
    /// No key is held twice.
    pub closed spec fn keys_distinct(&self) -> bool {
        distinct_keys(self.profiles@) && distinct_keys(self.entries@)
    }

    /// The store is in order: no key is held twice, and the records are a well-formed
    /// journal.
    pub open spec fn wf(&self) -> bool {
        self.keys_distinct() && self@.wf()
    }

    /// A store without records.
    pub fn new() -> (journal: Self)
        ensures
            journal.wf(),
            journal@ == JournalView::empty(),
    {
        Journal { profiles: Vec::new(), entries: Vec::new() }
    }

    /// The profile of `who`, if it has been initialised.
    pub fn profile(&self, who: &Identity) -> (found: Option<&UserProfile>)
        requires
            self.wf(),
        ensures
            found is Some <==> self@.profiles.contains_key(*who),
            found matches Some(profile) ==> profile@ == self@.profiles[*who],
    {
        proof {
            lemma_table_dom(self.profiles@);
        }
        match find_profile(&self.profiles, who) {
            Some(i) => {
                proof {
                    lemma_table_at(self.profiles@, i as int);
                }
                Some(&self.profiles[i])
            },
            None => None,
        }
    }

    /// The entry of `who` for `date`, if there is one.
    pub fn entry(&self, who: &Identity, date: &str) -> (found: Option<&DiaryAccount>)
        requires
            self.wf(),
        ensures
            found is Some <==> self@.entries.contains_key(entry_key(*who, date@)),
            found matches Some(entry) ==> entry@ == self@.entries[entry_key(*who, date@)],
    {
        proof {
            lemma_table_dom(self.entries@);
        }
        match find_entry(&self.entries, who, date_seed(date)) {
            Some(i) => {
                proof {
                    lemma_table_at(self.entries@, i as int);
                }
                Some(&self.entries[i])
            },
            None => None,
        }
    }

    /// Initialises the profile of `authority`.
    ///
    /// Fails with `AlreadyExists`, and changes nothing, if that identity has a profile.
    pub fn create_profile(&mut self, authority: Identity) -> (result: Result<(), JournalError>)
        requires
            old(self).wf(),
        ensures
            final(self).wf(),
            result == old(self)@.create_profile_verdict(authority),
            final(self)@ == old(self)@.create_profile(authority),
    {
        proof {
            lemma_table_dom(self.profiles@);
        }
        if find_profile(&self.profiles, &authority).is_some() {
            return Err(JournalError::AlreadyExists);
        }
        let mut ctx = InitializeUser { authority, user_profile: UserProfile::default() };
        match initialize_user(&mut ctx) {
            Ok(_) => {},
            Err(e) => {
                return Err(JournalError::Rejected(e));
            },
        }
        proof {
            lemma_table_push(self.profiles@, ctx.user_profile);
            self@.create_profile_preserves_wf(authority);
        }
        self.profiles.push(ctx.user_profile);
        Ok(())
    }

    /// Creates the entry of `authority` for `user_date`.
    ///
    /// In this order: without a profile the answer is `NotFound`; a request that breaks
    /// a rule on date, title or content is `Rejected` with that rule; an entry under the
    /// same key is `AlreadyExists`; a full counter is `Rejected` with `MathOverflow`.
    /// On any of these nothing changes. Otherwise the entry is stored, and the profile
    /// takes the date and counts one more.
    pub fn append_entry(
        &mut self,
        authority: Identity,
        user_date: String,
        content: String,
        title: String,
        image: String,
        uuid: String,
    ) -> (result: Result<(), JournalError>)
        requires
            old(self).wf(),
        ensures
            final(self).wf(),
            result == old(self)@.append_entry_verdict(authority, user_date@, title@, content@),
            final(self)@ == old(self)@.append_entry(
                authority,
                user_date@,
                content@,
                title@,
                image@,
                uuid@,
            ),
    {
        proof {
            lemma_table_dom(self.profiles@);
            lemma_table_dom(self.entries@);
        }
        let i = match find_profile(&self.profiles, &authority) {
            Some(i) => i,
            None => {
                return Err(JournalError::NotFound);
            },
        };
        proof {
            lemma_table_at(self.profiles@, i as int);
        }
        match check_entry(
            &self.profiles[i],
            &authority,
            &user_date,
            title.as_str(),
            content.as_str(),
        ) {
            Ok(_) => {},
            Err(e) => {
                return Err(JournalError::Rejected(e));
            },
        }
        if find_entry(&self.entries, &authority, date_seed(user_date.as_str())).is_some() {
            return Err(JournalError::AlreadyExists);
        }
        let mut ctx = AddDiary {
            user_profile: copy_profile(&self.profiles[i]),
            diary_account: DiaryAccount::default(),
            authority,
        };
        match add_diary(&mut ctx, user_date, content, title, image, uuid) {
            Ok(_) => {},
            Err(e) => {
                return Err(JournalError::Rejected(e));
            },
        }
        proof {
            lemma_table_update(self.profiles@, i as int, ctx.user_profile);
            lemma_table_push(self.entries@, ctx.diary_account);
            self@.append_entry_preserves_wf(
                authority,
                user_date@,
                content@,
                title@,
                image@,
                uuid@,
            );
        }
        self.profiles[i] = ctx.user_profile;
        self.entries.push(ctx.diary_account);
        Ok(())
    }

    /// Removes the entry of `authority` for `user_date`.
    ///
    /// Without the profile or without the entry the answer is `NotFound`, and what the
    /// operation itself refuses is `Rejected`; on either nothing changes. Otherwise the
    /// entry is dropped and the profile counts one less. The date written last stays.
    pub fn remove_entry(&mut self, authority: Identity, user_date: String) -> (result: Result<
        (),
        JournalError,
    >)
        requires
            old(self).wf(),
        ensures
            final(self).wf(),
            result == old(self)@.remove_entry_verdict(authority, user_date@),
            final(self)@ == old(self)@.remove_entry(authority, user_date@),
    {
        proof {
            lemma_table_dom(self.profiles@);
            lemma_table_dom(self.entries@);
        }
        let i = match find_profile(&self.profiles, &authority) {
            Some(i) => i,
            None => {
                return Err(JournalError::NotFound);
            },
        };
        let k = match find_entry(&self.entries, &authority, date_seed(user_date.as_str())) {
            Some(k) => k,
            None => {
                return Err(JournalError::NotFound);
            },
        };
        proof {
            lemma_table_at(self.profiles@, i as int);
            lemma_table_at(self.entries@, k as int);
            lemma_table_remove(self.entries@, k as int);
        }
        let entry = self.entries.remove(k);
        let mut ctx = RemoveDiary {
            user_profile: copy_profile(&self.profiles[i]),
            diary_account: entry,
            authority,
        };
        match remove_diary(&mut ctx, user_date) {
            Ok(_) => {},
            Err(e) => {
                self.entries.insert(k, ctx.diary_account);
                assert(self.entries@ =~= old(self).entries@);
                return Err(JournalError::Rejected(e));
            },
        }
        proof {
            lemma_table_update(self.profiles@, i as int, ctx.user_profile);
            old(self)@.remove_entry_preserves_wf(authority, user_date@);
        }
        self.profiles[i] = ctx.user_profile;
        Ok(())
    }
}

} // verus!
