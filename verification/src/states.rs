use vstd::prelude::*;

use crate::identity::Identity;

verus! {

/// The one record an identity has: how many entries it holds and when it last wrote.
#[derive(Clone, Debug)]
pub struct UserProfile {
    /// The identity that may act on this profile.
    pub authority: Identity,
    /// Entries created minus entries removed.
    pub diary_count: u8,
    /// Date of the entry created last; empty until the first one.
    pub last_diary_date: String,
}

/// What a profile holds, as mathematical values.
pub struct UserProfileView {
    pub authority: Identity,
    pub diary_count: nat,
    pub last_diary_date: Seq<char>,
}

impl View for UserProfile {
    type V = UserProfileView;

    open spec fn view(&self) -> UserProfileView {
        UserProfileView {
            authority: self.authority,
            diary_count: self.diary_count as nat,
            last_diary_date: self.last_diary_date@,
        }
    }
}

impl Default for UserProfile {
    /// A blank profile: the all-zero owner, no entries, no date.
    fn default() -> (profile: Self)
        ensures
            profile.authority.is_zero(),
            profile.diary_count == 0,
            profile.last_diary_date@ == Seq::<char>::empty(),
    {
        UserProfile {
            authority: Identity::default(),
            diary_count: 0,
            last_diary_date: String::new(),
        }
    }
}

/// One dated journal entry.
#[derive(Clone, Debug)]
pub struct DiaryAccount {
    /// The identity that wrote the entry.
    pub authority: Identity,
    /// Free text of at most 10000 characters.
    pub content: String,
    /// Free text of at most 100 characters.
    pub title: String,
    /// A reference to a picture.
    pub image: String,
    /// The day the entry belongs to.
    pub date: String,
    /// An identifier chosen by the caller.
    pub uuid: String,
}

/// What an entry holds, as mathematical values.
pub struct DiaryAccountView {
    pub authority: Identity,
    pub content: Seq<char>,
    pub title: Seq<char>,
    pub image: Seq<char>,
    pub date: Seq<char>,
    pub uuid: Seq<char>,
}

impl View for DiaryAccount {
    type V = DiaryAccountView;

    open spec fn view(&self) -> DiaryAccountView {
        DiaryAccountView {
            authority: self.authority,
            content: self.content@,
            title: self.title@,
            image: self.image@,
            date: self.date@,
            uuid: self.uuid@,
        }
    }
}

impl Default for DiaryAccount {
    /// A blank entry: the all-zero owner and five empty texts.
    fn default() -> (entry: Self)
        ensures
            entry.authority.is_zero(),
            entry.content@ == Seq::<char>::empty(),
            entry.title@ == Seq::<char>::empty(),
            entry.image@ == Seq::<char>::empty(),
            entry.date@ == Seq::<char>::empty(),
            entry.uuid@ == Seq::<char>::empty(),
    {
        DiaryAccount {
            authority: Identity::default(),
            content: String::new(),
            title: String::new(),
            image: String::new(),
            date: String::new(),
            uuid: String::new(),
        }
    }
}

} // verus!
