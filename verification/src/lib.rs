//! A personal journal: one profile per identity, and dated entries appended to it.
//!
//! The crate holds the records ([`states`]), the three operations on them
//! ([`initialize_user`], [`add_diary`], [`remove_diary`]) with the rules they enforce,
//! and a record store ([`store::Journal`]) that keeps every profile and entry and
//! applies the operations to them.
use vstd::prelude::*;
use vstd::slice::slice_subrange;
use vstd::string::*;
use vstd::utf8::encode_utf8;

pub mod error;
pub mod identity;
pub mod laws;
pub mod model;
pub mod states;
pub mod store;
pub mod table;

use crate::error::DiaryError;
use crate::identity::Identity;
use crate::states::{DiaryAccount, DiaryAccountView, UserProfile, UserProfileView};

verus! {

/// The most characters a title may have.
pub const MAX_TITLE_CHARS: usize = 100;

/// The most characters a content may have.
pub const MAX_CONTENT_CHARS: usize = 10000;

/// The most bytes of a date that take part in an entry's key.
pub const MAX_SEED_LEN: usize = 32;

/// The records that initialising a profile works on.
pub struct InitializeUser {
    /// The caller.
    pub authority: Identity,
    /// The freshly allocated profile record.
    pub user_profile: UserProfile,
}

/// The records that creating an entry works on.
pub struct AddDiary {
    /// The caller's profile.
    pub user_profile: UserProfile,
    /// The freshly allocated entry record.
    pub diary_account: DiaryAccount,
    /// The caller.
    pub authority: Identity,
}

/// The records that removing an entry works on.
pub struct RemoveDiary {
    /// The caller's profile.
    pub user_profile: UserProfile,
    /// The entry to remove.
    pub diary_account: DiaryAccount,
    /// The caller.
    pub authority: Identity,
}

/// The key bytes of a date: its UTF-8 encoding, cut after `MAX_SEED_LEN` bytes.
pub open spec fn spec_date_seed(date: Seq<char>) -> Seq<u8> {
    let bytes = encode_utf8(date);
    if bytes.len() > MAX_SEED_LEN {
        bytes.subrange(0, MAX_SEED_LEN as int)
    } else {
        bytes
    }
}

/// The part of a date that identifies an entry among those of one owner.
///
/// Two dates that agree on their first 32 bytes name the same entry.
pub fn date_seed(date: &str) -> (seed: &[u8])
    ensures
        seed@ == spec_date_seed(date@),
        seed@.len() <= MAX_SEED_LEN,
{
    let b = date.as_bytes();
    if b.len() > MAX_SEED_LEN {
        slice_subrange(b, 0, MAX_SEED_LEN)
    } else {
        b
    }
}

/// The bytes that an entry with these five texts takes in storage: 8 for the record
/// header, 32 for the owner, and for each text 4 for its length and then its UTF-8
/// bytes.
pub open spec fn spec_diary_space(
    content: Seq<char>,
    title: Seq<char>,
    image: Seq<char>,
    date: Seq<char>,
    uuid: Seq<char>,
) -> nat {
    8 + 32 + (4 + encode_utf8(content).len()) + (4 + encode_utf8(title).len()) + (4
        + encode_utf8(image).len()) + (4 + encode_utf8(date).len()) + (4 + encode_utf8(
        uuid,
    ).len())
}

/// The storage to set aside for an entry with these five texts, sized to them exactly,
/// or `None` where that many bytes cannot be counted in a `usize`.
pub fn diary_space(content: &str, title: &str, image: &str, date: &str, uuid: &str) -> (space:
    Option<usize>)
    ensures
        match space {
            Some(n) => n == spec_diary_space(content@, title@, image@, date@, uuid@),
            None => spec_diary_space(content@, title@, image@, date@, uuid@) > usize::MAX,
        },
{
    let fixed: usize = 8 + 32 + 4 + 4 + 4 + 4 + 4;
    let with_content = match fixed.checked_add(content.as_bytes().len()) {
        Some(n) => n,
        None => {
            return None;
        },
    };
    let with_title = match with_content.checked_add(title.as_bytes().len()) {
        Some(n) => n,
        None => {
            return None;
        },
    };
    let with_image = match with_title.checked_add(image.as_bytes().len()) {
        Some(n) => n,
        None => {
            return None;
        },
    };
    let with_date = match with_image.checked_add(date.as_bytes().len()) {
        Some(n) => n,
        None => {
            return None;
        },
    };
    with_date.checked_add(uuid.as_bytes().len())
}

/// The answer to a request to create an entry, as far as it rests on the request and
/// the profile alone. The first rule that is broken decides.
pub open spec fn spec_check_entry(
    profile: UserProfileView,
    caller: Identity,
    date: Seq<char>,
    title: Seq<char>,
    content: Seq<char>,
) -> Result<(), DiaryError> {
    if profile.authority != caller {
        Err(DiaryError::Unauthorized)
    } else if profile.last_diary_date == date {
        Err(DiaryError::TodayDiaryIsALreadyExist)
    } else if title.len() > MAX_TITLE_CHARS {
        Err(DiaryError::TitleTooLong)
    } else if content.len() > MAX_CONTENT_CHARS {
        Err(DiaryError::ContentTooLong)
    } else {
        Ok(())
    }
}

/// Checks a request to create an entry against the caller's profile: the caller owns
/// the profile, the date is not the one written last, and title and content are within
/// their limits, counted in characters.
pub fn check_entry(
    profile: &UserProfile,
    caller: &Identity,
    date: &String,
    title: &str,
    content: &str,
) -> (verdict: Result<(), DiaryError>)
    ensures
        verdict == spec_check_entry(profile@, *caller, date@, title@, content@),
{
    if profile.authority != *caller {
        return Err(DiaryError::Unauthorized);
    }
    if profile.last_diary_date == *date {
        return Err(DiaryError::TodayDiaryIsALreadyExist);
    }
    if title.unicode_len() > MAX_TITLE_CHARS {
        return Err(DiaryError::TitleTooLong);
    }
    if content.unicode_len() > MAX_CONTENT_CHARS {
        return Err(DiaryError::ContentTooLong);
    }
    Ok(())
}

/// The answer of [`add_diary`]: that of [`check_entry`], and after it the counter,
/// which must have room for one more.
pub open spec fn spec_add_diary(
    profile: UserProfileView,
    caller: Identity,
    date: Seq<char>,
    title: Seq<char>,
    content: Seq<char>,
) -> Result<(), DiaryError> {
    match spec_check_entry(profile, caller, date, title, content) {
        Err(e) => Err(e),
        Ok(_) => if profile.diary_count >= u8::MAX {
            Err(DiaryError::MathOverflow)
        } else {
            Ok(())
        },
    }
}

/// The profile after an entry for `date` was created.
pub open spec fn profile_after_add(profile: UserProfileView, date: Seq<char>) -> UserProfileView {
    UserProfileView {
        authority: profile.authority,
        diary_count: profile.diary_count + 1,
        last_diary_date: date,
    }
}

/// The answer of [`remove_diary`].
pub open spec fn spec_remove_diary(
    profile: UserProfileView,
    entry: DiaryAccountView,
    caller: Identity,
) -> Result<(), DiaryError> {
    if profile.authority != caller {
        Err(DiaryError::Unauthorized)
    } else if entry.authority != caller {
        Err(DiaryError::NotAllowed)
    } else if profile.diary_count == 0 {
        Err(DiaryError::MathOverflow)
    } else {
        Ok(())
    }
}

/// The profile after one of its entries was removed. The date written last stays.
pub open spec fn profile_after_remove(profile: UserProfileView) -> UserProfileView {
    UserProfileView {
        authority: profile.authority,
        diary_count: (profile.diary_count - 1) as nat,
        last_diary_date: profile.last_diary_date,
    }
}

/// Makes the profile record the caller's: no entries yet, and no date.
pub fn initialize_user(ctx: &mut InitializeUser) -> (result: Result<(), DiaryError>)
    ensures
        result is Ok,
        final(ctx).authority == old(ctx).authority,
        final(ctx).user_profile@ == (UserProfileView {
            authority: old(ctx).authority,
            diary_count: 0,
            last_diary_date: Seq::empty(),
        }),
{
    ctx.user_profile.authority = ctx.authority;
    ctx.user_profile.diary_count = 0;
    ctx.user_profile.last_diary_date = String::new();
    Ok(())
}

/// Creates the entry for `user_date`.
///
/// The request is checked first: the caller owns the profile, the date differs from the
/// one written last, the title has at most 100 characters, the content at most 10000,
/// and the counter has room. The first rule that is broken is the answer, and then no
/// record changes. Otherwise the entry record takes the caller and the five texts,
/// and the profile takes the date and counts one more.
pub fn add_diary(
    ctx: &mut AddDiary,
    user_date: String,
    content: String,
    title: String,
    image: String,
    uuid: String,
) -> (result: Result<(), DiaryError>)
    ensures
        result == spec_add_diary(
            old(ctx).user_profile@,
            old(ctx).authority,
            user_date@,
            title@,
            content@,
        ),
        result is Err ==> *final(ctx) == *old(ctx),
        result is Ok ==> {
            &&& final(ctx).authority == old(ctx).authority
            &&& final(ctx).user_profile@ == profile_after_add(old(ctx).user_profile@, user_date@)
            &&& final(ctx).diary_account@ == (DiaryAccountView {
                authority: old(ctx).authority,
                content: content@,
                title: title@,
                image: image@,
                date: user_date@,
                uuid: uuid@,
            })
        },
{
    match check_entry(
        &ctx.user_profile,
        &ctx.authority,
        &user_date,
        title.as_str(),
        content.as_str(),
    ) {
        Err(e) => {
            return Err(e);
        },
        Ok(_) => {},
    }
    let count: u8 = match ctx.user_profile.diary_count.checked_add(1) {
        Some(count) => count,
        None => {
            return Err(DiaryError::MathOverflow);
        },
    };

    ctx.diary_account.authority = ctx.authority;
    ctx.diary_account.title = title;
    ctx.diary_account.content = content;
    ctx.diary_account.date = user_date.clone();
    ctx.diary_account.uuid = uuid;
    ctx.diary_account.image = image;

    ctx.user_profile.last_diary_date = user_date;
    ctx.user_profile.diary_count = count;
    Ok(())
}

/// Takes one entry off the caller's count.
///
/// The caller must own both the profile and the entry, and the count must not be zero;
/// the first rule that is broken is the answer, and then no record changes. The entry
/// record itself is left to the store, which drops it once this has succeeded. The date
/// only names the entry for the store: the date written last stays as it is.
#[allow(unused_variables)]
pub fn remove_diary(ctx: &mut RemoveDiary, user_date: String) -> (result: Result<(), DiaryError>)
    ensures
        result == spec_remove_diary(
            old(ctx).user_profile@,
            old(ctx).diary_account@,
            old(ctx).authority,
        ),
        result is Err ==> *final(ctx) == *old(ctx),
        result is Ok ==> {
            &&& final(ctx).authority == old(ctx).authority
            &&& final(ctx).diary_account == old(ctx).diary_account
            &&& final(ctx).user_profile@ == profile_after_remove(old(ctx).user_profile@)
        },
{
    if ctx.user_profile.authority != ctx.authority {
        return Err(DiaryError::Unauthorized);
    }
    if ctx.diary_account.authority != ctx.authority {
        return Err(DiaryError::NotAllowed);
    }
    let count: u8 = match ctx.user_profile.diary_count.checked_sub(1) {
        Some(count) => count,
        None => {
            return Err(DiaryError::MathOverflow);
        },
    };
    ctx.user_profile.diary_count = count;
    Ok(())
}

} // verus!
