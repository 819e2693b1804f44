//! What holds of the operations whatever the records and the request are.
use vstd::prelude::*;

use crate::error::{DiaryError, JournalError};
use crate::identity::Identity;
use crate::model::{entry_key, JournalView};
use crate::states::{DiaryAccountView, UserProfileView};
use crate::{
    profile_after_add, profile_after_remove, spec_add_diary, spec_check_entry, spec_remove_diary,
    MAX_CONTENT_CHARS, MAX_TITLE_CHARS,
};

verus! {

/// Initialising the same identity a second time fails with `AlreadyExists`, whatever
/// the first attempt answered, and leaves the journal as the first attempt left it.
pub proof fn second_initialisation_fails(journal: JournalView, who: Identity)
    ensures
        journal.create_profile(who).create_profile_verdict(who) == Err::<(), JournalError>(
            JournalError::AlreadyExists,
        ),
        journal.create_profile(who).create_profile(who) == journal.create_profile(who),
{
}

/// A profile that counts no entries cannot have one removed: the operation fails, and
/// where the caller owns both records it fails with `MathOverflow`.
pub proof fn removal_from_empty_profile_fails(
    profile: UserProfileView,
    entry: DiaryAccountView,
    caller: Identity,
)
    requires
        profile.diary_count == 0,
    ensures
        spec_remove_diary(profile, entry, caller) is Err,
        profile.authority == caller && entry.authority == caller ==> spec_remove_diary(
            profile,
            entry,
            caller,
        ) == Err::<(), DiaryError>(DiaryError::MathOverflow),
{
}

/// In a well-formed journal a profile that counts no entries has none, so removing
/// one fails with `NotFound` and changes nothing.
pub proof fn removal_without_entries_fails(journal: JournalView, who: Identity, date: Seq<char>)
    requires
        journal.wf(),
        journal.profiles.contains_key(who),
        journal.profiles[who].diary_count == 0,
    ensures
        journal.remove_entry_verdict(who, date) == Err::<(), JournalError>(JournalError::NotFound),
        journal.remove_entry(who, date) == journal,
{
    journal.lemma_entries_of_finite(who);
    if journal.entries.contains_key(entry_key(who, date)) {
        assert(journal.entries_of(who).contains(entry_key(who, date)));
    }
}

/// In a well-formed journal an entry that is there can always be removed: the owners
/// agree and the count is not zero, so the operation itself never refuses.
pub proof fn removal_of_existing_entry_succeeds(
    journal: JournalView,
    who: Identity,
    date: Seq<char>,
)
    requires
        journal.wf(),
        journal.entries.contains_key(entry_key(who, date)),
    ensures
        journal.remove_entry_verdict(who, date) is Ok,
{
    let key = entry_key(who, date);
    assert(journal.profiles.contains_key(key.0));
    journal.lemma_entries_of_finite(who);
    assert(journal.entries_of(who).contains(key));
}

/// A title of more than 100 characters is never accepted. It is answered with
/// `TitleTooLong` unless an earlier rule is broken too: the caller does not own the
/// profile, or the date is the one written last.
pub proof fn long_title_is_refused(
    profile: UserProfileView,
    caller: Identity,
    date: Seq<char>,
    title: Seq<char>,
    content: Seq<char>,
)
    requires
        title.len() > MAX_TITLE_CHARS,
    ensures
        spec_add_diary(profile, caller, date, title, content) is Err,
        profile.authority == caller && profile.last_diary_date != date ==> spec_add_diary(
            profile,
            caller,
            date,
            title,
            content,
        ) == Err::<(), DiaryError>(DiaryError::TitleTooLong),
{
}

/// A content of more than 10000 characters is never accepted. It is answered with
/// `ContentTooLong` unless an earlier rule is broken too: the caller does not own the
/// profile, the date is the one written last, or the title is too long.
pub proof fn long_content_is_refused(
    profile: UserProfileView,
    caller: Identity,
    date: Seq<char>,
    title: Seq<char>,
    content: Seq<char>,
)
    requires
        content.len() > MAX_CONTENT_CHARS,
    ensures
        spec_add_diary(profile, caller, date, title, content) is Err,
        profile.authority == caller && profile.last_diary_date != date && title.len()
            <= MAX_TITLE_CHARS ==> spec_add_diary(profile, caller, date, title, content) == Err::<
            (),
            DiaryError,
        >(DiaryError::ContentTooLong),
{
}

/// A profile that counts 255 entries takes no further one. The answer is `MathOverflow`
/// unless the request breaks a rule on owner, date, title or content.
pub proof fn full_counter_is_refused(
    profile: UserProfileView,
    caller: Identity,
    date: Seq<char>,
    title: Seq<char>,
    content: Seq<char>,
)
    requires
        profile.diary_count == u8::MAX,
    ensures
        spec_add_diary(profile, caller, date, title, content) is Err,
        spec_check_entry(profile, caller, date, title, content) is Ok ==> spec_add_diary(
            profile,
            caller,
            date,
            title,
            content,
        ) == Err::<(), DiaryError>(DiaryError::MathOverflow),
{
}

/// The journal creates no record for a request that it turns down, whatever the
/// reason: a title or a content that is too long, a full counter, or any other.
pub proof fn refused_entry_creates_nothing(
    journal: JournalView,
    who: Identity,
    date: Seq<char>,
    content: Seq<char>,
    title: Seq<char>,
    image: Seq<char>,
    uuid: Seq<char>,
)
    requires
        journal.append_entry_verdict(who, date, title, content) is Err,
    ensures
        journal.append_entry(who, date, content, title, image, uuid) == journal,
{
}

/// The journal accepts no title of more than 100 characters, no content of more than
/// 10000, and no entry for a profile that counts 255.
pub proof fn journal_refuses_what_the_rules_refuse(
    journal: JournalView,
    who: Identity,
    date: Seq<char>,
    title: Seq<char>,
    content: Seq<char>,
)
    requires
        title.len() > MAX_TITLE_CHARS || content.len() > MAX_CONTENT_CHARS || (
        journal.profiles.contains_key(who) && journal.profiles[who].diary_count == u8::MAX),
    ensures
        journal.append_entry_verdict(who, date, title, content) is Err,
{
}

/// What the journal answers where the handler would accept the request: `Ok` if no
/// entry stands under the key, `AlreadyExists` if one does.
pub proof fn journal_accepts_what_the_rules_accept(
    journal: JournalView,
    who: Identity,
    date: Seq<char>,
    title: Seq<char>,
    content: Seq<char>,
)
    requires
        journal.profiles.contains_key(who),
        spec_add_diary(journal.profiles[who], who, date, title, content) is Ok,
    ensures
        journal.append_entry_verdict(who, date, title, content) == (if journal.entries.contains_key(
            entry_key(who, date),
        ) {
            Err::<(), JournalError>(JournalError::AlreadyExists)
        } else {
            Ok::<(), JournalError>(())
        }),
{
}

/// Removal does not take back the date written last. So once an entry for a date was
/// created and removed again, a new entry for that date is refused with
/// `TodayDiaryIsALreadyExist`, and the journal stays as the removal left it.
pub proof fn removed_date_stays_blocked(
    journal: JournalView,
    who: Identity,
    date: Seq<char>,
    content: Seq<char>,
    title: Seq<char>,
    image: Seq<char>,
    uuid: Seq<char>,
)
    requires
        journal.wf(),
        journal.append_entry_verdict(who, date, title, content) is Ok,
    ensures
        ({
            let created = journal.append_entry(who, date, content, title, image, uuid);
            let removed = created.remove_entry(who, date);
            &&& created.remove_entry_verdict(who, date) is Ok
            &&& removed.append_entry_verdict(who, date, title, content) == Err::<
                (),
                JournalError,
            >(JournalError::Rejected(DiaryError::TodayDiaryIsALreadyExist))
            &&& removed.append_entry(who, date, content, title, image, uuid) == removed
        }),
{
    let created = journal.append_entry(who, date, content, title, image, uuid);
    journal.append_entry_preserves_wf(who, date, content, title, image, uuid);
    removal_of_existing_entry_succeeds(created, who, date);
}

/// Creating an entry and removing it again restores every entry and the count; of the
/// whole journal only the date written last differs.
pub proof fn removal_undoes_creation_but_for_the_date(
    journal: JournalView,
    who: Identity,
    date: Seq<char>,
    content: Seq<char>,
    title: Seq<char>,
    image: Seq<char>,
    uuid: Seq<char>,
)
    requires
        journal.wf(),
        journal.append_entry_verdict(who, date, title, content) is Ok,
    ensures
        ({
            let removed = journal.append_entry(who, date, content, title, image, uuid).remove_entry(
                who,
                date,
            );
            &&& removed.entries == journal.entries
            &&& removed.profiles == journal.profiles.insert(
                who,
                UserProfileView {
                    authority: who,
                    diary_count: journal.profiles[who].diary_count,
                    last_diary_date: date,
                },
            )
        }),
{
    let created = journal.append_entry(who, date, content, title, image, uuid);
    journal.append_entry_preserves_wf(who, date, content, title, image, uuid);
    removal_of_existing_entry_succeeds(created, who, date);
    let removed = created.remove_entry(who, date);
    assert(removed.entries =~= journal.entries);
    assert(profile_after_remove(profile_after_add(journal.profiles[who], date)) == (
    UserProfileView {
        authority: who,
        diary_count: journal.profiles[who].diary_count,
        last_diary_date: date,
    }));
    assert(removed.profiles =~= journal.profiles.insert(
        who,
        UserProfileView {
            authority: who,
            diary_count: journal.profiles[who].diary_count,
            last_diary_date: date,
        },
    ));
}

/// At most one entry stands under an owner and a date: while one is there, creating
/// another for the same owner and date fails and changes nothing.
pub proof fn one_entry_per_owner_and_date(
    journal: JournalView,
    who: Identity,
    date: Seq<char>,
    content: Seq<char>,
    title: Seq<char>,
    image: Seq<char>,
    uuid: Seq<char>,
)
    requires
        journal.entries.contains_key(entry_key(who, date)),
    ensures
        journal.append_entry_verdict(who, date, title, content) is Err,
        journal.append_entry(who, date, content, title, image, uuid) == journal,
{
}

/// An operation of one identity leaves the profile and the entries of every other
/// identity as they were.
pub proof fn others_are_untouched(
    journal: JournalView,
    who: Identity,
    other: Identity,
    date: Seq<char>,
    content: Seq<char>,
    title: Seq<char>,
    image: Seq<char>,
    uuid: Seq<char>,
)
    requires
        who != other,
    ensures
        ({
            let created = journal.append_entry(who, date, content, title, image, uuid);
            let removed = journal.remove_entry(who, date);
            let initialised = journal.create_profile(who);
            &&& created.profiles.contains_key(other) == journal.profiles.contains_key(other)
            &&& created.profiles[other] == journal.profiles[other]
            &&& removed.profiles.contains_key(other) == journal.profiles.contains_key(other)
            &&& removed.profiles[other] == journal.profiles[other]
            &&& initialised.profiles.contains_key(other) == journal.profiles.contains_key(other)
            &&& initialised.profiles[other] == journal.profiles[other]
            &&& forall|seed: Seq<u8>|
                {
                    &&& created.entries.contains_key((other, seed))
                        == #[trigger] journal.entries.contains_key((other, seed))
                    &&& created.entries[(other, seed)] == journal.entries[(other, seed)]
                    &&& removed.entries.contains_key((other, seed))
                        == journal.entries.contains_key((other, seed))
                    &&& removed.entries[(other, seed)] == journal.entries[(other, seed)]
                    &&& initialised.entries.contains_key((other, seed))
                        == journal.entries.contains_key((other, seed))
                    &&& initialised.entries[(other, seed)] == journal.entries[(other, seed)]
                }
        }),
{
}

} // verus!
