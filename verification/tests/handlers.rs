use personal_journaling::error::DiaryError;
use personal_journaling::identity::Identity;
use personal_journaling::states::{DiaryAccount, UserProfile};
use personal_journaling::{
    add_diary, check_entry, initialize_user, remove_diary, AddDiary, InitializeUser, RemoveDiary,
};

fn who(tag: u8) -> Identity {
    Identity::new([tag; 32])
}

fn profile(owner: Identity, count: u8, last: &str) -> UserProfile {
    UserProfile { authority: owner, diary_count: count, last_diary_date: last.to_string() }
}

fn entry(owner: Identity, date: &str) -> DiaryAccount {
    DiaryAccount {
        authority: owner,
        content: "C".to_string(),
        title: "T".to_string(),
        image: "".to_string(),
        date: date.to_string(),
        uuid: "u1".to_string(),
    }
}

fn add(ctx: &mut AddDiary, date: &str, content: &str, title: &str) -> Result<(), DiaryError> {
    add_diary(
        ctx,
        date.to_string(),
        content.to_string(),
        title.to_string(),
        "img".to_string(),
        "u1".to_string(),
    )
}

fn fresh(owner: Identity, count: u8, last: &str) -> AddDiary {
    AddDiary {
        user_profile: profile(owner, count, last),
        diary_account: DiaryAccount::default(),
        authority: owner,
    }
}

fn unchanged(ctx: &AddDiary, owner: Identity, count: u8, last: &str) {
    assert_eq!(ctx.authority, owner);
    assert_eq!(ctx.user_profile.authority, owner);
    assert_eq!(ctx.user_profile.diary_count, count);
    assert_eq!(ctx.user_profile.last_diary_date, last);
    assert_eq!(ctx.diary_account.authority, Identity::default());
    assert_eq!(ctx.diary_account.content, "");
    assert_eq!(ctx.diary_account.title, "");
    assert_eq!(ctx.diary_account.image, "");
    assert_eq!(ctx.diary_account.date, "");
    assert_eq!(ctx.diary_account.uuid, "");
}

#[test]
fn initialize_user_writes_a_blank_profile_for_the_caller() {
    let a = who(7);
    let mut ctx =
        InitializeUser { authority: a, user_profile: profile(who(9), 42, "2020-02-02") };
    assert_eq!(initialize_user(&mut ctx), Ok(()));
    assert_eq!(ctx.authority, a);
    assert_eq!(ctx.user_profile.authority, a);
    assert_eq!(ctx.user_profile.diary_count, 0);
    assert_eq!(ctx.user_profile.last_diary_date, "");
}

#[test]
fn first_entry_then_same_day_then_next_day() {
    let a = who(1);
    let mut init = InitializeUser { authority: a, user_profile: UserProfile::default() };
    assert_eq!(initialize_user(&mut init), Ok(()));

    let mut ctx = AddDiary {
        user_profile: init.user_profile,
        diary_account: DiaryAccount::default(),
        authority: a,
    };
    let r = add_diary(
        &mut ctx,
        "2024-01-01".to_string(),
        "C".to_string(),
        "T".to_string(),
        "".to_string(),
        "u1".to_string(),
    );
    assert_eq!(r, Ok(()));
    assert_eq!(ctx.user_profile.diary_count, 1);
    assert_eq!(ctx.user_profile.last_diary_date, "2024-01-01");
    assert_eq!(ctx.user_profile.authority, a);
    assert_eq!(ctx.diary_account.authority, a);
    assert_eq!(ctx.diary_account.date, "2024-01-01");
    assert_eq!(ctx.diary_account.title, "T");
    assert_eq!(ctx.diary_account.content, "C");
    assert_eq!(ctx.diary_account.image, "");
    assert_eq!(ctx.diary_account.uuid, "u1");

    let mut again = AddDiary {
        user_profile: ctx.user_profile.clone(),
        diary_account: DiaryAccount::default(),
        authority: a,
    };
    let r = add_diary(
        &mut again,
        "2024-01-01".to_string(),
        "C".to_string(),
        "T".to_string(),
        "".to_string(),
        "u2".to_string(),
    );
    assert_eq!(r, Err(DiaryError::TodayDiaryIsALreadyExist));
    unchanged(&again, a, 1, "2024-01-01");

    let mut next = AddDiary {
        user_profile: again.user_profile,
        diary_account: DiaryAccount::default(),
        authority: a,
    };
    let r = add_diary(
        &mut next,
        "2024-01-02".to_string(),
        "C".to_string(),
        "T".to_string(),
        "".to_string(),
        "u3".to_string(),
    );
    assert_eq!(r, Ok(()));
    assert_eq!(next.user_profile.diary_count, 2);
    assert_eq!(next.user_profile.last_diary_date, "2024-01-02");
    assert_eq!(next.diary_account.uuid, "u3");
}

#[test]
fn add_diary_keeps_each_text_in_its_own_field() {
    let a = who(3);
    let mut ctx = fresh(a, 4, "d0");
    let r = add_diary(
        &mut ctx,
        "the date".to_string(),
        "the content".to_string(),
        "the title".to_string(),
        "the image".to_string(),
        "the uuid".to_string(),
    );
    assert_eq!(r, Ok(()));
    assert_eq!(ctx.diary_account.date, "the date");
    assert_eq!(ctx.diary_account.content, "the content");
    assert_eq!(ctx.diary_account.title, "the title");
    assert_eq!(ctx.diary_account.image, "the image");
    assert_eq!(ctx.diary_account.uuid, "the uuid");
    assert_eq!(ctx.user_profile.diary_count, 5);
    assert_eq!(ctx.user_profile.last_diary_date, "the date");
}

#[test]
fn title_of_101_characters_is_too_long() {
    let a = who(1);
    let title = "é".repeat(101);
    let mut ctx = fresh(a, 0, "");
    assert_eq!(add(&mut ctx, "2024-01-01", "C", &title), Err(DiaryError::TitleTooLong));
    unchanged(&ctx, a, 0, "");
}

#[test]
fn title_is_counted_in_characters_not_bytes() {
    let a = who(1);
    let title = "日".repeat(100);
    assert_eq!(title.len(), 300);
    let mut ctx = fresh(a, 0, "");
    assert_eq!(add(&mut ctx, "2024-01-01", "C", &title), Ok(()));
    assert_eq!(ctx.diary_account.title, title);
    assert_eq!(ctx.user_profile.diary_count, 1);
}

#[test]
fn content_of_10001_characters_is_too_long() {
    let a = who(1);
    let content = "ß".repeat(10001);
    let mut ctx = fresh(a, 0, "");
    assert_eq!(add(&mut ctx, "2024-01-01", &content, "T"), Err(DiaryError::ContentTooLong));
    unchanged(&ctx, a, 0, "");
}

#[test]
fn content_of_10000_characters_is_accepted() {
    let a = who(1);
    let content = "ß".repeat(10000);
    assert_eq!(content.len(), 20000);
    let mut ctx = fresh(a, 0, "");
    assert_eq!(add(&mut ctx, "2024-01-01", &content, "T"), Ok(()));
    assert_eq!(ctx.diary_account.content, content);
}

#[test]
fn the_first_broken_rule_decides() {
    let a = who(1);
    let long_title = "t".repeat(101);
    let long_content = "c".repeat(10001);

    let mut ctx = fresh(a, 255, "same");
    ctx.authority = who(2);
    assert_eq!(add(&mut ctx, "same", &long_content, &long_title), Err(DiaryError::Unauthorized));

    let mut ctx = fresh(a, 255, "same");
    assert_eq!(
        add(&mut ctx, "same", &long_content, &long_title),
        Err(DiaryError::TodayDiaryIsALreadyExist)
    );
    unchanged(&ctx, a, 255, "same");

    let mut ctx = fresh(a, 255, "same");
    assert_eq!(add(&mut ctx, "other", &long_content, &long_title), Err(DiaryError::TitleTooLong));

    let mut ctx = fresh(a, 255, "same");
    assert_eq!(add(&mut ctx, "other", &long_content, "T"), Err(DiaryError::ContentTooLong));

    let mut ctx = fresh(a, 255, "same");
    assert_eq!(add(&mut ctx, "other", "C", "T"), Err(DiaryError::MathOverflow));
    unchanged(&ctx, a, 255, "same");
}

#[test]
fn counter_at_255_takes_no_further_entry() {
    let a = who(1);
    let mut ctx = fresh(a, 254, "d");
    assert_eq!(add(&mut ctx, "e", "C", "T"), Ok(()));
    assert_eq!(ctx.user_profile.diary_count, 255);

    let mut full = fresh(a, 255, "e");
    assert_eq!(add(&mut full, "f", "C", "T"), Err(DiaryError::MathOverflow));
    unchanged(&full, a, 255, "e");
}

#[test]
fn add_diary_for_a_profile_of_someone_else_is_unauthorized() {
    let a = who(1);
    let b = who(2);
    let mut ctx = AddDiary {
        user_profile: profile(a, 3, "d"),
        diary_account: DiaryAccount::default(),
        authority: b,
    };
    assert_eq!(add(&mut ctx, "e", "C", "T"), Err(DiaryError::Unauthorized));
    assert_eq!(ctx.authority, b);
    assert_eq!(ctx.user_profile.authority, a);
    assert_eq!(ctx.user_profile.diary_count, 3);
    assert_eq!(ctx.user_profile.last_diary_date, "d");
    assert_eq!(ctx.diary_account.date, "");
}

#[test]
fn check_entry_answers_as_add_diary_does_before_the_counter() {
    let a = who(1);
    let p = profile(a, 255, "d");
    assert_eq!(check_entry(&p, &a, &"e".to_string(), "T", "C"), Ok(()));
    assert_eq!(
        check_entry(&p, &a, &"d".to_string(), "T", "C"),
        Err(DiaryError::TodayDiaryIsALreadyExist)
    );
    assert_eq!(check_entry(&p, &who(2), &"e".to_string(), "T", "C"), Err(DiaryError::Unauthorized));
    assert_eq!(
        check_entry(&p, &a, &"e".to_string(), &"t".repeat(101), "C"),
        Err(DiaryError::TitleTooLong)
    );
    assert_eq!(
        check_entry(&p, &a, &"e".to_string(), &"t".repeat(100), &"c".repeat(10001)),
        Err(DiaryError::ContentTooLong)
    );
}

#[test]
fn remove_diary_counts_one_less_and_keeps_the_date() {
    let a = who(1);
    let mut ctx = RemoveDiary {
        user_profile: profile(a, 2, "2024-01-02"),
        diary_account: entry(a, "2024-01-02"),
        authority: a,
    };
    assert_eq!(remove_diary(&mut ctx, "2024-01-02".to_string()), Ok(()));
    assert_eq!(ctx.user_profile.diary_count, 1);
    assert_eq!(ctx.user_profile.last_diary_date, "2024-01-02");
    assert_eq!(ctx.user_profile.authority, a);
    assert_eq!(ctx.authority, a);
    assert_eq!(ctx.diary_account.date, "2024-01-02");
    assert_eq!(ctx.diary_account.authority, a);
}

#[test]
fn remove_diary_with_no_entries_counted_underflows() {
    let a = who(1);
    let mut ctx = RemoveDiary {
        user_profile: profile(a, 0, "2024-01-01"),
        diary_account: entry(a, "2024-01-01"),
        authority: a,
    };
    assert_eq!(remove_diary(&mut ctx, "2024-01-01".to_string()), Err(DiaryError::MathOverflow));
    assert_eq!(ctx.user_profile.diary_count, 0);
    assert_eq!(ctx.user_profile.last_diary_date, "2024-01-01");
}

#[test]
fn remove_diary_of_an_entry_of_someone_else_is_not_allowed() {
    let a = who(1);
    let b = who(2);
    let mut ctx = RemoveDiary {
        user_profile: profile(b, 5, "2024-03-03"),
        diary_account: entry(a, "2024-01-01"),
        authority: b,
    };
    assert_eq!(remove_diary(&mut ctx, "2024-01-01".to_string()), Err(DiaryError::NotAllowed));
    assert_eq!(ctx.user_profile.authority, b);
    assert_eq!(ctx.user_profile.diary_count, 5);
    assert_eq!(ctx.user_profile.last_diary_date, "2024-03-03");
    assert_eq!(ctx.diary_account.authority, a);
    assert_eq!(ctx.diary_account.date, "2024-01-01");
    assert_eq!(ctx.authority, b);
}

#[test]
fn remove_diary_with_a_profile_of_someone_else_is_unauthorized() {
    let a = who(1);
    let b = who(2);
    let mut ctx = RemoveDiary {
        user_profile: profile(a, 5, "2024-01-01"),
        diary_account: entry(a, "2024-01-01"),
        authority: b,
    };
    assert_eq!(remove_diary(&mut ctx, "2024-01-01".to_string()), Err(DiaryError::Unauthorized));
    assert_eq!(ctx.user_profile.diary_count, 5);
}
