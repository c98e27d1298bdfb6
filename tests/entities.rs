use shuttle_core::entities::{
    Account, AccountId, AccountName, AccountTypes, Banner, DisplayName, Follow, Icon, IsBot,
    Profile, ProfileId, Summary, Timestamp, UpdateTime, ACCOUNT_ID_MAX, ACCOUNT_ID_MIN,
};
use shuttle_core::KernelError;
use time::OffsetDateTime;

fn now() -> Timestamp {
    Timestamp::new(OffsetDateTime::now_utc().unix_timestamp_nanos())
}

fn is_random_uuid(id: u128) -> bool {
    (id >> 76) & 0xf == 4 && (id >> 62) & 0x3 == 2
}

#[test]
fn account_struct_test() {
    let _account = Account::new(1234567890, "test_man".to_string(), false, now(), now());
}

#[test]
fn follow_struct_test() {
    let _follow = Follow::new();
}

#[test]
fn profile_struct_test() {
    let _profile = Profile::new(
        uuid::Uuid::new_v4().as_u128(),
        AccountId::default().into(),
        now(),
        now(),
        "Shuttle".to_string(),
        "This is Shuttle!".to_string(),
        "example.com".to_string(),
        "example.com".to_string(),
    );
}

#[test]
fn account_getters_return_what_was_built() {
    let account = Account::new(
        1234567890,
        "test_man".to_string(),
        true,
        Timestamp::new(10),
        Timestamp::new(20),
    );
    assert_eq!(*account.id().as_ref(), 1234567890);
    assert_eq!(account.name().as_ref(), "test_man");
    assert!(*account.bot().as_ref());
    assert_eq!(account.date().created_at().as_ref().unix_nanos(), 10);
    assert_eq!(account.date().updated_at().as_ref().unix_nanos(), 20);
}

#[test]
fn account_round_trip_without_change() {
    let account = Account::new(42, "alice".to_string(), false, now(), now());
    let copy = account.clone();
    assert_eq!(account.into_destruct().freeze(), copy);
}

#[test]
fn account_round_trip_with_a_changed_part() {
    let account = Account::new(42, "alice".to_string(), false, Timestamp::new(1), Timestamp::new(1));
    let mut parts = account.clone().into_destruct();
    parts.name = AccountName::new("bob".to_string());
    parts.bot = IsBot::new(true);
    let changed = parts.freeze();
    assert_eq!(changed.name().as_ref(), "bob");
    assert!(*changed.bot().as_ref());
    assert_eq!(changed.id(), account.id());
    assert_eq!(account.name().as_ref(), "alice");
}

#[test]
fn profile_round_trip_without_change() {
    let profile = Profile::new(
        7,
        42,
        now(),
        now(),
        "Shuttle".to_string(),
        "This is Shuttle!".to_string(),
        "example.com".to_string(),
        "example.com".to_string(),
    );
    let copy = profile.clone();
    assert_eq!(profile.into_destruct().freeze(), copy);
}

#[test]
fn update_time_round_trip_without_change() {
    let date = UpdateTime::new(Timestamp::new(-5), Timestamp::new(9));
    assert_eq!(date.into_destruct().freeze(), date);
}

#[test]
fn generated_account_ids_stay_in_range() {
    assert_eq!(ACCOUNT_ID_MIN, 1_000_000_000_000_000);
    assert_eq!(ACCOUNT_ID_MAX, 9_999_999_999_999_999);
    for _ in 0..10_000 {
        let id: i64 = AccountId::default().into();
        assert!((ACCOUNT_ID_MIN..=ACCOUNT_ID_MAX).contains(&id));
    }
}

#[test]
fn generated_account_ids_differ() {
    let a: i64 = AccountId::default().into();
    let b: i64 = AccountId::default().into();
    let c: i64 = AccountId::default().into();
    assert!(a != b || b != c);
}

#[test]
fn generated_profile_ids_are_random_uuids() {
    for _ in 0..100 {
        let id: u128 = ProfileId::default().into();
        assert!(is_random_uuid(id));
    }
    let a: u128 = ProfileId::default().into();
    let b: u128 = ProfileId::default().into();
    assert_ne!(a, b);
}

#[test]
fn profile_id_reads_a_hyphenated_uuid() {
    let id = ProfileId::try_from("550e8400-e29b-41d4-a716-446655440000").unwrap();
    assert_eq!(*id.as_ref(), 0x550e8400_e29b_41d4_a716_446655440000u128);
}

#[test]
fn profile_id_reads_a_simple_uuid() {
    let id = ProfileId::try_from("550e8400e29b41d4a716446655440000").unwrap();
    assert_eq!(u128::from(id), 0x550e8400_e29b_41d4_a716_446655440000u128);
}

#[test]
fn profile_id_refuses_text_that_is_no_uuid() {
    match ProfileId::try_from("not a uuid") {
        Err(KernelError::Convert(msg)) => {
            assert!(msg.starts_with("failed parse uuid from &str. `uuid`: "));
            assert!(msg.len() > "failed parse uuid from &str. `uuid`: ".len());
        },
        other => panic!("unexpected: {:?}", other),
    }
}

#[test]
fn profile_id_refuses_empty_text() {
    assert!(matches!(ProfileId::try_from(""), Err(KernelError::Convert(_))));
}

#[test]
fn account_id_text_matches_debug() {
    for n in [0i64, 7, 42, -1, 1234567890, i64::MAX, i64::MIN] {
        let id = AccountId::new(n);
        assert_eq!(id.debug_text(), format!("{:?}", id));
    }
    assert_eq!(AccountId::new(42).debug_text(), "AccountId(42)");
}

#[test]
fn content_defaults_are_empty() {
    assert_eq!(Summary::default().as_ref(), "");
    assert_eq!(Icon::default().as_ref(), "");
    assert_eq!(Banner::default().as_ref(), "");
}

#[test]
fn value_objects_give_back_their_values() {
    assert_eq!(String::from(DisplayName::new("A".to_string())), "A");
    assert_eq!(String::from(Summary::new("s".to_string())), "s");
    assert_eq!(String::from(Icon::new("i".to_string())), "i");
    assert_eq!(String::from(Banner::new("b".to_string())), "b");
    assert_eq!(String::from(AccountName::new("n".to_string())), "n");
    assert!(bool::from(IsBot::new(true)));
    assert_eq!(i64::from(AccountId::new(-3)), -3);
    assert_eq!(u128::from(ProfileId::new(99)), 99);
}

#[test]
fn follow_starts_empty() {
    let follow = Follow::new();
    assert!(follow.as_ref().is_empty());
    let target = AccountTypes::Federate("someone@example.com".to_string());
    assert!(matches!(target, AccountTypes::Federate(_)));
    assert!(matches!(AccountTypes::Local(AccountId::new(1)), AccountTypes::Local(_)));
}

#[test]
fn generated_account_ids_spread_over_the_range() {
    let mut seen = [false; 10];
    for _ in 0..2_000 {
        let id: i64 = AccountId::default().into();
        seen[(id / 1_000_000_000_000_000) as usize] = true;
    }
    assert!(!seen[0]);
    assert!(seen[1..].iter().all(|s| *s));
}

#[test]
fn from_parsed_wraps_the_value_or_reports_convert() {
    let id = ProfileId::from_parsed(Ok(5)).unwrap();
    assert_eq!(u128::from(id), 5);
    let err = uuid::Uuid::try_parse("xyz").unwrap_err();
    match ProfileId::from_parsed(Err(err)) {
        Err(KernelError::Convert(msg)) => {
            assert_eq!(msg, "failed parse uuid from &str. `uuid`: failed to parse a UUID");
        },
        other => panic!("unexpected: {:?}", other),
    }
}
