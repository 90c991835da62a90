use beam::profiles::{
    found_in, matches_search, row_subtitle, same_credential, ChangeOutcome, ConnectionProfile,
    ProfileList, Resolution, SecretKey,
};

fn profile(id: &str, name: &str, host: &str, normalized: &str, user: &str) -> ConnectionProfile {
    ConnectionProfile {
        id: id.to_owned(),
        name: name.to_owned(),
        host: host.to_owned(),
        normalized_host: normalized.to_owned(),
        port: 3389,
        username: user.to_owned(),
        resolution: Resolution { width: 1920, height: 1080 },
    }
}

fn key(host: &str, user: &str) -> SecretKey {
    SecretKey { host: host.to_owned(), port: 3389, user: user.to_owned() }
}

fn list(profiles: Vec<ConnectionProfile>) -> ProfileList {
    ProfileList::load(Ok(profiles)).0
}

#[test]
fn duplicated_profiles_share_the_same_credential_identity() {
    let profile = profile("1", "server", "[2001:db8::1]", "2001:db8::1", "alice");
    let duplicate = profile.duplicate("2".to_owned(), "server copy".to_owned());
    assert!(same_credential(&profile, &duplicate));
    assert_eq!(duplicate.id, "2");
    assert_eq!(duplicate.name, "server copy");
    assert_eq!(duplicate.host, "[2001:db8::1]");
}

#[test]
fn editing_endpoint_or_user_changes_credential_identity() {
    let profile = profile("1", "server", "host", "host", "alice");
    let mut edited = profile.clone();
    edited.username = "bob".into();
    assert!(!same_credential(&profile, &edited));
    edited.username = profile.username.clone();
    edited.port += 1;
    assert!(!same_credential(&profile, &edited));
}

#[test]
fn renaming_keeps_the_credential_and_another_host_changes_it() {
    let a = profile("1", "server", "HOST", "host", "alice");
    let mut b = profile("2", "other", "host", "host", "alice");
    assert!(same_credential(&a, &b));
    b.normalized_host = "host2".into();
    assert!(!same_credential(&a, &b));
}

#[test]
fn clone_keeps_every_field() {
    let p = profile("1", "server", "HOST", "host", "alice");
    assert_eq!(p.clone(), p);
    assert_eq!(p.secret_key(), key("host", "alice"));
}

#[test]
fn search_ignores_case_and_looks_at_name_and_host() {
    let p = profile("1", "Servidor ÁGUA", "Rdp.Example.COM", "rdp.example.com", "alice");
    assert!(matches_search(&p, ""));
    assert!(matches_search(&p, "SERVIDOR"));
    assert!(matches_search(&p, "água"));
    assert!(matches_search(&p, "example.com"));
    assert!(!matches_search(&p, "alice"));
    assert!(!matches_search(&p, "servidorx"));
}

#[test]
fn search_takes_lowercase_strings_as_they_are() {
    assert!(found_in("", "", ""));
    assert!(found_in("b", "abc", ""));
    assert!(found_in("c", "ab", "bc"));
    assert!(found_in("abc", "abc", ""));
    assert!(!found_in("abcd", "abc", "bcd"));
    assert!(!found_in("B", "abc", "abc"));
    assert!(found_in("aab", "aaab", ""));
}

#[test]
fn subtitle_says_who_connects_where() {
    assert_eq!(row_subtitle("alice", "host:3389"), "alice@host:3389");
}

#[test]
fn failed_load_starts_with_an_empty_list_and_the_error() {
    let (profiles, error) = ProfileList::load(Err("disco".to_owned()));
    assert!(profiles.profiles().is_empty());
    assert_eq!(profiles.visible_page(), "empty");
    assert_eq!(error, Some("disco".to_owned()));
    let (profiles, error) = ProfileList::load(Ok(vec![profile("1", "a", "h", "h", "u")]));
    assert_eq!(profiles.visible_page(), "list");
    assert_eq!(error, None);
}

#[test]
fn added_profile_is_listed_last() {
    let mut profiles = list(vec![profile("1", "a", "h", "h", "u")]);
    let change = profiles.plan_add(profile("2", "b", "h", "h", "u"));
    assert_eq!(change.orphaned, None);
    assert_eq!(profiles.commit(change, Ok(())), ChangeOutcome::Saved { orphaned: None });
    let ids: Vec<&str> = profiles.profiles().iter().map(|p| p.id.as_str()).collect();
    assert_eq!(ids, vec!["1", "2"]);
}

#[test]
fn duplicate_is_listed_last() {
    let original = profile("1", "a", "h", "h", "u");
    let mut profiles = list(vec![original.clone(), profile("2", "b", "h", "h", "u")]);
    let change = profiles.plan_duplicate(&original, "3".to_owned(), "a copy".to_owned());
    profiles.commit(change, Ok(()));
    assert_eq!(profiles.profiles().len(), 3);
    assert_eq!(profiles.profiles()[2].name, "a copy");
    assert_eq!(profiles.profiles()[2].host, "h");
}

#[test]
fn failed_save_leaves_the_list_as_it_was() {
    let before = vec![profile("1", "a", "h", "h", "u")];
    let mut profiles = list(before.clone());
    let change = profiles.plan_delete(&before[0]);
    assert_eq!(
        profiles.commit(change, Err("disco cheio".to_owned())),
        ChangeOutcome::NotSaved("disco cheio".to_owned())
    );
    assert_eq!(profiles.profiles(), &before);
}

#[test]
fn edit_of_a_profile_that_is_gone_does_nothing() {
    let profiles = list(vec![profile("1", "a", "h", "h", "u")]);
    assert_eq!(profiles.plan_edit(profile("9", "a", "h", "h", "u")), None);
}

#[test]
fn edit_removes_the_old_password_when_nothing_uses_it() {
    let mut profiles = list(vec![
        profile("1", "a", "h", "h", "u"),
        profile("2", "b", "g", "g", "u"),
    ]);
    let change = profiles.plan_edit(profile("1", "a", "h", "h", "v")).unwrap();
    assert_eq!(
        profiles.commit(change, Ok(())),
        ChangeOutcome::Saved { orphaned: Some(key("h", "u")) }
    );
    assert_eq!(profiles.profiles()[0].username, "v");
    assert_eq!(profiles.profiles()[1].id, "2");
}

#[test]
fn edit_keeps_a_password_that_is_still_used() {
    let profiles = list(vec![
        profile("1", "a", "h", "h", "u"),
        profile("2", "copy", "H", "h", "u"),
    ]);
    let change = profiles.plan_edit(profile("1", "a", "h", "h", "v")).unwrap();
    assert_eq!(change.orphaned, None);
    let change = profiles.plan_edit(profile("1", "renamed", "h", "h", "u")).unwrap();
    assert_eq!(change.orphaned, None);
    assert_eq!(change.profiles[0].name, "renamed");
}

#[test]
fn delete_removes_the_password_with_its_last_user() {
    let a = profile("1", "a", "h", "h", "u");
    let b = profile("2", "b", "h", "h", "u");
    let mut profiles = list(vec![a.clone(), b.clone()]);
    let change = profiles.plan_delete(&a);
    assert_eq!(profiles.commit(change, Ok(())), ChangeOutcome::Saved { orphaned: None });
    assert_eq!(profiles.profiles(), &vec![b.clone()]);
    let change = profiles.plan_delete(&b);
    assert_eq!(
        profiles.commit(change, Ok(())),
        ChangeOutcome::Saved { orphaned: Some(key("h", "u")) }
    );
    assert!(profiles.profiles().is_empty());
}
