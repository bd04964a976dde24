use podcast_console::accounts::{
    add_account, build_account, compact_api_key, regenerate_api_keys, remove_account,
    seal_account, update_account, AddOutcome, RemoveOutcome, UpdateOutcome,
};
use podcast_console::command::{parse_command, Command, PodcastCommand, UserCommand};
use podcast_console::input::{
    accept_required, accept_role, is_confirmed, parse_field, read_required_from, read_role_from,
    UpdateField,
};
use podcast_console::models::{Podcast, User};
use podcast_console::podcasts::{find_podcast_by_feed, normalize_feed, RefreshError};
use podcast_console::role::Role;
use podcast_console::store::{AccountStore, StoreError};
use podcast_console::text::{remove_chars, text_is, trim_string};

fn lines(v: &[&str]) -> Vec<String> {
    v.iter().map(|s| s.to_string()).collect()
}

fn args(v: &[&str]) -> Vec<String> {
    lines(v)
}

fn is_hyphenated(k: &str) -> bool {
    k.len() == 36
        && k.char_indices().all(|(i, c)| {
            if i == 8 || i == 13 || i == 18 || i == 23 {
                c == '-'
            } else {
                c.is_ascii_hexdigit() && !c.is_ascii_uppercase()
            }
        })
}

fn store_with_alice() -> AccountStore {
    let mut store = AccountStore::new();
    let user = build_account("alice", "secret", Role::User, "2024-01-01 10:00:00".to_string());
    assert_eq!(add_account(&mut store, user, "y"), Ok(AddOutcome::Created(1)));
    store
}

fn seed_rows(store: &mut AccountStore, name: &str) {
    store.history.add_row(name.to_string());
    store.devices.add_row(name.to_string());
    store.episodes.add_row(name.to_string());
    store.favorites.add_row(name.to_string());
    store.sessions.add_row(name.to_string());
    store.subscriptions.add_row(name.to_string());
}

#[test]
fn trim_string_removes_surrounding_whitespace() {
    assert_eq!(trim_string("  alice \n"), "alice");
    assert_eq!(trim_string("\t\u{3000}a b\u{a0}"), "a b");
    assert_eq!(trim_string(" \n "), "");
    assert_eq!(trim_string(""), "");
}

#[test]
fn remove_chars_drops_both_characters() {
    assert_eq!(remove_chars("a-b-c", '-', '-'), "abc");
    assert_eq!(remove_chars("' x 'y", '\'', ' '), "xy");
    assert!(text_is("abc", "abc"));
    assert!(!text_is("abc", "abd"));
    assert!(!text_is("ab", "abc"));
}

#[test]
fn required_input_refuses_blank_lines() {
    assert_eq!(accept_required(""), None);
    assert_eq!(accept_required("   \t\n"), None);
    assert_eq!(accept_required("  bob \n"), Some("bob".to_string()));
}

#[test]
fn required_read_skips_blank_lines() {
    let input = lines(&["", "   ", "\n", "\t \n", "  carol  "]);
    assert_eq!(read_required_from(&input), Some((4, "carol".to_string())));
    assert_eq!(read_required_from(&lines(&["", "  "])), None);
    assert_eq!(read_required_from(&lines(&["x"])), Some((0, "x".to_string())));
}

#[test]
fn role_read_reprompts_once_per_invalid_line() {
    let input = lines(&["superuser", "Admin", "  ", "guest", " uploader \n", "admin"]);
    assert_eq!(read_role_from(&input), Some((4, Role::Uploader)));
    assert_eq!(read_role_from(&lines(&["root", "owner", "ADMIN"])), None);
    assert_eq!(accept_role("user"), Some(Role::User));
    assert_eq!(accept_role("moderator"), None);
}

#[test]
fn role_names_parse_back() {
    for r in Role::values() {
        assert_eq!(Role::parse(&r.to_string()), Some(r));
    }
    assert_eq!(Role::values(), vec![Role::User, Role::Uploader, Role::Admin]);
    assert_eq!(Role::Admin.to_string(), "admin");
    assert_eq!(Role::parse(" admin"), None);
}

#[test]
fn confirmation_depends_on_first_visible_character() {
    assert!(!is_confirmed(""));
    assert!(!is_confirmed("no"));
    assert!(!is_confirmed("N"));
    assert!(is_confirmed("yes please"));
    assert!(is_confirmed("Y"));
    assert!(is_confirmed("  yes"));
    assert!(!is_confirmed("ok y"));
    assert!(!is_confirmed("   "));
}

#[test]
fn field_names_are_recognised() {
    assert_eq!(parse_field("role\n"), Some(UpdateField::Role));
    assert_eq!(parse_field(" password "), Some(UpdateField::Password));
    assert_eq!(parse_field("consent"), Some(UpdateField::Consent));
    assert_eq!(parse_field("email"), None);
}

#[test]
fn feed_with_quotes_and_spaces_resolves_to_bare_url() {
    let podcasts = vec![
        Podcast { id: 1, name: "Other".to_string(), rssfeed: "https://other.org/rss".to_string() },
        Podcast {
            id: 2,
            name: "Example".to_string(),
            rssfeed: "https://example.com/feed.xml".to_string(),
        },
    ];
    assert_eq!(normalize_feed(" 'https://example.com/feed.xml' "), "https://example.com/feed.xml");
    let found = find_podcast_by_feed(&podcasts, " 'https://example.com/feed.xml' ").unwrap();
    assert_eq!(found.id, 2);
    assert_eq!(found.name, "Example");
    assert_eq!(
        find_podcast_by_feed(&podcasts, "https://missing.net/feed"),
        Err(RefreshError::NotFound)
    );
}

#[test]
fn commands_are_routed() {
    assert_eq!(parse_command(&args(&["prog", "help"])), Command::Help);
    assert_eq!(parse_command(&args(&["prog", "--help"])), Command::Help);
    assert_eq!(
        parse_command(&args(&["prog", "podcasts", "refresh", "url"])),
        Command::Podcasts(PodcastCommand::Refresh)
    );
    assert_eq!(
        parse_command(&args(&["prog", "podcasts", "refresh"])),
        Command::Podcasts(PodcastCommand::RefreshMissingFeed)
    );
    assert_eq!(
        parse_command(&args(&["prog", "podcasts", "refresh-all"])),
        Command::Podcasts(PodcastCommand::RefreshAll)
    );
    assert_eq!(
        parse_command(&args(&["prog", "podcasts", "list"])),
        Command::Podcasts(PodcastCommand::List)
    );
    assert_eq!(
        parse_command(&args(&["prog", "podcasts", "--help"])),
        Command::Podcasts(PodcastCommand::Help)
    );
    assert_eq!(
        parse_command(&args(&["prog", "podcasts", "sing"])),
        Command::Podcasts(PodcastCommand::Unknown)
    );
    assert_eq!(
        parse_command(&args(&["prog", "users", "generate", "apiKey"])),
        Command::Users(UserCommand::GenerateApiKey)
    );
    assert_eq!(
        parse_command(&args(&["prog", "users", "generate", "token"])),
        Command::Users(UserCommand::Unknown)
    );
    assert_eq!(parse_command(&args(&["prog", "users", "add"])), Command::Users(UserCommand::Add));
    assert_eq!(
        parse_command(&args(&["prog", "users", "remove"])),
        Command::Users(UserCommand::Remove)
    );
    assert_eq!(
        parse_command(&args(&["prog", "users", "update"])),
        Command::Users(UserCommand::Update)
    );
    assert_eq!(parse_command(&args(&["prog", "users", "list"])), Command::Users(UserCommand::List));
    assert_eq!(parse_command(&args(&["prog", "users", "help"])), Command::Users(UserCommand::Help));
    assert_eq!(parse_command(&args(&["prog", "users"])), Command::Users(UserCommand::Unknown));
    assert_eq!(parse_command(&args(&["prog", "debug"])), Command::Debug);
    assert_eq!(parse_command(&args(&["prog", "migration"])), Command::Unknown);
    assert_eq!(parse_command(&args(&["prog"])), Command::Unknown);
}

#[test]
fn compact_key_has_no_separators() {
    let k = compact_api_key();
    assert_eq!(k.len(), 32);
    assert!(!k.contains('-'));
    assert!(k.chars().all(|c| c.is_ascii_hexdigit()));
}

#[test]
fn sealing_replaces_password_by_its_digest() {
    let user = build_account(" dave ", " abc ", Role::Admin, "t".to_string());
    assert_eq!(user.password, Some("abc".to_string()));
    let sealed = seal_account(user.clone());
    assert_eq!(
        sealed.password,
        Some("ba7816bf8f01cfea414140de5dae2223b00361a396177a9cb410ff61f20015ad".to_string())
    );
    assert_eq!(sealed.username, "dave");
    assert_eq!(sealed.api_key, user.api_key);
}

#[test]
fn added_account_is_listed_once() {
    let mut store = AccountStore::new();
    let bob = build_account("bob", "pw1", Role::Admin, "2024-01-01".to_string());
    assert_eq!(add_account(&mut store, bob, "yes"), Ok(AddOutcome::Created(1)));
    let before = store.find_all_users();
    let user = build_account("  erin ", "hunter2", Role::Uploader, "2024-02-02".to_string());
    assert_eq!(add_account(&mut store, user, "Y"), Ok(AddOutcome::Created(2)));
    let after = store.find_all_users();
    assert_eq!(after.len(), before.len() + 1);
    assert_eq!(after[0], before[0]);
    let rows: Vec<_> = after.iter().filter(|u| u.username == "erin").collect();
    assert_eq!(rows.len(), 1);
    let row = rows[0];
    assert_eq!(row.role, Role::Uploader);
    assert!(!row.explicit_consent);
    assert_eq!(row.id, 2);
    assert!(!row.api_key.as_ref().unwrap().is_empty());
    let stored = store.find_by_username("erin").unwrap();
    assert_ne!(stored.password, Some("hunter2".to_string()));
    assert_eq!(stored.password.unwrap().len(), 64);
}

#[test]
fn declined_add_writes_nothing() {
    let mut store = AccountStore::new();
    let user = build_account("frank", "pw", Role::User, "t".to_string());
    assert_eq!(add_account(&mut store, user, "no"), Ok(AddOutcome::Abandoned));
    assert_eq!(store, AccountStore::new());
}

#[test]
fn duplicate_username_is_refused() {
    let mut store = store_with_alice();
    let snapshot = store.clone();
    let again = build_account("alice", "other", Role::Admin, "t".to_string());
    assert_eq!(add_account(&mut store, again, "y"), Err(StoreError::DuplicateUsername));
    assert_eq!(store, snapshot);
}

#[test]
fn unavailable_store_refuses_insert() {
    let mut store = AccountStore::new();
    store.available = false;
    let user = build_account("gina", "pw", Role::User, "t".to_string());
    assert_eq!(add_account(&mut store, user, "y"), Err(StoreError::Unavailable));
}

#[test]
fn exhausted_ids_refuse_insert() {
    let mut store = AccountStore::new();
    store.next_id = u64::MAX;
    let user = build_account("hal", "pw", Role::User, "t".to_string());
    assert_eq!(add_account(&mut store, user, "y"), Err(StoreError::IdsExhausted));
}

#[test]
fn remove_account_clears_every_store() {
    let mut store = store_with_alice();
    let bob = build_account("bob", "pw", Role::User, "t".to_string());
    add_account(&mut store, bob, "y").unwrap();
    seed_rows(&mut store, "alice");
    seed_rows(&mut store, "alice");
    seed_rows(&mut store, "bob");
    let listed = store.find_all_users();
    assert_eq!(remove_account(&mut store, &listed, " alice \n"), Ok(RemoveOutcome::Removed));
    assert_eq!(store.find_by_username("alice").err(), Some(StoreError::NotFound));
    for rows in [
        &store.history,
        &store.devices,
        &store.episodes,
        &store.favorites,
        &store.sessions,
        &store.subscriptions,
    ] {
        assert!(!rows.has_rows_for("alice"));
        assert!(rows.has_rows_for("bob"));
        assert_eq!(rows.rows, vec!["bob".to_string()]);
    }
    assert!(store.find_by_username("bob").is_ok());
}

#[test]
fn remove_unknown_account_changes_nothing() {
    let mut store = store_with_alice();
    seed_rows(&mut store, "alice");
    let snapshot = store.clone();
    let listed = store.find_all_users();
    assert_eq!(remove_account(&mut store, &listed, "zoe"), Ok(RemoveOutcome::NotFound));
    assert_eq!(store, snapshot);
}

#[test]
fn failed_cascade_leaves_every_store_intact() {
    for step in 0..7 {
        let mut store = store_with_alice();
        seed_rows(&mut store, "alice");
        match step {
            0 => store.history.available = false,
            1 => store.devices.available = false,
            2 => store.episodes.available = false,
            3 => store.favorites.available = false,
            4 => store.sessions.available = false,
            5 => store.subscriptions.available = false,
            _ => store.available = false,
        }
        let snapshot = store.clone();
        let listed = store.find_all_users();
        assert_eq!(remove_account(&mut store, &listed, "alice"), Err(StoreError::Unavailable));
        assert_eq!(store, snapshot);
    }
}

#[test]
fn password_update_changes_only_the_digest() {
    let mut store = store_with_alice();
    let before = store.find_by_username("alice").unwrap();
    assert_eq!(
        update_account(&mut store, "alice", "password", "  abc "),
        Ok(UpdateOutcome::PasswordUpdated)
    );
    let after = store.find_by_username("alice").unwrap();
    assert_ne!(after.password, before.password);
    assert_eq!(
        after.password,
        Some("ba7816bf8f01cfea414140de5dae2223b00361a396177a9cb410ff61f20015ad".to_string())
    );
    assert_eq!(after, User { password: after.password.clone(), ..before });
}

#[test]
fn unknown_field_leaves_account_unchanged() {
    let mut store = store_with_alice();
    let snapshot = store.clone();
    assert_eq!(
        update_account(&mut store, "alice", "email", "x@y.z"),
        Ok(UpdateOutcome::FieldNotRecognized)
    );
    assert_eq!(store, snapshot);
}

#[test]
fn role_and_consent_updates() {
    let mut store = store_with_alice();
    let before = store.find_by_username("alice").unwrap();
    assert_eq!(update_account(&mut store, "alice", "role", "admin"), Ok(UpdateOutcome::RoleUpdated));
    assert_eq!(
        store.find_by_username("alice").unwrap(),
        User { role: Role::Admin, ..before.clone() }
    );
    assert_eq!(update_account(&mut store, "alice", "consent", ""), Ok(UpdateOutcome::ConsentSwitched));
    assert!(store.find_by_username("alice").unwrap().explicit_consent);
    let snapshot = store.clone();
    assert_eq!(
        update_account(&mut store, "alice", "role", "root"),
        Ok(UpdateOutcome::RoleNotRecognized)
    );
    assert_eq!(
        update_account(&mut store, "alice", "password", "  "),
        Ok(UpdateOutcome::PasswordBlank)
    );
    assert_eq!(store, snapshot);
}

#[test]
fn update_of_missing_account_fails() {
    let mut store = store_with_alice();
    assert_eq!(
        update_account(&mut store, "nobody", "consent", ""),
        Err(StoreError::NotFound)
    );
    store.available = false;
    let snapshot = store.clone();
    assert_eq!(
        update_account(&mut store, "alice", "consent", ""),
        Err(StoreError::Unavailable)
    );
    assert_eq!(store, snapshot);
}

#[test]
fn regenerated_keys_are_fresh_identifiers() {
    let mut store = store_with_alice();
    let bob = build_account("bob", "pw", Role::User, "t".to_string());
    add_account(&mut store, bob, "y").unwrap();
    let before = store.find_all_users();
    assert_eq!(regenerate_api_keys(&mut store), Ok(()));
    let after = store.find_all_users();
    assert_eq!(after.len(), 2);
    for (a, b) in after.iter().zip(before.iter()) {
        let key = a.api_key.as_ref().unwrap();
        assert!(is_hyphenated(key));
        assert_ne!(a.api_key, b.api_key);
        assert_eq!(a.username, b.username);
    }
    store.available = false;
    let snapshot = store.clone();
    assert_eq!(regenerate_api_keys(&mut store), Err(StoreError::Unavailable));
    assert_eq!(store, snapshot);
}
