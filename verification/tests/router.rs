use discord_bot::command::{
    all, CommandRegistration, CommandRouter, HandlingError, RegistryError, NEW_RELEASE,
};
use discord_bot::interaction::{CommandData, Interaction, InteractionData, InteractionType};

fn registration(name: &str, handler: usize) -> CommandRegistration {
    CommandRegistration { name: name.to_owned(), handler }
}

fn command(name: &str) -> Interaction {
    Interaction {
        kind: InteractionType::ApplicationCommand,
        data: Some(InteractionData::ApplicationCommand(CommandData {
            name: name.to_owned(),
            options: vec![],
        })),
        token: "token".to_owned(),
        guild_id: Some(1),
    }
}

#[test]
fn lookup_finds_exactly_the_registered_names() {
    let router = CommandRouter::build(&vec![
        registration("new-release", 3),
        registration("help", 5),
        registration("new-release-notes", 8),
    ])
    .expect("distinct names");
    assert_eq!(router.lookup("new-release"), Some(3));
    assert_eq!(router.lookup("help"), Some(5));
    assert_eq!(router.lookup("new-release-notes"), Some(8));
    assert_eq!(router.lookup("new"), None);
    assert_eq!(router.lookup("new-release-x"), None);
    assert_eq!(router.lookup("new-release-"), None);
    assert_eq!(router.lookup("hel"), None);
    assert_eq!(router.lookup("helper"), None);
    assert_eq!(router.lookup(""), None);
    assert_eq!(router.lookup("does-not-exist"), None);
}

#[test]
fn lookup_tells_upper_case_from_lower_case() {
    let router = CommandRouter::build(&vec![registration("new-release", 3)]).unwrap();
    assert_eq!(router.lookup("New-Release"), None);
    assert_eq!(router.lookup("NEW-RELEASE"), None);
}

#[test]
fn many_names_with_shared_beginnings() {
    let mut catalog = Vec::new();
    for i in 0..200usize {
        catalog.push(registration(&format!("cmd-{i}"), i));
    }
    let router = CommandRouter::build(&catalog).unwrap();
    for i in 0..200usize {
        assert_eq!(router.lookup(&format!("cmd-{i}")), Some(i));
    }
    assert_eq!(router.lookup("cmd-"), None);
    assert_eq!(router.lookup("cmd-200"), None);
    assert_eq!(router.lookup("cmd-1x"), None);
}

#[test]
fn empty_catalog_builds_an_empty_registry() {
    let router = CommandRouter::build(&vec![]).unwrap();
    assert_eq!(router.lookup("new-release"), None);
    let router = CommandRouter::new();
    assert_eq!(router.lookup("new-release"), None);
    let router = CommandRouter::default();
    assert_eq!(router.lookup(""), None);
}

#[test]
fn duplicate_name_fails_the_build() {
    let outcome = CommandRouter::build(&vec![
        registration("new-release", 1),
        registration("help", 2),
        registration("new-release", 3),
    ]);
    assert_eq!(
        outcome.err(),
        Some(RegistryError::DuplicateName { name: "new-release".to_owned() })
    );
    // The same catalog fails the same way each time.
    for _ in 0..3 {
        let again = CommandRouter::build(&vec![
            registration("new-release", 1),
            registration("help", 2),
            registration("new-release", 3),
        ]);
        assert_eq!(
            again.err(),
            Some(RegistryError::DuplicateName { name: "new-release".to_owned() })
        );
    }
    // Also where both entries name the same handler.
    let outcome = CommandRouter::build(&vec![registration("a", 1), registration("a", 1)]);
    assert_eq!(outcome.err(), Some(RegistryError::DuplicateName { name: "a".to_owned() }));
}

#[test]
fn first_entry_that_cannot_be_registered_is_reported() {
    let long = "x".repeat(31);
    let outcome = CommandRouter::build(&vec![
        registration("a", 1),
        registration(&long, 2),
        registration("a", 3),
    ]);
    assert_eq!(outcome.err(), Some(RegistryError::UnsupportedName { name: long.clone() }));
    let outcome = CommandRouter::build(&vec![
        registration("a", 1),
        registration("a", 3),
        registration(&long, 2),
    ]);
    assert_eq!(outcome.err(), Some(RegistryError::DuplicateName { name: "a".to_owned() }));
}

#[test]
fn names_must_fit_a_key() {
    let longest = "x".repeat(30);
    let too_long = "x".repeat(31);
    let mut router = CommandRouter::new();
    assert_eq!(router.register(&longest, 1), Ok(()));
    assert_eq!(
        router.register(&too_long, 2),
        Err(RegistryError::UnsupportedName { name: too_long.clone() })
    );
    assert_eq!(
        router.register("a\0b", 2),
        Err(RegistryError::UnsupportedName { name: "a\0b".to_owned() })
    );
    // Thirty bytes, not thirty characters.
    let wide = "é".repeat(16);
    assert_eq!(
        router.register(&wide, 2),
        Err(RegistryError::UnsupportedName { name: wide.clone() })
    );
    assert_eq!(router.register(&"é".repeat(15), 4), Ok(()));
    assert_eq!(router.lookup(&longest), Some(1));
    assert_eq!(router.lookup(&too_long), None);
    assert_eq!(router.lookup("a\0b"), None);
    assert_eq!(router.lookup(&"x".repeat(29)), None);
    assert_eq!(router.lookup(&"é".repeat(15)), Some(4));
    assert_eq!(router.lookup(&"x".repeat(1000)), None);
}

#[test]
fn register_refuses_a_registered_name_and_changes_nothing() {
    let mut router = CommandRouter::new();
    assert_eq!(router.register("new-release", 1), Ok(()));
    assert_eq!(
        router.register("new-release", 2),
        Err(RegistryError::DuplicateName { name: "new-release".to_owned() })
    );
    assert_eq!(router.lookup("new-release"), Some(1));
    assert_eq!(router.register("", 9), Ok(()));
    assert_eq!(router.lookup(""), Some(9));
}

#[test]
fn a_view_is_untouched_by_later_changes() {
    let mut router = CommandRouter::build(&vec![registration("new-release", 1)]).unwrap();
    let view = router.current_view();
    assert_eq!(router.register("help", 2), Ok(()));
    assert_eq!(router.lookup("help"), Some(2));
    assert_eq!(view.lookup("help"), None);
    assert_eq!(view.lookup("new-release"), Some(1));

    let mut second = view.clone();
    assert_eq!(second.register("other", 3), Ok(()));
    assert_eq!(view.lookup("other"), None);
    assert_eq!(router.lookup("other"), None);
    assert_eq!(second.lookup("other"), Some(3));
    assert_eq!(second.lookup("new-release"), Some(1));
}

#[test]
fn routes_a_command_to_its_handler() {
    let router = CommandRouter::build(&vec![registration("new-release", 4)]).unwrap();
    assert_eq!(router.handle(&command("new-release")), Ok(4));
    assert_eq!(
        router.handle(&command("does-not-exist")),
        Err(HandlingError::CommandDoesntExist { name: "does-not-exist".to_owned() })
    );
    let mut without_data = command("new-release");
    without_data.data = None;
    assert_eq!(router.handle(&without_data), Err(HandlingError::MisssingInteractionData));
    let mut other_data = command("new-release");
    other_data.data = Some(InteractionData::Other);
    assert_eq!(router.handle(&other_data), Err(HandlingError::MissingExpectedCommandData));
}

#[test]
fn handling_errors_read_in_words() {
    assert_eq!(
        HandlingError::MisssingInteractionData.message(),
        "missing expected interaction data"
    );
    assert_eq!(
        HandlingError::MissingExpectedCommandData.message(),
        "missing expected command data"
    );
    assert_eq!(
        HandlingError::CommandDoesntExist { name: "does-not-exist".to_owned() }.message(),
        "asked to handle a non-existant command \"does-not-exist\""
    );
    assert_eq!(
        HandlingError::CommandDoesntExist { name: "a\"b\n".to_owned() }.message(),
        "asked to handle a non-existant command \"a\\\"b\\n\""
    );
}

#[test]
fn handling_errors_have_their_status() {
    assert_eq!(HandlingError::MisssingInteractionData.status_code(), 400);
    assert_eq!(HandlingError::MissingExpectedCommandData.status_code(), 400);
    assert_eq!(HandlingError::CommandDoesntExist { name: "x".to_owned() }.status_code(), 404);
}

#[test]
fn the_catalog_builds() {
    let catalog = all();
    assert_eq!(catalog, vec![registration("new-release", NEW_RELEASE)]);
    let router = CommandRouter::build(&catalog).unwrap();
    assert_eq!(router.lookup("new-release"), Some(NEW_RELEASE));
}
