use configure::numerals::decimal_text;
use configure::protocol::{Question, RepoSyncState, TextQuestion};

#[test]
fn numbers_are_written_in_decimal() {
    assert_eq!(decimal_text(0), "0");
    assert_eq!(decimal_text(7), "7");
    assert_eq!(decimal_text(9), "9");
    assert_eq!(decimal_text(10), "10");
    assert_eq!(decimal_text(42), "42");
    assert_eq!(decimal_text(100), "100");
    assert_eq!(decimal_text(1234567890), "1234567890");
    assert_eq!(decimal_text(u32::MAX), "4294967295");
}

#[test]
fn the_operator_is_warned_of_drift() {
    let ahead = Question::ContinueDespiteDrift { sync_state: RepoSyncState::Ahead, distance: 3 };
    assert_eq!(
        ahead.warning(),
        Some("Your local secrets repo has 3 change(s) that the server does not".to_string())
    );
    assert_eq!(ahead.message(), "Would you like to continue?");

    let behind = Question::ContinueDespiteDrift { sync_state: RepoSyncState::Behind, distance: 12 };
    assert_eq!(
        behind.warning(),
        Some("The server has 12 change(s) that your local secrets repo does not".to_string())
    );
    assert_eq!(behind.message(), "Would you like to continue?");

    let synced = Question::ContinueDespiteDrift { sync_state: RepoSyncState::Synced, distance: 0 };
    assert_eq!(synced.warning(), None);
}

#[test]
fn the_offer_of_the_latest_secrets_names_the_distance() {
    let question = Question::UseLatestSecrets { distance: 2 };
    assert_eq!(question.warning(), None);
    assert_eq!(
        question.message(),
        "This project is 2 commit(s) behind the latest secrets. Would you like to use the latest secrets?"
    );
    assert_eq!(
        Question::UseLatestSecrets { distance: 1000 }.message(),
        "This project is 1000 commit(s) behind the latest secrets. Would you like to use the latest secrets?"
    );
}

#[test]
fn the_question_about_files_knows_whether_there_are_some() {
    assert_eq!(Question::AddFiles.message(), "Would you like to add files?");
    assert_eq!(Question::AddAdditionalFiles.message(), "Would you like to add additional files?");
    assert_eq!(Question::AddFiles.warning(), None);
    assert_eq!(Question::AddAdditionalFiles.warning(), None);
}

#[test]
fn text_is_asked_for_in_these_words() {
    assert_eq!(TextQuestion::ProjectName.message(), "What is the name of your project?");
    assert_eq!(
        TextQuestion::SourcePath.message(),
        "Enter the source file path (relative to the secrets root):"
    );
    assert_eq!(
        TextQuestion::DestinationPath.message(),
        "Enter the destination file path (relative to the project root):"
    );
}
