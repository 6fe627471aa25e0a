use funksyscore::data::{DataError, Keybindings, Settings, Stored};
use funksyscore::savedir::{
    config_dir, fetch_save_dir, generate_save_dir, get_ron, read_settings, startup_save_dir,
    stops_startup, FailureKind,
};

fn root() -> Option<&'static str> {
    Some("/home/alice/.config")
}

fn custom_settings() -> Settings {
    Settings {
        controls: Keybindings {
            ui_left: 'j',
            ui_down: 'k',
            ui_up: 'i',
            ui_right: 'l',
            note_left: 'a',
            note_down: 's',
            note_up: 'w',
            note_right: 'd',
        },
    }
}

#[test]
fn config_dir_is_the_product_below_the_root() {
    assert_eq!(
        config_dir::<()>(root(), "funksystem"),
        Ok("/home/alice/.config/funksystem".to_string())
    );
}

#[test]
fn config_dir_fails_without_a_root() {
    assert_eq!(config_dir::<()>(None, "funksystem"), Err(DataError::ConfigDirUnavailable));
}

#[test]
fn generate_save_dir_gives_the_created_directory() {
    assert_eq!(
        generate_save_dir(root(), "funksystem", Ok(())),
        Ok("/home/alice/.config/funksystem".to_string())
    );
}

#[test]
fn generate_save_dir_takes_an_existing_directory_for_success() {
    assert_eq!(
        generate_save_dir(root(), "funksystem", Err(FailureKind::AlreadyExists)),
        Ok("/home/alice/.config/funksystem".to_string())
    );
}

#[test]
fn generate_save_dir_twice_gives_the_same_directory() {
    let first = generate_save_dir(root(), "funksystem", Ok(()));
    let second = generate_save_dir(root(), "funksystem", Err(FailureKind::AlreadyExists));
    assert!(first.is_ok());
    assert_eq!(first, second);
}

#[test]
fn generate_save_dir_hands_other_failures_on() {
    assert_eq!(
        generate_save_dir(root(), "funksystem", Err(FailureKind::NotFound)),
        Err(DataError::IoFailure(FailureKind::NotFound))
    );
    assert_eq!(
        generate_save_dir(root(), "funksystem", Err(FailureKind::Other)),
        Err(DataError::IoFailure(FailureKind::Other))
    );
}

#[test]
fn generate_save_dir_fails_without_a_root() {
    assert_eq!(
        generate_save_dir(None, "funksystem", Ok(())),
        Err(DataError::ConfigDirUnavailable)
    );
    assert_eq!(
        generate_save_dir(None, "funksystem", Err(FailureKind::AlreadyExists)),
        Err(DataError::ConfigDirUnavailable)
    );
}

#[test]
fn startup_stops_where_nothing_can_be_stored() {
    assert!(stops_startup(&DataError::ConfigDirUnavailable));
    assert!(stops_startup(&DataError::IoFailure(FailureKind::NotFound)));
}

#[test]
fn startup_goes_on_after_other_failures() {
    assert!(!stops_startup(&DataError::IoFailure(FailureKind::AlreadyExists)));
    assert!(!stops_startup(&DataError::IoFailure(FailureKind::Other)));
}

#[test]
fn fetch_save_dir_finds_the_directory_that_is_there() {
    assert_eq!(
        fetch_save_dir::<()>(root(), "funksystem", Ok(true)),
        Ok(Some("/home/alice/.config/funksystem".to_string()))
    );
}

#[test]
fn fetch_save_dir_finds_nothing_where_nothing_is() {
    assert_eq!(fetch_save_dir::<()>(root(), "funksystem", Ok(false)), Ok(None));
}

#[test]
fn fetch_save_dir_hands_a_failed_look_on() {
    assert_eq!(
        fetch_save_dir(root(), "funksystem", Err("permission denied")),
        Err(DataError::IoFailure("permission denied"))
    );
}

#[test]
fn fetch_save_dir_fails_without_a_root() {
    assert_eq!(
        fetch_save_dir::<()>(None, "funksystem", Ok(true)),
        Err(DataError::ConfigDirUnavailable)
    );
}

#[test]
fn get_ron_finds_the_file_that_is_there() {
    let dir = fetch_save_dir::<()>(root(), "funksystem", Ok(true));
    assert_eq!(
        get_ron(dir, "settings", Ok(true)),
        Ok(Some("/home/alice/.config/funksystem/settings.ron".to_string()))
    );
}

#[test]
fn get_ron_finds_nothing_where_the_file_is_missing() {
    let dir = fetch_save_dir::<()>(root(), "funksystem", Ok(true));
    assert_eq!(get_ron(dir, "settings", Ok(false)), Ok(None));
}

#[test]
fn get_ron_finds_nothing_where_the_directory_is_missing() {
    let dir = fetch_save_dir::<()>(root(), "funksystem", Ok(false));
    assert_eq!(get_ron(dir, "settings", Ok(true)), Ok(None));
}

#[test]
fn get_ron_hands_a_failed_look_on() {
    let dir = fetch_save_dir(root(), "funksystem", Ok(true));
    assert_eq!(get_ron(dir, "settings", Err(13u8)), Err(DataError::IoFailure(13u8)));
}

#[test]
fn get_ron_hands_the_failure_of_the_directory_on() {
    let dir = fetch_save_dir::<u8>(None, "funksystem", Ok(true));
    assert_eq!(get_ron(dir, "settings", Ok(true)), Err(DataError::ConfigDirUnavailable));
    let dir = fetch_save_dir(root(), "funksystem", Err(5u8));
    assert_eq!(get_ron(dir, "settings", Ok(true)), Err(DataError::IoFailure(5u8)));
}

#[test]
fn read_settings_reads_what_is_stored() {
    let file: Result<Option<String>, DataError<()>> =
        Ok(Some("/home/alice/.config/funksystem/settings.ron".to_string()));
    assert_eq!(read_settings(&file, Stored::Parsed(custom_settings())), custom_settings());
}

#[test]
fn read_settings_falls_back_on_what_cannot_be_used() {
    let file: Result<Option<String>, DataError<()>> =
        Ok(Some("/home/alice/.config/funksystem/settings.ron".to_string()));
    assert_eq!(read_settings(&file, Stored::Malformed), Settings::default());
    assert_eq!(read_settings(&file, Stored::Unreadable), Settings::default());
}

#[test]
fn read_settings_falls_back_where_there_is_no_file() {
    let missing: Result<Option<String>, DataError<()>> = Ok(None);
    assert_eq!(read_settings(&missing, Stored::Parsed(custom_settings())), Settings::default());
    let failed: Result<Option<String>, DataError<()>> = Err(DataError::IoFailure(()));
    assert_eq!(read_settings(&failed, Stored::Parsed(custom_settings())), Settings::default());
    let no_root: Result<Option<String>, DataError<()>> = Err(DataError::ConfigDirUnavailable);
    assert_eq!(read_settings(&no_root, Stored::Unreadable), Settings::default());
}

#[test]
fn startup_goes_on_with_the_save_directory() {
    assert_eq!(
        startup_save_dir(root(), "funksystem", Ok(())),
        Some("/home/alice/.config/funksystem".to_string())
    );
    assert_eq!(
        startup_save_dir(root(), "funksystem", Err(FailureKind::AlreadyExists)),
        Some("/home/alice/.config/funksystem".to_string())
    );
    assert_eq!(
        startup_save_dir(root(), "funksystem", Err(FailureKind::Other)),
        Some("/home/alice/.config/funksystem".to_string())
    );
}

#[test]
fn startup_has_no_directory_where_it_stops() {
    assert_eq!(startup_save_dir(root(), "funksystem", Err(FailureKind::NotFound)), None);
    assert_eq!(startup_save_dir(None, "funksystem", Ok(())), None);
}
