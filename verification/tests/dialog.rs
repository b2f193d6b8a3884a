use black_pearl::dialog::{dialog_reply, executable_extensions};

#[test]
fn picked_file_is_reported_as_its_exact_path() {
    let reply = dialog_reply(Some("/home/player/games/adventure.exe".to_string()));
    assert_eq!(reply, "/home/player/games/adventure.exe");
}

#[test]
fn dismissed_dialog_is_reported_as_the_none_sentinel() {
    let reply = dialog_reply(None);
    assert_eq!(reply, "None");
    assert!(!reply.is_empty());
}

#[test]
fn picker_is_restricted_to_executable_extensions() {
    let exts = executable_extensions();
    assert_eq!(
        exts,
        vec![
            "exe".to_string(),
            "com".to_string(),
            "lnk".to_string(),
            "cmd".to_string(),
            "bat".to_string()
        ]
    );
}
