use saya::config::{
    check_requirements, generate_settings, header_line, init_script, present_plan,
    set_world, settings_content, write_outcome_check, ScriptRun,
};
use saya::ServerSetupCheck;

fn message_of(c: &ServerSetupCheck) -> &str {
    c.message().as_str()
}

#[test]
fn settings_content_exact_for_two_entries() {
    let entries = vec![
        ("Name".to_string(), "\"x\"".to_string()),
        ("Players".to_string(), "32".to_string()),
    ];
    let s = settings_content(&entries);
    assert_eq!(
        s,
        "[/Script/Pal.PalGameWorldSettings]\nOptionSettings=(Name=\"x\",Players=32)\n"
    );
}

#[test]
fn settings_content_empty_section() {
    let entries: Vec<(String, String)> = Vec::new();
    let s = settings_content(&entries);
    assert_eq!(s, "[/Script/Pal.PalGameWorldSettings]\nOptionSettings=()\n");
}

#[test]
fn generate_settings_renders_a_real_document() {
    // Runs the real TOML parser: the extracted section must reflect the
    // document, not the raw text handed in.
    let content = "[Server]\nPlayers = 32\nServerName = \"my server\"\n";
    let (checks, out) = generate_settings("/config/palworld_conf.toml", Some(content));
    assert!(checks.is_empty());
    assert_eq!(
        out.as_deref(),
        Some(
            "[/Script/Pal.PalGameWorldSettings]\nOptionSettings=(Players=32,ServerName=\"my server\")\n"
        )
    );
}

#[test]
fn generate_settings_unreadable_file() {
    let (checks, out) = generate_settings("/config/palworld_conf.toml", None);
    assert_eq!(checks.len(), 1);
    assert!(matches!(&checks[0], ServerSetupCheck::ERROR { .. }));
    assert_eq!(
        message_of(&checks[0]),
        "Failed to open config file /config/palworld_conf.toml. Make sure it exists and is mounted as readable!"
    );
    assert!(out.is_none());
}

#[test]
fn generate_settings_rejects_malformed_document() {
    let (checks, out) = generate_settings("/config/palworld_conf.toml", Some("= not toml ="));
    assert_eq!(checks.len(), 1);
    assert!(matches!(&checks[0], ServerSetupCheck::ERROR { .. }));
    assert_eq!(
        message_of(&checks[0]),
        "Failed to parse config file /config/palworld_conf.toml"
    );
    assert!(out.is_none());
}

#[test]
fn generate_settings_requires_server_key() {
    let (checks, out) = generate_settings("/config/palworld_conf.toml", Some("[Other]\nx = 1\n"));
    assert_eq!(checks.len(), 1);
    assert_eq!(
        message_of(&checks[0]),
        "Config file /config/palworld_conf.toml is missing top level key 'Server'"
    );
    assert!(out.is_none());
}

#[test]
fn generate_settings_requires_server_to_be_a_table() {
    let (checks, out) = generate_settings("/config/palworld_conf.toml", Some("Server = 5\n"));
    assert_eq!(checks.len(), 1);
    assert_eq!(
        message_of(&checks[0]),
        "Config file /config/palworld_conf.toml has the wrong value type for 'Server'"
    );
    assert!(out.is_none());
}

#[test]
fn set_world_unavailable_folder() {
    let (checks, out) = set_world("/saves/0", None);
    assert_eq!(checks.len(), 1);
    assert!(matches!(&checks[0], ServerSetupCheck::ERROR { .. }));
    assert_eq!(message_of(&checks[0]), "Could not access world save folder: /saves/0");
    assert!(out.is_none());
}

#[test]
fn set_world_fresh_installation() {
    let worlds: Vec<String> = Vec::new();
    let (checks, out) = set_world("/saves/0", Some(&worlds));
    assert_eq!(checks.len(), 1);
    assert!(matches!(&checks[0], ServerSetupCheck::OK { .. }));
    assert_eq!(
        message_of(&checks[0]),
        "No saved world, new one will be created on first startup!"
    );
    assert!(out.is_none());
}

#[test]
fn set_world_single_world() {
    let worlds = vec!["8BE6A9E648A1A2B5C7D3E1F2A3B4C5D6".to_string()];
    let (checks, out) = set_world("/saves/0", Some(&worlds));
    assert!(checks.is_empty());
    assert_eq!(
        out.as_deref(),
        Some(
            "[/Script/Pal.PalGameLocalSettings]\nDedicatedServerName=8BE6A9E648A1A2B5C7D3E1F2A3B4C5D6\n"
        )
    );
}

#[test]
fn set_world_multiple_worlds_warns_and_uses_first() {
    let worlds = vec!["first".to_string(), "second".to_string(), "third".to_string()];
    let (checks, out) = set_world("/saves/0", Some(&worlds));
    assert_eq!(checks.len(), 1);
    assert!(matches!(&checks[0], ServerSetupCheck::WARNING { .. }));
    assert_eq!(message_of(&checks[0]), "Multiple saved worlds were found, using first!");
    assert_eq!(
        out.as_deref(),
        Some("[/Script/Pal.PalGameLocalSettings]\nDedicatedServerName=first\n")
    );
}

#[test]
fn write_outcome_messages() {
    let ok = write_outcome_check("/ini/PalWorldSettings.ini", true);
    assert!(matches!(&ok, ServerSetupCheck::OK { .. }));
    assert_eq!(message_of(&ok), "Successfully created /ini/PalWorldSettings.ini");
    let err = write_outcome_check("/ini/PalWorldSettings.ini", false);
    assert!(matches!(&err, ServerSetupCheck::ERROR { .. }));
    assert_eq!(message_of(&err), "Could not write /ini/PalWorldSettings.ini");
}

#[test]
fn init_script_outcomes() {
    let r = init_script(ScriptRun::NotFound);
    assert_eq!(r.len(), 1);
    assert!(matches!(&r[0], ServerSetupCheck::OK { .. }));
    assert_eq!(message_of(&r[0]), "No init script was found.");

    let r = init_script(ScriptRun::SpawnFailed);
    assert!(matches!(&r[0], ServerSetupCheck::ERROR { .. }));
    assert_eq!(message_of(&r[0]), "Custom init script could not be ran");

    let r = init_script(ScriptRun::WaitFailed);
    assert!(matches!(&r[0], ServerSetupCheck::ERROR { .. }));
    assert_eq!(message_of(&r[0]), "Custom init script failed");

    let r = init_script(ScriptRun::Completed);
    assert!(matches!(&r[0], ServerSetupCheck::OK { .. }));
    assert_eq!(message_of(&r[0]), "Custom init script was successful");
}

#[test]
fn check_requirements_messages() {
    let r = check_requirements("/saves/0", true);
    assert_eq!(r.len(), 1);
    assert!(matches!(&r[0], ServerSetupCheck::OK { .. }));
    assert_eq!(message_of(&r[0]), "Save folder /saves/0 is writable");

    let r = check_requirements("/saves/0", false);
    assert!(matches!(&r[0], ServerSetupCheck::ERROR { .. }));
    assert_eq!(
        message_of(&r[0]),
        "Can't write to /saves/0. Make sure it is mounted as writable!"
    );
}

#[test]
fn present_plan_decisions() {
    let empty: Vec<ServerSetupCheck> = Vec::new();
    let p = present_plan(&empty, true);
    assert!(!p.show);
    assert!(!p.fail);

    let fine = vec![ServerSetupCheck::OK { message: "all good".to_string() }];
    let p = present_plan(&fine, false);
    assert!(!p.show, "a clean intermediate batch is not shown");
    assert!(!p.fail);
    let p = present_plan(&fine, true);
    assert!(p.show, "the final batch is always shown");
    assert!(!p.fail);

    let mixed = vec![
        ServerSetupCheck::OK { message: "fine".to_string() },
        ServerSetupCheck::WARNING { message: "hm".to_string() },
        ServerSetupCheck::ERROR { message: "broken".to_string() },
    ];
    let p = present_plan(&mixed, false);
    assert!(p.show, "an error is shown even before the final batch");
    assert!(p.fail);
}

#[test]
fn header_lines() {
    assert_eq!(header_line(true), "Saya could not initialize:");
    assert_eq!(header_line(false), "Saya successfully initialized:");
}
