use komorebik::generate::{
    gen_app_specific_lines, ApplicationConfiguration, ApplicationOptions, IdWithIdentifier,
    IdWithIdentifierAndComment,
};
use komorebik::message::ApplicationIdentifier;

fn app(
    kind: ApplicationIdentifier,
    id: &str,
    options: Option<Vec<ApplicationOptions>>,
    floats: Option<Vec<IdWithIdentifierAndComment>>,
) -> ApplicationConfiguration {
    ApplicationConfiguration {
        name: String::from("App"),
        identifier: IdWithIdentifier { kind, id: String::from(id) },
        options,
        float_identifiers: floats,
    }
}

const HEADER: [&str; 3] = [
    "# Generated by komorebik.exe",
    "# To use this file, copy everything to the bottom of your existing komorebik config file",
    "",
];

#[test]
fn no_applications_gives_the_header_only() {
    assert_eq!(gen_app_specific_lines(&Vec::new()), HEADER.to_vec());
}

#[test]
fn options_own_float_and_other_floats() {
    let apps = vec![app(
        ApplicationIdentifier::Exe,
        "code.exe",
        Some(vec![ApplicationOptions::ObjectNameChange, ApplicationOptions::TrayAndMultiWindow]),
        Some(vec![
            IdWithIdentifierAndComment {
                kind: ApplicationIdentifier::Exe,
                id: String::from("code.exe"),
                comment: None,
            },
            IdWithIdentifierAndComment {
                kind: ApplicationIdentifier::Title,
                id: String::from("Settings"),
                comment: Some(String::from("the settings dialog")),
            },
            IdWithIdentifierAndComment {
                kind: ApplicationIdentifier::Class,
                id: String::from("code.exe"),
                comment: None,
            },
        ]),
    )];
    let mut expected: Vec<&str> = HEADER.to_vec();
    expected.extend([
        "[[window]]",
        "name_change = true",
        "# If you have disabled minimize/close to tray for this application, you can delete/comment out the next line",
        "tray = true",
        "floating = true",
        "[[window.rule]]",
        "type = \"Exe\"",
        "name = \"code.exe\"",
        "",
        "# the settings dialog",
        "[[window]]",
        "floating = true",
        "[[window.rule]]",
        "type = \"Title\"",
        "name = \"Settings\"",
        "",
        "[[window]]",
        "floating = true",
        "[[window.rule]]",
        "type = \"Class\"",
        "name = \"code.exe\"",
        "",
    ]);
    assert_eq!(gen_app_specific_lines(&apps), expected);
}

#[test]
fn applications_follow_one_another() {
    let apps = vec![
        app(ApplicationIdentifier::Class, "A", Some(vec![ApplicationOptions::Force]), None),
        app(
            ApplicationIdentifier::Title,
            "B",
            Some(vec![ApplicationOptions::Layered, ApplicationOptions::BorderOverflow]),
            Some(Vec::new()),
        ),
    ];
    let mut expected: Vec<&str> = HEADER.to_vec();
    expected.extend([
        "[[window]]",
        "managed = true",
        "[[window.rule]]",
        "type = \"Class\"",
        "name = \"A\"",
        "",
        "[[window]]",
        "layered = true",
        "bordered = true",
        "[[window.rule]]",
        "type = \"Title\"",
        "name = \"B\"",
        "",
    ]);
    assert_eq!(gen_app_specific_lines(&apps), expected);
}
