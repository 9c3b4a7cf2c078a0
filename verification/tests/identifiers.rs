use datum_connect::identifiers::{ProjectId, ProjectIdError, TunnelId, TunnelIdError};

#[test]
fn project_id_accepts_single_normal_path_components() {
    for value in ["project", "project-123", "Project ID", "project%2Fname"] {
        let id = ProjectId::try_from(value).expect("valid project ID");
        assert_eq!(id.as_str(), value);
    }
}

#[test]
fn project_id_rejects_unsafe_path_components() {
    let cases = [
        ("", ProjectIdError::Empty),
        (".", ProjectIdError::CurrentDirectory),
        ("..", ProjectIdError::ParentDirectory),
        ("/project", ProjectIdError::Absolute),
        ("parent/project", ProjectIdError::PathSeparator),
        ("parent\\project", ProjectIdError::PathSeparator),
        ("C:", ProjectIdError::WindowsPathPrefix),
        ("C:project", ProjectIdError::WindowsPathPrefix),
        ("project:stream", ProjectIdError::WindowsPathPrefix),
        ("project.", ProjectIdError::WindowsTrailingDotOrSpace),
        ("project ", ProjectIdError::WindowsTrailingDotOrSpace),
        (
            "CON",
            ProjectIdError::WindowsReservedName {
                name: "CON".to_string(),
            },
        ),
        (
            "nul.txt",
            ProjectIdError::WindowsReservedName {
                name: "nul".to_string(),
            },
        ),
        ("project\0name", ProjectIdError::Nul { index: 7 }),
        (
            "project\nname",
            ProjectIdError::ControlCharacter { index: 7 },
        ),
    ];

    for (value, expected) in cases {
        assert_eq!(
            ProjectId::try_from(value),
            Err(expected),
            "value: {value:?}"
        );
    }
}

#[test]
fn tunnel_id_accepts_dns_subdomains() {
    for value in ["tunnel", "tunnel-123", "one.two-three.4"] {
        let id = TunnelId::try_from(value).expect("valid tunnel ID");
        assert_eq!(id.as_str(), value);
    }

    let label = "a".repeat(63);
    let max_length = format!("{label}.{label}.{label}.{}", "a".repeat(61));
    assert_eq!(max_length.len(), 253);
    assert!(TunnelId::try_from(max_length.as_str()).is_ok());
}

#[test]
fn tunnel_id_rejects_invalid_dns_subdomains() {
    assert_eq!(TunnelId::try_from(""), Err(TunnelIdError::Empty));
    assert!(matches!(
        TunnelId::try_from("a".repeat(254).as_str()),
        Err(TunnelIdError::TooLong { length: 254 })
    ));
    assert!(matches!(
        TunnelId::try_from("a".repeat(64).as_str()),
        Err(TunnelIdError::LabelTooLong {
            label: 0,
            length: 64
        })
    ));
    assert_eq!(
        TunnelId::try_from("one..two"),
        Err(TunnelIdError::EmptyLabel { label: 1 })
    );
    assert_eq!(
        TunnelId::try_from("-one"),
        Err(TunnelIdError::InvalidLabelStart { label: 0 })
    );
    assert_eq!(
        TunnelId::try_from("one-"),
        Err(TunnelIdError::InvalidLabelEnd { label: 0 })
    );
    assert_eq!(
        TunnelId::try_from("One"),
        Err(TunnelIdError::InvalidCharacter {
            character: 'O',
            index: 0
        })
    );
    assert_eq!(
        TunnelId::try_from("one_two"),
        Err(TunnelIdError::InvalidCharacter {
            character: '_',
            index: 3
        })
    );
}

#[test]
fn identifiers_keep_their_text() {
    let project = ProjectId::new("project-alpha").unwrap();
    assert_eq!(project.clone(), project);
    assert_eq!(project.into_inner(), "project-alpha");
    let tunnel = TunnelId::new("tunnel.alpha-1").unwrap();
    assert_eq!(tunnel.clone(), tunnel);
    assert_eq!(tunnel.into_inner(), "tunnel.alpha-1");
}

#[test]
fn reserved_names_are_found_in_any_case_and_with_extensions() {
    for value in ["com1", "LPT9", "aux.tar.gz", "Prn"] {
        assert!(
            matches!(
                ProjectId::new(value),
                Err(ProjectIdError::WindowsReservedName { .. })
            ),
            "value: {value:?}"
        );
    }
    for value in ["com", "com10", "console", "auxiliary"] {
        assert!(ProjectId::new(value).is_ok(), "value: {value:?}");
    }
}

#[test]
fn faults_count_bytes_not_characters() {
    assert_eq!(
        ProjectId::new("\u{e9}\u{e9}\u{7}"),
        Err(ProjectIdError::ControlCharacter { index: 4 })
    );
    assert_eq!(
        TunnelId::new("a\u{e9}"),
        Err(TunnelIdError::InvalidCharacter {
            character: '\u{e9}',
            index: 1
        })
    );
}
