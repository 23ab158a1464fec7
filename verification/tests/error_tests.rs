use ourobo::error::OuroboError;

#[test]
fn every_error_reads_as_its_text() {
    let cases = vec![
        (OuroboError::Io("disk full".to_string()), "IO error: disk full"),
        (OuroboError::Config("bad".to_string()), "config error: bad"),
        (OuroboError::ConfigNotFound("/c.toml".to_string()), "config file not found: /c.toml"),
        (OuroboError::Backend("nope".to_string()), "backend error: nope"),
        (
            OuroboError::Watch { path: "/w".to_string(), message: "gone".to_string() },
            "watch error on /w: gone",
        ),
        (OuroboError::Ipc("x".to_string()), "IPC error: x"),
        (OuroboError::PathNotFound("/p".to_string()), "path not found: /p"),
        (OuroboError::Serialization("eof".to_string()), "serialization error: eof"),
        (OuroboError::TomlParse("line 1".to_string()), "TOML parse error: line 1"),
        (OuroboError::TomlSerialize("cycle".to_string()), "TOML serialization error: cycle"),
        (OuroboError::DuplicateWatch("w".to_string()), "duplicate watch ID: w"),
        (OuroboError::WatchNotFound("w".to_string()), "watch not found: w"),
    ];
    for (e, text) in cases {
        assert_eq!(e.message(), text);
    }
}
