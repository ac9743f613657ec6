use op_cache::config::{project, Config};
use op_cache::error::Error;
use op_cache::path::{extension, join, join_bytes, with_extension};
use op_cache::text::{chars_of, decimal, ends_with, same, starts_with};
use std::path::{Path, PathBuf};

const PATHS: &[&str] = &[
    "",
    "/",
    ".",
    "..",
    "/tmp/op-cache.sock",
    "/tmp/op-cache",
    "op-cache.sock",
    "/tmp/a.tar.gz",
    "/tmp/.hidden",
    "/tmp/.hidden.sock",
    "/tmp/dir.d/sock",
    "/tmp/sock/",
    "/tmp/sock.s//",
    "/tmp/sock.s/.",
    "/tmp/sock.s/./",
    "/tmp/..",
    "/tmp/sock.",
    "./sock",
    "./.",
    "//a//b.c",
    "dir./x",
    "ü/ö.ä",
];

#[test]
fn defaults_hold_where_nothing_is_configured() {
    let config = Config::load(None).unwrap();
    assert_eq!(config.socket_path, "/tmp/op-cache.sock");
    assert_eq!(config.ttl_seconds, 86400);
    assert_eq!(config.max_entries, 1000);
    assert_eq!(config.op_path, "op");
    assert_eq!(config.op_timeout_seconds, 30);
}

#[test]
fn a_configuration_file_holds() {
    let mut file = Config::default();
    file.max_entries = 3;
    assert_eq!(Config::load(Some(Ok(file))).unwrap().max_entries, 3);
}

#[test]
fn a_broken_configuration_file_is_reported() {
    match Config::load(Some(Err(Error::Internal("bad yaml".to_string())))) {
        Err(Error::Internal(text)) => assert_eq!(text, "bad yaml"),
        other => panic!("unexpected {other:?}"),
    }
}

#[test]
fn the_configuration_file_is_in_its_directory() {
    assert_eq!(
        Config::config_path_in(Some(b"/home/u/.config/op-cache")),
        b"/home/u/.config/op-cache/config.yaml"
    );
    assert_eq!(Config::config_path_in(Some(b"/")), b"/config.yaml");
    assert_eq!(Config::config_path_in(None), b"~/.config/op-cache/config.yaml");
}

#[test]
fn a_configuration_directory_may_be_any_bytes() {
    assert_eq!(
        Config::config_path_in(Some(b"/home/\xff\xfe/op-cache")),
        b"/home/\xff\xfe/op-cache/config.yaml"
    );
}

#[test]
fn the_configuration_file_is_where_the_platform_has_it() {
    let expected = match directories::ProjectDirs::from("", "", "op-cache") {
        Some(dirs) => dirs.config_dir().join("config.yaml"),
        None => PathBuf::from("~/.config/op-cache/config.yaml"),
    };
    assert_eq!(Config::config_path(), expected.as_os_str().as_encoded_bytes());
    assert_eq!(project(), ("", "", "op-cache"));
}

#[test]
fn the_daemon_files_stand_beside_the_socket() {
    let config = Config::default();
    assert_eq!(config.pid_path(), "/tmp/op-cache.pid");
    assert_eq!(config.log_path(), "/tmp/op-cache.log");
}

#[test]
fn fetched_files_go_to_the_temporary_directory() {
    let config = Config::default();
    assert_eq!(config.temp_file_dir(None), "/tmp/op-cache-fs");
    assert_eq!(config.temp_file_dir(Some("/var/tmp/")), "/var/tmp/op-cache-fs");
    assert_eq!(config.temp_file_dir(Some("/var/tmp")), "/var/tmp/op-cache-fs");
    assert_eq!(config.temp_file_dir(Some("")), "op-cache-fs");
}

#[test]
fn extensions_are_those_of_the_standard_library() {
    for path in PATHS {
        let expected = Path::new(path).extension().map(|e| e.to_string_lossy().into_owned());
        assert_eq!(extension(path), expected, "{path}");
    }
}

#[test]
fn extensions_are_replaced_as_in_the_standard_library() {
    for path in PATHS {
        let expected = Path::new(path).with_extension("pid");
        assert_eq!(with_extension(path, "pid"), expected.to_string_lossy(), "{path}");
        let expected = Path::new(path).with_extension("");
        assert_eq!(with_extension(path, ""), expected.to_string_lossy(), "{path}");
    }
}

#[test]
fn paths_are_joined_as_in_the_standard_library() {
    for path in PATHS {
        let expected = Path::new(path).join("config.yaml");
        assert_eq!(join(path, "config.yaml"), expected.to_string_lossy(), "{path}");
        for name in PATHS {
            let expected = Path::new(path).join(name);
            assert_eq!(join(path, name), expected.to_string_lossy(), "{path} {name}");
            assert_eq!(
                join_bytes(path.as_bytes(), name),
                expected.as_os_str().as_encoded_bytes(),
                "{path} {name}"
            );
        }
    }
}

#[test]
fn a_replaced_extension_is_found_again() {
    for path in PATHS {
        if Path::new(path).file_name().is_some() {
            assert_eq!(extension(&with_extension(path, "log")).as_deref(), Some("log"), "{path}");
        } else {
            assert_eq!(with_extension(path, "log"), *path);
        }
    }
}

#[test]
fn numerals_are_decimal() {
    assert_eq!(decimal(0), "0");
    assert_eq!(decimal(9), "9");
    assert_eq!(decimal(10), "10");
    assert_eq!(decimal(1234567890), "1234567890");
    assert_eq!(decimal(u64::MAX), "18446744073709551615");
}

#[test]
fn texts_are_compared_by_their_characters() {
    assert!(starts_with("op://x", "op://"));
    assert!(starts_with("op://", "op://"));
    assert!(!starts_with("op:/", "op://"));
    assert!(!starts_with("xop://", "op://"));
    assert!(starts_with("äö", "ä"));
    assert!(starts_with("", ""));
    assert!(ends_with("a/config", "/config"));
    assert!(!ends_with("config", "/config"));
    assert!(!ends_with("a/configs", "/config"));
    assert!(same("a", "a"));
    assert!(!same("a", "A"));
    assert_eq!(chars_of("aß€"), vec!['a', 'ß', '€']);
}
