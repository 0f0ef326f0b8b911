//! Locating the `strata` binary.

use vbench::strata::locate::{locate_strata_bin, resolve_strata_bin, LocateError, PathProbe};

fn probe(path: &str, exists: bool) -> Option<PathProbe> {
    Some(PathProbe { path: path.as_bytes().to_vec(), exists })
}

#[test]
fn override_path_existing_file_wins() {
    let path = "/tmp/some-dir/strata";
    let found = locate_strata_bin(probe(path, true), probe("/elsewhere/strata", true), None).unwrap();
    assert_eq!(found, path.as_bytes().to_vec());
}

#[test]
fn override_path_missing_file_errors() {
    let bogus = "/definitely/does/not/exist/strata";
    let err = locate_strata_bin(probe(bogus, false), None, None).unwrap_err();
    assert!(matches!(err, LocateError::OverrideMissing(_)));
    // the override is reported with its bytes unchanged
    let err = locate_strata_bin(
        Some(PathProbe { path: b"/no/\xfe/strata".to_vec(), exists: false }),
        None,
        None,
    )
    .unwrap_err();
    assert!(matches!(err, LocateError::OverrideMissing(p) if p == b"/no/\xfe/strata".to_vec()));
}

#[test]
fn no_override_no_env_no_path_no_install_dir_errors() {
    let err = LocateError::NotFound;
    let msg = err.to_string();
    assert!(msg.contains("stratadb.org/install.sh"));
    assert!(msg.contains("STRATA_BIN"));
}

#[test]
fn lookup_order() {
    // STRATA_BIN wins over PATH and the install directory
    let r = resolve_strata_bin(None, probe("/env/strata", true), Some(b"/path/strata".to_vec()), probe("/home/strata", true));
    assert_eq!(r.unwrap(), b"/env/strata".to_vec());
    // a STRATA_BIN that does not exist is passed over
    let r = resolve_strata_bin(None, probe("/env/strata", false), Some(b"/path/strata".to_vec()), probe("/home/strata", true));
    assert_eq!(r.unwrap(), b"/path/strata".to_vec());
    // then the install directory
    let r = resolve_strata_bin(None, None, None, probe("/home/strata", true));
    assert_eq!(r.unwrap(), b"/home/strata".to_vec());
    // nothing anywhere
    let r = resolve_strata_bin(None, None, None, probe("/home/strata", false));
    assert!(matches!(r, Err(LocateError::NotFound)));
}

#[test]
fn locate_error_messages() {
    let e = LocateError::OverrideMissing(b"/x/strata".to_vec());
    assert_eq!(e.to_string(), "strata_bin override does not exist: /x/strata");
    // a path that is not UTF-8 is kept as it is; only its message shows it lossily
    let e = LocateError::OverrideMissing(b"/x\xff/strata".to_vec());
    assert_eq!(e.to_string(), "strata_bin override does not exist: /x\u{fffd}/strata");
    assert_eq!(
        LocateError::NotFound.to_string(),
        "could not find a `strata` binary.\nInstall one with:\n  curl -fsSL https://stratadb.org/install.sh | sh\n\u{2026}or set STRATA_BIN to an explicit path."
    );
}

#[test]
fn path_search_when_nothing_else_decides() {
    // the answer depends on this machine's PATH; either way it is a strata
    // binary or the not-found error
    match locate_strata_bin(None, probe("/no/such/strata", false), probe("/no/such/home/strata", false)) {
        Ok(p) => assert!(p.ends_with(b"strata"), "{p:?}"),
        Err(e) => assert!(matches!(e, LocateError::NotFound)),
    }
}
