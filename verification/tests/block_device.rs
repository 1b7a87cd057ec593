use accelerator_node_lifecycle::block_device::{
    attach, detach, device, encrypt, filename, is_encrypted, luks2_header, resize,
    wipe_if_unformatted, wipe_start, DeviceError, DeviceOperation, HeaderRead, PlanProgress,
    PlanReply, PlanRun, WipeProgress, WipeReply, WipeStep,
};

fn load_key() -> DeviceOperation {
    DeviceOperation::LoadKey {
        key_id: "key".to_string(),
    }
}

#[test]
fn plans_load_the_key_before_it_is_used() {
    let path = b"/dev/data";
    assert_eq!(
        encrypt(path, "key".to_string()),
        Ok(vec![
            load_key(),
            DeviceOperation::LuksFormat {
                device: "/dev/data".to_string()
            }
        ])
    );
    assert_eq!(
        attach(path, "key".to_string()),
        Ok(vec![
            load_key(),
            DeviceOperation::Attach {
                volume: "data".to_string(),
                device: "/dev/data".to_string()
            }
        ])
    );
    assert_eq!(
        detach(path),
        Ok(vec![DeviceOperation::Detach {
            volume: "data".to_string()
        }])
    );
    assert_eq!(
        resize(path, "key".to_string()),
        Ok(vec![
            load_key(),
            DeviceOperation::Resize {
                volume: "data".to_string()
            }
        ])
    );
}

#[test]
fn paths_must_be_text() {
    let path = b"/dev/\xffdir/data";
    let error = encrypt(path, "key".to_string()).unwrap_err();
    assert_eq!(
        error.message(),
        "path is not valid UTF-8: '/dev/\u{fffd}dir/data'"
    );
    assert_eq!(
        attach(path, "key".to_string()).unwrap_err(),
        DeviceError::PathNotUtf8 {
            path: path.to_vec()
        }
    );
    assert_eq!(filename(path), Ok("data".to_string()));
    assert!(detach(path).is_ok());
    assert!(device(path).is_err());
    assert_eq!(device(b"/dev/data"), Ok("/dev/data".to_string()));
}

#[test]
fn volumes_need_a_name() {
    for path in [&b"/"[..], &b".."[..], &b""[..], &b"/dev/.."[..]] {
        let error = detach(path).unwrap_err();
        assert_eq!(
            error,
            DeviceError::NoFilename {
                path: path.to_vec()
            }
        );
        assert_eq!(
            error.message(),
            format!(
                "failed to extract filename from '{}'",
                String::from_utf8_lossy(path)
            )
        );
        assert!(attach(path, "key".to_string()).is_err());
        assert!(resize(path, "key".to_string()).is_err());
    }
}

#[test]
fn volume_names_must_be_text() {
    let path = b"/dev/data\xff";
    for error in [
        detach(path).unwrap_err(),
        attach(path, "key".to_string()).unwrap_err(),
        resize(path, "key".to_string()).unwrap_err(),
    ] {
        assert_eq!(
            error.message(),
            "filename is not valid UTF-8: '/dev/data\u{fffd}'"
        );
    }
}

#[test]
fn luks2_headers_are_recognized() {
    let header = *b"LUKS\xba\xbe\x00\x02";
    assert!(luks2_header(&header));
    assert_eq!(is_encrypted(b"/dev/x", HeaderRead::Header { header }), Ok(true));
    for header in [
        *b"LUKS\xba\xbe\x00\x01",
        *b"LUKS\xba\xbe\x02\x00",
        *b"LUKS\xba\xbf\x00\x02",
        *b"luks\xba\xbe\x00\x02",
        [0u8; 8],
    ] {
        assert_eq!(
            is_encrypted(b"/dev/x", HeaderRead::Header { header }),
            Ok(false)
        );
    }
}

#[test]
fn unreadable_headers_are_reported() {
    let error = is_encrypted(
        b"/dev/x",
        HeaderRead::OpenFailed {
            source: "gone".to_string(),
        },
    )
    .unwrap_err();
    assert_eq!(error.message(), "failed to open '/dev/x'");
    let error = is_encrypted(
        b"/dev/x",
        HeaderRead::ReadFailed {
            source: "short".to_string(),
        },
    )
    .unwrap_err();
    assert_eq!(error.message(), "failed to read header from '/dev/x'");
}

fn clear(present: Result<bool, String>, wipe: Result<(), String>) -> (bool, Result<(), String>) {
    let mut wiped = false;
    let (device, mut step) = wipe_start(b"/dev/data").unwrap();
    assert_eq!((device.as_str(), step), ("/dev/data", WipeStep::ProbeFilesystem));
    loop {
        let reply = match step {
            WipeStep::ProbeFilesystem => match &present {
                Ok(present) => WipeReply::Filesystem { present: *present },
                Err(error) => WipeReply::Failed {
                    error: error.clone(),
                },
            },
            WipeStep::WipeSignatures => {
                wiped = true;
                match &wipe {
                    Ok(()) => WipeReply::Wiped,
                    Err(error) => WipeReply::Failed {
                        error: error.clone(),
                    },
                }
            }
        };
        match wipe_if_unformatted(reply) {
            WipeProgress::Continue { step: next } => step = next,
            WipeProgress::Finished { result } => return (wiped, result),
        }
    }
}

#[test]
fn filesystems_are_never_wiped() {
    assert_eq!(clear(Ok(true), Ok(())), (false, Ok(())));
    assert_eq!(clear(Ok(false), Ok(())), (true, Ok(())));
    assert_eq!(
        clear(Err("blkid failed".to_string()), Ok(())),
        (false, Err("blkid failed".to_string()))
    );
    assert_eq!(
        clear(Ok(false), Err("wipefs failed".to_string())),
        (true, Err("wipefs failed".to_string()))
    );
}

#[test]
fn unnamed_devices_are_not_cleared() {
    assert_eq!(
        wipe_start(b"/dev/\xff").unwrap_err().message(),
        "path is not valid UTF-8: '/dev/\u{fffd}'"
    );
}

/// Carries a plan out, with the key `secret`, and notes each operation with the key it was given.
fn carry_out(
    plan: Vec<DeviceOperation>,
    fail_at: Option<usize>,
) -> (Vec<(DeviceOperation, Vec<u8>)>, Result<(), String>) {
    let mut done = Vec::new();
    let mut progress = PlanRun::start(plan);
    loop {
        match progress {
            PlanProgress::Finished { result } => return (done, result),
            PlanProgress::Continue { run } => {
                let (operation, reply) = match run.operation() {
                    DeviceOperation::LoadKey { key_id } => (
                        DeviceOperation::LoadKey {
                            key_id: key_id.clone(),
                        },
                        PlanReply::Key {
                            key: b"secret".to_vec(),
                        },
                    ),
                    DeviceOperation::Resize { volume } => (
                        DeviceOperation::Resize {
                            volume: volume.clone(),
                        },
                        PlanReply::Done,
                    ),
                    other => panic!("unexpected operation: {:?}", other),
                };
                done.push((operation, run.key().to_vec()));
                let reply = if fail_at == Some(done.len()) {
                    PlanReply::Failed {
                        error: format!("operation {} failed", done.len()),
                    }
                } else {
                    reply
                };
                progress = run.resume(reply);
            }
        }
    }
}

#[test]
fn a_plan_uses_the_key_that_it_loaded() {
    let resize_operation = DeviceOperation::Resize {
        volume: "data".to_string(),
    };
    let plan = || resize(b"/dev/data", "key".to_string()).unwrap();
    assert_eq!(
        carry_out(plan(), None),
        (
            vec![
                (load_key(), vec![]),
                (resize_operation, b"secret".to_vec())
            ],
            Ok(())
        )
    );
    assert_eq!(
        carry_out(plan(), Some(1)),
        (
            vec![(load_key(), vec![])],
            Err("operation 1 failed".to_string())
        )
    );
    assert_eq!(
        carry_out(plan(), Some(2)).1,
        Err("operation 2 failed".to_string())
    );
    assert_eq!(carry_out(Vec::new(), None), (vec![], Ok(())));
}
