use board_id::{BoardId, TooLarge, CAPACITY};

const NOENT: Option<&[u8]> = None;

#[test]
fn none() {
    let result = BoardId::from_streams(NOENT, NOENT, NOENT).unwrap();
    assert_eq!(result.vendor(), None);
    assert_eq!(result.name(), None);
    assert_eq!(result.version(), None);
}

#[test]
fn empty_streams() {
    let result = BoardId::from_streams(
        Some("\n".as_bytes()),
        Some("\n".as_bytes()),
        Some("\n".as_bytes()),
    )
    .unwrap();
    assert_eq!(result.vendor(), None);
    assert_eq!(result.name(), None);
    assert_eq!(result.version(), None);
}

#[test]
fn all_streams() {
    let result = BoardId::from_streams(
        Some("VENDOR\n".as_bytes()),
        Some("NAME\n".as_bytes()),
        Some("VERSION\n".as_bytes()),
    )
    .unwrap();
    assert_eq!(result.vendor(), Some("VENDOR".as_bytes()));
    assert_eq!(result.name(), Some("NAME".as_bytes()));
    assert_eq!(result.version(), Some("VERSION".as_bytes()));
}

#[test]
fn no_version() {
    let result =
        BoardId::from_streams(Some("VENDOR\n".as_bytes()), Some("NAME\n".as_bytes()), None::<&[u8]>)
            .unwrap();
    assert_eq!(result.vendor(), Some("VENDOR".as_bytes()));
    assert_eq!(result.name(), Some("NAME".as_bytes()));
    assert_eq!(result.version(), None);
}

#[test]
fn only_name() {
    let result = BoardId::from_streams(NOENT, Some("NAME\n".as_bytes()), NOENT).unwrap();
    assert_eq!(result.vendor(), None);
    assert_eq!(result.name(), Some("NAME".as_bytes()));
    assert_eq!(result.version(), None);
}

#[test]
fn name_too_large() {
    let name = "Lorem ipsum dolor sit amet, consectetur adipiscing elit. Pellentesque ut nisi dignissim, sodales leo id, euismod dolor. Curabitur justo sem, aliquam aliquet purus ut, feugiat sagittis justo. Curabitur vel lobortis tortor. Vivamus at porttitor mi eleifend";
    assert_eq!(name.len(), CAPACITY - 1, "bad test");
    let e = BoardId::from_streams(NOENT, Some(format!("{name}\n").as_bytes()), NOENT).unwrap_err();
    assert_eq!(e, TooLarge);
}

#[test]
fn name_exact_fit() {
    let name = "Lorem ipsum dolor sit amet, consectetur adipiscing elit. Pellentesque ut nisi dignissim, sodales leo id, euismod dolor. Curabitur justo sem, aliquam aliquet purus ut, feugiat sagittis justo. Curabitur vel lobortis tortor. Vivamus at portitor mi eleifend";
    assert_eq!(name.len(), CAPACITY - 2, "bad test");
    let board = BoardId::from_streams(NOENT, Some(format!("{name}\n").as_bytes()), NOENT).unwrap();
    assert_eq!(board.vendor(), None);
    assert_eq!(board.name(), Some(name.as_bytes()));
    assert_eq!(board.version(), None);
}

#[test]
fn zero_length_streams_are_absent() {
    let empty: &[u8] = &[];
    let board = BoardId::from_streams(Some(empty), Some(empty), Some(empty)).unwrap();
    assert_eq!(board.vendor(), None);
    assert_eq!(board.name(), None);
    assert_eq!(board.version(), None);
}

#[test]
fn presence_for_every_stream_shape() {
    let shapes: [Option<&[u8]>; 3] = [None, Some(b"\n"), Some(b"X\n")];
    for v in shapes {
        for n in shapes {
            for ver in shapes {
                let board = BoardId::from_streams(v, n, ver).unwrap();
                let present = |s: Option<&[u8]>| matches!(s, Some(b) if b.len() > 1);
                assert_eq!(board.vendor().is_some(), present(v));
                assert_eq!(board.name().is_some(), present(n));
                assert_eq!(board.version().is_some(), present(ver));
                if present(v) {
                    assert_eq!(board.vendor(), Some(&b"X"[..]));
                }
                if present(n) {
                    assert_eq!(board.name(), Some(&b"X"[..]));
                }
                if present(ver) {
                    assert_eq!(board.version(), Some(&b"X"[..]));
                }
            }
        }
    }
}

#[test]
fn round_trip_with_any_terminator_byte() {
    let board = BoardId::from_streams(
        Some(b"Acme Corp\r".as_slice()),
        Some(b"X570-PRO\x00".as_slice()),
        Some(b"Rev 1.02\n".as_slice()),
    )
    .unwrap();
    assert_eq!(board.vendor(), Some(&b"Acme Corp"[..]));
    assert_eq!(board.name(), Some(&b"X570-PRO"[..]));
    assert_eq!(board.version(), Some(&b"Rev 1.02"[..]));
}

#[test]
fn stream_without_terminator_loses_last_byte() {
    let board = BoardId::from_streams(Some(b"AB".as_slice()), NOENT, NOENT).unwrap();
    assert_eq!(board.vendor(), Some(&b"A"[..]));
}

#[test]
fn capacity_counts_earlier_parts() {
    let vendor = vec![b'v'; 101];
    let fits = vec![b'n'; 154];
    let board = BoardId::from_streams(Some(&vendor), Some(&fits), NOENT).unwrap();
    assert_eq!(board.vendor().unwrap().len(), 100);
    assert_eq!(board.name().unwrap().len(), 153);
    let too_long = vec![b'n'; 155];
    assert_eq!(BoardId::from_streams(Some(&vendor), Some(&too_long), NOENT), Err(TooLarge));
}

#[test]
fn capacity_applies_to_the_version_stream() {
    let version = vec![b'1'; CAPACITY];
    assert_eq!(BoardId::from_streams(NOENT, NOENT, Some(&version)), Err(TooLarge));
    let version = vec![b'1'; CAPACITY - 1];
    let board = BoardId::from_streams(NOENT, NOENT, Some(&version)).unwrap();
    assert_eq!(board.version().unwrap().len(), CAPACITY - 2);
}

#[test]
fn repeated_reads_agree() {
    let board = BoardId::from_streams(
        Some("VENDOR\n".as_bytes()),
        Some("NAME\n".as_bytes()),
        Some("VERSION\n".as_bytes()),
    )
    .unwrap();
    assert_eq!(board.vendor(), board.vendor());
    assert_eq!(board.name(), board.name());
    assert_eq!(board.version(), board.version());
    assert_eq!(board.to_string(), board.to_string());
}

#[test]
fn equal_parts_give_equal_values() {
    let a = BoardId::from_streams(Some(b"AB".as_slice()), NOENT, NOENT).unwrap();
    let b = BoardId::from_streams(Some(b"A\n".as_slice()), Some(b"\n".as_slice()), NOENT).unwrap();
    assert_eq!(a, b);
    let c = BoardId::from_streams(NOENT, Some(b"A\n".as_slice()), NOENT).unwrap();
    assert_ne!(a, c);
}
