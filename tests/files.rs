use looply::files::{read_response, save_step, SaveEvent, SaveState};

fn run_save(path: &str, events: Vec<SaveEvent>) -> SaveState {
    let mut state = SaveState::Creating;
    for event in events {
        state = save_step(path, state, event);
    }
    state
}

#[test]
fn read_returns_bytes_unchanged_with_type() {
    let bytes: Vec<u8> = vec![0x47, 0x49, 0x46, 0x38, 0x39];
    let r = read_response(Ok(bytes.clone()));
    assert_eq!(r, Ok((bytes, "image/gif".to_string())));
}

#[test]
fn read_of_unknown_content_is_octet_stream() {
    let r = read_response(Ok(vec![0x00, 0x11]));
    assert_eq!(r, Ok((vec![0x00, 0x11], "application/octet-stream".to_string())));
}

#[test]
fn read_failure_is_an_error() {
    let r = read_response(Err("No such file or directory (os error 2)".to_string()));
    assert_eq!(
        r,
        Err("Failed to read file: No such file or directory (os error 2)".to_string())
    );
}

#[test]
fn save_asks_to_create_then_write() {
    let s = save_step("/tmp/x.gif", SaveState::Creating, SaveEvent::Created);
    assert_eq!(s, SaveState::Writing);
}

#[test]
fn save_success_returns_path() {
    let s = run_save("/tmp/x.gif", vec![SaveEvent::Created, SaveEvent::Written]);
    assert_eq!(s, SaveState::Done(Ok("/tmp/x.gif".to_string())));
}

#[test]
fn save_create_failure_never_writes() {
    let s = run_save(
        "/no/such/dir/x.gif",
        vec![
            SaveEvent::CreateFailed("No such file or directory (os error 2)".to_string()),
            SaveEvent::Created,
            SaveEvent::Written,
        ],
    );
    assert_eq!(
        s,
        SaveState::Done(Err(
            "Failed to create file: No such file or directory (os error 2)".to_string()
        ))
    );
}

#[test]
fn save_write_failure_is_an_error() {
    let s = run_save(
        "/tmp/x.gif",
        vec![SaveEvent::Created, SaveEvent::WriteFailed("disk full".to_string())],
    );
    assert_eq!(
        s,
        SaveState::Done(Err("Failed to write data to file: disk full".to_string()))
    );
}

#[test]
fn save_ignores_event_out_of_turn() {
    let s = save_step("/tmp/x.gif", SaveState::Creating, SaveEvent::Written);
    assert_eq!(s, SaveState::Creating);
}

#[test]
fn save_then_read_gif_scenario() {
    let data: Vec<u8> = vec![0x47, 0x49, 0x46, 0x38, 0x39];
    let s = run_save("/tmp/x.gif", vec![SaveEvent::Created, SaveEvent::Written]);
    assert_eq!(s, SaveState::Done(Ok("/tmp/x.gif".to_string())));
    let r = read_response(Ok(data.clone()));
    assert_eq!(r, Ok((data, "image/gif".to_string())));
}

#[test]
fn read_of_empty_file_is_octet_stream() {
    let r = read_response(Ok(Vec::new()));
    assert_eq!(r, Ok((Vec::new(), "application/octet-stream".to_string())));
}

#[test]
fn read_of_png_is_image_png() {
    let bytes: Vec<u8> = vec![0x89, 0x50, 0x4E, 0x47, 0x0D, 0x0A];
    let r = read_response(Ok(bytes.clone()));
    assert_eq!(r, Ok((bytes, "image/png".to_string())));
}
