use chmparse::error::{Context, Input};

#[test]
fn formats_empty_slice() {
    assert_eq!(Input::new(&[]).to_string(), "[]");
}

#[test]
fn formats_up_to_len8_slice() {
    assert_eq!(
        Input::new(&[0x11, 0xfd, 0x1, 0x7c]).to_string(),
        "[ 11 FD 01 7C ]"
    );
    assert_eq!(
        Input::new(&[0x11, 0xfd, 0x1, 0x7c, 0xaa, 0x7b, 0xd0, 0x11]).to_string(),
        "[ 11 FD 01 7C AA 7B D0 11 ]"
    );
}

#[test]
fn formats_over_len8_slice() {
    assert_eq!(
        Input::new(&[
            0x11, 0xfd, 0x1, 0x7c, 0xaa, 0x7b, 0xd0, 0x11, 0x9e, 0xc, 0x0, 0xa0, 0xc9, 0x22, 0xe6,
            0xec,
        ])
        .to_string(),
        "[ 11 FD 01 7C AA 7B D0 11 ... ]"
    );
}

#[test]
fn context_collects_labels_in_order() {
    let mut ctx = Context::default();
    ctx.add_context("directory listing");
    ctx.add_context("listing chunk");
    assert_eq!(ctx.0, vec!["directory listing".to_string(), "listing chunk".to_string()]);
}
