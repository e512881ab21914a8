use game_sync::logo::{base64_fits, logo_data_url, thumbnail_file_id, LogoFetch};

fn text(value: &str) -> String {
    value.to_string()
}

#[test]
fn thumbnails_name_their_file() {
    assert_eq!(thumbnail_file_id("drive-file:abc"), Some(text("abc")));
    assert_eq!(thumbnail_file_id("gdrive-img://localhost/abc"), Some(text("abc")));
    assert_eq!(thumbnail_file_id("gdrive-img://abc"), Some(text("abc")));
    assert_eq!(thumbnail_file_id("drive-file:"), Some(text("")));
    assert_eq!(thumbnail_file_id("gdrive-img://localhost"), Some(text("localhost")));
    assert_eq!(thumbnail_file_id("drive-file:gdrive-img://x"), Some(text("gdrive-img://x")));
}

#[test]
fn other_thumbnails_name_none() {
    assert_eq!(thumbnail_file_id(""), None);
    assert_eq!(thumbnail_file_id("https://example.com/logo.png"), None);
    assert_eq!(thumbnail_file_id("Drive-file:abc"), None);
    assert_eq!(thumbnail_file_id("gdrive-img:/abc"), None);
}

#[test]
fn data_urls_are_padded_base64() {
    let cases = [
        ("", ""),
        ("f", "Zg=="),
        ("fo", "Zm8="),
        ("foo", "Zm9v"),
        ("foob", "Zm9vYg=="),
        ("fooba", "Zm9vYmE="),
        ("foobar", "Zm9vYmFy"),
    ];
    for (bytes, encoded) in cases {
        let expected = format!("data:image/png;base64,{}", encoded);
        assert_eq!(logo_data_url("image/png", bytes.as_bytes()), expected);
    }
}

#[test]
fn data_urls_use_the_standard_alphabet() {
    assert_eq!(logo_data_url("", &[0xfb, 0xff, 0xfe]), "data:;base64,+//+");
    let all: Vec<u8> = (0..=255).collect();
    let url = logo_data_url("x/y", &all);
    assert!(url.starts_with("data:x/y;base64,AAECAwQFBgcICQoLDA0ODxAREhMUFRYXGBkaGxwdHh8g"));
    assert!(url.ends_with("+fr7/P3+/w=="));
    assert_eq!(url.len(), "data:x/y;base64,".len() + 344);
}

#[test]
fn different_images_have_different_data_urls() {
    let images: [&[u8]; 6] = [&[], &[0], &[0, 0], &[0, 0, 0], &[0, 0, 1], &[1]];
    for (i, a) in images.iter().enumerate() {
        for (j, b) in images.iter().enumerate() {
            assert_eq!(i == j, logo_data_url("t", a) == logo_data_url("t", b));
        }
    }
}

#[test]
fn logo_is_fetched_and_encoded() {
    let step = LogoFetch::get_logo_data_url("drive-file:abc");
    assert_eq!(step, LogoFetch::Download { file_id: text("abc") });
    let step = step.downloaded(Ok((vec![104, 105], text("image/webp"))));
    assert_eq!(step, LogoFetch::Finished(Ok(text("data:image/webp;base64,aGk="))));
    let again = step.downloaded(Err(text("late")));
    assert_eq!(again, LogoFetch::Finished(Ok(text("data:image/webp;base64,aGk="))));
}

#[test]
fn logo_failures_are_the_answer() {
    let step = LogoFetch::get_logo_data_url("file:///x.png");
    assert_eq!(step, LogoFetch::Finished(Err(text("Not a Drive thumbnail: file:///x.png"))));
    let step = LogoFetch::get_logo_data_url("gdrive-img://abc").downloaded(Err(text("offline")));
    assert_eq!(step, LogoFetch::Finished(Err(text("offline"))));
}

#[test]
fn base64_lengths_that_can_be_held() {
    assert!(base64_fits(0));
    assert!(base64_fits(2_000_000));
    let groups = isize::MAX as usize / 4;
    assert!(base64_fits(groups * 3));
    assert!(!base64_fits(groups * 3 + 1));
    assert!(!base64_fits(usize::MAX));
}
