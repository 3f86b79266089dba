use aetherpix::errors::{http_status, AppError, ErrorCode};
use aetherpix::keys::make_key;
use aetherpix::num::{bool_to_text, parse_bool, parse_u64, u64_to_dec};
use aetherpix::paths::{extension_of, file_name_of};
use aetherpix::views::{build_image, is_blank, page_size, resolve_preview_base, resolve_view_base};

const UUID_A: &str = "0192f3a1-7c44-7bb1-9e55-0123456789ab";

#[test]
fn keys_are_uuid_dot_extension() {
    assert_eq!(make_key(UUID_A, "jpg"), format!("{}.jpg", UUID_A));
    assert_eq!(make_key(UUID_A, "avif").len(), 41);
    assert_eq!(make_key(UUID_A, ""), format!("{}.", UUID_A));
}

#[test]
fn extension_comes_from_the_last_dot() {
    assert_eq!(extension_of("photo.jpeg"), "jpeg");
    assert_eq!(extension_of("archive.tar.gz"), "gz");
    assert_eq!(extension_of(".bashrc"), "");
    assert_eq!(extension_of("README"), "");
    assert_eq!(extension_of("note."), "");
    assert_eq!(extension_of("a.b"), "b");
}

#[test]
fn file_name_is_the_final_component() {
    assert_eq!(file_name_of("gallery/photos/cat.png"), "cat.png");
    assert_eq!(file_name_of("cat.png"), "cat.png");
    assert_eq!(file_name_of("a/b/"), "");
    assert_eq!(file_name_of("a/.."), "");
    assert_eq!(file_name_of(".."), "");
    assert_eq!(file_name_of("dir/..hidden"), "..hidden");
}

#[test]
fn decimal_parsing_is_exact() {
    assert_eq!(parse_u64("0"), Some(0));
    assert_eq!(parse_u64("42"), Some(42));
    assert_eq!(parse_u64("007"), Some(7));
    assert_eq!(parse_u64("18446744073709551615"), Some(u64::MAX));
    assert_eq!(parse_u64("18446744073709551616"), None);
    assert_eq!(parse_u64(""), None);
    assert_eq!(parse_u64("12a"), None);
    assert_eq!(parse_u64("-1"), None);
}

#[test]
fn decimal_rendering_round_trips() {
    assert_eq!(u64_to_dec(0), "0");
    assert_eq!(u64_to_dec(10), "10");
    assert_eq!(u64_to_dec(987654321), "987654321");
    assert_eq!(u64_to_dec(u64::MAX), "18446744073709551615");
    assert_eq!(parse_u64(u64_to_dec(123456).as_str()), Some(123456));
}

#[test]
fn boolean_text_is_strict() {
    assert_eq!(parse_bool("true"), Some(true));
    assert_eq!(parse_bool("false"), Some(false));
    assert_eq!(parse_bool("True"), None);
    assert_eq!(parse_bool(""), None);
    assert_eq!(bool_to_text(true), "true");
    assert_eq!(bool_to_text(false), "false");
    assert_eq!(parse_bool(bool_to_text(true).as_str()), Some(true));
}

#[test]
fn blankness_decides_the_base_url() {
    assert!(is_blank(""));
    assert!(is_blank("  \t\r\n"));
    assert!(!is_blank(" x "));
    assert_eq!(resolve_view_base("", "http://me"), "http://me/api/view");
    assert_eq!(resolve_view_base("  ", "http://me"), "http://me/api/view");
    assert_eq!(resolve_view_base("http://cdn", "http://me"), "http://cdn");
    assert_eq!(resolve_preview_base("", "http://me"), "http://me/api/view/preview");
    assert_eq!(resolve_preview_base("http://cdn", "http://me"), "http://cdn/preview");
}

#[test]
fn gallery_entry_links_and_size() {
    let record = aetherpix::records::StoredRecord {
        id: 7,
        url: "http://x/api/view/k.avif".to_string(),
        file_name: "k.avif".to_string(),
        raw_name: "cat.png".to_string(),
        uuid: UUID_A.to_string(),
        is_public: true,
        user_id: None,
        size: 2048,
    };
    let image = build_image(&record, "http://x/api/view/preview");
    assert_eq!(image.id, 7);
    assert_eq!(image.preview_url, format!("http://x/api/view/preview/{}.avif", UUID_A));
    assert_eq!(image.original_url, "http://x/api/view/k.avif");
    assert_eq!(image.name, "cat.png");
    assert_eq!(image.size, "2048");
}

#[test]
fn page_size_is_clamped() {
    assert_eq!(page_size(0), 1);
    assert_eq!(page_size(1), 1);
    assert_eq!(page_size(20), 20);
    assert_eq!(page_size(21), 20);
    assert_eq!(page_size(u64::MAX), 20);
}

#[test]
fn error_codes_map_to_http_statuses() {
    assert_eq!(http_status(ErrorCode::BadRequest), 400);
    assert_eq!(http_status(ErrorCode::Unauthorized), 401);
    assert_eq!(http_status(ErrorCode::NotFound), 404);
    assert_eq!(http_status(ErrorCode::Conflict), 409);
    assert_eq!(http_status(ErrorCode::InternalError), 500);
}

#[test]
fn app_errors_map_to_status_and_description() {
    assert_eq!(AppError::UsernameNotExist.http_status(), 401);
    assert_eq!(AppError::WrongCredentials.http_status(), 400);
    assert_eq!(AppError::EmailNotVerified.http_status(), 401);
    assert_eq!(AppError::TokenOutdated.http_status(), 400);
    assert_eq!(AppError::InvalidToken.http_status(), 401);
    assert_eq!(AppError::InvalidRequest.http_status(), 400);
    assert_eq!(AppError::Internal.http_status(), 500);
    assert_eq!(AppError::Internal.description(), "服务器内部错误");
    let taken = AppError::EmailAlreadyExist("a@b.c".to_string());
    assert_eq!(taken.http_status(), 400);
    assert_eq!(taken.description(), "邮箱a@b.c已被占用");
}
