use aetherpix::account::{may_update_settings, CurrentResponse, LoginResponse, User, UserRole};
use aetherpix::errors::ErrorCode;
use aetherpix::ingest::UploadResult;
use aetherpix::presign::{
    batch_keys, batch_presign_ttl_secs, presign_allowed, presign_key, presign_ttl_secs,
    PresignLedger, PresignRequest,
};
use aetherpix::records::MetadataStore;
use aetherpix::settings::{AppSettings, SettingsService};
use aetherpix::views::build_listing;

const UUID_A: &str = "0192f3a1-7c44-7bb1-9e55-0123456789ab";
const UUID_B: &str = "0192f3a1-7c44-7bb1-9e55-0123456789ac";

#[test]
fn settings_defaults_hold_until_set() {
    let service = SettingsService::new();
    assert_eq!(service.max_upload_size(), 10);
    assert!(!service.allow_registration());
    assert!(!service.allow_everyone_upload());
    assert_eq!(service.site_name(), "AetherPix");
    assert_eq!(service.local_base_url(), "");
    assert_eq!(service.r2_base_url(), "");
    assert_eq!(service.aws_region(), "garage");
    assert_eq!(service.aws_endpoint_url(), "");
    assert_eq!(service.aws_access_key_id(), "");
    assert_eq!(service.aws_secret_access_key(), "");
}

#[test]
fn settings_reads_follow_writes_and_fall_back() {
    let mut service = SettingsService::new();
    service.set("upload_max_size_mb".to_string(), "25".to_string());
    assert_eq!(service.max_upload_size(), 25);
    service.set("upload_max_size_mb".to_string(), "lots".to_string());
    assert_eq!(service.max_upload_size(), 10);
    service.set("allow_everyone_upload".to_string(), "true".to_string());
    assert!(service.allow_everyone_upload());
    service.set("allow_everyone_upload".to_string(), "yes".to_string());
    assert!(!service.allow_everyone_upload());
    service.set("site_name".to_string(), "Pics".to_string());
    assert_eq!(service.site_name(), "Pics");
    assert_eq!(service.get("unset_key", "fallback"), "fallback");
}

#[test]
fn batch_update_renders_and_applies_every_field() {
    let mut service = SettingsService::new();
    let block = AppSettings {
        upload_max_size: 50,
        allow_registration: true,
        site_name: "Pics".to_string(),
        allow_everyone_upload: false,
        local_base_url: "http://cdn".to_string(),
        r2_base_url: "http://r2".to_string(),
    };
    let pairs = service.update_batch(&block);
    assert_eq!(pairs.len(), 6);
    assert_eq!(pairs[0], ("upload_max_size_mb".to_string(), "50".to_string()));
    assert_eq!(pairs[1], ("allow_registration".to_string(), "true".to_string()));
    assert_eq!(pairs[2], ("site_name".to_string(), "Pics".to_string()));
    assert_eq!(pairs[3], ("allow_everyone_upload".to_string(), "false".to_string()));
    assert_eq!(pairs[4], ("local_base_url".to_string(), "http://cdn".to_string()));
    assert_eq!(pairs[5], ("r2_base_url".to_string(), "http://r2".to_string()));
    let read_back = service.get_app_settings();
    assert_eq!(read_back.upload_max_size, 50);
    assert!(read_back.allow_registration);
    assert_eq!(read_back.site_name, "Pics");
    assert!(!read_back.allow_everyone_upload);
    assert_eq!(read_back.local_base_url, "http://cdn");
    assert_eq!(read_back.r2_base_url, "http://r2");
}

#[test]
fn presign_keys_never_collide_for_one_filename() {
    let (u1, k1) = aetherpix::presign::fresh_presign_key("invoice.pdf");
    let (u2, k2) = aetherpix::presign::fresh_presign_key("invoice.pdf");
    assert_ne!(u1, u2);
    assert_ne!(k1, k2);
    assert_eq!(k1, format!("{}.pdf", u1));
    assert_eq!(k2, format!("{}.pdf", u2));
    assert_eq!(presign_key("dir/images/photo.final.png", UUID_A), format!("{}.png", UUID_A));
    assert_eq!(presign_key("noext", UUID_A), format!("{}.", UUID_A));
}

#[test]
fn presign_authorization_and_ttls() {
    assert!(presign_allowed(true).is_ok());
    assert_eq!(presign_allowed(false), Err(ErrorCode::Unauthorized));
    assert_eq!(presign_ttl_secs(), 300);
    assert_eq!(batch_presign_ttl_secs(), 600);
}

#[test]
fn batch_keys_follow_request_order() {
    let requests = vec![
        PresignRequest { uuid: UUID_A.to_string(), extension: "png".to_string() },
        PresignRequest { uuid: UUID_B.to_string(), extension: "gif".to_string() },
    ];
    let pairs = batch_keys(&requests);
    assert_eq!(pairs.len(), 2);
    assert_eq!(pairs[0].0, UUID_A);
    assert_eq!(pairs[0].1, format!("uploads/{}.png", UUID_A));
    assert_eq!(pairs[1].0, UUID_B);
    assert_eq!(pairs[1].1, format!("uploads/{}.gif", UUID_B));
}

#[test]
fn confirm_validates_the_ledger() {
    let mut ledger = PresignLedger::new();
    assert_eq!(ledger.confirm("nobody.avif"), Err(ErrorCode::NotFound));
    ledger.record_pending("owner-1".to_string(), "k1.png".to_string());
    ledger.record_pending("owner-2".to_string(), "k2.png".to_string());
    assert_eq!(ledger.confirm("k1.png"), Ok("owner-1".to_string()));
    assert_eq!(ledger.confirm("k1.png"), Err(ErrorCode::Conflict));
    assert_eq!(ledger.confirm("k2.png"), Ok("owner-2".to_string()));
    assert_eq!(ledger.confirm("k3.png"), Err(ErrorCode::NotFound));
}

fn owned_result(n: u64, owner: Option<&str>, public: bool) -> UploadResult {
    UploadResult {
        url: format!("http://x/{}.avif", n),
        file_name: format!("{}.avif", n),
        is_public: public,
        user_id: owner.map(|s| s.to_string()),
        uuid: format!("0192f3a1-7c44-7bb1-9e55-01234567{:02x}00", n),
        raw_name: format!("pic{}.jpg", n),
        size: n * 100,
    }
}

#[test]
fn finders_respect_visibility_and_ownership() {
    let mut store = MetadataStore::new();
    store.save(&owned_result(1, Some("alice"), true)).unwrap();
    store.save(&owned_result(2, Some("alice"), false)).unwrap();
    store.save(&owned_result(3, Some("bob"), true)).unwrap();
    assert!(store.find_by_filename("1.avif").is_ok());
    assert_eq!(store.find_by_filename("2.avif").err(), Some(ErrorCode::NotFound)); // private
    assert_eq!(store.find_by_filename("9.avif").err(), Some(ErrorCode::NotFound));
    let rec = store
        .find_by_uuid_and_owner("0192f3a1-7c44-7bb1-9e55-012345670200", "alice")
        .expect("alice owns it");
    assert_eq!(rec.id, 2);
    assert_eq!(
        store.find_by_uuid_and_owner("0192f3a1-7c44-7bb1-9e55-012345670200", "bob").err(),
        Some(ErrorCode::NotFound)
    );
}

#[test]
fn listing_pages_newest_first() {
    let mut store = MetadataStore::new();
    for n in 1..=5u64 {
        store.save(&owned_result(n, Some("alice"), true)).unwrap();
    }
    store.save(&owned_result(9, Some("bob"), true)).unwrap();
    let page = store.list_by_owner("alice", 0, 2);
    assert_eq!(page.total, 5);
    assert_eq!(page.pages, 3);
    assert_eq!(page.items.len(), 2);
    assert_eq!(page.items[0].id, 5);
    assert_eq!(page.items[1].id, 4);
    let page = store.list_by_owner("alice", 2, 2);
    assert_eq!(page.items.len(), 1);
    assert_eq!(page.items[0].id, 1);
    // a page past the end is clamped and comes back empty
    let page = store.list_by_owner("alice", 9, 2);
    assert_eq!(page.items.len(), 0);
    assert_eq!(page.total, 5);
    let listing = build_listing(&store.list_by_owner("alice", 0, 2), "http://x/api/view/preview");
    assert_eq!(listing.total, 5);
    assert_eq!(listing.pages, 3);
    assert_eq!(listing.images.len(), 2);
    assert_eq!(listing.images[0].name, "pic5.jpg");
    assert!(listing.images[0].preview_url.starts_with("http://x/api/view/preview/"));
}

#[test]
fn account_responses_project_the_user() {
    let user = User {
        pid: "pid-1".to_string(),
        username: "alice".to_string(),
        email: "a@b.c".to_string(),
        api_key: "ap-123".to_string(),
        role: UserRole::User,
        email_verified_at: Some(1_700_000_000),
    };
    let login = LoginResponse::new(&user);
    assert_eq!(login.pid, "pid-1");
    assert_eq!(login.username, "alice");
    assert!(login.is_verified);
    assert_eq!(login.role, UserRole::User);
    let current = CurrentResponse::new(&user);
    assert_eq!(current.email, "a@b.c");
    let profile = aetherpix::account::user_profile_response(&user);
    assert_eq!(profile.api_token, "ap-123");
    assert!(!may_update_settings(Some(&user)));
    assert!(!may_update_settings(None));
    let admin = User { role: UserRole::Admin, ..user };
    assert!(may_update_settings(Some(&admin)));
}

#[test]
fn unverified_user_login_response() {
    let user = User {
        pid: "pid-2".to_string(),
        username: "carol".to_string(),
        email: "c@d.e".to_string(),
        api_key: "ap-9".to_string(),
        role: UserRole::User,
        email_verified_at: None,
    };
    assert!(!LoginResponse::new(&user).is_verified);
}
