//! The settings cache: string keys to string values, read through typed
//! getters that fall back to a default when the key is missing or its text
//! does not parse. The cache is modelled as a write log with last-write-wins
//! lookup; the durable settings table behind it lives outside the library
//! and is fed the same key/value pairs.

use vstd::prelude::*;
use vstd::string::StringExecFns;
use crate::num::bool_to_text;
use crate::num::parse_bool;
use crate::num::parse_u64;
use crate::num::spec_bool_text;
use crate::num::spec_dec_of;
use crate::num::spec_dec_value;
use crate::num::spec_parse_bool;
use crate::num::spec_parses_to_u64;
use crate::num::u64_to_dec;

verus! {

/// The value the cache holds for `key`: that of the latest write.
pub open spec fn spec_setting(s: Seq<(String, String)>, key: Seq<char>) -> Option<Seq<char>>
    decreases s.len(),
{
    if s.len() == 0 {
        None
    } else if s.last().0@ == key {
        Some(s.last().1@)
    } else {
        spec_setting(s.drop_last(), key)
    }
}

/// The number a `u64` getter answers: the parsed value when the key is held
/// and its text parses, the default otherwise.
pub open spec fn spec_u64_setting(s: Seq<(String, String)>, key: Seq<char>, default: u64) -> int {
    match spec_setting(s, key) {
        None => default as int,
        Some(text) => if spec_parses_to_u64(text) {
            spec_dec_value(text)
        } else {
            default as int
        },
    }
}

/// The boolean a `bool` getter answers, by the same fallback rule.
pub open spec fn spec_bool_setting(s: Seq<(String, String)>, key: Seq<char>, default: bool)
    -> bool {
    match spec_setting(s, key) {
        None => default,
        Some(text) => match spec_parse_bool(text) {
            Some(b) => b,
            None => default,
        },
    }
}

/// The settings values served to the settings endpoints and applied back by
/// an administrator.
pub struct AppSettings {
    pub upload_max_size: u64,
    pub allow_registration: bool,
    pub site_name: String,
    pub allow_everyone_upload: bool,
    pub local_base_url: String,
    pub r2_base_url: String,
}

/// The in-process settings cache.
pub struct SettingsService {
    entries: Vec<(String, String)>,
}

impl SettingsService {
    pub closed spec fn spec_entries(&self) -> Seq<(String, String)> {
        self.entries@
    }

    pub fn new() -> (r: SettingsService)
        ensures
            r.spec_entries() =~= Seq::<(String, String)>::empty(),
    {
        SettingsService { entries: Vec::new() }
    }

    /// Writes one setting: later reads of `key` see `value`, reads of every
    /// other key are unaffected.
    pub fn set(&mut self, key: String, value: String)
        ensures
            final(self).spec_entries() == old(self).spec_entries().push((key, value)),
            spec_setting(final(self).spec_entries(), key@) == Some(value@),
            forall|k: Seq<char>|
                k != key@ ==> spec_setting(final(self).spec_entries(), k) == spec_setting(
                    old(self).spec_entries(),
                    k,
                ),
    {
        self.entries.push((key, value));
        proof {
            assert(final(self).spec_entries().drop_last() =~= old(self).spec_entries());
        }
    }

    /// Reads `key`, with `default` for a missing key.
    pub fn get(&self, key: &str, default: &str) -> (r: String)
        ensures
            r@ == match spec_setting(self.spec_entries(), key@) {
                Some(v) => v,
                None => default@,
            },
    {
        let owned = key.to_owned();
        let n = self.entries.len();
        let mut i: usize = n;
        proof {
            assert(self.spec_entries().subrange(0, n as int) =~= self.spec_entries());
        }
        while i > 0
            invariant
                n == self.spec_entries().len(),
                i <= n,
                owned@ == key@,
                spec_setting(self.spec_entries(), key@) == spec_setting(
                    self.spec_entries().subrange(0, i as int),
                    key@,
                ),
            decreases i,
        {
            i = i - 1;
            proof {
                assert(self.spec_entries().subrange(0, i as int + 1).last() == self.spec_entries()[
                    i as int]);
                assert(self.spec_entries().subrange(0, i as int + 1).drop_last()
                    =~= self.spec_entries().subrange(0, i as int));
            }
            let entry = &self.entries[i];
            if entry.0.eq(&owned) {
                return entry.1.clone();
            }
        }
        proof {
            assert(self.spec_entries().subrange(0, 0) =~= Seq::<(String, String)>::empty());
        }
        default.to_owned()
    }

    /// Reads `key` as a number, with `default` for a missing or unparsable
    /// value. A missing key reads as empty text, which never parses.
    pub fn get_u64(&self, key: &str, default: u64) -> (r: u64)
        ensures
            r == spec_u64_setting(self.spec_entries(), key@, default),
    {
        let raw = self.get(key, "");
        proof {
            reveal_strlit("");
        }
        match parse_u64(raw.as_str()) {
            Some(v) => v,
            None => default,
        }
    }

    /// Reads `key` as a boolean, with `default` for a missing or unparsable
    /// value. A missing key reads as empty text, which never parses.
    pub fn get_bool(&self, key: &str, default: bool) -> (r: bool)
        ensures
            r == spec_bool_setting(self.spec_entries(), key@, default),
    {
        let raw = self.get(key, "");
        proof {
            reveal_strlit("");
            reveal_strlit("true");
            reveal_strlit("false");
            let setting = spec_setting(self.spec_entries(), key@);
            if setting is None {
                assert(raw@ == ""@);
                assert(raw@.len() == 0);
                assert("true"@.len() == 4);
                assert(spec_parse_bool(raw@) is None);
            }
        }
        match parse_bool(raw.as_str()) {
            Some(b) => b,
            None => default,
        }
    }

    /// The upload size cap, in megabytes.
    pub fn max_upload_size(&self) -> (r: u64)
        ensures
            r == spec_u64_setting(self.spec_entries(), "upload_max_size_mb"@, 10),
    {
        self.get_u64("upload_max_size_mb", 10)
    }

    /// Whether self-registration is open.
    pub fn allow_registration(&self) -> (r: bool)
        ensures
            r == spec_bool_setting(self.spec_entries(), "allow_registration"@, false),
    {
        self.get_bool("allow_registration", false)
    }

    /// The site's display name.
    pub fn site_name(&self) -> (r: String)
        ensures
            r@ == match spec_setting(self.spec_entries(), "site_name"@) {
                Some(v) => v,
                None => "AetherPix"@,
            },
    {
        self.get("site_name", "AetherPix")
    }

    /// Whether unauthenticated clients may upload.
    pub fn allow_everyone_upload(&self) -> (r: bool)
        ensures
            r == spec_bool_setting(self.spec_entries(), "allow_everyone_upload"@, false),
    {
        self.get_bool("allow_everyone_upload", false)
    }

    /// The base URL served links are built on; empty means the server's own.
    pub fn local_base_url(&self) -> (r: String)
        ensures
            r@ == match spec_setting(self.spec_entries(), "local_base_url"@) {
                Some(v) => v,
                None => ""@,
            },
    {
        self.get("local_base_url", "")
    }

    /// The base URL of the direct-upload storage host.
    pub fn r2_base_url(&self) -> (r: String)
        ensures
            r@ == match spec_setting(self.spec_entries(), "r2_base_url"@) {
                Some(v) => v,
                None => ""@,
            },
    {
        self.get("r2_base_url", "")
    }

    /// The storage credential id.
    pub fn aws_access_key_id(&self) -> (r: String)
        ensures
            r@ == match spec_setting(self.spec_entries(), "aws_access_key_id"@) {
                Some(v) => v,
                None => ""@,
            },
    {
        self.get("aws_access_key_id", "")
    }

    /// The storage credential secret.
    pub fn aws_secret_access_key(&self) -> (r: String)
        ensures
            r@ == match spec_setting(self.spec_entries(), "aws_secret_access_key"@) {
                Some(v) => v,
                None => ""@,
            },
    {
        self.get("aws_secret_access_key", "")
    }

    /// The storage region.
    pub fn aws_region(&self) -> (r: String)
        ensures
            r@ == match spec_setting(self.spec_entries(), "aws_region"@) {
                Some(v) => v,
                None => "garage"@,
            },
    {
        self.get("aws_region", "garage")
    }

    /// The storage endpoint.
    pub fn aws_endpoint_url(&self) -> (r: String)
        ensures
            r@ == match spec_setting(self.spec_entries(), "aws_endpoint_url"@) {
                Some(v) => v,
                None => ""@,
            },
    {
        self.get("aws_endpoint_url", "")
    }

    /// The settings block the settings endpoints serve.
    pub fn get_app_settings(&self) -> (r: AppSettings)
        ensures
            r.upload_max_size == spec_u64_setting(self.spec_entries(), "upload_max_size_mb"@, 10),
            r.allow_registration == spec_bool_setting(
                self.spec_entries(),
                "allow_registration"@,
                false,
            ),
            r.site_name@ == match spec_setting(self.spec_entries(), "site_name"@) {
                Some(v) => v,
                None => "AetherPix"@,
            },
            r.allow_everyone_upload == spec_bool_setting(
                self.spec_entries(),
                "allow_everyone_upload"@,
                false,
            ),
            r.local_base_url@ == match spec_setting(self.spec_entries(), "local_base_url"@) {
                Some(v) => v,
                None => ""@,
            },
            r.r2_base_url@ == match spec_setting(self.spec_entries(), "r2_base_url"@) {
                Some(v) => v,
                None => ""@,
            },
    {
        AppSettings {
            upload_max_size: self.max_upload_size(),
            allow_registration: self.allow_registration(),
            site_name: self.site_name(),
            allow_everyone_upload: self.allow_everyone_upload(),
            local_base_url: self.local_base_url(),
            r2_base_url: self.r2_base_url(),
        }
    }

    /// Applies an administrator's settings block: renders each field to its
    /// key and text, writes all six to the cache, and returns the pairs in
    /// field order for the durable table's upsert.
    pub fn update_batch(&mut self, new_settings: &AppSettings) -> (pairs: Vec<(String, String)>)
        ensures
            pairs@.len() == 6,
            pairs@[0].0@ == "upload_max_size_mb"@ && pairs@[0].1@ == spec_dec_of(
                new_settings.upload_max_size as nat,
            ),
            pairs@[1].0@ == "allow_registration"@ && pairs@[1].1@ == spec_bool_text(
                new_settings.allow_registration,
            ),
            pairs@[2].0@ == "site_name"@ && pairs@[2].1@ == new_settings.site_name@,
            pairs@[3].0@ == "allow_everyone_upload"@ && pairs@[3].1@ == spec_bool_text(
                new_settings.allow_everyone_upload,
            ),
            pairs@[4].0@ == "local_base_url"@ && pairs@[4].1@ == new_settings.local_base_url@,
            pairs@[5].0@ == "r2_base_url"@ && pairs@[5].1@ == new_settings.r2_base_url@,
            forall|i: int|
                0 <= i < 6 ==> spec_setting(final(self).spec_entries(), (#[trigger] pairs@[i]).0@)
                    == Some(pairs@[i].1@),
            forall|k: Seq<char>|
                (forall|i: int| 0 <= i < 6 ==> k != (#[trigger] pairs@[i]).0@) ==> spec_setting(
                    final(self).spec_entries(),
                    k,
                ) == spec_setting(old(self).spec_entries(), k),
    {
        proof {
            reveal_strlit("upload_max_size_mb");
            reveal_strlit("allow_registration");
            reveal_strlit("site_name");
            reveal_strlit("allow_everyone_upload");
            reveal_strlit("local_base_url");
            reveal_strlit("r2_base_url");
            assert("upload_max_size_mb"@[0] != "allow_registration"@[0]);
            assert("upload_max_size_mb"@.len() == 18);
            assert("allow_registration"@.len() == 18);
            assert("site_name"@.len() == 9);
            assert("allow_everyone_upload"@.len() == 21);
            assert("local_base_url"@.len() == 14);
            assert("r2_base_url"@.len() == 11);
        }
        let size_text = u64_to_dec(new_settings.upload_max_size);
        let registration_text = bool_to_text(new_settings.allow_registration);
        let everyone_text = bool_to_text(new_settings.allow_everyone_upload);
        self.set(String::from_str("upload_max_size_mb"), size_text.clone());
        self.set(String::from_str("allow_registration"), registration_text.clone());
        self.set(String::from_str("site_name"), new_settings.site_name.clone());
        self.set(String::from_str("allow_everyone_upload"), everyone_text.clone());
        self.set(String::from_str("local_base_url"), new_settings.local_base_url.clone());
        self.set(String::from_str("r2_base_url"), new_settings.r2_base_url.clone());
        let mut pairs: Vec<(String, String)> = Vec::new();
        pairs.push((String::from_str("upload_max_size_mb"), size_text));
        pairs.push((String::from_str("allow_registration"), registration_text));
        pairs.push((String::from_str("site_name"), new_settings.site_name.clone()));
        pairs.push((String::from_str("allow_everyone_upload"), everyone_text));
        pairs.push((String::from_str("local_base_url"), new_settings.local_base_url.clone()));
        pairs.push((String::from_str("r2_base_url"), new_settings.r2_base_url.clone()));
        proof {
            let entries = self.spec_entries();
            assert(spec_setting(entries, "upload_max_size_mb"@) == Some(size_text@));
            assert(spec_setting(entries, "allow_registration"@) == Some(registration_text@));
            assert(spec_setting(entries, "site_name"@) == Some(new_settings.site_name@));
            assert(spec_setting(entries, "allow_everyone_upload"@) == Some(everyone_text@));
            assert(spec_setting(entries, "local_base_url"@) == Some(new_settings.local_base_url@));
            assert(spec_setting(entries, "r2_base_url"@) == Some(new_settings.r2_base_url@));
            assert forall|i: int| 0 <= i < 6 implies spec_setting(
                entries,
                (#[trigger] pairs@[i]).0@,
            ) == Some(pairs@[i].1@) by {
                if i == 0 {
                } else if i == 1 {
                } else if i == 2 {
                } else if i == 3 {
                } else if i == 4 {
                } else {
                }
            }
            assert forall|k: Seq<char>|
                (forall|i: int| 0 <= i < 6 ==> k != (#[trigger] pairs@[i]).0@) implies spec_setting(
                entries,
                k,
            ) == spec_setting(old(self).spec_entries(), k) by {
                assert(k != pairs@[0].0@);
                assert(k != pairs@[1].0@);
                assert(k != pairs@[2].0@);
                assert(k != pairs@[3].0@);
                assert(k != pairs@[4].0@);
                assert(k != pairs@[5].0@);
            }
        }
        pairs
    }
}

} // verus!
