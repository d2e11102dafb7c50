//! What the runtime's key and service settings mean: where each secret key comes from,
//! which settings production insists on, and the defaults used in development. The values
//! are read by the runtime; these functions decide what follows from them.

use vstd::prelude::*;
use crate::application::ingress::DEFAULT_PUBLIC_BASE_URL;
use crate::auth_product::config::raw_view;
use crate::auth_product::infra::{
    normalize_passkey_origin, normalize_passkey_rp_id, passkey_origin, passkey_rp_id,
};
use crate::crypto::{base64_padded, base64_standard_decode};
use crate::error::AuthStackError;
use crate::text::{is_blank, is_blank_str, lower_chars, owned, str_eq, to_lower, trim, trim_chars, trim_str, vec_is};

verus! {

/// A setting counts only when it is not blank.
pub open spec fn present(raw: Option<Seq<char>>) -> Option<Seq<char>> {
    match raw {
        Some(v) => if is_blank(v) {
            None
        } else {
            Some(v)
        },
        None => None,
    }
}

fn present_exec(raw: &Option<String>) -> (r: Option<String>)
    ensures
        raw_view(r) == present(raw_view(*raw)),
{
    match raw {
        Some(v) => if is_blank_str(v.as_str()) {
            None
        } else {
            Some(v.clone())
        },
        None => None,
    }
}

/// Where a secret key comes from: configured text to decode, or a key derived for this
/// deployment.
#[derive(Clone, Debug, PartialEq, Eq)]
pub enum KeySource {
    Configured(String),
    Derived,
}

/// Key material: bytes decoded from configuration, or a key derived for this deployment.
#[derive(Clone, Debug, PartialEq, Eq)]
pub enum KeyMaterial {
    Decoded(Vec<u8>),
    Derived,
}

/// The outbox sealing key: the configured one; in production there must be one, in
/// development a derived key stands in.
pub fn outbox_key_source(configured: &Option<String>, production: bool) -> (r: Result<KeySource, AuthStackError>)
    ensures
        match present(raw_view(*configured)) {
            Some(v) => r matches Ok(KeySource::Configured(t)) && t@ == v,
            None => if production {
                r matches Err(AuthStackError::Configuration { message: m })
                    && m@ == "AUTH_OUTBOX_KEY_BASE64 is required in production"@
            } else {
                r matches Ok(KeySource::Derived)
            },
        },
{
    match present_exec(configured) {
        Some(v) => Ok(KeySource::Configured(v)),
        None => if production {
            Err(AuthStackError::configuration("AUTH_OUTBOX_KEY_BASE64 is required in production"))
        } else {
            Ok(KeySource::Derived)
        },
    }
}

/// The outbox key version: the configured one, which production may not set to the
/// development version and must set; `development-v1` in development when unset.
pub fn outbox_key_version(configured: &Option<String>, production: bool) -> (r: Result<String, AuthStackError>)
    ensures
        match present(raw_view(*configured)) {
            Some(v) => if !production || v != "development-v1"@ {
                r matches Ok(t) && t@ == v
            } else {
                r matches Err(AuthStackError::Configuration { message: m })
                    && m@ == "production forbids the development outbox key version"@
            },
            None => if production {
                r matches Err(AuthStackError::Configuration { message: m })
                    && m@ == "AUTH_OUTBOX_KEY_VERSION is required in production"@
            } else {
                r matches Ok(t) && t@ == "development-v1"@
            },
        },
{
    match present_exec(configured) {
        Some(v) => if !production || !str_eq(v.as_str(), "development-v1") {
            Ok(v)
        } else {
            Err(AuthStackError::configuration("production forbids the development outbox key version"))
        },
        None => if production {
            Err(AuthStackError::configuration("AUTH_OUTBOX_KEY_VERSION is required in production"))
        } else {
            Ok(owned("development-v1"))
        },
    }
}

/// The recovery-code pepper: the configured text, trimmed, must be padded standard base64;
/// production must configure one; development derives one.
pub fn recovery_code_pepper(configured: &Option<String>, production: bool) -> (r: Result<KeyMaterial, AuthStackError>)
    ensures
        match present(raw_view(*configured)) {
            Some(v) => if exists|b: Seq<u8>| base64_padded(b) == trim(v) {
                r matches Ok(KeyMaterial::Decoded(bytes)) && base64_padded(bytes@) == trim(v)
            } else {
                r matches Err(AuthStackError::Configuration { message: m })
                    && m@ == "recovery-code pepper is invalid"@
            },
            None => if production {
                r matches Err(AuthStackError::Configuration { message: m })
                    && m@ == "AUTH_RECOVERY_CODE_PEPPER_BASE64 is required in production"@
            } else {
                r matches Ok(KeyMaterial::Derived)
            },
        },
{
    match present_exec(configured) {
        Some(v) => {
            let t = trim_str(v.as_str());
            match base64_standard_decode(t.as_str()) {
                Some(bytes) => Ok(KeyMaterial::Decoded(bytes)),
                None => Err(AuthStackError::configuration("recovery-code pepper is invalid")),
            }
        },
        None => if production {
            Err(AuthStackError::configuration("AUTH_RECOVERY_CODE_PEPPER_BASE64 is required in production"))
        } else {
            Ok(KeyMaterial::Derived)
        },
    }
}

/// The trusted-ingress key: none configured means no trusted ingress; a configured one,
/// trimmed, must be padded standard base64 of exactly 32 bytes.
pub fn trusted_ingress_key(configured: &Option<String>) -> (r: Result<Option<Vec<u8>>, AuthStackError>)
    ensures
        match present(raw_view(*configured)) {
            None => r matches Ok(None),
            Some(v) => if exists|b: Seq<u8>| b.len() == 32 && base64_padded(b) == trim(v) {
                r matches Ok(Some(bytes)) && bytes@.len() == 32 && base64_padded(bytes@) == trim(v)
            } else {
                r matches Err(AuthStackError::Configuration { message: m })
                    && m@ == "AUTH_TRUSTED_INGRESS_KEY_BASE64 must decode to 32 bytes"@
            },
        },
{
    match present_exec(configured) {
        None => Ok(None),
        Some(v) => {
            let t = trim_str(v.as_str());
            match base64_standard_decode(t.as_str()) {
                Some(bytes) => if bytes.len() == 32 {
                    Ok(Some(bytes))
                } else {
                    proof {
                        assert forall|b: Seq<u8>| b.len() == 32 implies base64_padded(b) != trim(v@) by {
                            if base64_padded(b) == trim(v@) {
                                lemma_base64_padded_injective(b, bytes@);
                            }
                        }
                    }
                    Err(AuthStackError::configuration("AUTH_TRUSTED_INGRESS_KEY_BASE64 must decode to 32 bytes"))
                },
                None => Err(AuthStackError::configuration("AUTH_TRUSTED_INGRESS_KEY_BASE64 must decode to 32 bytes")),
            }
        },
    }
}

/// The audience trusted-ingress contexts are sealed for: the configured one, else
/// `buwiz-server`.
pub fn trusted_ingress_audience(configured: &Option<String>) -> (audience: String)
    ensures
        audience@ == match present(raw_view(*configured)) {
            Some(v) => v,
            None => "buwiz-server"@,
        },
{
    match present_exec(configured) {
        Some(v) => v,
        None => owned("buwiz-server"),
    }
}

/// Where the JWT key ring comes from.
#[derive(Clone, Debug, PartialEq, Eq)]
pub enum JwtKeySource {
    /// The configured key-ring JSON.
    Json(String),
    /// A development HS256 key: its key id, and the configured secret (`None`: a secret
    /// derived for this deployment, so an unset secret is not a published constant).
    DevelopmentHs256 { kid: String, secret: Option<String> },
}

/// The JWT key ring: the configured JSON; production must configure one (with an active
/// ES256 key); development signs with HS256 under the configured or default key id.
pub fn jwt_key_source(
    key_ring_json: &Option<String>,
    production: bool,
    kid: &Option<String>,
    secret: &Option<String>,
) -> (r: Result<JwtKeySource, AuthStackError>)
    ensures
        match present(raw_view(*key_ring_json)) {
            Some(json) => r matches Ok(JwtKeySource::Json(t)) && t@ == json,
            None => if production {
                r matches Err(AuthStackError::Configuration { message: m })
                    && m@ == "AUTH_JWT_KEY_RING_JSON with an active ES256 key is required in production"@
            } else {
                r matches Ok(JwtKeySource::DevelopmentHs256 { kid: k, secret: s })
                    && k@ == match kid {
                        Some(v) => v@,
                        None => "buwiz-server-dev-hs256"@,
                    }
                    && raw_view(s) == present(raw_view(*secret))
            },
        },
{
    match present_exec(key_ring_json) {
        Some(json) => Ok(JwtKeySource::Json(json)),
        None => if production {
            Err(AuthStackError::configuration("AUTH_JWT_KEY_RING_JSON with an active ES256 key is required in production"))
        } else {
            let k = match kid {
                Some(v) => v.clone(),
                None => owned("buwiz-server-dev-hs256"),
            };
            Ok(JwtKeySource::DevelopmentHs256 { kid: k, secret: present_exec(secret) })
        },
    }
}

/// `kid` is among the key ids.
pub open spec fn has_kid(kids: Seq<String>, kid: Seq<char>) -> bool {
    exists|j: int| 0 <= j < kids.len() && (#[trigger] kids[j])@ == kid
}

fn has_kid_exec(kids: &[String], kid: &str) -> (b: bool)
    ensures
        b == has_kid(kids@, kid@),
{
    let mut j: usize = 0;
    while j < kids.len()
        invariant
            j <= kids@.len(),
            forall|i: int| 0 <= i < j ==> (#[trigger] kids@[i])@ != kid@,
        decreases kids.len() - j,
    {
        if str_eq(kids[j].as_str(), kid) {
            return true;
        }
        j = j + 1;
    }
    false
}

/// The stored signing-key metadata must be synchronised when a configured key id is not
/// among the stored ones.
pub fn signing_keys_need_sync(configured_kids: &[String], stored_kids: &[String]) -> (b: bool)
    ensures
        b == exists|i: int| 0 <= i < configured_kids@.len() && !has_kid(stored_kids@, (#[trigger] configured_kids@[i])@),
{
    let mut i: usize = 0;
    while i < configured_kids.len()
        invariant
            i <= configured_kids@.len(),
            forall|k: int| 0 <= k < i ==> has_kid(stored_kids@, (#[trigger] configured_kids@[k])@),
        decreases configured_kids.len() - i,
    {
        if !has_kid_exec(stored_kids, configured_kids[i].as_str()) {
            return true;
        }
        i = i + 1;
    }
    false
}

/// The version recorded when signing keys are synchronised: the configured one, else
/// `runtime-v1`.
pub fn signing_key_version(configured: &Option<String>) -> (version: String)
    ensures
        version@ == match present(raw_view(*configured)) {
            Some(v) => v,
            None => "runtime-v1"@,
        },
{
    match present_exec(configured) {
        Some(v) => v,
        None => owned("runtime-v1"),
    }
}

/// Which authenticators a passkey may live on.
#[derive(Clone, Copy, Debug, PartialEq, Eq)]
pub enum PasskeyAttachment {
    Platform,
    CrossPlatform,
    Any,
}

/// The passkey attachment setting (default `platform`), trimmed and lower-cased.
pub open spec fn attachment_setting(raw: Option<Seq<char>>) -> Option<PasskeyAttachment> {
    let v = to_lower(
        trim(
            match raw {
                Some(v) => v,
                None => "platform"@,
            },
        ),
    );
    if v == "platform"@ {
        Some(PasskeyAttachment::Platform)
    } else if v == "cross-platform"@ || v == "cross_platform"@ || v == "roaming"@ {
        Some(PasskeyAttachment::CrossPlatform)
    } else if v == "any"@ || v == "none"@ || v == "unspecified"@ {
        Some(PasskeyAttachment::Any)
    } else {
        None
    }
}

/// Reads the passkey attachment setting.
pub fn passkey_attachment(raw: &Option<String>) -> (r: Result<PasskeyAttachment, AuthStackError>)
    ensures
        match attachment_setting(raw_view(*raw)) {
            Some(a) => r == Ok::<PasskeyAttachment, AuthStackError>(a),
            None => r matches Err(AuthStackError::Configuration { message: m })
                && m@ == "AUTH_PASSKEY_AUTHENTICATOR_ATTACHMENT must be platform, cross-platform, or any"@,
        },
{
    let t = match raw {
        Some(v) => trim_chars(v.as_str()),
        None => trim_chars("platform"),
    };
    let v = lower_chars(&t);
    if vec_is(&v, "platform") {
        Ok(PasskeyAttachment::Platform)
    } else if vec_is(&v, "cross-platform") || vec_is(&v, "cross_platform") || vec_is(&v, "roaming") {
        Ok(PasskeyAttachment::CrossPlatform)
    } else if vec_is(&v, "any") || vec_is(&v, "none") || vec_is(&v, "unspecified") {
        Ok(PasskeyAttachment::Any)
    } else {
        Err(AuthStackError::configuration("AUTH_PASSKEY_AUTHENTICATOR_ATTACHMENT must be platform, cross-platform, or any"))
    }
}

/// The passkey relying party: its id (default `localhost`, loopback IPs mapped to
/// `localhost`), its name (default `buwiz-server`) and its origin (default the public
/// base URL fallback, loopback host rewritten to `localhost`).
pub fn passkey_relying_party(
    rp_id: Option<String>,
    rp_name: Option<String>,
    origin: Option<String>,
) -> (party: (String, String, String))
    ensures
        party.0@ == passkey_rp_id(
            match rp_id {
                Some(v) => v@,
                None => "localhost"@,
            },
        ),
        party.1@ == match rp_name {
            Some(v) => v@,
            None => "buwiz-server"@,
        },
        party.2@ == passkey_origin(
            match origin {
                Some(v) => v@,
                None => DEFAULT_PUBLIC_BASE_URL@,
            },
        ),
{
    let id = match rp_id {
        Some(v) => v,
        None => owned("localhost"),
    };
    let name = match rp_name {
        Some(v) => v,
        None => owned("buwiz-server"),
    };
    let o = match origin {
        Some(v) => v,
        None => owned(DEFAULT_PUBLIC_BASE_URL),
    };
    (normalize_passkey_rp_id(id), name, normalize_passkey_origin(o))
}

/// The database URL, which must be configured.
pub fn database_url(configured: &Option<String>) -> (r: Result<String, AuthStackError>)
    ensures
        match present(raw_view(*configured)) {
            Some(v) => r matches Ok(t) && t@ == v,
            None => r matches Err(AuthStackError::Configuration { message: m })
                && m@ == "DATABASE_URL is required"@,
        },
{
    match present_exec(configured) {
        Some(v) => Ok(v),
        None => Err(AuthStackError::configuration("DATABASE_URL is required")),
    }
}

/// Production must configure the vault key; development may derive one.
pub fn check_vault_key_configured(production: bool, configured: &Option<String>) -> (r: Result<(), AuthStackError>)
    ensures
        (production && present(raw_view(*configured)) is None) ==> (r matches Err(
            AuthStackError::Configuration { message: m },
        ) && m@ == "AUTH_VAULT_KEY_BASE64 is required in production"@),
        !(production && present(raw_view(*configured)) is None) ==> r is Ok,
{
    if production && present_exec(configured).is_none() {
        return Err(AuthStackError::configuration("AUTH_VAULT_KEY_BASE64 is required in production"));
    }
    Ok(())
}

/// Transactional mail settings: the product name (default `Goldcoders`) and the public
/// base URL links point at, which must be configured.
pub fn transactional_mail_settings(
    product_name: &Option<String>,
    public_base_url: &Option<String>,
) -> (r: Result<(String, String), AuthStackError>)
    ensures
        match present(raw_view(*public_base_url)) {
            None => r matches Err(AuthStackError::Configuration { message: m })
                && m@ == "AUTH_PUBLIC_BASE_URL is required"@,
            Some(url) => r matches Ok((name, u)) && u@ == url && name@ == match present(
                raw_view(*product_name),
            ) {
                Some(n) => n,
                None => "Goldcoders"@,
            },
        },
{
    let name = match present_exec(product_name) {
        Some(n) => n,
        None => owned("Goldcoders"),
    };
    match present_exec(public_base_url) {
        None => Err(AuthStackError::configuration("AUTH_PUBLIC_BASE_URL is required")),
        Some(url) => Ok((name, url)),
    }
}

proof fn lemma_base64_padded_injective(a: Seq<u8>, b: Seq<u8>)
    requires
        base64_padded(a) == base64_padded(b),
    ensures
        a == b,
{
    crate::crypto::lemma_base64_padded_injective(a, b);
}

} // verus!
