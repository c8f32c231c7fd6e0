//! The immutable configuration snapshot and its builder: one fixed, ordered
//! pass over the resolver that applies the agent's precedence and default
//! policies.

use vstd::prelude::*;
use vstd::string::StringExecFns;
use crate::algorithms::{EncryptionAlgorithm, HashAlgorithm, SignAlgorithm};
use crate::identity::{IdentityOutcome, IdentityRecord};
use crate::resolver::{
    ca_path_of, ca_path_resolve, cfg_value, config_get, config_get_env, default_work_dir,
    listen_notifications_get, resolve_value, work_dir_get, cloudagent_contact_ip_get,
    cloudagent_contact_port_get, ConfigError, EnvMap, IniDoc, SectionsModel,
};
use crate::strutil::{bool_token, joined_path, parse_bool, path_join, u32_token};
use crate::uuid_resolver::{get_uuid, uuid_resolution};

verus! {

/// The configuration snapshot, populated exactly once per process lifetime
/// and never mutated afterwards.
#[derive(Debug, Clone)]
pub struct KeylimeConfig {
    pub agent_ip: String,
    pub agent_port: String,
    pub registrar_ip: String,
    pub registrar_port: String,
    pub agent_uuid: String,
    pub agent_contact_ip: Option<String>,
    pub agent_contact_port: Option<u32>,
    pub hash_alg: HashAlgorithm,
    pub enc_alg: EncryptionAlgorithm,
    pub sign_alg: SignAlgorithm,
    pub tpm_data: Option<IdentityRecord>,
    pub tpm_data_path: String,
    pub run_revocation: bool,
    pub revocation_cert: String,
    pub revocation_ip: String,
    pub revocation_port: String,
    pub secure_size: String,
    pub payload_script: String,
    pub dec_payload_filename: String,
    pub key_filename: String,
    pub extract_payload_zip: bool,
    pub keylime_ca_path: String,
    pub revocation_actions: String,
    pub revocation_actions_dir: String,
    pub allow_payload_revocation_actions: bool,
    pub work_dir: String,
    pub mtls_enabled: bool,
    pub enable_insecure_payload: bool,
    pub run_as: Option<String>,
}

/// The environment model the builder's contracts speak over.
pub type EnvModel = Seq<(Seq<char>, Seq<char>)>;

/// The revocation switch as read from the file: the current key name first,
/// the deprecated misspelled one kept for older deployed files second.
pub open spec fn listen_value(secs: SectionsModel) -> Option<Seq<char>> {
    match cfg_value(secs, "cloud_agent"@, "listen_notifications"@) {
        Some(v) => Some(v),
        None => cfg_value(secs, "cloud_agent"@, "listen_notfications"@),
    }
}

/// An optional boolean setting resolves: either the key is absent (the
/// default applies) or its value is a boolean word.
pub open spec fn opt_bool_ok(secs: SectionsModel, key: Seq<char>) -> bool {
    match cfg_value(secs, "cloud_agent"@, key) {
        Some(v) => bool_token(v) is Some,
        None => true,
    }
}

/// The value an optional boolean setting takes: its parsed value when present
/// and well-formed, else the given default.
pub open spec fn opt_bool_value(secs: SectionsModel, key: Seq<char>, dflt: bool) -> bool {
    match cfg_value(secs, "cloud_agent"@, key) {
        Some(v) => match bool_token(v) {
            Some(b) => b,
            None => dflt,
        },
        None => dflt,
    }
}

/// The working directory the snapshot carries.
pub open spec fn work_dir_of(secs: SectionsModel, env: EnvModel) -> Seq<char> {
    match resolve_value(secs, env, "cloud_agent"@, "keylime_dir"@, "KEYLIME_DIR"@) {
        Some(v) => v,
        None => default_work_dir(),
    }
}

/// When the build succeeds: every required setting resolves, every
/// algorithm and boolean and port value parses; settings with a documented
/// default may be absent but must parse when present.
pub open spec fn build_succeeds(secs: SectionsModel, env: EnvModel) -> bool {
    &&& resolve_value(secs, env, "cloud_agent"@, "cloudagent_ip"@, "CLOUDAGENT_IP"@) is Some
    &&& resolve_value(secs, env, "cloud_agent"@, "cloudagent_port"@, "CLOUDAGENT_PORT"@) is Some
    &&& resolve_value(secs, env, "cloud_agent"@, "registrar_ip"@, "REGISTRAR_IP"@) is Some
    &&& resolve_value(secs, env, "cloud_agent"@, "registrar_port"@, "REGISTRAR_PORT"@) is Some
    &&& cfg_value(secs, "cloud_agent"@, "agent_uuid"@) is Some
    &&& (match resolve_value(
        secs,
        env,
        "cloud_agent"@,
        "agent_contact_port"@,
        "KEYLIME_AGENT_CONTACT_PORT"@,
    ) {
        Some(pv) => u32_token(pv) is Some,
        None => true,
    })
    &&& (match cfg_value(secs, "cloud_agent"@, "tpm_hash_alg"@) {
        Some(v) => HashAlgorithm::of_tag(v) is Some,
        None => false,
    })
    &&& (match cfg_value(secs, "cloud_agent"@, "tpm_encryption_alg"@) {
        Some(v) => EncryptionAlgorithm::of_tag(v) is Some,
        None => false,
    })
    &&& (match cfg_value(secs, "cloud_agent"@, "tpm_signing_alg"@) {
        Some(v) => SignAlgorithm::of_tag(v) is Some,
        None => false,
    })
    &&& (match listen_value(secs) {
        Some(v) => bool_token(v) is Some,
        None => false,
    })
    &&& cfg_value(secs, "cloud_agent"@, "revocation_cert"@) is Some
    &&& cfg_value(secs, "general"@, "receive_revocation_ip"@) is Some
    &&& cfg_value(secs, "general"@, "receive_revocation_port"@) is Some
    &&& cfg_value(secs, "cloud_agent"@, "secure_size"@) is Some
    &&& cfg_value(secs, "cloud_agent"@, "payload_script"@) is Some
    &&& cfg_value(secs, "cloud_agent"@, "dec_payload_file"@) is Some
    &&& cfg_value(secs, "cloud_agent"@, "enc_keyname"@) is Some
    &&& (match cfg_value(secs, "cloud_agent"@, "extract_payload_zip"@) {
        Some(v) => bool_token(v) is Some,
        None => false,
    })
    &&& cfg_value(secs, "cloud_agent"@, "keylime_ca"@) is Some
    &&& opt_bool_ok(secs, "allow_payload_revocation_actions"@)
    &&& opt_bool_ok(secs, "mtls_cert_enabled"@)
    &&& opt_bool_ok(secs, "enable_insecure_payload"@)
}

/// What a successfully built snapshot holds, field by field.
pub open spec fn build_ok(
    secs: SectionsModel,
    env: EnvModel,
    is_elevated: bool,
    identity: IdentityOutcome,
    cfg: KeylimeConfig,
) -> bool {
    let wd = work_dir_of(secs, env);
    &&& Some(cfg.agent_ip@) == resolve_value(
        secs,
        env,
        "cloud_agent"@,
        "cloudagent_ip"@,
        "CLOUDAGENT_IP"@,
    )
    &&& Some(cfg.agent_port@) == resolve_value(
        secs,
        env,
        "cloud_agent"@,
        "cloudagent_port"@,
        "CLOUDAGENT_PORT"@,
    )
    &&& Some(cfg.registrar_ip@) == resolve_value(
        secs,
        env,
        "cloud_agent"@,
        "registrar_ip"@,
        "REGISTRAR_IP"@,
    )
    &&& Some(cfg.registrar_port@) == resolve_value(
        secs,
        env,
        "cloud_agent"@,
        "registrar_port"@,
        "REGISTRAR_PORT"@,
    )
    &&& (cfg_value(secs, "cloud_agent"@, "agent_uuid"@) matches Some(raw) && uuid_resolution(
        raw,
        cfg.agent_uuid@,
    ))
    &&& (match resolve_value(
        secs,
        env,
        "cloud_agent"@,
        "agent_contact_ip"@,
        "KEYLIME_AGENT_CONTACT_IP"@,
    ) {
        Some(v) => cfg.agent_contact_ip matches Some(s) && s@ == v,
        None => cfg.agent_contact_ip is None,
    })
    &&& (match resolve_value(
        secs,
        env,
        "cloud_agent"@,
        "agent_contact_port"@,
        "KEYLIME_AGENT_CONTACT_PORT"@,
    ) {
        Some(pv) => cfg.agent_contact_port == u32_token(pv),
        None => cfg.agent_contact_port is None,
    })
    &&& (cfg_value(secs, "cloud_agent"@, "tpm_hash_alg"@) matches Some(v) && HashAlgorithm::of_tag(
        v,
    ) == Some(cfg.hash_alg))
    &&& (cfg_value(secs, "cloud_agent"@, "tpm_encryption_alg"@) matches Some(v)
        && EncryptionAlgorithm::of_tag(v) == Some(cfg.enc_alg))
    &&& (cfg_value(secs, "cloud_agent"@, "tpm_signing_alg"@) matches Some(v)
        && SignAlgorithm::of_tag(v) == Some(cfg.sign_alg))
    &&& (listen_value(secs) matches Some(v) && bool_token(v) == Some(cfg.run_revocation))
    &&& cfg_value(secs, "cloud_agent"@, "revocation_cert"@) == Some(cfg.revocation_cert@)
    &&& cfg_value(secs, "general"@, "receive_revocation_ip"@) == Some(cfg.revocation_ip@)
    &&& cfg_value(secs, "general"@, "receive_revocation_port"@) == Some(cfg.revocation_port@)
    &&& cfg_value(secs, "cloud_agent"@, "secure_size"@) == Some(cfg.secure_size@)
    &&& cfg_value(secs, "cloud_agent"@, "payload_script"@) == Some(cfg.payload_script@)
    &&& cfg_value(secs, "cloud_agent"@, "dec_payload_file"@) == Some(cfg.dec_payload_filename@)
    &&& cfg_value(secs, "cloud_agent"@, "enc_keyname"@) == Some(cfg.key_filename@)
    &&& (cfg_value(secs, "cloud_agent"@, "extract_payload_zip"@) matches Some(v) && bool_token(v)
        == Some(cfg.extract_payload_zip))
    &&& cfg.work_dir@ == wd
    &&& cfg.tpm_data_path@ == joined_path(wd, "tpmdata.json"@)
    &&& (match identity {
        IdentityOutcome::Loaded(rec) => cfg.tpm_data matches Some(r2) && r2.ak_hash_alg
            == rec.ak_hash_alg && r2.ak_sign_alg == rec.ak_sign_alg && r2.ak_context@
            == rec.ak_context@,
        _ => cfg.tpm_data is None,
    })
    &&& (cfg_value(secs, "cloud_agent"@, "keylime_ca"@) matches Some(raw) && cfg.keylime_ca_path@
        == ca_path_of(raw, wd))
    &&& cfg.revocation_actions@ == (match cfg_value(secs, "cloud_agent"@, "revocation_actions"@) {
        Some(v) => v,
        None => Seq::<char>::empty(),
    })
    &&& cfg.revocation_actions_dir@ == (match cfg_value(
        secs,
        "cloud_agent"@,
        "revocation_actions_dir"@,
    ) {
        Some(v) => v,
        None => "/usr/libexec/keylime"@,
    })
    &&& cfg.allow_payload_revocation_actions == opt_bool_value(
        secs,
        "allow_payload_revocation_actions"@,
        true,
    )
    &&& cfg.mtls_enabled == opt_bool_value(secs, "mtls_cert_enabled"@, true)
    &&& cfg.enable_insecure_payload == opt_bool_value(secs, "enable_insecure_payload"@, false)
    &&& (if is_elevated {
        match cfg_value(secs, "cloud_agent"@, "run_as"@) {
            Some(v) => cfg.run_as matches Some(s) && s@ == v,
            None => cfg.run_as is None,
        }
    } else {
        cfg.run_as is None
    })
}

impl Default for KeylimeConfig {
    /// The stock snapshot matching the defaults of the shipped configuration
    /// file, used as a test fixture. Whether to drop privileges depends on
    /// how the process runs, which is the caller's business: the fixture
    /// carries no drop target.
    fn default() -> (r: KeylimeConfig)
        ensures
            r.agent_ip@ == "127.0.0.1"@,
            r.agent_port@ == "9002"@,
            r.registrar_ip@ == "127.0.0.1"@,
            r.registrar_port@ == "8890"@,
            r.agent_uuid@ == "d432fbb3-d2f1-4a97-9ef7-75bd81c00000"@,
            r.agent_contact_ip matches Some(ip) && ip@ == "127.0.0.1"@,
            r.agent_contact_port == Some(9002u32),
            r.hash_alg == HashAlgorithm::Sha256,
            r.enc_alg == EncryptionAlgorithm::Rsa,
            r.sign_alg == SignAlgorithm::RsaSsa,
            r.tpm_data is None,
            r.tpm_data_path@ == joined_path(default_work_dir(), "tpmdata.json"@),
            r.run_revocation == true,
            r.revocation_cert@ == "default"@,
            r.revocation_ip@ == "127.0.0.1"@,
            r.revocation_port@ == "8992"@,
            r.secure_size@ == "1m"@,
            r.payload_script@ == "autorun.sh"@,
            r.dec_payload_filename@ == "decrypted_payload"@,
            r.key_filename@ == "derived_tci_key"@,
            r.extract_payload_zip == true,
            r.keylime_ca_path@ == "cv_ca/cacert.crt"@,
            r.revocation_actions@ == Seq::<char>::empty(),
            r.revocation_actions_dir@ == "/usr/libexec/keylime"@,
            r.allow_payload_revocation_actions == true,
            r.work_dir@ == default_work_dir(),
            r.mtls_enabled == true,
            r.enable_insecure_payload == false,
            r.run_as is None,
    {
        KeylimeConfig {
            agent_ip: String::from_str("127.0.0.1"),
            agent_port: String::from_str("9002"),
            registrar_ip: String::from_str("127.0.0.1"),
            registrar_port: String::from_str("8890"),
            agent_uuid: String::from_str("d432fbb3-d2f1-4a97-9ef7-75bd81c00000"),
            agent_contact_ip: Some(String::from_str("127.0.0.1")),
            agent_contact_port: Some(9002),
            hash_alg: HashAlgorithm::Sha256,
            enc_alg: EncryptionAlgorithm::Rsa,
            sign_alg: SignAlgorithm::RsaSsa,
            tpm_data: None,
            tpm_data_path: path_join("/var/lib/keylime", "tpmdata.json"),
            run_revocation: true,
            revocation_cert: String::from_str("default"),
            revocation_ip: String::from_str("127.0.0.1"),
            revocation_port: String::from_str("8992"),
            secure_size: String::from_str("1m"),
            payload_script: String::from_str("autorun.sh"),
            dec_payload_filename: String::from_str("decrypted_payload"),
            key_filename: String::from_str("derived_tci_key"),
            extract_payload_zip: true,
            keylime_ca_path: String::from_str("cv_ca/cacert.crt"),
            revocation_actions: String::new(),
            revocation_actions_dir: String::from_str("/usr/libexec/keylime"),
            allow_payload_revocation_actions: true,
            work_dir: String::from_str("/var/lib/keylime"),
            mtls_enabled: true,
            enable_insecure_payload: false,
            run_as: None,
        }
    }
}

impl KeylimeConfig {
    /// Builds the snapshot from the parsed configuration file, the
    /// environment, whether the process runs with elevated privileges, and
    /// the outcome of the caller's attempt to load the identity record from
    /// `<work_dir>/tpmdata.json`. Required settings propagate resolution
    /// failures; settings with a documented default substitute it when the
    /// key is absent but still reject malformed values; an absent or corrupt
    /// identity record is an ordinary condition carried as no record.
    #[verifier::rlimit(80)]
    #[verifier::spinoff_prover]
    pub fn build(doc: &IniDoc, env: &EnvMap, is_elevated: bool, identity: IdentityOutcome) -> (r:
        Result<KeylimeConfig, ConfigError>)
        ensures
            r is Ok <==> build_succeeds(doc.sections_model(), env@),
            r matches Ok(cfg) ==> build_ok(
                doc.sections_model(),
                env@,
                is_elevated,
                identity,
                cfg,
            ),
    {
        let agent_ip = match config_get_env(
            doc,
            env,
            "cloud_agent",
            "cloudagent_ip",
            "CLOUDAGENT_IP",
        ) {
            Ok(v) => v,
            Err(e) => {
                return Err(e);
            },
        };
        let agent_port = match config_get_env(
            doc,
            env,
            "cloud_agent",
            "cloudagent_port",
            "CLOUDAGENT_PORT",
        ) {
            Ok(v) => v,
            Err(e) => {
                return Err(e);
            },
        };
        let registrar_ip = match config_get_env(
            doc,
            env,
            "cloud_agent",
            "registrar_ip",
            "REGISTRAR_IP",
        ) {
            Ok(v) => v,
            Err(e) => {
                return Err(e);
            },
        };
        let registrar_port = match config_get_env(
            doc,
            env,
            "cloud_agent",
            "registrar_port",
            "REGISTRAR_PORT",
        ) {
            Ok(v) => v,
            Err(e) => {
                return Err(e);
            },
        };
        let agent_uuid_config = match config_get(doc, "cloud_agent", "agent_uuid") {
            Ok(v) => v,
            Err(e) => {
                return Err(e);
            },
        };
        let agent_uuid = get_uuid(agent_uuid_config.as_str());
        let agent_contact_ip = cloudagent_contact_ip_get(doc, env);
        let agent_contact_port = match cloudagent_contact_port_get(doc, env) {
            Ok(p) => p,
            Err(e) => {
                return Err(e);
            },
        };
        let hash_str = match config_get(doc, "cloud_agent", "tpm_hash_alg") {
            Ok(v) => v,
            Err(e) => {
                return Err(e);
            },
        };
        let hash_alg = match HashAlgorithm::try_from_str(hash_str.as_str()) {
            Some(a) => a,
            None => {
                return Err(
                    ConfigError::UnknownAlgorithm {
                        key: "tpm_hash_alg".to_owned(),
                        value: hash_str,
                    },
                );
            },
        };
        let enc_str = match config_get(doc, "cloud_agent", "tpm_encryption_alg") {
            Ok(v) => v,
            Err(e) => {
                return Err(e);
            },
        };
        let enc_alg = match EncryptionAlgorithm::try_from_str(enc_str.as_str()) {
            Some(a) => a,
            None => {
                return Err(
                    ConfigError::UnknownAlgorithm {
                        key: "tpm_encryption_alg".to_owned(),
                        value: enc_str,
                    },
                );
            },
        };
        let sign_str = match config_get(doc, "cloud_agent", "tpm_signing_alg") {
            Ok(v) => v,
            Err(e) => {
                return Err(e);
            },
        };
        let sign_alg = match SignAlgorithm::try_from_str(sign_str.as_str()) {
            Some(a) => a,
            None => {
                return Err(
                    ConfigError::UnknownAlgorithm {
                        key: "tpm_signing_alg".to_owned(),
                        value: sign_str,
                    },
                );
            },
        };
        let listen_str = match listen_notifications_get(doc) {
            Ok(v) => v,
            Err(e) => {
                return Err(e);
            },
        };
        let run_revocation = match parse_bool(listen_str.as_str()) {
            Some(b) => b,
            None => {
                return Err(
                    ConfigError::MalformedBool {
                        key: "listen_notifications".to_owned(),
                        value: listen_str,
                    },
                );
            },
        };
        let revocation_cert = match config_get(doc, "cloud_agent", "revocation_cert") {
            Ok(v) => v,
            Err(e) => {
                return Err(e);
            },
        };
        let revocation_ip = match config_get(doc, "general", "receive_revocation_ip") {
            Ok(v) => v,
            Err(e) => {
                return Err(e);
            },
        };
        let revocation_port = match config_get(doc, "general", "receive_revocation_port") {
            Ok(v) => v,
            Err(e) => {
                return Err(e);
            },
        };
        let secure_size = match config_get(doc, "cloud_agent", "secure_size") {
            Ok(v) => v,
            Err(e) => {
                return Err(e);
            },
        };
        let payload_script = match config_get(doc, "cloud_agent", "payload_script") {
            Ok(v) => v,
            Err(e) => {
                return Err(e);
            },
        };
        let dec_payload_filename = match config_get(doc, "cloud_agent", "dec_payload_file") {
            Ok(v) => v,
            Err(e) => {
                return Err(e);
            },
        };
        let key_filename = match config_get(doc, "cloud_agent", "enc_keyname") {
            Ok(v) => v,
            Err(e) => {
                return Err(e);
            },
        };
        let extract_str = match config_get(doc, "cloud_agent", "extract_payload_zip") {
            Ok(v) => v,
            Err(e) => {
                return Err(e);
            },
        };
        let extract_payload_zip = match parse_bool(extract_str.as_str()) {
            Some(b) => b,
            None => {
                return Err(
                    ConfigError::MalformedBool {
                        key: "extract_payload_zip".to_owned(),
                        value: extract_str,
                    },
                );
            },
        };
        let work_dir = work_dir_get(doc, env);
        let tpm_data_path = path_join(work_dir.as_str(), "tpmdata.json");
        let tpm_data = match identity {
            IdentityOutcome::Loaded(rec) => Some(rec),
            IdentityOutcome::Absent => None,
            IdentityOutcome::Corrupt => None,
        };
        let ca_raw = match config_get(doc, "cloud_agent", "keylime_ca") {
            Ok(v) => v,
            Err(e) => {
                return Err(e);
            },
        };
        let keylime_ca_path = ca_path_resolve(ca_raw, work_dir.as_str());
        let revocation_actions = match config_get(doc, "cloud_agent", "revocation_actions") {
            Ok(v) => v,
            Err(_) => String::new(),
        };
        let revocation_actions_dir = match config_get(doc, "cloud_agent", "revocation_actions_dir",
        ) {
            Ok(v) => v,
            Err(_) => "/usr/libexec/keylime".to_owned(),
        };
        let allow_payload_revocation_actions = match config_get(
            doc,
            "cloud_agent",
            "allow_payload_revocation_actions",
        ) {
            Ok(v) => match parse_bool(v.as_str()) {
                Some(b) => b,
                None => {
                    return Err(
                        ConfigError::MalformedBool {
                            key: "allow_payload_revocation_actions".to_owned(),
                            value: v,
                        },
                    );
                },
            },
            Err(_) => true,
        };
        let run_as = if is_elevated {
            match config_get(doc, "cloud_agent", "run_as") {
                Ok(user_group) => Some(user_group),
                Err(_) => None,
            }
        } else {
            None
        };
        let mtls_enabled = match config_get(doc, "cloud_agent", "mtls_cert_enabled") {
            Ok(v) => match parse_bool(v.as_str()) {
                Some(b) => b,
                None => {
                    return Err(
                        ConfigError::MalformedBool {
                            key: "mtls_cert_enabled".to_owned(),
                            value: v,
                        },
                    );
                },
            },
            Err(_) => true,
        };
        let enable_insecure_payload = match config_get(doc, "cloud_agent", "enable_insecure_payload",
        ) {
            Ok(v) => match parse_bool(v.as_str()) {
                Some(b) => b,
                None => {
                    return Err(
                        ConfigError::MalformedBool {
                            key: "enable_insecure_payload".to_owned(),
                            value: v,
                        },
                    );
                },
            },
            Err(_) => false,
        };
        Ok(
            KeylimeConfig {
                agent_ip,
                agent_port,
                registrar_ip,
                registrar_port,
                agent_uuid,
                agent_contact_ip,
                agent_contact_port,
                hash_alg,
                enc_alg,
                sign_alg,
                tpm_data,
                tpm_data_path,
                run_revocation,
                revocation_cert,
                revocation_ip,
                revocation_port,
                secure_size,
                payload_script,
                dec_payload_filename,
                key_filename,
                extract_payload_zip,
                keylime_ca_path,
                revocation_actions,
                revocation_actions_dir,
                allow_payload_revocation_actions,
                work_dir,
                mtls_enabled,
                enable_insecure_payload,
                run_as,
            },
        )
    }
}

} // verus!
