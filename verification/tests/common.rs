use keylime_common::config::KeylimeConfig;
use keylime_common::identity::IdentityOutcome;
use keylime_common::resolver::{
    ca_path_resolve, cloudagent_contact_ip_get, cloudagent_contact_port_get, config_file_get,
    config_get, config_get_env, listen_notifications_get, revocation_ip_get, revocation_port_get,
    work_dir_get, ConfigError, EnvMap, IniDoc,
};
use keylime_common::uuid_resolver::get_uuid;
use uuid::Uuid;

fn sample_sections() -> Vec<(String, Vec<(String, String)>)> {
    let agent: Vec<(String, String)> = vec![
        ("cloudagent_ip".to_string(), "127.0.0.1".to_string()),
        ("cloudagent_port".to_string(), "9002".to_string()),
        ("registrar_ip".to_string(), "127.0.0.1".to_string()),
        ("registrar_port".to_string(), "8890".to_string()),
        ("agent_uuid".to_string(), "d432fbb3-d2f1-4a97-9ef7-75bd81c00000".to_string()),
        ("tpm_hash_alg".to_string(), "sha256".to_string()),
        ("tpm_encryption_alg".to_string(), "rsa".to_string()),
        ("tpm_signing_alg".to_string(), "rsassa".to_string()),
        ("listen_notifications".to_string(), "True".to_string()),
        ("revocation_cert".to_string(), "default".to_string()),
        ("secure_size".to_string(), "1m".to_string()),
        ("payload_script".to_string(), "autorun.sh".to_string()),
        ("dec_payload_file".to_string(), "decrypted_payload".to_string()),
        ("enc_keyname".to_string(), "derived_tci_key".to_string()),
        ("extract_payload_zip".to_string(), "True".to_string()),
        ("keylime_ca".to_string(), "default".to_string()),
    ];
    let general: Vec<(String, String)> = vec![
        ("receive_revocation_ip".to_string(), "127.0.0.1".to_string()),
        ("receive_revocation_port".to_string(), "8992".to_string()),
    ];
    vec![("cloud_agent".to_string(), agent), ("general".to_string(), general)]
}

fn sample_doc() -> IniDoc {
    IniDoc::from_sections("keylime.conf".to_string(), sample_sections())
}

#[test]
fn test_config_get_parameters_exist() {
    //let result = config_get("keylime.conf", "general", "cloudagent_port");
    //assert_eq!(result, "9002");
}

#[test]
fn test_config_file_get() {
    // An empty variable counts as unset.
    assert_eq!(config_file_get(Some("".to_string())), String::from("/etc/keylime.conf"));
    assert_eq!(config_file_get(None), String::from("/etc/keylime.conf"));

    // A non-empty variable overrides the default.
    assert_eq!(config_file_get(Some("/tmp/testing.conf".to_string())), String::from("/tmp/testing.conf"));
}

#[test]
fn test_get_uuid() {
    assert_eq!(get_uuid("openstack"), "openstack");
    assert_eq!(get_uuid("hash_ek"), "hash_ek");
    let _ = Uuid::parse_str(&get_uuid("generate")).unwrap(); //#[allow_ci]
    assert_eq!(
        get_uuid("D432FBB3-D2F1-4A97-9EF7-75BD81C00000"),
        "d432fbb3-d2f1-4a97-9ef7-75bd81c00000"
    );
    assert_ne!(
        get_uuid("D432FBB3-D2F1-4A97-9EF7-75BD81C0000X"),
        "d432fbb3-d2f1-4a97-9ef7-75bd81c0000X"
    );
    let _ = Uuid::parse_str(&get_uuid(
        "D432FBB3-D2F1-4A97-9EF7-75BD81C0000X",
    ))
    .unwrap(); //#[allow_ci]
}

fn assert_canonical_uuid(s: &str) {
    let b = s.as_bytes();
    assert_eq!(b.len(), 36);
    for (i, c) in b.iter().enumerate() {
        if i == 8 || i == 13 || i == 18 || i == 23 {
            assert_eq!(*c, b'-');
        } else {
            assert!(c.is_ascii_hexdigit() && !c.is_ascii_uppercase());
        }
    }
}

#[test]
fn resolved_identifiers_are_canonical_lowercase() {
    assert_canonical_uuid(&get_uuid("generate"));
    assert_canonical_uuid(&get_uuid("OPENSTACK-LIKE-BUT-INVALID-UUID"));
    assert_canonical_uuid(&get_uuid("not-a-uuid"));
    assert_canonical_uuid(&get_uuid("D432FBB3-D2F1-4A97-9EF7-75BD81C00000"));
}

#[test]
fn env_override_beats_file() {
    let doc = sample_doc();
    let mut env = EnvMap::new();
    env.set("CLOUDAGENT_IP".to_string(), "10.0.0.9".to_string());
    let r = config_get_env(&doc, &env, "cloud_agent", "cloudagent_ip", "CLOUDAGENT_IP");
    assert_eq!(r.unwrap(), "10.0.0.9");
}

#[test]
fn empty_env_value_counts_as_unset() {
    let doc = sample_doc();
    let mut env = EnvMap::new();
    env.set("CLOUDAGENT_IP".to_string(), "".to_string());
    let r = config_get_env(&doc, &env, "cloud_agent", "cloudagent_ip", "CLOUDAGENT_IP");
    assert_eq!(r.unwrap(), "127.0.0.1");
}

#[test]
fn unset_env_falls_back_to_file() {
    let doc = sample_doc();
    let env = EnvMap::new();
    let r = config_get_env(&doc, &env, "cloud_agent", "cloudagent_port", "CLOUDAGENT_PORT");
    assert_eq!(r.unwrap(), "9002");
}

#[test]
fn missing_section_is_a_configuration_error() {
    let doc = sample_doc();
    let r = config_get(&doc, "no_such_section", "cloudagent_ip");
    match r {
        Err(ConfigError::MissingSection { section, file }) => {
            assert_eq!(section, "no_such_section");
            assert_eq!(file, "keylime.conf");
        },
        other => panic!("expected a missing-section error, got {:?}", other),
    }
}

#[test]
fn missing_key_is_a_configuration_error() {
    let doc = sample_doc();
    let r = config_get(&doc, "cloud_agent", "no_such_key");
    match r {
        Err(ConfigError::MissingKey { key, file }) => {
            assert_eq!(key, "no_such_key");
            assert_eq!(file, "keylime.conf");
        },
        other => panic!("expected a missing-key error, got {:?}", other),
    }
}

#[test]
fn deprecated_misspelled_key_still_resolves() {
    let mut sections = sample_sections();
    // Replace the current key name by the deprecated misspelled one.
    sections[0].1.retain(|kv| kv.0 != "listen_notifications");
    sections[0].1.push(("listen_notfications".to_string(), "False".to_string()));
    let doc = IniDoc::from_sections("keylime.conf".to_string(), sections);
    assert_eq!(listen_notifications_get(&doc).unwrap(), "False");
}

#[test]
fn ini_text_parses_into_the_model() {
    let text = "[cloud_agent]\ncloudagent_ip = 192.168.1.5\n[general]\nreceive_revocation_ip = 1.2.3.4\n";
    let doc = IniDoc::parse(text, "test.conf".to_string()).unwrap();
    assert_eq!(config_get(&doc, "cloud_agent", "cloudagent_ip").unwrap(), "192.168.1.5");
    assert_eq!(config_get(&doc, "general", "receive_revocation_ip").unwrap(), "1.2.3.4");
    assert!(config_get(&doc, "general", "cloudagent_ip").is_err());
}

#[test]
fn revocation_getters_use_env_then_file() {
    let doc = sample_doc();
    let mut env = EnvMap::new();
    env.set("REVOCATION_PORT".to_string(), "9999".to_string());
    assert_eq!(revocation_ip_get(&doc, &env).unwrap(), "127.0.0.1");
    assert_eq!(revocation_port_get(&doc, &env).unwrap(), "9999");
}

#[test]
fn contact_ip_is_optional() {
    let doc = sample_doc();
    let env = EnvMap::new();
    assert_eq!(cloudagent_contact_ip_get(&doc, &env), None);
    let mut env2 = EnvMap::new();
    env2.set("KEYLIME_AGENT_CONTACT_IP".to_string(), "10.1.1.1".to_string());
    assert_eq!(cloudagent_contact_ip_get(&doc, &env2), Some("10.1.1.1".to_string()));
}

#[test]
fn contact_port_parses_or_errors() {
    let doc = sample_doc();
    let env = EnvMap::new();
    assert_eq!(cloudagent_contact_port_get(&doc, &env).unwrap(), None);
    let mut env2 = EnvMap::new();
    env2.set("KEYLIME_AGENT_CONTACT_PORT".to_string(), "9002".to_string());
    assert_eq!(cloudagent_contact_port_get(&doc, &env2).unwrap(), Some(9002));
    let mut env3 = EnvMap::new();
    env3.set("KEYLIME_AGENT_CONTACT_PORT".to_string(), "not-a-port".to_string());
    match cloudagent_contact_port_get(&doc, &env3) {
        Err(ConfigError::MalformedPort { value }) => assert_eq!(value, "not-a-port"),
        other => panic!("expected a malformed-port error, got {:?}", other),
    }
}

#[test]
fn ca_path_sentinel_is_rewritten() {
    assert_eq!(
        ca_path_resolve("default".to_string(), "/var/lib/keylime"),
        "/var/lib/keylime/cv_ca/cacert.crt"
    );
    assert_eq!(
        ca_path_resolve("/etc/pki/ca.crt".to_string(), "/var/lib/keylime"),
        "/etc/pki/ca.crt"
    );
}

#[test]
fn build_happy_path_fills_every_field() {
    let doc = sample_doc();
    let env = EnvMap::new();
    let cfg = KeylimeConfig::build(&doc, &env, false, IdentityOutcome::Absent).unwrap();
    assert_eq!(cfg.agent_ip, "127.0.0.1");
    assert_eq!(cfg.agent_port, "9002");
    assert_eq!(cfg.registrar_ip, "127.0.0.1");
    assert_eq!(cfg.registrar_port, "8890");
    assert_eq!(cfg.agent_uuid, "d432fbb3-d2f1-4a97-9ef7-75bd81c00000");
    assert_eq!(cfg.agent_contact_ip, None);
    assert_eq!(cfg.agent_contact_port, None);
    assert!(cfg.run_revocation);
    assert_eq!(cfg.revocation_cert, "default");
    assert_eq!(cfg.revocation_ip, "127.0.0.1");
    assert_eq!(cfg.revocation_port, "8992");
    assert_eq!(cfg.secure_size, "1m");
    assert_eq!(cfg.payload_script, "autorun.sh");
    assert_eq!(cfg.dec_payload_filename, "decrypted_payload");
    assert_eq!(cfg.key_filename, "derived_tci_key");
    assert!(cfg.extract_payload_zip);
    assert!(cfg.tpm_data.is_none());
    // Defaults substituted for absent optional settings.
    assert_eq!(cfg.work_dir, "/var/lib/keylime");
    assert_eq!(cfg.tpm_data_path, "/var/lib/keylime/tpmdata.json");
    assert_eq!(cfg.keylime_ca_path, "/var/lib/keylime/cv_ca/cacert.crt");
    assert_eq!(cfg.revocation_actions, "");
    assert_eq!(cfg.revocation_actions_dir, "/usr/libexec/keylime");
    assert!(cfg.allow_payload_revocation_actions);
    assert!(cfg.mtls_enabled);
    assert!(!cfg.enable_insecure_payload);
    assert_eq!(cfg.run_as, None);
}

#[test]
fn build_propagates_missing_required_setting() {
    let mut sections = sample_sections();
    sections[0].1.retain(|kv| kv.0 != "secure_size");
    let doc = IniDoc::from_sections("keylime.conf".to_string(), sections);
    let env = EnvMap::new();
    match KeylimeConfig::build(&doc, &env, false, IdentityOutcome::Absent) {
        Err(ConfigError::MissingKey { key, .. }) => assert_eq!(key, "secure_size"),
        other => panic!("expected a missing-key error, got {:?}", other),
    }
}

#[test]
fn build_rejects_malformed_boolean_even_with_default() {
    let mut sections = sample_sections();
    sections[0].1.push(("mtls_cert_enabled".to_string(), "maybe".to_string()));
    let doc = IniDoc::from_sections("keylime.conf".to_string(), sections);
    let env = EnvMap::new();
    match KeylimeConfig::build(&doc, &env, false, IdentityOutcome::Absent) {
        Err(ConfigError::MalformedBool { key, value }) => {
            assert_eq!(key, "mtls_cert_enabled");
            assert_eq!(value, "maybe");
        },
        other => panic!("expected a malformed-boolean error, got {:?}", other),
    }
}

#[test]
fn build_rejects_unknown_algorithm() {
    let mut sections = sample_sections();
    sections[0].1.retain(|kv| kv.0 != "tpm_hash_alg");
    sections[0].1.push(("tpm_hash_alg".to_string(), "md5".to_string()));
    let doc = IniDoc::from_sections("keylime.conf".to_string(), sections);
    let env = EnvMap::new();
    match KeylimeConfig::build(&doc, &env, false, IdentityOutcome::Absent) {
        Err(ConfigError::UnknownAlgorithm { key, value }) => {
            assert_eq!(key, "tpm_hash_alg");
            assert_eq!(value, "md5");
        },
        other => panic!("expected an unknown-algorithm error, got {:?}", other),
    }
}

#[test]
fn build_reads_run_as_only_when_elevated() {
    let mut sections = sample_sections();
    sections[0].1.push(("run_as".to_string(), "keylime:tss".to_string()));
    let doc = IniDoc::from_sections("keylime.conf".to_string(), sections);
    let env = EnvMap::new();
    let cfg = KeylimeConfig::build(&doc, &env, true, IdentityOutcome::Absent).unwrap();
    assert_eq!(cfg.run_as, Some("keylime:tss".to_string()));
    let cfg2 = KeylimeConfig::build(&doc, &env, false, IdentityOutcome::Absent).unwrap();
    assert_eq!(cfg2.run_as, None);
    // Elevated with the setting absent: continue without a drop target.
    let doc2 = sample_doc();
    let cfg3 = KeylimeConfig::build(&doc2, &env, true, IdentityOutcome::Absent).unwrap();
    assert_eq!(cfg3.run_as, None);
}

#[test]
fn default_config_matches_stock_values() {
    let cfg = KeylimeConfig::default();
    assert_eq!(cfg.agent_ip, "127.0.0.1");
    assert_eq!(cfg.agent_port, "9002");
    assert_eq!(cfg.agent_uuid, "d432fbb3-d2f1-4a97-9ef7-75bd81c00000");
    assert_eq!(cfg.agent_contact_port, Some(9002));
    assert_eq!(cfg.tpm_data_path, "/var/lib/keylime/tpmdata.json");
    assert_eq!(cfg.keylime_ca_path, "cv_ca/cacert.crt");
    assert!(cfg.mtls_enabled);
    assert!(!cfg.enable_insecure_payload);
    assert_eq!(cfg.run_as, None);
}

#[test]
fn build_uses_env_and_work_dir_override() {
    let doc = sample_doc();
    let mut env = EnvMap::new();
    env.set("CLOUDAGENT_IP".to_string(), "10.0.0.9".to_string());
    env.set("KEYLIME_DIR".to_string(), "/tmp/kl".to_string());
    let cfg = KeylimeConfig::build(&doc, &env, false, IdentityOutcome::Absent).unwrap();
    assert_eq!(cfg.agent_ip, "10.0.0.9");
    assert_eq!(cfg.work_dir, "/tmp/kl");
    assert_eq!(cfg.tpm_data_path, "/tmp/kl/tpmdata.json");
    assert_eq!(cfg.keylime_ca_path, "/tmp/kl/cv_ca/cacert.crt");
    assert_eq!(work_dir_get(&doc, &env), "/tmp/kl");
}
