//! Resolution of single configuration values with defined precedence: an
//! environment override outranks the configuration file, and an empty
//! environment value counts as unset.

use vstd::prelude::*;
use crate::strutil::{str_eq, joined_path, path_join, u32_token, parse_u32};

verus! {

/// Model of a parsed configuration file: sections in order, each a name and
/// its key/value pairs in order.
pub type SectionsModel = Seq<(Seq<char>, Seq<(Seq<char>, Seq<char>)>)>;

/// Why a configuration value could not be resolved. Errors carry the missing
/// section, key or file name so the operator can see what to mend.
#[derive(Debug, Clone, PartialEq, Eq)]
pub enum ConfigError {
    /// The configuration file lacks the requested section.
    MissingSection { section: String, file: String },
    /// The section lacks the requested key.
    MissingKey { key: String, file: String },
    /// A boolean-valued key holds text that is not a boolean.
    MalformedBool { key: String, value: String },
    /// A port-valued key holds text that is not an unsigned 32-bit number.
    MalformedPort { value: String },
    /// An algorithm-valued key holds an unknown algorithm word.
    UnknownAlgorithm { key: String, value: String },
}

/// First binding of `name` in an association list.
pub open spec fn assoc_lookup<T>(m: Seq<(Seq<char>, T)>, name: Seq<char>) -> Option<T>
    decreases m.len(),
{
    if m.len() == 0 {
        None
    } else if m[0].0 == name {
        Some(m[0].1)
    } else {
        assoc_lookup(m.skip(1), name)
    }
}

/// View of key/value pairs.
pub open spec fn kvs_view(kvs: Seq<(String, String)>) -> Seq<(Seq<char>, Seq<char>)> {
    kvs.map_values(|kv: (String, String)| (kv.0@, kv.1@))
}

/// View of a section list.
pub open spec fn secs_view(secs: Seq<(String, Vec<(String, String)>)>) -> SectionsModel {
    secs.map_values(|s: (String, Vec<(String, String)>)| (s.0@, kvs_view(s.1@)))
}

/// The value the file gives for `section`/`key`, if both exist.
pub open spec fn cfg_value(secs: SectionsModel, section: Seq<char>, key: Seq<char>) -> Option<
    Seq<char>,
> {
    match assoc_lookup(secs, section) {
        None => None,
        Some(kvs) => assoc_lookup(kvs, key),
    }
}

/// The process environment, handed in as plain name/value bindings; lookup
/// returns the first binding of a name.
pub struct EnvMap {
    vars: Vec<(String, String)>,
}

impl View for EnvMap {
    type V = Seq<(Seq<char>, Seq<char>)>;

    closed spec fn view(&self) -> Seq<(Seq<char>, Seq<char>)> {
        kvs_view(self.vars@)
    }
}

impl EnvMap {
    /// An environment with no bindings.
    pub fn new() -> (r: EnvMap)
        ensures
            r@ == Seq::<(Seq<char>, Seq<char>)>::empty(),
    {
        let r = EnvMap { vars: Vec::new() };
        proof {
            assert(r@ =~= Seq::<(Seq<char>, Seq<char>)>::empty());
        }
        r
    }

    /// Adds a binding; an earlier binding of the same name keeps precedence.
    pub fn set(&mut self, name: String, value: String)
        ensures
            final(self)@ == old(self)@.push((name@, value@)),
    {
        let ghost oldview = self@;
        self.vars.push((name, value));
        proof {
            assert(self@ =~= oldview.push((self.vars@.last().0@, self.vars@.last().1@)));
        }
    }

    /// First binding of `name`, if any.
    pub fn get(&self, name: &str) -> (r: Option<String>)
        ensures
            match assoc_lookup(self@, name@) {
                Some(v) => r matches Some(s) && s@ == v,
                None => r is None,
            },
    {
        let ghost m = self@;
        proof {
            assert(m.skip(0) =~= m);
        }
        let mut i: usize = 0;
        while i < self.vars.len()
            invariant
                i <= self.vars@.len(),
                m == self@,
                m.len() == self.vars@.len(),
                assoc_lookup(m, name@) == assoc_lookup(m.skip(i as int), name@),
            decreases self.vars@.len() - i,
        {
            let entry = &self.vars[i];
            if str_eq(entry.0.as_str(), name) {
                proof {
                    assert(m.skip(i as int)[0] == m[i as int]);
                }
                return Some(entry.1.clone());
            }
            proof {
                assert(m.skip(i as int).skip(1) =~= m.skip(i + 1));
            }
            i += 1;
        }
        proof {
            assert(m.skip(m.len() as int).len() == 0);
        }
        None
    }
}

/// The environment override for a variable: its value when set non-empty; an
/// empty value counts as unset.
pub open spec fn env_override(env: Seq<(Seq<char>, Seq<char>)>, name: Seq<char>) -> Option<
    Seq<char>,
> {
    match assoc_lookup(env, name) {
        Some(v) => if v.len() > 0 {
            Some(v)
        } else {
            None
        },
        None => None,
    }
}

/// What a setting resolves to: the environment override when present, else
/// the file's value.
pub open spec fn resolve_value(
    secs: SectionsModel,
    env: Seq<(Seq<char>, Seq<char>)>,
    section: Seq<char>,
    key: Seq<char>,
    env_name: Seq<char>,
) -> Option<Seq<char>> {
    match env_override(env, env_name) {
        Some(v) => Some(v),
        None => cfg_value(secs, section, key),
    }
}

/// A parsed configuration file together with the name it was read from.
pub struct IniDoc {
    file: String,
    sections: Vec<(String, Vec<(String, String)>)>,
}

/// What the parse of INI text yields: the ordered section/key model, or
/// nothing when the text is not well-formed INI.
pub uninterp spec fn ini_sections_of(text: Seq<char>) -> Option<SectionsModel>;

/// Relies on `ini::Ini::load_from_str` to parse INI text, and on `Ini::iter`
/// and `Properties::iter` to hand sections and their key/value pairs out in
/// order; keys before any section header appear under the empty section name.
#[verifier::external_body]
fn parse_ini_text(text: &str, file: String) -> (r: Option<IniDoc>)
    ensures
        r is Some <==> ini_sections_of(text@) is Some,
        r matches Some(d) ==> Some(d.sections_model()) == ini_sections_of(text@) && d.file_name()
            == file@,
{
    let ini = match ini::Ini::load_from_str(text) {
        Ok(i) => i,
        Err(_) => {
            return None;
        },
    };
    let mut sections: Vec<(String, Vec<(String, String)>)> = Vec::new();
    for (name, props) in ini.iter() {
        let mut kvs: Vec<(String, String)> = Vec::new();
        for (k, v) in props.iter() {
            kvs.push((k.to_string(), v.to_string()));
        }
        sections.push((name.unwrap_or("").to_string(), kvs));
    }
    Some(IniDoc { file, sections })
}

impl IniDoc {
    /// The section/key model of this file.
    pub closed spec fn sections_model(&self) -> SectionsModel {
        secs_view(self.sections@)
    }

    /// The file name errors report.
    pub closed spec fn file_name(&self) -> Seq<char> {
        self.file@
    }

    /// Parses INI configuration text; `file` is the name the text was read
    /// from, kept for error reports.
    pub fn parse(text: &str, file: String) -> (r: Option<IniDoc>)
        ensures
            r is Some <==> ini_sections_of(text@) is Some,
            r matches Some(d) ==> Some(d.sections_model()) == ini_sections_of(text@)
                && d.file_name() == file@,
    {
        parse_ini_text(text, file)
    }

    /// Builds a document directly from sections, for callers that already
    /// hold the values as plain data.
    pub fn from_sections(file: String, sections: Vec<(String, Vec<(String, String)>)>) -> (r:
        IniDoc)
        ensures
            r.sections_model() == secs_view(sections@),
            r.file_name() == file@,
    {
        IniDoc { file, sections }
    }
}

/// What resolution from the file alone returns: the value when section and
/// key exist, else the error naming what is missing and in which file.
pub open spec fn file_get_post(
    secs: SectionsModel,
    file: Seq<char>,
    section: Seq<char>,
    key: Seq<char>,
    r: Result<String, ConfigError>,
) -> bool {
    &&& (r is Ok <==> cfg_value(secs, section, key) is Some)
    &&& (r matches Ok(v) ==> cfg_value(secs, section, key) == Some(v@))
    &&& (r matches Err(e) ==> (if assoc_lookup(secs, section) is None {
        &&& e matches ConfigError::MissingSection { section: es, file: ef }
        &&& es@ == section
        &&& ef@ == file
    } else {
        &&& e matches ConfigError::MissingKey { key: ek, file: ef }
        &&& ek@ == key
        &&& ef@ == file
    }))
}

/// Looks `section`/`key` up in the file; fails, naming the missing section or
/// key and the file, when either is absent.
pub fn config_get(doc: &IniDoc, section: &str, key: &str) -> (r: Result<String, ConfigError>)
    ensures
        file_get_post(doc.sections_model(), doc.file_name(), section@, key@, r),
{
    let ghost secs = doc.sections_model();
    proof {
        assert(secs.skip(0) =~= secs);
    }
    let mut i: usize = 0;
    while i < doc.sections.len()
        invariant
            i <= doc.sections@.len(),
            secs == doc.sections_model(),
            secs.len() == doc.sections@.len(),
            assoc_lookup(secs, section@) == assoc_lookup(secs.skip(i as int), section@),
        decreases doc.sections@.len() - i,
    {
        let sec = &doc.sections[i];
        if str_eq(sec.0.as_str(), section) {
            let ghost kvs = secs[i as int].1;
            proof {
                assert(secs.skip(i as int)[0] == secs[i as int]);
                assert(assoc_lookup(secs, section@) == Some(kvs));
                assert(kvs.skip(0) =~= kvs);
            }
            let mut k: usize = 0;
            while k < sec.1.len()
                invariant
                    k <= sec.1@.len(),
                    secs == doc.sections_model(),
                    kvs == kvs_view(sec.1@),
                    assoc_lookup(secs, section@) == Some(kvs),
                    kvs.len() == sec.1@.len(),
                    assoc_lookup(kvs, key@) == assoc_lookup(kvs.skip(k as int), key@),
                decreases sec.1@.len() - k,
            {
                let kv = &sec.1[k];
                if str_eq(kv.0.as_str(), key) {
                    proof {
                        assert(kvs.skip(k as int)[0] == kvs[k as int]);
                    }
                    return Ok(kv.1.clone());
                }
                proof {
                    assert(kvs.skip(k as int).skip(1) =~= kvs.skip(k + 1));
                }
                k += 1;
            }
            proof {
                assert(kvs.skip(kvs.len() as int).len() == 0);
            }
            return Err(ConfigError::MissingKey { key: key.to_owned(), file: doc.file.clone() });
        }
        proof {
            assert(secs.skip(i as int)[0] == secs[i as int]);
            assert(secs.skip(i as int).skip(1) =~= secs.skip(i + 1));
        }
        i += 1;
    }
    proof {
        assert(secs.skip(secs.len() as int).len() == 0);
    }
    Err(ConfigError::MissingSection { section: section.to_owned(), file: doc.file.clone() })
}

/// Resolves `section`/`key` with the environment override `env_name`: a
/// non-empty environment value always wins; an unset or empty variable hands
/// the decision to the file.
pub fn config_get_env(doc: &IniDoc, env: &EnvMap, section: &str, key: &str, env_name: &str) -> (r:
    Result<String, ConfigError>)
    ensures
        env_override(env@, env_name@) matches Some(v) ==> r matches Ok(s) && s@ == v,
        env_override(env@, env_name@) is None ==> file_get_post(
            doc.sections_model(),
            doc.file_name(),
            section@,
            key@,
            r,
        ),
{
    match env.get(env_name) {
        Some(v) => {
            if !v.as_str().is_empty() {
                Ok(v)
            } else {
                config_get(doc, section, key)
            }
        },
        None => config_get(doc, section, key),
    }
}

/// Default path of the configuration file.
pub open spec fn default_config_path() -> Seq<char> {
    "/etc/keylime.conf"@
}

/// The configuration file the process reads: the `KEYLIME_CONFIG` variable
/// when set non-empty, else the fixed default path.
pub open spec fn config_file_of(env_val: Option<Seq<char>>) -> Seq<char> {
    match env_val {
        Some(v) => if v.len() > 0 {
            v
        } else {
            default_config_path()
        },
        None => default_config_path(),
    }
}

/// Picks the configuration file name from the value of `KEYLIME_CONFIG`.
pub fn config_file_get(env_val: Option<String>) -> (r: String)
    ensures
        r@ == config_file_of(match env_val {
            Some(v) => Some(v@),
            None => None,
        }),
{
    match env_val {
        Some(v) => {
            if !v.as_str().is_empty() {
                v
            } else {
                "/etc/keylime.conf".to_owned()
            }
        },
        None => "/etc/keylime.conf".to_owned(),
    }
}

/// Revocation-listener address: the `REVOCATION_IP` override, else the file.
pub fn revocation_ip_get(doc: &IniDoc, env: &EnvMap) -> (r: Result<String, ConfigError>)
    ensures
        env_override(env@, "REVOCATION_IP"@) matches Some(v) ==> r matches Ok(s) && s@ == v,
        env_override(env@, "REVOCATION_IP"@) is None ==> file_get_post(
            doc.sections_model(),
            doc.file_name(),
            "general"@,
            "receive_revocation_ip"@,
            r,
        ),
{
    config_get_env(doc, env, "general", "receive_revocation_ip", "REVOCATION_IP")
}

/// Revocation-listener port: the `REVOCATION_PORT` override, else the file.
pub fn revocation_port_get(doc: &IniDoc, env: &EnvMap) -> (r: Result<String, ConfigError>)
    ensures
        env_override(env@, "REVOCATION_PORT"@) matches Some(v) ==> r matches Ok(s) && s@ == v,
        env_override(env@, "REVOCATION_PORT"@) is None ==> file_get_post(
            doc.sections_model(),
            doc.file_name(),
            "general"@,
            "receive_revocation_port"@,
            r,
        ),
{
    config_get_env(doc, env, "general", "receive_revocation_port", "REVOCATION_PORT")
}

/// The agent's externally advertised contact address, when configured; an
/// absent setting is not an error.
pub fn cloudagent_contact_ip_get(doc: &IniDoc, env: &EnvMap) -> (r: Option<String>)
    ensures
        ({
            let v = resolve_value(
                doc.sections_model(),
                env@,
                "cloud_agent"@,
                "agent_contact_ip"@,
                "KEYLIME_AGENT_CONTACT_IP"@,
            );
            &&& (r is Some <==> v is Some)
            &&& (r matches Some(s) ==> v == Some(s@))
        }),
{
    match config_get_env(doc, env, "cloud_agent", "agent_contact_ip", "KEYLIME_AGENT_CONTACT_IP") {
        Ok(ip) => Some(ip),
        Err(_) => None,
    }
}

/// The agent's externally advertised contact port, when configured: an absent
/// setting yields no port, a present one must be an unsigned 32-bit number.
pub fn cloudagent_contact_port_get(doc: &IniDoc, env: &EnvMap) -> (r: Result<
    Option<u32>,
    ConfigError,
>)
    ensures
        ({
            let v = resolve_value(
                doc.sections_model(),
                env@,
                "cloud_agent"@,
                "agent_contact_port"@,
                "KEYLIME_AGENT_CONTACT_PORT"@,
            );
            match v {
                None => r == Result::<Option<u32>, ConfigError>::Ok(None),
                Some(pv) => match u32_token(pv) {
                    Some(p) => r == Result::<Option<u32>, ConfigError>::Ok(Some(p)),
                    None => r matches Err(e) && e matches ConfigError::MalformedPort { value }
                        && value@ == pv,
                },
            }
        }),
{
    match config_get_env(
        doc,
        env,
        "cloud_agent",
        "agent_contact_port",
        "KEYLIME_AGENT_CONTACT_PORT",
    ) {
        Ok(port_str) => match parse_u32(port_str.as_str()) {
            Some(port) => Ok(Some(port)),
            None => Err(ConfigError::MalformedPort { value: port_str }),
        },
        Err(_) => Ok(None),
    }
}

/// The revocation-notification switch, read under its current key name and,
/// only when that is absent, under the deprecated misspelled key kept for
/// older deployed configuration files; when both are absent the error names
/// the deprecated key, as the last lookup tried.
pub fn listen_notifications_get(doc: &IniDoc) -> (r: Result<String, ConfigError>)
    ensures
        ({
            let secs = doc.sections_model();
            let cur = cfg_value(secs, "cloud_agent"@, "listen_notifications"@);
            let dep = cfg_value(secs, "cloud_agent"@, "listen_notfications"@);
            &&& (cur matches Some(v) ==> r matches Ok(s) && s@ == v)
            &&& (cur is None ==> file_get_post(
                secs,
                doc.file_name(),
                "cloud_agent"@,
                "listen_notfications"@,
                r,
            ))
        }),
{
    match config_get(doc, "cloud_agent", "listen_notifications") {
        Ok(v) => Ok(v),
        Err(_) => config_get(doc, "cloud_agent", "listen_notfications"),
    }
}

/// Relative path of the default CA certificate under the working directory.
pub open spec fn default_ca_rel_path() -> Seq<char> {
    "cv_ca/cacert.crt"@
}

/// The CA path a configured value denotes: the sentinel `default` is
/// rewritten to the fixed relative path under the working directory; any
/// other value passes through unchanged.
pub open spec fn ca_path_of(raw: Seq<char>, work_dir: Seq<char>) -> Seq<char> {
    if raw == "default"@ {
        joined_path(work_dir, default_ca_rel_path())
    } else {
        raw
    }
}

/// Rewrites the CA path sentinel `default` to the fixed path under the
/// working directory.
pub fn ca_path_resolve(raw: String, work_dir: &str) -> (r: String)
    ensures
        r@ == ca_path_of(raw@, work_dir@),
{
    if str_eq(raw.as_str(), "default") {
        path_join(work_dir, "cv_ca/cacert.crt")
    } else {
        raw
    }
}

/// Default working directory of the agent.
pub open spec fn default_work_dir() -> Seq<char> {
    "/var/lib/keylime"@
}

/// The working directory: `keylime_dir`/`KEYLIME_DIR` when resolvable, else
/// the fixed default; this lookup never fails.
pub fn work_dir_get(doc: &IniDoc, env: &EnvMap) -> (r: String)
    ensures
        ({
            let v = resolve_value(
                doc.sections_model(),
                env@,
                "cloud_agent"@,
                "keylime_dir"@,
                "KEYLIME_DIR"@,
            );
            r@ == (match v {
                Some(d) => d,
                None => default_work_dir(),
            })
        }),
{
    match config_get_env(doc, env, "cloud_agent", "keylime_dir", "KEYLIME_DIR") {
        Ok(dir) => dir,
        Err(_) => "/var/lib/keylime".to_owned(),
    }
}

} // verus!
