//! Loading agentbox's configuration, one file operation at a time: the file is read and
//! checked, and a file that is not a valid configuration is moved aside to the first free
//! backup path before loading goes on with an empty configuration.

use vstd::prelude::*;

use crate::order::strings_view;
use crate::environment::{EnvValue, Environment};
use crate::paths::{join, join_spec};
use crate::ssh_signing::known_hosts::{
    backup_path, backup_path_spec, config_location, config_location_spec, known_hosts_fault,
    validate_known_hosts_config, AgentboxConfig, CONFIG_PATH_UNKNOWN_WARNING,
};
use crate::text::owned;

verus! {

/// The text of an environment value, the lossy rendering of one that is not Unicode.
pub open spec fn value_text(v: EnvValue) -> Seq<char> {
    match v {
        EnvValue::Text(s) => s@,
        EnvValue::NotUnicode(s) => s@,
    }
}

/// The path of agentbox's configuration file: `agentbox/config.json` under a non-empty
/// `XDG_CONFIG_HOME`, else under `.config` in a non-empty `HOME`.
pub open spec fn config_path_spec(env: &Environment) -> Option<Seq<char>> {
    match config_location_spec(env) {
        Some((var, rel)) => match env.get_spec(var) {
            Some(v) => Some(join_spec(value_text(v), rel)),
            None => None,
        },
        None => None,
    }
}

/// The path of agentbox's configuration file, if the environment gives one. Paths here are
/// text, so a base directory whose value is not Unicode is used through its lossy text.
pub fn config_path(env: &Environment) -> (r: Option<String>)
    ensures
        match (r, config_path_spec(env)) {
            (Some(a), Some(b)) => a@ == b,
            (None, None) => true,
            _ => false,
        },
{
    match config_location(env) {
        None => None,
        Some((var, rel)) => match env.get(var) {
            Some(EnvValue::Text(s)) => Some(join(s.as_str(), rel)),
            Some(EnvValue::NotUnicode(s)) => Some(join(s.as_str(), rel)),
            None => None,
        },
    }
}

/// What reading the configuration file gave.
#[derive(Debug)]
pub enum ConfigRead {
    /// There is no such file.
    Missing,
    /// The file could not be read, for this reason.
    ReadFailed(String),
    /// The file is JSON of the expected shape, with these `knownHosts` entries.
    Parsed(Vec<String>),
    /// The file is not JSON of the expected shape, for this reason.
    Malformed(String),
}

/// What loading the configuration does next.
#[derive(Debug)]
pub enum ConfigLoadStep {
    /// Read the configuration file at this path.
    Read(String),
    /// Check whether this backup path is taken.
    CheckExists(String),
    /// Move the configuration file to a backup path.
    Rename { from: String, to: String },
    /// Loading is done, with this configuration.
    Done(AgentboxConfig),
}

/// Where loading stands.
#[derive(Debug, Clone, Copy, PartialEq, Eq, Structural)]
pub enum ConfigLoadStage {
    Reading,
    Probing,
    Renaming,
    Done,
}

/// The loading of agentbox's configuration from `path`, with `timestamp` for a backup.
#[derive(Debug)]
pub struct ConfigLoad {
    pub path: String,
    pub timestamp: String,
    pub reason: String,
    pub suffix: Option<usize>,
    pub stage: ConfigLoadStage,
    pub known_hosts: Vec<String>,
}

/// The warning when the configuration file cannot be read.
pub open spec fn read_failed_warning(path: Seq<char>, error: Seq<char>) -> Seq<char> {
    "failed to read agentbox config `"@ + path + "`: "@ + error + "; continuing with empty config"@
}

/// The warning when an incompatible configuration file was moved to `backup`.
pub open spec fn backed_up_warning(path: Seq<char>, reason: Seq<char>, backup: Seq<char>) -> Seq<char> {
    "agentbox config `"@ + path + "` is incompatible ("@ + reason + "); backed it up to `"@ + backup
        + "` and continuing with empty config"@
}

/// The warning when an incompatible configuration file could not be moved aside.
pub open spec fn backup_failed_warning(path: Seq<char>, reason: Seq<char>, error: Seq<char>) -> Seq<char> {
    "agentbox config `"@ + path + "` is incompatible ("@ + reason + "); failed to back it up ("@ + error
        + ") and continuing with empty config"@
}

/// The backup suffix after `suffix`: none, then 1, 2, and so on.
pub open spec fn next_suffix(suffix: Option<usize>) -> Option<usize> {
    match suffix {
        None => Some(1usize),
        Some(n) => Some((n + 1) as usize),
    }
}

/// The backup suffix of the probe after `k` taken paths: none first, then 1, 2, and so on.
pub open spec fn suffix_after(k: nat) -> Option<usize> {
    if k == 0 {
        None
    } else {
        Some(k as usize)
    }
}

/// Each taken backup path moves the probe to the next suffix: the paths probed are the
/// one without a number, then those numbered 1, 2, 3 and so on, so an incompatible file
/// goes to the first free one.
pub proof fn lemma_backup_suffixes(k: nat)
    requires
        k < usize::MAX,
    ensures
        suffix_after(0) is None,
        next_suffix(suffix_after(k)) == suffix_after(k + 1),
{
}

fn text7(a: &str, b: &str, c: &str, d: &str, e: &str, f: &str, g: &str) -> (r: String)
    ensures
        r@ == a@ + b@ + c@ + d@ + e@ + f@ + g@,
{
    let mut out: Vec<char> = Vec::new();
    crate::text::push_str(&mut out, a);
    crate::text::push_str(&mut out, b);
    crate::text::push_str(&mut out, c);
    crate::text::push_str(&mut out, d);
    crate::text::push_str(&mut out, e);
    crate::text::push_str(&mut out, f);
    crate::text::push_str(&mut out, g);
    assert(out@ =~= a@ + b@ + c@ + d@ + e@ + f@ + g@);
    crate::text::string_of(&out)
}

impl ConfigLoad {
    /// Starts loading from `path`, the configuration file's location if it has one. Without
    /// one, loading is done at once with an empty configuration and a warning.
    pub fn start(path: Option<String>, timestamp: String) -> (r: (Self, Vec<String>))
        ensures
            path is None ==> r.0.stage == ConfigLoadStage::Done && r.0.known_hosts@.len() == 0
                && strings_view(r.1@) == seq![CONFIG_PATH_UNKNOWN_WARNING@],
            path matches Some(p) ==> r.0.stage == ConfigLoadStage::Reading && r.0.path@ == p@ && r.1@.len() == 0,
            r.0.timestamp@ == timestamp@,
    {
        match path {
            None => {
                let mut w: Vec<String> = Vec::new();
                w.push(owned(CONFIG_PATH_UNKNOWN_WARNING));
                assert(strings_view(w@) =~= seq![CONFIG_PATH_UNKNOWN_WARNING@]);
                (ConfigLoad {
                    path: String::new(),
                    timestamp,
                    reason: String::new(),
                    suffix: None,
                    stage: ConfigLoadStage::Done,
                    known_hosts: Vec::new(),
                }, w)
            },
            Some(p) => (ConfigLoad {
                path: p,
                timestamp,
                reason: String::new(),
                suffix: None,
                stage: ConfigLoadStage::Reading,
                known_hosts: Vec::new(),
            }, Vec::new()),
        }
    }

    /// The next file operation, or the configuration once loading is done.
    pub fn next_step(&self) -> (r: ConfigLoadStep)
        ensures
            self.stage == ConfigLoadStage::Reading ==> (r matches ConfigLoadStep::Read(p) && p@ == self.path@),
            self.stage == ConfigLoadStage::Probing ==> (r matches ConfigLoadStep::CheckExists(p)
                && p@ == backup_path_spec(self.path@, self.timestamp@, self.suffix)),
            self.stage == ConfigLoadStage::Renaming ==> (r matches ConfigLoadStep::Rename { from, to }
                && from@ == self.path@ && to@ == backup_path_spec(self.path@, self.timestamp@, self.suffix)),
            self.stage == ConfigLoadStage::Done ==> (r matches ConfigLoadStep::Done(c)
                && strings_view(c.known_hosts@) == strings_view(self.known_hosts@)),
    {
        match self.stage {
            ConfigLoadStage::Reading => ConfigLoadStep::Read(self.path.clone()),
            ConfigLoadStage::Probing => ConfigLoadStep::CheckExists(
                backup_path(self.path.as_str(), self.timestamp.as_str(), self.suffix),
            ),
            ConfigLoadStage::Renaming => ConfigLoadStep::Rename {
                from: self.path.clone(),
                to: backup_path(self.path.as_str(), self.timestamp.as_str(), self.suffix),
            },
            ConfigLoadStage::Done => {
                let v = crate::text::copy_strings(&self.known_hosts);
                assert(strings_view(v@) =~= strings_view(self.known_hosts@));
                ConfigLoadStep::Done(AgentboxConfig { known_hosts: v })
            },
        }
    }

    /// Takes what reading the file gave. A missing file gives an empty configuration, an
    /// unreadable one the same with a warning; valid entries are the configuration; a
    /// malformed file, or entries that are blank or span lines, send the file to be
    /// moved aside, starting with the backup path without a number.
    pub fn read_finished(&mut self, read: ConfigRead) -> (warnings: Vec<String>)
        requires
            old(self).stage == ConfigLoadStage::Reading,
        ensures
            final(self).path@ == old(self).path@,
            final(self).timestamp@ == old(self).timestamp@,
            match read {
                ConfigRead::Missing => final(self).stage == ConfigLoadStage::Done
                    && final(self).known_hosts@.len() == 0 && warnings@.len() == 0,
                ConfigRead::ReadFailed(e) => final(self).stage == ConfigLoadStage::Done
                    && final(self).known_hosts@.len() == 0
                    && strings_view(warnings@) == seq![read_failed_warning(old(self).path@, e@)],
                ConfigRead::Parsed(entries) => match known_hosts_fault(strings_view(entries@)) {
                    None => final(self).stage == ConfigLoadStage::Done
                        && final(self).known_hosts@ == entries@ && warnings@.len() == 0,
                    Some(f) => final(self).stage == ConfigLoadStage::Probing && final(self).suffix is None
                        && final(self).reason@ == f && warnings@.len() == 0,
                },
                ConfigRead::Malformed(m) => final(self).stage == ConfigLoadStage::Probing
                    && final(self).suffix is None && final(self).reason@ == m@ && warnings@.len() == 0,
            },
    {
        match read {
            ConfigRead::Missing => {
                self.known_hosts = Vec::new();
                self.stage = ConfigLoadStage::Done;
                Vec::new()
            },
            ConfigRead::ReadFailed(e) => {
                let mut w: Vec<String> = Vec::new();
                w.push(text7(
                    "failed to read agentbox config `",
                    self.path.as_str(),
                    "`: ",
                    e.as_str(),
                    "; continuing with empty config",
                    "",
                    "",
                ));
                proof {
                    reveal_strlit("");
                }
                assert(strings_view(w@) =~= seq![read_failed_warning(self.path@, e@)]);
                self.known_hosts = Vec::new();
                self.stage = ConfigLoadStage::Done;
                w
            },
            ConfigRead::Parsed(entries) => match validate_known_hosts_config(entries) {
                Ok(c) => {
                    self.known_hosts = c.known_hosts;
                    self.stage = ConfigLoadStage::Done;
                    Vec::new()
                },
                Err(reason) => {
                    self.reason = reason;
                    self.suffix = None;
                    self.stage = ConfigLoadStage::Probing;
                    Vec::new()
                },
            },
            ConfigRead::Malformed(m) => {
                self.reason = m;
                self.suffix = None;
                self.stage = ConfigLoadStage::Probing;
                Vec::new()
            },
        }
    }

    /// Takes whether the backup path probed is taken: a taken path moves on to the next
    /// suffix, a free one is where the file goes.
    pub fn exists_checked(&mut self, exists: bool)
        requires
            old(self).stage == ConfigLoadStage::Probing,
            exists ==> old(self).suffix != Some(usize::MAX),
        ensures
            final(self).path@ == old(self).path@,
            final(self).timestamp@ == old(self).timestamp@,
            final(self).reason@ == old(self).reason@,
            exists ==> final(self).stage == ConfigLoadStage::Probing && final(self).suffix == next_suffix(old(self).suffix),
            !exists ==> final(self).stage == ConfigLoadStage::Renaming && final(self).suffix == old(self).suffix,
    {
        if exists {
            self.suffix = match self.suffix {
                None => Some(1),
                Some(n) => Some(n + 1),
            };
        } else {
            self.stage = ConfigLoadStage::Renaming;
        }
    }

    /// Takes the outcome of moving the file aside. Either way loading is done with an
    /// empty configuration and a warning that says where the file went or why it stayed.
    pub fn rename_finished(&mut self, result: Result<(), String>) -> (warnings: Vec<String>)
        requires
            old(self).stage == ConfigLoadStage::Renaming,
        ensures
            final(self).stage == ConfigLoadStage::Done,
            final(self).known_hosts@.len() == 0,
            final(self).path@ == old(self).path@,
            match result {
                Ok(()) => strings_view(warnings@) == seq![backed_up_warning(
                    old(self).path@,
                    old(self).reason@,
                    backup_path_spec(old(self).path@, old(self).timestamp@, old(self).suffix),
                )],
                Err(e) => strings_view(warnings@) == seq![backup_failed_warning(old(self).path@, old(self).reason@, e@)],
            },
    {
        let mut w: Vec<String> = Vec::new();
        match result {
            Ok(()) => {
                let backup = backup_path(self.path.as_str(), self.timestamp.as_str(), self.suffix);
                w.push(text7(
                    "agentbox config `",
                    self.path.as_str(),
                    "` is incompatible (",
                    self.reason.as_str(),
                    "); backed it up to `",
                    backup.as_str(),
                    "` and continuing with empty config",
                ));
            },
            Err(e) => {
                w.push(text7(
                    "agentbox config `",
                    self.path.as_str(),
                    "` is incompatible (",
                    self.reason.as_str(),
                    "); failed to back it up (",
                    e.as_str(),
                    ") and continuing with empty config",
                ));
            },
        }
        self.known_hosts = Vec::new();
        self.stage = ConfigLoadStage::Done;
        w
    }
}

} // verus!
