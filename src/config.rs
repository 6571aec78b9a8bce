use vstd::prelude::*;

use crate::error::InitError;
use crate::text::same_text;

verus! {

/// The values one activation needs, read once from the environment.
#[derive(Clone, Debug, PartialEq, Eq)]
pub struct Config {
    /// The system closure.
    pub toplevel: String,
    /// The firmware search directory.
    pub firmware: String,
    /// The wrapped modprobe binary.
    pub modprobe_binary: String,
    /// The service manager binary.
    pub systemd_binary: String,
}

/// The environment variables that make up a [`Config`].
#[derive(Clone, Copy, Debug, PartialEq, Eq)]
pub enum EnvVar {
    Toplevel,
    Firmware,
    ModprobeBinary,
    SystemdBinary,
}

/// The value of the first variable named `key` in `env`, if any.
pub open spec fn lookup(env: Seq<(String, String)>, key: Seq<char>) -> Option<Seq<char>>
    decreases env.len(),
{
    if env.len() == 0 {
        None
    } else if env[0].0@ == key {
        Some(env[0].1@)
    } else {
        lookup(env.drop_first(), key)
    }
}

impl EnvVar {
    pub open spec fn spec_key(&self) -> Seq<char> {
        match self {
            EnvVar::Toplevel => "TOPLEVEL"@,
            EnvVar::Firmware => "FIRMWARE"@,
            EnvVar::ModprobeBinary => "MODPROBE_BINARY"@,
            EnvVar::SystemdBinary => "SYSTEMD_BINARY"@,
        }
    }

    /// The name of the variable.
    pub fn key(&self) -> (r: &'static str)
        ensures
            r@ == self.spec_key(),
    {
        match self {
            EnvVar::Toplevel => "TOPLEVEL",
            EnvVar::Firmware => "FIRMWARE",
            EnvVar::ModprobeBinary => "MODPROBE_BINARY",
            EnvVar::SystemdBinary => "SYSTEMD_BINARY",
        }
    }

    /// Reads the variable from `env`, a snapshot of the environment as
    /// name/value pairs; its absence is an error that names it.
    pub fn required(&self, env: &Vec<(String, String)>) -> (r: Result<String, InitError>)
        ensures
            match lookup(env@, self.spec_key()) {
                Some(v) => r matches Ok(s) && s@ == v,
                None => r matches Err(e) && e matches InitError::ConfigurationMissing(k) && k@
                    == self.spec_key(),
            },
    {
        let key = self.key();
        let mut i: usize = 0;
        assert(env@.subrange(0, env@.len() as int) =~= env@);
        while i < env.len()
            invariant
                i <= env@.len(),
                key@ == self.spec_key(),
                lookup(env@, key@) == lookup(env@.subrange(i as int, env@.len() as int), key@),
            decreases env@.len() - i,
        {
            assert(env@.subrange(i as int, env@.len() as int).drop_first() =~= env@.subrange(
                i as int + 1,
                env@.len() as int,
            ));
            if same_text(env[i].0.as_str(), key) {
                return Ok(env[i].1.clone());
            }
            i = i + 1;
        }
        Err(InitError::ConfigurationMissing(key.to_string()))
    }
}

/// The configuration that `env` holds, if it sets all four variables.
pub open spec fn config_of(env: Seq<(String, String)>) -> Option<
    (Seq<char>, Seq<char>, Seq<char>, Seq<char>),
> {
    match (
        lookup(env, EnvVar::Toplevel.spec_key()),
        lookup(env, EnvVar::Firmware.spec_key()),
        lookup(env, EnvVar::ModprobeBinary.spec_key()),
        lookup(env, EnvVar::SystemdBinary.spec_key()),
    ) {
        (Some(t), Some(f), Some(m), Some(s)) => Some((t, f, m, s)),
        _ => None,
    }
}

/// The first of the four variables, in the order toplevel, firmware,
/// modprobe binary, service manager binary, that `env` does not set.
pub open spec fn first_missing(env: Seq<(String, String)>) -> EnvVar {
    if lookup(env, EnvVar::Toplevel.spec_key()) is None {
        EnvVar::Toplevel
    } else if lookup(env, EnvVar::Firmware.spec_key()) is None {
        EnvVar::Firmware
    } else if lookup(env, EnvVar::ModprobeBinary.spec_key()) is None {
        EnvVar::ModprobeBinary
    } else {
        EnvVar::SystemdBinary
    }
}

impl Config {
    pub open spec fn view(&self) -> (Seq<char>, Seq<char>, Seq<char>, Seq<char>) {
        (self.toplevel@, self.firmware@, self.modprobe_binary@, self.systemd_binary@)
    }

    /// Builds the configuration from `env`, a snapshot of the environment as
    /// name/value pairs. A missing variable is an error that names the first
    /// one missing.
    pub fn from_env(env: &Vec<(String, String)>) -> (r: Result<Config, InitError>)
        ensures
            match config_of(env@) {
                Some(c) => r matches Ok(cfg) && cfg.view() == c,
                None => r matches Err(e) && e matches InitError::ConfigurationMissing(k) && k@
                    == first_missing(env@).spec_key(),
            },
    {
        let toplevel = match EnvVar::Toplevel.required(env) {
            Ok(v) => v,
            Err(e) => return Err(e),
        };
        let firmware = match EnvVar::Firmware.required(env) {
            Ok(v) => v,
            Err(e) => return Err(e),
        };
        let modprobe_binary = match EnvVar::ModprobeBinary.required(env) {
            Ok(v) => v,
            Err(e) => return Err(e),
        };
        let systemd_binary = match EnvVar::SystemdBinary.required(env) {
            Ok(v) => v,
            Err(e) => return Err(e),
        };
        Ok(Config { toplevel, firmware, modprobe_binary, systemd_binary })
    }
}

} // verus!
