//! The host's Git configuration that runtime containers get: the identity and SSH commit
//! signing settings, passed as `GIT_CONFIG_*` environment variables.

use vstd::prelude::*;

use crate::order::strings_view;
use crate::string_map::StringMap;
use crate::text::{chars_of, concat2, decimal, decimal_string, owned, str_eq, trim, trim_chars};

verus! {

/// The variable that says how many `GIT_CONFIG_KEY_<n>` and `GIT_CONFIG_VALUE_<n>` pairs
/// follow.
pub const GIT_CONFIG_COUNT_ENV: &'static str = "GIT_CONFIG_COUNT";

/// Configuration entries as pairs of texts.
pub open spec fn entries_view(v: Seq<(String, String)>) -> Seq<(Seq<char>, Seq<char>)> {
    v.map_values(|e: (String, String)| (e.0@, e.1@))
}

/// The keys of a Git identity.
pub open spec fn git_identity_keys_spec() -> Seq<Seq<char>> {
    seq!["user.name"@, "user.email"@]
}

/// The keys of SSH commit signing.
pub open spec fn git_signing_keys_spec() -> Seq<Seq<char>> {
    seq!["gpg.format"@, "user.signingkey"@, "commit.gpgsign"@]
}

/// The keys of a Git identity, in the order they are read.
pub fn git_identity_keys() -> (r: Vec<&'static str>)
    ensures
        r@.map_values(|k: &str| k@) == git_identity_keys_spec(),
{
    let r = vec!["user.name", "user.email"];
    assert(r@.map_values(|k: &str| k@) =~= git_identity_keys_spec());
    r
}

/// The keys of SSH commit signing, in the order they are read.
pub fn git_signing_keys() -> (r: Vec<&'static str>)
    ensures
        r@.map_values(|k: &str| k@) == git_signing_keys_spec(),
{
    let r = vec!["gpg.format", "user.signingkey", "commit.gpgsign"];
    assert(r@.map_values(|k: &str| k@) =~= git_signing_keys_spec());
    r
}

/// The Git identity of `codex exec` sessions: Codex, `noreply@openai.com`.
pub fn codex_exec_identity_entries() -> (r: Vec<(String, String)>)
    ensures
        entries_view(r@) == seq![("user.name"@, "Codex"@), ("user.email"@, "noreply@openai.com"@)],
{
    let r = vec![(owned("user.name"), owned("Codex")), (owned("user.email"), owned("noreply@openai.com"))];
    assert(entries_view(r@) =~= seq![("user.name"@, "Codex"@), ("user.email"@, "noreply@openai.com"@)]);
    r
}

/// The entries read for `keys` when `git config` answered `answers`: each key with a value,
/// in order.
pub open spec fn config_values_spec(keys: Seq<Seq<char>>, answers: Seq<Result<Option<String>, String>>) -> Seq<(Seq<char>, Seq<char>)>
    decreases keys.len(),
{
    if keys.len() == 0 {
        Seq::empty()
    } else {
        let prev = config_values_spec(keys.drop_last(), answers);
        match answers[keys.len() - 1] {
            Ok(Some(v)) => prev.push((keys.last(), v@)),
            _ => prev,
        }
    }
}

/// The warning when `git config` fails for `key`.
pub open spec fn config_read_warning(key: Seq<char>, context: Seq<char>, error: Seq<char>) -> Seq<char> {
    "failed to read host Git config `"@ + key + "` for "@ + context + ": "@ + error
}

/// The warnings for the keys whose `git config` failed, in order.
pub open spec fn config_warnings_spec(keys: Seq<Seq<char>>, answers: Seq<Result<Option<String>, String>>, context: Seq<char>) -> Seq<Seq<char>>
    decreases keys.len(),
{
    if keys.len() == 0 {
        Seq::empty()
    } else {
        let prev = config_warnings_spec(keys.drop_last(), answers, context);
        match answers[keys.len() - 1] {
            Err(e) => prev.push(config_read_warning(keys.last(), context, e@)),
            _ => prev,
        }
    }
}

fn read_warning(key: &str, context: &str, error: &str) -> (r: String)
    ensures
        r@ == config_read_warning(key@, context@, error@),
{
    let mut out: Vec<char> = Vec::new();
    crate::text::push_str(&mut out, "failed to read host Git config `");
    crate::text::push_str(&mut out, key);
    crate::text::push_str(&mut out, "` for ");
    crate::text::push_str(&mut out, context);
    crate::text::push_str(&mut out, ": ");
    crate::text::push_str(&mut out, error);
    assert(out@ =~= config_read_warning(key@, context@, error@));
    crate::text::string_of(&out)
}

/// The entries for `keys` from what `git config` answered for each, and a warning, naming
/// `context`, for each key it failed on. Keys without a value are left out.
pub fn read_git_config_keys(keys: &Vec<&str>, answers: Vec<Result<Option<String>, String>>, context: &str) -> (r: (Vec<(String, String)>, Vec<String>))
    requires
        answers@.len() == keys@.len(),
    ensures
        entries_view(r.0@) == config_values_spec(keys@.map_values(|k: &str| k@), answers@),
        strings_view(r.1@) == config_warnings_spec(keys@.map_values(|k: &str| k@), answers@, context@),
{
    let ghost kv = keys@.map_values(|k: &str| k@);
    let mut values: Vec<(String, String)> = Vec::new();
    let mut warnings: Vec<String> = Vec::new();
    let mut i: usize = 0;
    while i < keys.len()
        invariant
            i <= keys@.len(),
            answers@.len() == keys@.len(),
            kv == keys@.map_values(|k: &str| k@),
            entries_view(values@) == config_values_spec(kv.take(i as int), answers@),
            strings_view(warnings@) == config_warnings_spec(kv.take(i as int), answers@, context@),
        decreases keys.len() - i,
    {
        assert(kv.take(i + 1).drop_last() =~= kv.take(i as int));
        assert(kv.take(i + 1).last() == keys@[i as int]@);
        match &answers[i] {
            Ok(Some(v)) => {
                values.push((owned(keys[i]), v.clone()));
                assert(entries_view(values@) =~= config_values_spec(kv.take(i as int), answers@).push((keys@[i as int]@, v@)));
            },
            Ok(None) => {},
            Err(e) => {
                warnings.push(read_warning(keys[i], context, e.as_str()));
                assert(strings_view(warnings@) =~= config_warnings_spec(kv.take(i as int), answers@, context@).push(
                    config_read_warning(keys@[i as int]@, context@, e@),
                ));
            },
        }
        i = i + 1;
    }
    assert(kv.take(keys@.len() as int) =~= kv);
    (values, warnings)
}

/// The host's Git identity from what `git config` answered for `user.name` and
/// `user.email`.
pub fn read_git_identity_entries(answers: Vec<Result<Option<String>, String>>) -> (r: (Vec<(String, String)>, Vec<String>))
    requires
        answers@.len() == 2,
    ensures
        entries_view(r.0@) == config_values_spec(git_identity_keys_spec(), answers@),
        strings_view(r.1@) == config_warnings_spec(git_identity_keys_spec(), answers@, "host Git identity passthrough"@),
{
    let keys = git_identity_keys();
    read_git_config_keys(&keys, answers, "host Git identity passthrough")
}

/// The SSH commit signing settings from what `git config` answered for `gpg.format`,
/// `user.signingkey` and `commit.gpgsign`.
pub fn read_git_signing_values(answers: Vec<Result<Option<String>, String>>) -> (r: (Vec<(String, String)>, Vec<String>))
    requires
        answers@.len() == 3,
    ensures
        entries_view(r.0@) == config_values_spec(git_signing_keys_spec(), answers@),
        strings_view(r.1@) == config_warnings_spec(git_signing_keys_spec(), answers@, "SSH commit signing passthrough"@),
{
    let keys = git_signing_keys();
    read_git_config_keys(&keys, answers, "SSH commit signing passthrough")
}

/// Whether a key is one of SSH commit signing's.
pub open spec fn is_signing_config_key_spec(key: Seq<char>) -> bool {
    key == "gpg.format"@ || key == "user.signingkey"@ || key == "commit.gpgsign"@
}

/// Whether a key is one of SSH commit signing's.
pub fn is_signing_config_key(key: &str) -> (r: bool)
    ensures
        r == is_signing_config_key_spec(key@),
{
    str_eq(key, "gpg.format") || str_eq(key, "user.signingkey") || str_eq(key, "commit.gpgsign")
}

/// Whether the values set `gpg.format` to `ssh`, surrounding whitespace aside.
pub open spec fn ssh_signing_configured(values: Seq<(Seq<char>, Seq<char>)>) -> bool {
    exists|i: int| 0 <= i < values.len() && #[trigger] values[i].0 == "gpg.format"@ && trim(values[i].1) == "ssh"@
}

/// The value of `user.signingkey` among the values, if any.
pub open spec fn signing_key_value(values: Seq<(Seq<char>, Seq<char>)>) -> Option<Seq<char>>
    decreases values.len(),
{
    if values.len() == 0 {
        None
    } else if values[0].0 == "user.signingkey"@ {
        Some(values[0].1)
    } else {
        signing_key_value(values.skip(1))
    }
}

/// The SSH commit signing entries passed on: none unless `gpg.format` is `ssh`; otherwise
/// each value, `user.signingkey` replaced by `key`, its public key, or left out without one.
pub open spec fn signing_entries_spec(values: Seq<(Seq<char>, Seq<char>)>, configured: bool, key: Option<Seq<char>>) -> Seq<(Seq<char>, Seq<char>)>
    decreases values.len(),
{
    if values.len() == 0 {
        Seq::empty()
    } else {
        let prev = signing_entries_spec(values.drop_last(), configured, key);
        let (k, v) = values.last();
        if is_signing_config_key_spec(k) && !configured {
            prev
        } else if k == "user.signingkey"@ {
            match key {
                Some(p) => prev.push((k, p)),
                None => prev,
            }
        } else {
            prev.push((k, v))
        }
    }
}

/// Whether the values set `gpg.format` to `ssh`.
pub fn is_ssh_signing_configured(values: &Vec<(String, String)>) -> (r: bool)
    ensures
        r == ssh_signing_configured(entries_view(values@)),
{
    let ghost ev = entries_view(values@);
    let ssh = chars_of("ssh");
    let mut i: usize = 0;
    while i < values.len()
        invariant
            i <= values@.len(),
            ev == entries_view(values@),
            ssh@ == "ssh"@,
            forall|j: int| 0 <= j < i ==> !(#[trigger] ev[j].0 == "gpg.format"@ && trim(ev[j].1) == "ssh"@),
        decreases values.len() - i,
    {
        let t = trim_chars(&chars_of(values[i].1.as_str()));
        if str_eq(values[i].0.as_str(), "gpg.format") && crate::text::chars_eq(&t, &ssh) {
            assert(ev[i as int].0 == "gpg.format"@ && trim(ev[i as int].1) == "ssh"@);
            return true;
        }
        i = i + 1;
    }
    false
}

/// The value of `user.signingkey` among the values, if any.
pub fn find_signing_key_value(values: &Vec<(String, String)>) -> (r: Option<String>)
    ensures
        match (r, signing_key_value(entries_view(values@))) {
            (Some(a), Some(b)) => a@ == b,
            (None, None) => true,
            _ => false,
        },
{
    let ghost ev = entries_view(values@);
    assert(ev.skip(0) =~= ev);
    let mut i: usize = 0;
    while i < values.len()
        invariant
            i <= values@.len(),
            ev == entries_view(values@),
            signing_key_value(ev) == signing_key_value(ev.skip(i as int)),
        decreases values.len() - i,
    {
        assert(ev.skip(i as int)[0] == ev[i as int]);
        assert(ev.skip(i as int).skip(1) =~= ev.skip(i + 1));
        if str_eq(values[i].0.as_str(), "user.signingkey") {
            return Some(values[i].1.clone());
        }
        i = i + 1;
    }
    assert(ev.skip(i as int).len() == 0);
    None
}

/// An optional text as characters.
pub open spec fn key_view(o: Option<String>) -> Option<Seq<char>> {
    match o {
        Some(k) => Some(k@),
        None => None,
    }
}

/// The `user.signingkey` value whose public key is to be found: only when the values set
/// `gpg.format` to `ssh`.
pub fn signing_key_to_normalize(values: &Vec<(String, String)>) -> (r: Option<String>)
    ensures
        key_view(r) == if ssh_signing_configured(entries_view(values@)) {
            signing_key_value(entries_view(values@))
        } else {
            None
        },
{
    if is_ssh_signing_configured(values) {
        find_signing_key_value(values)
    } else {
        None
    }
}

/// The SSH commit signing entries passed on, with `signing_key` as the public key that
/// `user.signingkey` names, if one was found.
pub fn read_ssh_signing_config_entries(values: &Vec<(String, String)>, signing_key: Option<String>) -> (r: Vec<(String, String)>)
    ensures
        entries_view(r@) == signing_entries_spec(
            entries_view(values@),
            ssh_signing_configured(entries_view(values@)),
            key_view(signing_key),
        ),
{
    let ghost ev = entries_view(values@);
    let ghost key = key_view(signing_key);
    let configured = is_ssh_signing_configured(values);
    let mut entries: Vec<(String, String)> = Vec::new();
    let mut i: usize = 0;
    while i < values.len()
        invariant
            i <= values@.len(),
            ev == entries_view(values@),
            configured == ssh_signing_configured(ev),
            key == key_view(signing_key),
            entries_view(entries@) == signing_entries_spec(ev.take(i as int), configured, key),
        decreases values.len() - i,
    {
        assert(ev.take(i + 1).drop_last() =~= ev.take(i as int));
        assert(ev.take(i + 1).last() == ev[i as int]);
        let (k, v) = (&values[i].0, &values[i].1);
        if is_signing_config_key(k.as_str()) && !configured {
        } else if str_eq(k.as_str(), "user.signingkey") {
            match &signing_key {
                Some(p) => {
                    entries.push((k.clone(), p.clone()));
                    assert(entries_view(entries@) =~= signing_entries_spec(ev.take(i as int), configured, key).push((k@, p@)));
                },
                None => {},
            }
        } else {
            entries.push((k.clone(), v.clone()));
            assert(entries_view(entries@) =~= signing_entries_spec(ev.take(i as int), configured, key).push((k@, v@)));
        }
        i = i + 1;
    }
    assert(ev.take(values@.len() as int) =~= ev);
    entries
}

/// The environment after `GIT_CONFIG_KEY_<n>` and `GIT_CONFIG_VALUE_<n>` are set for each
/// entry `n`.
pub open spec fn indexed_config_env(env: Map<Seq<char>, Seq<char>>, entries: Seq<(Seq<char>, Seq<char>)>) -> Map<Seq<char>, Seq<char>>
    decreases entries.len(),
{
    if entries.len() == 0 {
        env
    } else {
        let i = (entries.len() - 1) as nat;
        indexed_config_env(env, entries.drop_last())
            .insert("GIT_CONFIG_KEY_"@ + decimal(i), entries.last().0)
            .insert("GIT_CONFIG_VALUE_"@ + decimal(i), entries.last().1)
    }
}

/// The environment that passes `entries` to Git: `GIT_CONFIG_COUNT` and a key and value
/// variable for each entry; unchanged when there is none.
pub open spec fn git_config_env_spec(env: Map<Seq<char>, Seq<char>>, entries: Seq<(Seq<char>, Seq<char>)>) -> Map<Seq<char>, Seq<char>> {
    if entries.len() == 0 {
        env
    } else {
        indexed_config_env(env.insert(GIT_CONFIG_COUNT_ENV@, decimal(entries.len())), entries)
    }
}

/// Adds to `env` the variables that pass `entries` to Git.
pub fn append_git_config_env(env: &mut StringMap, entries: &Vec<(String, String)>)
    ensures
        final(env)@ == git_config_env_spec(old(env)@, entries_view(entries@)),
{
    if entries.len() == 0 {
        return;
    }
    let ghost ev = entries_view(entries@);
    env.insert(owned(GIT_CONFIG_COUNT_ENV), decimal_string(entries.len() as u64));
    let ghost start = env@;
    let mut i: usize = 0;
    while i < entries.len()
        invariant
            i <= entries@.len(),
            ev == entries_view(entries@),
            env@ == indexed_config_env(start, ev.take(i as int)),
        decreases entries.len() - i,
    {
        assert(ev.take(i + 1).drop_last() =~= ev.take(i as int));
        assert(ev.take(i + 1).last() == ev[i as int]);
        let n = decimal_string(i as u64);
        env.insert(concat2("GIT_CONFIG_KEY_", n.as_str()), entries[i].0.clone());
        env.insert(concat2("GIT_CONFIG_VALUE_", n.as_str()), entries[i].1.clone());
        i = i + 1;
    }
    assert(ev.take(entries@.len() as int) =~= ev);
}

/// The variable that holds the key of entry `i`.
pub open spec fn config_key_var(i: nat) -> Seq<char> {
    "GIT_CONFIG_KEY_"@ + decimal(i)
}

/// The variable that holds the value of entry `i`.
pub open spec fn config_value_var(i: nat) -> Seq<char> {
    "GIT_CONFIG_VALUE_"@ + decimal(i)
}

proof fn lemma_decimal_value(n: nat)
    ensures
        crate::text::digits_value(decimal(n)) == n,
    decreases n,
{
    if n < 10 {
        assert(decimal(n).drop_last() =~= Seq::<char>::empty());
        assert(crate::text::digits_value(Seq::<char>::empty()) == 0);
        assert(((n + 48) as u32) as char as u32 == n + 48);
        assert(crate::text::digit_value(decimal(n).last()) == n);
    } else {
        lemma_decimal_value(n / 10);
        vstd::arithmetic::div_mod::lemma_fundamental_div_mod(n as int, 10);
        assert(decimal(n).drop_last() =~= decimal(n / 10));
        assert(((n % 10 + 48) as u32) as char as u32 == n % 10 + 48);
        assert(crate::text::digit_value(decimal(n).last()) == n % 10);
        assert((n / 10) * 10 + n % 10 == n) by (nonlinear_arith);
    }
}

proof fn lemma_decimal_injective(i: nat, j: nat)
    requires
        decimal(i) == decimal(j),
    ensures
        i == j,
{
    lemma_decimal_value(i);
    lemma_decimal_value(j);
}

proof fn lemma_config_vars_distinct(i: nat, j: nat)
    ensures
        config_key_var(i) != config_value_var(j),
        config_key_var(i) == config_key_var(j) ==> i == j,
        config_value_var(i) == config_value_var(j) ==> i == j,
        config_key_var(i) != GIT_CONFIG_COUNT_ENV@,
        config_value_var(i) != GIT_CONFIG_COUNT_ENV@,
{
    reveal_strlit("GIT_CONFIG_KEY_");
    reveal_strlit("GIT_CONFIG_VALUE_");
    reveal_strlit("GIT_CONFIG_COUNT");
    assert(config_key_var(i)[11] == 'K');
    assert(config_value_var(j)[11] == 'V');
    assert(GIT_CONFIG_COUNT_ENV@[11] == 'C');
    if config_key_var(i) == config_key_var(j) {
        assert(decimal(i) =~= config_key_var(i).skip(15));
        assert(decimal(j) =~= config_key_var(j).skip(15));
        lemma_decimal_injective(i, j);
    }
    if config_value_var(i) == config_value_var(j) {
        assert(decimal(i) =~= config_value_var(i).skip(17));
        assert(decimal(j) =~= config_value_var(j).skip(17));
        lemma_decimal_injective(i, j);
    }
}

proof fn lemma_indexed_config_env(env: Map<Seq<char>, Seq<char>>, entries: Seq<(Seq<char>, Seq<char>)>)
    ensures
        forall|i: int| 0 <= i < entries.len() ==> {
            &&& #[trigger] indexed_config_env(env, entries).contains_key(config_key_var(i as nat))
            &&& indexed_config_env(env, entries)[config_key_var(i as nat)] == entries[i].0
            &&& indexed_config_env(env, entries).contains_key(config_value_var(i as nat))
            &&& indexed_config_env(env, entries)[config_value_var(i as nat)] == entries[i].1
        },
        indexed_config_env(env, entries).contains_key(GIT_CONFIG_COUNT_ENV@) == env.contains_key(GIT_CONFIG_COUNT_ENV@),
        indexed_config_env(env, entries)[GIT_CONFIG_COUNT_ENV@] == env[GIT_CONFIG_COUNT_ENV@],
    decreases entries.len(),
{
    if entries.len() > 0 {
        let n = (entries.len() - 1) as nat;
        let prev = entries.drop_last();
        lemma_indexed_config_env(env, prev);
        lemma_config_vars_distinct(n, n);
        assert forall|i: int| 0 <= i < entries.len() implies {
            &&& #[trigger] indexed_config_env(env, entries).contains_key(config_key_var(i as nat))
            &&& indexed_config_env(env, entries)[config_key_var(i as nat)] == entries[i].0
            &&& indexed_config_env(env, entries).contains_key(config_value_var(i as nat))
            &&& indexed_config_env(env, entries)[config_value_var(i as nat)] == entries[i].1
        } by {
            lemma_config_vars_distinct(i as nat, n);
            lemma_config_vars_distinct(n, i as nat);
            if i < n {
                assert(prev[i] == entries[i]);
                assert(indexed_config_env(env, prev).contains_key(config_key_var(i as nat)));
            }
        }
    }
}

/// The variables that pass entries to Git give them back: `GIT_CONFIG_COUNT` is their
/// number, and `GIT_CONFIG_KEY_<i>` and `GIT_CONFIG_VALUE_<i>` are the key and value of
/// entry `i`.
pub proof fn lemma_git_config_env_reads_back(env: Map<Seq<char>, Seq<char>>, entries: Seq<(Seq<char>, Seq<char>)>)
    requires
        entries.len() > 0,
    ensures
        git_config_env_spec(env, entries).contains_key(GIT_CONFIG_COUNT_ENV@),
        git_config_env_spec(env, entries)[GIT_CONFIG_COUNT_ENV@] == decimal(entries.len()),
        forall|i: int| 0 <= i < entries.len() ==> {
            &&& #[trigger] git_config_env_spec(env, entries).contains_key(config_key_var(i as nat))
            &&& git_config_env_spec(env, entries)[config_key_var(i as nat)] == entries[i].0
            &&& git_config_env_spec(env, entries).contains_key(config_value_var(i as nat))
            &&& git_config_env_spec(env, entries)[config_value_var(i as nat)] == entries[i].1
        },
{
    lemma_indexed_config_env(env.insert(GIT_CONFIG_COUNT_ENV@, decimal(entries.len())), entries);
}

} // verus!
