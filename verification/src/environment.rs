//! A snapshot of the host's environment variables, as the library reads them.

use vstd::prelude::*;

use crate::text::str_eq;

verus! {

/// The value of an environment variable.
#[derive(Debug, PartialEq, Eq)]
pub enum EnvValue {
    /// A value that is valid Unicode.
    Text(String),
    /// A value that is not valid Unicode, with its lossy rendering for messages.
    NotUnicode(String),
}

/// The mathematical form of an environment value.
pub enum EnvValueView {
    Text(Seq<char>),
    NotUnicode(Seq<char>),
}

impl View for EnvValue {
    type V = EnvValueView;

    open spec fn view(&self) -> EnvValueView {
        match self {
            EnvValue::Text(s) => EnvValueView::Text(s@),
            EnvValue::NotUnicode(s) => EnvValueView::NotUnicode(s@),
        }
    }
}

impl Clone for EnvValue {
    /// The same value.
    fn clone(&self) -> (r: Self)
        ensures
            r == *self,
    {
        match self {
            EnvValue::Text(s) => EnvValue::Text(s.clone()),
            EnvValue::NotUnicode(s) => EnvValue::NotUnicode(s.clone()),
        }
    }
}

impl EnvValue {
    /// Whether the value is empty. A value that is not Unicode is never empty.
    pub open spec fn is_empty_spec(&self) -> bool {
        match self {
            EnvValue::Text(s) => s@.len() == 0,
            EnvValue::NotUnicode(_) => false,
        }
    }

    /// Whether the value is empty.
    pub fn is_empty(&self) -> (r: bool)
        ensures
            r == self.is_empty_spec(),
    {
        match self {
            EnvValue::Text(s) => crate::text::chars_of(s.as_str()).len() == 0,
            EnvValue::NotUnicode(_) => false,
        }
    }

    /// The value as text, if it is Unicode.
    pub fn text(&self) -> (r: Option<&String>)
        ensures
            match self {
                EnvValue::Text(s) => r == Some(s),
                EnvValue::NotUnicode(_) => r is None,
            },
    {
        match self {
            EnvValue::Text(s) => Some(s),
            EnvValue::NotUnicode(_) => None,
        }
    }
}

/// Environment variables by name; the first entry of a name counts.
#[derive(Debug, PartialEq, Eq)]
pub struct Environment {
    pub vars: Vec<(String, EnvValue)>,
}

/// The value of `name` among `vars`: that of its first entry.
pub open spec fn env_lookup(vars: Seq<(String, EnvValue)>, name: Seq<char>) -> Option<EnvValue>
    decreases vars.len(),
{
    if vars.len() == 0 {
        None
    } else if vars[0].0@ == name {
        Some(vars[0].1)
    } else {
        env_lookup(vars.drop_first(), name)
    }
}

impl Environment {
    /// The value of `name`, if it is set.
    pub open spec fn get_spec(&self, name: Seq<char>) -> Option<EnvValue> {
        env_lookup(self.vars@, name)
    }

    /// An environment with no variables.
    pub fn empty() -> (r: Self)
        ensures
            r.vars@.len() == 0,
    {
        Environment { vars: Vec::new() }
    }

    /// Sets `name` to a Unicode value, ahead of any earlier entry of it.
    pub fn with_text(self, name: &str, value: &str) -> (r: Self)
        ensures
            forall|n: Seq<char>| n != name@ ==> #[trigger] r.get_spec(n) == self.get_spec(n),
            r.get_spec(name@) matches Some(EnvValue::Text(s)) && s@ == value@,
    {
        self.with_value(crate::text::owned(name), EnvValue::Text(crate::text::owned(value)))
    }

    /// Sets `name` to `value`, ahead of any earlier entry of it.
    pub fn with_value(self, name: String, value: EnvValue) -> (r: Self)
        ensures
            forall|n: Seq<char>| #[trigger] r.get_spec(n) == if n == name@ {
                Some(value)
            } else {
                self.get_spec(n)
            },
    {
        let mut vars: Vec<(String, EnvValue)> = Vec::new();
        let ghost nm = name@;
        vars.push((name, value));
        let mut i: usize = 0;
        while i < self.vars.len()
            invariant
                i <= self.vars@.len(),
                vars@.len() == i + 1,
                vars@[0].0@ == nm,
                vars@[0].1 == value,
                forall|k: int| 0 <= k < i ==> #[trigger] vars@[k + 1] == self.vars@[k],
            decreases self.vars.len() - i,
        {
            let n = self.vars[i].0.clone();
            let v = self.vars[i].1.clone();
            vars.push((n, v));
            i = i + 1;
        }
        proof {
            assert(vars@.drop_first() =~= self.vars@) by {
                assert forall|k: int| 0 <= k < self.vars@.len() implies vars@.drop_first()[k] == self.vars@[k] by {
                    assert(vars@[k + 1] == self.vars@[k]);
                }
            }
        }
        Environment { vars }
    }

    /// The value of `name`, if it is set.
    pub fn get(&self, name: &str) -> (r: Option<&EnvValue>)
        ensures
            match r {
                Some(v) => self.get_spec(name@) == Some(*v),
                None => self.get_spec(name@) is None,
            },
    {
        let mut i: usize = 0;
        assert(self.vars@.skip(0) =~= self.vars@);
        while i < self.vars.len()
            invariant
                i <= self.vars@.len(),
                env_lookup(self.vars@, name@) == env_lookup(self.vars@.skip(i as int), name@),
            decreases self.vars.len() - i,
        {
            assert(self.vars@.skip(i as int).drop_first() =~= self.vars@.skip(i + 1));
            if str_eq(self.vars[i].0.as_str(), name) {
                return Some(&self.vars[i].1);
            }
            i = i + 1;
        }
        None
    }
}

} // verus!
