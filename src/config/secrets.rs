//! Secrets in settings: redaction for display, spotting placeholder values,
//! and secrets that can be rotated while the previous value stays valid.

use crate::config::ConfigError;
use crate::text::{
    contains, has_infix, lemma_position, lemma_position_bounds, lemma_position_push, lower_of,
    position, same_text, to_lower,
};
use vstd::prelude::*;

verus! {

/// A setting name under which a secret is expected.
pub open spec fn names_secret(lower_key: Seq<char>) -> bool {
    ||| has_infix(lower_key, "password"@)
    ||| has_infix(lower_key, "secret"@)
    ||| has_infix(lower_key, "token"@)
    ||| has_infix(lower_key, "key"@)
}

/// How a secret is shown: its first two and last two characters around
/// "...", or "***" when it has four characters or fewer.
pub open spec fn masked(value: Seq<char>) -> Seq<char> {
    if value.len() > 4 {
        value.take(2) + "..."@ + value.skip(value.len() - 2)
    } else {
        "***"@
    }
}

/// A variable name that looks like it holds a credential.
pub open spec fn sensitive_name(lower_key: Seq<char>) -> bool {
    ||| has_infix(lower_key, "password"@)
    ||| has_infix(lower_key, "secret"@)
    ||| has_infix(lower_key, "api_key"@)
    ||| has_infix(lower_key, "private_key"@)
    ||| has_infix(lower_key, "token"@)
    ||| has_infix(lower_key, "credential"@)
}

/// A value that looks like a placeholder rather than a real secret.
pub open spec fn placeholder_value(value: Seq<char>) -> bool {
    ||| has_infix(value, "example"@)
    ||| has_infix(value, "changeme"@)
    ||| has_infix(value, "xxx"@)
}

/// What an environment variable is, seen as a possible secret.
#[derive(Debug, Clone, Copy, PartialEq, Eq, Structural)]
pub enum SecretFinding {
    /// Not a secret, or an empty one.
    NotSecret,
    /// A configured secret.
    Configured,
    /// A configured secret whose value looks like a placeholder.
    Placeholder,
}

/// Helpers for handling secrets in settings.
pub struct SecretsManager;

impl SecretsManager {
    /// The value to show for setting `key`: masked when the name suggests a
    /// secret (password, secret, token or key, in any case), as is otherwise.
    pub fn redact_value(key: &str, value: &str) -> (r: String)
        ensures
            names_secret(lower_of(key@)) ==> r@ == masked(value@),
            !names_secret(lower_of(key@)) ==> r@ == value@,
    {
        let lower = to_lower(key);
        SecretsManager::redact_lowered(lower.as_str(), value)
    }

    /// The value to show for a setting whose name, lower-cased, is
    /// `lower_key`: masked when the name holds password, secret, token or
    /// key, as is otherwise.
    pub fn redact_lowered(lower_key: &str, value: &str) -> (r: String)
        ensures
            names_secret(lower_key@) ==> r@ == masked(value@),
            !names_secret(lower_key@) ==> r@ == value@,
    {
        let k = lower_key;
        if crate::text::contains(k, "password") || crate::text::contains(k, "secret")
            || crate::text::contains(k, "token") || crate::text::contains(k, "key") {
            let n = value.unicode_len();
            if n > 4 {
                let mut r = value.substring_char(0, 2).to_owned();
                r.append("...");
                r.append(value.substring_char(n - 2, n));
                proof {
                    assert(value@.subrange(0, 2) =~= value@.take(2));
                    assert(value@.subrange(n - 2, n as int) =~= value@.skip(value@.len() - 2));
                }
                r
            } else {
                "***".to_owned()
            }
        } else {
            value.to_owned()
        }
    }

    /// How an environment variable `key`=`value` stands as a possible secret.
    pub fn review(key: &str, value: &str) -> (r: SecretFinding)
        ensures
            !sensitive_name(lower_of(key@)) || value@.len() == 0 ==> r == SecretFinding::NotSecret,
            sensitive_name(lower_of(key@)) && value@.len() > 0 ==> r == (if placeholder_value(value@) {
                SecretFinding::Placeholder
            } else {
                SecretFinding::Configured
            }),
    {
        let lower = to_lower(key);
        SecretsManager::review_lowered(lower.as_str(), value)
    }

    /// How a variable whose name, lower-cased, is `lower_key` and whose value
    /// is `value` stands as a possible secret.
    pub fn review_lowered(lower_key: &str, value: &str) -> (r: SecretFinding)
        ensures
            !sensitive_name(lower_key@) || value@.len() == 0 ==> r == SecretFinding::NotSecret,
            sensitive_name(lower_key@) && value@.len() > 0 ==> r == (if placeholder_value(value@) {
                SecretFinding::Placeholder
            } else {
                SecretFinding::Configured
            }),
    {
        let k = lower_key;
        let sensitive = crate::text::contains(k, "password") || crate::text::contains(k, "secret")
            || crate::text::contains(k, "api_key") || crate::text::contains(k, "private_key")
            || crate::text::contains(k, "token") || crate::text::contains(k, "credential");
        if !sensitive || value.unicode_len() == 0 {
            SecretFinding::NotSecret
        } else if crate::text::contains(value, "example") || crate::text::contains(value, "changeme")
            || crate::text::contains(value, "xxx") {
            SecretFinding::Placeholder
        } else {
            SecretFinding::Configured
        }
    }
}


/// What a rotatable secret holds: the current value, and the one before the
/// last rotation, which stays valid during the changeover.
pub struct SecretView {
    pub current: Seq<char>,
    pub previous: Option<Seq<char>>,
}

/// A secret whose value can be replaced while the previous one is still
/// accepted.
#[derive(Clone, Debug)]
pub struct RotatableSecret {
    current: String,
    previous: Option<String>,
}

impl View for RotatableSecret {
    type V = SecretView;

    closed spec fn view(&self) -> SecretView {
        SecretView {
            current: self.current@,
            previous: match self.previous {
                Some(p) => Some(p@),
                None => None,
            },
        }
    }
}

/// A value is accepted when it is the current one or the previous one.
pub open spec fn accepts(s: SecretView, value: Seq<char>) -> bool {
    s.current == value || s.previous == Some(value)
}

impl RotatableSecret {
    pub fn new(value: String) -> (r: Self)
        ensures
            r@.current == value@,
            r@.previous is None,
    {
        RotatableSecret { current: value, previous: None }
    }

    /// Makes `new_value` current; the current value becomes the previous one.
    pub fn rotate(&mut self, new_value: String)
        ensures
            final(self)@.current == new_value@,
            final(self)@.previous == Some(old(self)@.current),
    {
        let old_value = self.current.clone();
        self.current = new_value;
        self.previous = Some(old_value);
    }

    /// The current value.
    pub fn current(&self) -> (r: String)
        ensures
            r@ == self@.current,
    {
        self.current.clone()
    }

    /// Whether `value` is the current or the previous value.
    pub fn validate(&self, value: &str) -> (r: bool)
        ensures
            r == accepts(self@, value@),
    {
        if same_text(self.current.as_str(), value) {
            return true;
        }
        match &self.previous {
            Some(p) => same_text(p.as_str(), value),
            None => false,
        }
    }
}

/// Named rotatable secrets.
pub struct SecretStore {
    secrets: Vec<(String, RotatableSecret)>,
}

impl Default for SecretStore {
    fn default() -> (r: Self)
        ensures
            r.wf(),
            forall|n: Seq<char>| r.secret(n) is None,
    {
        SecretStore::new()
    }
}

impl SecretStore {
    /// The names of the entries, in order.
    pub closed spec fn names(&self) -> Seq<Seq<char>> {
        self.secrets@.map_values(|e: (String, RotatableSecret)| e.0@)
    }

    /// The secrets of the entries, in order.
    pub closed spec fn values(&self) -> Seq<SecretView> {
        self.secrets@.map_values(|e: (String, RotatableSecret)| e.1@)
    }

    /// The secret stored under `name`.
    pub open spec fn secret(&self, name: Seq<char>) -> Option<SecretView> {
        match position(self.names(), name) {
            Some(i) => Some(self.values()[i]),
            None => None,
        }
    }

    pub closed spec fn wf(&self) -> bool {
        self.names().len() == self.values().len()
    }

    pub fn new() -> (r: Self)
        ensures
            r.wf(),
            forall|n: Seq<char>| r.secret(n) is None,
    {
        SecretStore { secrets: Vec::new() }
    }

    fn find(&self, name: &str) -> (r: Option<usize>)
        ensures
            r matches Some(i) ==> position(self.names(), name@) == Some(i as int) && i < self.secrets@.len(),
            r is None ==> position(self.names(), name@) is None,
    {
        let mut i: usize = 0;
        while i < self.secrets.len()
            invariant
                i <= self.secrets@.len(),
                forall|k: int| 0 <= k < i ==> self.names()[k] != name@,
            decreases self.secrets@.len() - i,
        {
            if same_text(self.secrets[i].0.as_str(), name) {
                proof {
                    lemma_position(self.names(), name@, i as int);
                }
                return Some(i);
            }
            i = i + 1;
        }
        proof {
            lemma_position(self.names(), name@, i as int);
        }
        None
    }

    /// Stores `value` under `name`, replacing any secret of that name.
    pub fn add_secret(&mut self, name: String, value: String)
        requires
            old(self).wf(),
        ensures
            final(self).wf(),
            final(self).secret(name@) == Some(SecretView { current: value@, previous: None }),
            forall|n: Seq<char>| n != name@ ==> final(self).secret(n) == old(self).secret(n),
    {
        let ghost names0 = self.names();
        let ghost values0 = self.values();
        match self.find(name.as_str()) {
            Some(i) => {
                let ghost nm = name@;
                self.secrets.set(i, (name, RotatableSecret::new(value)));
                proof {
                    lemma_position_bounds(names0, nm);
                    assert(self.names() =~= names0);
                    assert(self.values() =~= values0.update(i as int, SecretView { current: value@, previous: None }));
                    assert forall|x: Seq<char>| x != nm implies self.secret(x) == old(self).secret(x) by {
                        lemma_position_bounds(names0, x);
                    }
                }
            },
            None => {
                let ghost nm = name@;
                self.secrets.push((name, RotatableSecret::new(value)));
                proof {
                    assert(self.names() =~= names0.push(nm));
                    assert(self.values() =~= values0.push(SecretView { current: value@, previous: None }));
                    lemma_position_push(names0, nm, nm);
                    assert forall|x: Seq<char>| x != nm implies self.secret(x) == old(self).secret(x) by {
                        lemma_position_push(names0, nm, x);
                        lemma_position_bounds(names0, x);
                    }
                }
            },
        }
    }

    /// The current value of the secret named `name`.
    pub fn get_secret(&self, name: &str) -> (r: Option<String>)
        requires
            self.wf(),
        ensures
            r is None <==> self.secret(name@) is None,
            r matches Some(v) ==> (self.secret(name@) matches Some(s) && v@ == s.current),
    {
        match self.find(name) {
            Some(i) => Some(self.secrets[i].1.current()),
            None => None,
        }
    }

    /// Whether `value` is accepted for the secret named `name`: false when
    /// there is none.
    pub fn validate_secret(&self, name: &str, value: &str) -> (r: bool)
        requires
            self.wf(),
        ensures
            r == (self.secret(name@) matches Some(s) && accepts(s, value@)),
    {
        match self.find(name) {
            Some(i) => self.secrets[i].1.validate(value),
            None => false,
        }
    }

    /// Rotates the secret named `name` to `new_value`; an error when there
    /// is none.
    pub fn rotate_secret(&mut self, name: &str, new_value: String) -> (r: Result<(), ConfigError>)
        requires
            old(self).wf(),
        ensures
            final(self).wf(),
            r is Ok <==> old(self).secret(name@) is Some,
            old(self).secret(name@) matches Some(s) ==> final(self).secret(name@) == Some(
                SecretView { current: new_value@, previous: Some(s.current) },
            ),
            forall|n: Seq<char>| n != name@ ==> final(self).secret(n) == old(self).secret(n),
    {
        let ghost names0 = self.names();
        let ghost values0 = self.values();
        match self.find(name) {
            Some(i) => {
                let n = self.secrets[i].0.clone();
                let current = self.secrets[i].1.current.clone();
                let ghost cur = current@;
                self.secrets.set(i, (n, RotatableSecret { current: new_value, previous: Some(current) }));
                proof {
                    lemma_position_bounds(names0, name@);
                    assert(self.names() =~= names0);
                    assert(self.values() =~= values0.update(
                        i as int,
                        SecretView { current: new_value@, previous: Some(cur) },
                    ));
                    assert forall|x: Seq<char>| x != name@ implies self.secret(x) == old(self).secret(x) by {
                        lemma_position_bounds(names0, x);
                    }
                }
                Ok(())
            },
            None => {
                let mut m = "Secret '".to_owned();
                m.append(name);
                m.append("' not found");
                Err(ConfigError::new(m))
            },
        }
    }
}

} // verus!
