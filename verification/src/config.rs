//! The application configuration: a flat map from string keys to string
//! values, loaded once at startup and read-only afterwards.

use vstd::prelude::*;

use crate::error::AppError;
use crate::error::ErrorKind;

verus! {

/// The configuration key naming the OAuth client id.
pub open spec fn client_id_key() -> Seq<char> {
    "X_CLIENT_ID"@
}

/// The configuration key naming the OAuth client secret.
pub open spec fn client_secret_key() -> Seq<char> {
    "X_CLIENT_SECRET"@
}

/// The configuration key naming the redirect URL of the callback endpoint.
pub open spec fn redirect_url_key() -> Seq<char> {
    "X_REDIRECT_URL"@
}

/// The first value paired with `key`, if any.
pub open spec fn lookup_pairs(pairs: Seq<(String, String)>, key: Seq<char>) -> Option<Seq<char>>
    decreases pairs.len(),
{
    if pairs.len() == 0 {
        None
    } else if pairs[0].0@ == key {
        Some(pairs[0].1@)
    } else {
        lookup_pairs(pairs.drop_first(), key)
    }
}

/// Immutable string-keyed configuration. Key order is irrelevant to
/// callers; when a key repeats, the first occurrence wins.
#[derive(Debug)]
pub struct Config {
    /// The key/value pairs as read from the configuration file.
    pub values: Vec<(String, String)>,
}

impl Config {
    /// The value stored under `key`, if any.
    pub open spec fn lookup(self, key: Seq<char>) -> Option<Seq<char>> {
        lookup_pairs(self.values@, key)
    }

    /// All three keys that the OAuth flow cannot run without are present.
    pub open spec fn has_required_keys(self) -> bool {
        &&& self.lookup(client_id_key()) is Some
        &&& self.lookup(client_secret_key()) is Some
        &&& self.lookup(redirect_url_key()) is Some
    }

    /// Wraps the given pairs as a configuration.
    pub fn from_pairs(values: Vec<(String, String)>) -> (c: Config)
        ensures
            c.values@ == values@,
    {
        Config { values }
    }

    /// Looks `key` up, first occurrence first, as the configuration file is
    /// a map.
    pub fn get<'a>(&'a self, key: &String) -> (r: Option<&'a String>)
        ensures
            match r {
                Some(v) => self.lookup(key@) == Some(v@),
                None => self.lookup(key@) is None,
            },
    {
        let n = self.values.len();
        let mut i: usize = 0;
        proof {
            assert(self.values@.skip(0) =~= self.values@);
        }
        while i < n
            invariant
                n == self.values@.len(),
                i <= n,
                lookup_pairs(self.values@.skip(i as int), key@) == lookup_pairs(
                    self.values@,
                    key@,
                ),
            decreases n - i,
        {
            proof {
                assert(self.values@.skip(i as int)[0] == self.values@[i as int]);
                assert(self.values@.skip(i as int).drop_first() =~= self.values@.skip(
                    i as int + 1,
                ));
            }
            if self.values[i].0.eq(key) {
                return Some(&self.values[i].1);
            }
            i = i + 1;
        }
        proof {
            assert(self.values@.skip(n as int) =~= Seq::<(String, String)>::empty());
        }
        None
    }

    /// Checks that every required key is present, as startup must before
    /// the OAuth flow is used.
    pub fn check_required(&self) -> (r: Result<(), AppError>)
        ensures
            r is Ok <==> self.has_required_keys(),
            r matches Err(e) ==> e.0 == ErrorKind::MissingConfigKey,
    {
        let id_key: String = "X_CLIENT_ID".to_owned();
        let secret_key: String = "X_CLIENT_SECRET".to_owned();
        let redirect_key: String = "X_REDIRECT_URL".to_owned();
        if self.get(&id_key).is_none() {
            return Err(AppError(ErrorKind::MissingConfigKey));
        }
        if self.get(&secret_key).is_none() {
            return Err(AppError(ErrorKind::MissingConfigKey));
        }
        if self.get(&redirect_key).is_none() {
            return Err(AppError(ErrorKind::MissingConfigKey));
        }
        Ok(())
    }
}

} // verus!
