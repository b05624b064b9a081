//! The session manager: a cache in front of the credential store.

use crate::auth::credentials::{
    soft_expired, ApiSignature, ApiSignatureView, CredentialsView, UserCredentials,
};
use crate::auth::storage::{active, captured, invalidated_all, saved, CredentialStorage};
use crate::error::{LoginError, RequestError};
use vstd::prelude::*;

verus! {

/// Whether the credential `c` may be served from the cache at `now`: it is
/// valid and not past its soft expiry.
pub open spec fn servable(c: CredentialsView, now: int) -> bool {
    c.is_valid && !soft_expired(c.updated_at, now)
}

/// The credential that the store offers at `now`: its valid one, unless that
/// is past its soft expiry.
pub open spec fn offered(records: Seq<CredentialsView>, now: int) -> Option<CredentialsView> {
    match active(records) {
        Some(c) => if soft_expired(c.updated_at, now) {
            None
        } else {
            Some(c)
        },
        None => None,
    }
}

/// The credential that a passive lookup finds: the cached one if it may be
/// served, else the one that the store offers.
pub open spec fn found(
    cache: Option<CredentialsView>,
    records: Seq<CredentialsView>,
    now: int,
) -> Option<CredentialsView> {
    match cache {
        Some(c) => if servable(c, now) {
            Some(c)
        } else {
            offered(records, now)
        },
        None => offered(records, now),
    }
}

/// A credential that is past its soft expiry is never found, whatever the
/// cache and the store hold; what is found is valid.
pub proof fn lemma_found_is_fresh(
    cache: Option<CredentialsView>,
    records: Seq<CredentialsView>,
    now: int,
)
    ensures
        found(cache, records, now) matches Some(c) ==> c.is_valid && !soft_expired(
            c.updated_at,
            now,
        ),
{
    crate::auth::storage::lemma_active_index(records);
}

/// The cache after a passive lookup: what was found, or the old cache when
/// nothing was found.
pub open spec fn cache_after_lookup(
    cache: Option<CredentialsView>,
    records: Seq<CredentialsView>,
    now: int,
) -> Option<CredentialsView> {
    match found(cache, records, now) {
        Some(c) => Some(c),
        None => cache,
    }
}

/// The view of an optional credential.
pub open spec fn credential_view(c: Option<UserCredentials>) -> Option<CredentialsView> {
    match c {
        Some(c) => Some(c@),
        None => None,
    }
}

/// The view of an optional captured signature.
pub open spec fn signature_view(s: Option<ApiSignature>) -> Option<ApiSignatureView> {
    match s {
        Some(s) => Some(s@),
        None => None,
    }
}

/// What a caller that needs a credential has to do.
#[derive(Debug)]
pub enum CredentialLookup {
    /// A credential is at hand.
    Ready(UserCredentials),
    /// There is none: the login protocol has to run before `finish_login` is called.
    LoginRequired,
}

/// Holds the store and a cached copy of the active credential.
#[derive(Debug)]
pub struct AuthService {
    storage: CredentialStorage,
    cached_credentials: Option<UserCredentials>,
}

impl AuthService {
    /// The store's credential records.
    pub closed spec fn records(&self) -> Seq<CredentialsView> {
        self.storage.records()
    }

    /// The store's captured signatures.
    pub closed spec fn signatures(&self) -> Seq<ApiSignatureView> {
        self.storage.signatures()
    }

    /// The cached credential.
    pub closed spec fn cache(&self) -> Option<CredentialsView> {
        credential_view(self.cached_credentials)
    }

    /// A session manager over `storage`, its cache filled with the store's
    /// valid credential.
    pub fn new(storage: CredentialStorage) -> (r: Self)
        ensures
            r.records() == storage.records(),
            r.signatures() == storage.signatures(),
            r.cache() == active(storage.records()),
    {
        let cached = storage.get_active_credentials();
        AuthService { storage, cached_credentials: cached }
    }

    /// The cached credential, if it may be served at `now`. The store is not
    /// read and nothing changes, so that concurrent readers can be served.
    pub fn cached_credentials(&self, now: i64) -> (r: Option<UserCredentials>)
        ensures
            credential_view(r) == match self.cache() {
                Some(c) => if servable(c, now as int) {
                    Some(c)
                } else {
                    None
                },
                None => None,
            },
    {
        match &self.cached_credentials {
            Some(c) => if c.is_valid && !c.is_expired_at(now) {
                Some(c.clone())
            } else {
                None
            },
            None => None,
        }
    }

    /// The credential to use at `now`, without ever starting a login: the
    /// cached one if it is valid and not past its soft expiry, else the
    /// store's valid one if it is not past its soft expiry, which then
    /// becomes the cached one.
    pub fn try_get_credentials(&mut self, now: i64) -> (r: Option<UserCredentials>)
        ensures
            credential_view(r) == found(old(self).cache(), old(self).records(), now as int),
            final(self).cache() == cache_after_lookup(
                old(self).cache(),
                old(self).records(),
                now as int,
            ),
            final(self).records() == old(self).records(),
            final(self).signatures() == old(self).signatures(),
    {
        match &self.cached_credentials {
            Some(c) => {
                if c.is_valid && !c.is_expired_at(now) {
                    return Some(c.clone());
                }
            },
            None => {},
        }
        match self.storage.get_active_credentials() {
            Some(c) => {
                if c.is_expired_at(now) {
                    None
                } else {
                    let copy = c.clone();
                    self.cached_credentials = Some(c);
                    Some(copy)
                }
            },
            None => None,
        }
    }

    /// The credential to use at `now`, or the demand to log in when there is none.
    pub fn get_credentials(&mut self, now: i64) -> (r: CredentialLookup)
        ensures
            match r {
                CredentialLookup::Ready(c) => found(
                    old(self).cache(),
                    old(self).records(),
                    now as int,
                ) == Some(c@),
                CredentialLookup::LoginRequired => found(
                    old(self).cache(),
                    old(self).records(),
                    now as int,
                ) is None,
            },
            final(self).cache() == cache_after_lookup(
                old(self).cache(),
                old(self).records(),
                now as int,
            ),
            final(self).records() == old(self).records(),
            final(self).signatures() == old(self).signatures(),
    {
        match self.try_get_credentials(now) {
            Some(c) => CredentialLookup::Ready(c),
            None => CredentialLookup::LoginRequired,
        }
    }

    /// Reads the store once, at `now`, after a login has signalled
    /// completion: the credential that it offers becomes the cached one and
    /// is returned; if it offers none, the login has failed.
    pub fn finish_login(&mut self, now: i64) -> (r: Result<UserCredentials, LoginError>)
        ensures
            match r {
                Ok(c) => offered(old(self).records(), now as int) == Some(c@)
                    && final(self).cache() == Some(c@),
                Err(e) => offered(old(self).records(), now as int) is None && e
                    == LoginError::LoginFailed && final(self).cache() == old(self).cache(),
            },
            final(self).records() == old(self).records(),
            final(self).signatures() == old(self).signatures(),
    {
        match self.storage.get_active_credentials() {
            Some(c) => {
                if c.is_expired_at(now) {
                    Err(LoginError::LoginFailed)
                } else {
                    let copy = c.clone();
                    self.cached_credentials = Some(c);
                    Ok(copy)
                }
            },
            None => Err(LoginError::LoginFailed),
        }
    }

    /// Commits `creds` to the store, where it replaces every earlier
    /// credential, and empties the cache.
    pub fn save_credentials(&mut self, creds: &UserCredentials)
        ensures
            final(self).records() == saved(old(self).records(), creds@),
            final(self).signatures() == old(self).signatures(),
            final(self).cache() is None,
            creds@.is_valid ==> active(final(self).records()) == Some(creds@),
    {
        self.storage.save_credentials(creds);
        self.cached_credentials = None;
    }

    /// Invalidates every credential in the store and empties the cache.
    pub fn invalidate_credentials(&mut self)
        ensures
            final(self).records() == invalidated_all(old(self).records()),
            final(self).signatures() == old(self).signatures(),
            final(self).cache() is None,
            active(final(self).records()) is None,
    {
        self.storage.invalidate_all();
        self.cached_credentials = None;
    }

    /// The valid signature captured for `endpoint`, if there is one.
    pub fn get_endpoint_signature(&self, endpoint: &str) -> (r: Option<ApiSignature>)
        ensures
            signature_view(r) == captured(self.signatures(), endpoint@),
    {
        self.storage.get_api_signature(endpoint)
    }

    /// The header values `(x-s, x-t, x-s-common)` of the legacy flows, which
    /// sign nothing: an empty `x-s`, `now` as `x-t`, and the fragment that the
    /// credential carries, empty when it carries none.
    pub fn sign_request(&mut self, now: i64) -> (r: Result<(String, i64, String), RequestError>)
        ensures
            match r {
                Ok(t) => found(old(self).cache(), old(self).records(), now as int) matches Some(c)
                    && t.0@ == Seq::<char>::empty() && t.1 == now && t.2@ == match c.x_s_common {
                    Some(x) => x,
                    None => Seq::<char>::empty(),
                },
                Err(e) => found(old(self).cache(), old(self).records(), now as int) is None && e
                    is NotAuthenticated,
            },
            final(self).records() == old(self).records(),
            final(self).signatures() == old(self).signatures(),
    {
        match self.try_get_credentials(now) {
            Some(c) => {
                let fragment = match c.x_s_common {
                    Some(x) => x,
                    None => String::new(),
                };
                Ok((String::new(), now, fragment))
            },
            None => Err(RequestError::NotAuthenticated),
        }
    }

    /// A copy of every credential record of the store, oldest first.
    pub fn all_credentials(&self) -> (r: Vec<UserCredentials>)
        ensures
            crate::auth::storage::credential_views(r@) == self.records(),
    {
        self.storage.all_credentials()
    }
}

} // verus!
