//! The credential store's rules: how long a stored token has left, what a
//! load hands the OAuth client, and when a client registration is saved.

use vstd::prelude::*;

use crate::ids::now_epoch_secs;

verus! {

/// Seconds left until `expires_at` at time `now`, never below zero.
pub open spec fn remaining(expires_at: i64, now: i64) -> int {
    if expires_at - now > 0 {
        expires_at - now
    } else {
        0
    }
}

/// Seconds a token has left (0 once expired); recomputed on every load.
pub fn expires_in(expires_at: Option<i64>, now: i64) -> (r: Option<u64>)
    ensures
        match expires_at {
            Some(t) => r == Some(remaining(t, now) as u64),
            None => r is None,
        },
{
    match expires_at {
        Some(t) => {
            let d: i128 = (t as i128) - (now as i128);
            if d > 0 {
                Some(d as u64)
            } else {
                Some(0)
            }
        },
        None => None,
    }
}

/// A later load never reports more time left than an earlier one.
pub proof fn law_expires_in_never_grows(expires_at: i64, earlier: i64, later: i64)
    requires
        earlier <= later,
    ensures
        remaining(expires_at, later) <= remaining(expires_at, earlier),
        remaining(expires_at, later) >= 0,
{
}

/// The expiry to store for a token received at `now` that lasts
/// `lifetime` seconds.
pub fn expiry_of(lifetime: Option<u64>, now: i64) -> (r: Option<i64>)
    requires
        lifetime matches Some(d) ==> now + d <= i64::MAX,
    ensures
        match lifetime {
            Some(d) => r == Some((now + d) as i64),
            None => r is None,
        },
{
    match lifetime {
        Some(d) => Some(((now as i128) + (d as i128)) as i64),
        None => None,
    }
}

/// A token as handed to the OAuth client.
#[derive(Debug, Clone)]
pub struct TokenResponse {
    /// Access token
    pub access_token: String,
    /// Refresh token
    pub refresh_token: Option<String>,
    /// Seconds left
    pub expires_in: Option<u64>,
}

/// Credentials as handed to the OAuth client.
#[derive(Debug, Clone)]
pub struct StoredCredentials {
    /// Registered client ID (empty when only a token is stored)
    pub client_id: String,
    /// Stored token
    pub token_response: Option<TokenResponse>,
    /// When the token counts as received (seconds since the UNIX epoch)
    pub token_received_at: u64,
}

/// A stored access token and its expiry.
#[derive(Debug, Clone)]
pub struct StoredAccessToken {
    /// Token value
    pub value: String,
    /// Expiry, seconds since the UNIX epoch
    pub expires_at: Option<i64>,
}

/// The token response for a stored access token and refresh token at `now`.
pub open spec fn token_of(r: TokenResponse, access: StoredAccessToken, refresh: Option<String>, now: i64) -> bool {
    r.access_token == access.value && r.refresh_token == refresh && match access.expires_at {
        Some(t) => r.expires_in == Some(remaining(t, now) as u64),
        None => r.expires_in is None,
    }
}

/// What a load gives from the stored registration's client ID, access token
/// and refresh token: nothing when neither a registration nor a token is
/// stored; else the client ID (empty without a registration) and the token,
/// if any, with its time left recomputed, received at `received_at` so that
/// the client's own expiry arithmetic holds.
pub fn load_credentials(
    client_id: Option<String>,
    access: Option<StoredAccessToken>,
    refresh: Option<String>,
    now: i64,
    received_at: u64,
) -> (r: Option<StoredCredentials>)
    ensures
        (client_id is None && access is None) <==> r is None,
        r matches Some(c) ==> c.token_received_at == received_at && c.client_id@ == match client_id {
            Some(id) => id@,
            None => Seq::<char>::empty(),
        } && match access {
            Some(a) => c.token_response matches Some(t) && token_of(t, a, refresh, now),
            None => c.token_response is None,
        },
{
    if client_id.is_none() && access.is_none() {
        return None;
    }
    let token_response = match access {
        Some(a) => {
            let left = expires_in(a.expires_at, now);
            Some(TokenResponse { access_token: a.value, refresh_token: refresh, expires_in: left })
        },
        None => None,
    };
    let id = match client_id {
        Some(id) => id,
        None => String::new(),
    };
    Some(StoredCredentials { client_id: id, token_response, token_received_at: received_at })
}

/// A clock reading in seconds as a signed time (readings past the signed
/// range are held at its end).
pub open spec fn signed_clock(now: u64) -> i64 {
    if now <= i64::MAX as u64 {
        now as i64
    } else {
        i64::MAX
    }
}

/// The credentials `c` as loaded at clock reading `now`: received then, and
/// with the token's time left computed then.
pub open spec fn loaded_at(
    c: StoredCredentials,
    access: Option<StoredAccessToken>,
    refresh: Option<String>,
    now: u64,
) -> bool {
    &&& c.token_received_at == now
    &&& match access {
        Some(a) => c.token_response matches Some(t) && token_of(t, a, refresh, signed_clock(now)),
        None => c.token_response is None,
    }
}

/// Loads credentials as of the current time: as `load_credentials` at the
/// clock's reading.
pub fn load_credentials_now(
    client_id: Option<String>,
    access: Option<StoredAccessToken>,
    refresh: Option<String>,
) -> (r: Option<StoredCredentials>)
    ensures
        (client_id is None && access is None) <==> r is None,
        r matches Some(c) ==> c.client_id@ == match client_id {
            Some(id) => id@,
            None => Seq::<char>::empty(),
        },
        r matches Some(c) ==> exists|now: u64| #[trigger] loaded_at(c, access, refresh, now),
{
    let now = now_epoch_secs();
    let now_i: i64 = if now <= i64::MAX as u64 {
        now as i64
    } else {
        i64::MAX
    };
    let r = load_credentials(client_id, access, refresh, now_i, now);
    proof {
        if r is Some {
            assert(loaded_at(r->0, access, refresh, now));
        }
    }
    r
}

/// Whether saving credentials also saves the client registration: a
/// non-empty client ID that differs from the registered one, or with none
/// registered.
pub fn should_save_registration(existing_client_id: Option<&str>, client_id: &str) -> (b: bool)
    ensures
        b == (client_id@.len() > 0 && match existing_client_id {
            Some(e) => e@ != client_id@,
            None => true,
        }),
{
    if client_id.unicode_len() == 0 {
        return false;
    }
    match existing_client_id {
        Some(e) => !crate::text::str_eq(e, client_id),
        None => true,
    }
}

/// The token rows stored for a server: its access token and its refresh
/// token, each a row of its own.
#[derive(Debug, Clone)]
pub struct TokenRows {
    /// The access token row
    pub access: Option<StoredAccessToken>,
    /// The refresh token row
    pub refresh: Option<String>,
}

impl TokenRows {
    /// Saves the token of `creds`, received at `now`: the access token row
    /// is written with its expiry; the refresh token row is written when the
    /// token carries one, and otherwise kept as it was (some providers omit
    /// it when they rotate tokens). Credentials without a token change no row.
    pub fn save_tokens(&mut self, creds: &StoredCredentials, now: i64)
        requires
            creds.token_response matches Some(t) ==> (t.expires_in matches Some(d) ==> now + d <= i64::MAX),
        ensures
            match creds.token_response {
                Some(t) => {
                    &&& final(self).access matches Some(a) && a.value == t.access_token && a.expires_at == match t.expires_in {
                        Some(d) => Some((now + d) as i64),
                        None => None,
                    }
                    &&& final(self).refresh == match t.refresh_token {
                        Some(r) => Some(r),
                        None => old(self).refresh,
                    }
                },
                None => *final(self) == *old(self),
            },
    {
        match &creds.token_response {
            Some(t) => {
                let expires_at = expiry_of(t.expires_in, now);
                self.access = Some(StoredAccessToken { value: t.access_token.clone(), expires_at });
                match &t.refresh_token {
                    Some(r) => {
                        self.refresh = Some(r.clone());
                    },
                    None => {},
                }
            },
            None => {},
        }
    }
}

} // verus!
