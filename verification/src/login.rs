//! Validated login data, exchanged once at connection time. A `LoginData`
//! value is only constructed after validation (username non-empty and
//! length-bounded, password length-bounded, both as bytes), is immutable
//! thereafter, and serializes to the opaque user-data blob that rides along
//! with the transport's own handshake.

use vstd::prelude::*;

verus! {

/// Longest accepted username, in bytes.
pub const MAX_USERNAME_LEN: usize = 64;

/// Longest accepted password, in bytes.
pub const MAX_PASSWORD_LEN: usize = 64;

/// Mathematical image of a [`LoginData`]: the two credential byte strings.
#[verifier::ext_equal]
pub struct LoginModel {
    pub username: Seq<u8>,
    pub password: Seq<u8>,
}

/// Whether a username/password pair passes validation.
pub open spec fn login_wf(m: LoginModel) -> bool {
    &&& 0 < m.username.len() <= MAX_USERNAME_LEN as int
    &&& m.password.len() <= MAX_PASSWORD_LEN as int
}

/// The user-data bytes of a login: one length byte per field, then the two
/// fields themselves. Trailing bytes past the two fields are not part of the
/// encoding, so a fixed-size user-data buffer may pad freely after it.
pub open spec fn spec_login_bytes(m: LoginModel) -> Seq<u8> {
    seq![m.username.len() as u8, m.password.len() as u8] + m.username + m.password
}

/// Reading a login back out of user-data bytes: succeeds exactly on buffers
/// that begin with a validly encoded login, and yields that login.
pub open spec fn spec_login_from_bytes(bytes: Seq<u8>) -> Option<LoginModel> {
    if bytes.len() < 2 {
        None
    } else {
        let ulen = bytes[0] as int;
        let plen = bytes[1] as int;
        if 0 < ulen <= MAX_USERNAME_LEN as int && plen <= MAX_PASSWORD_LEN as int && bytes.len()
            >= 2 + ulen + plen {
            Some(
                LoginModel {
                    username: bytes.subrange(2, 2 + ulen),
                    password: bytes.subrange(2 + ulen, 2 + ulen + plen),
                },
            )
        } else {
            None
        }
    }
}

/// Login credentials, validated at construction.
#[derive(Debug)]
pub struct LoginData {
    username: Vec<u8>,
    password: Vec<u8>,
}

impl View for LoginData {
    type V = LoginModel;

    closed spec fn view(&self) -> LoginModel {
        LoginModel { username: self.username@, password: self.password@ }
    }
}

impl LoginData {
    /// A login value exists only in validated form.
    #[verifier::type_invariant]
    spec fn inv(self) -> bool {
        login_wf(self@)
    }

    /// Validates and constructs login data: fails exactly when the username
    /// is empty or either field exceeds its maximum length.
    pub fn new(username: Vec<u8>, password: Vec<u8>) -> (r: Option<LoginData>)
        ensures
            match r {
                Some(d) => d@ == (LoginModel { username: username@, password: password@ })
                    && login_wf(d@),
                None => !login_wf(LoginModel { username: username@, password: password@ }),
            },
    {
        if username.len() == 0 || username.len() > MAX_USERNAME_LEN || password.len()
            > MAX_PASSWORD_LEN {
            None
        } else {
            Some(LoginData { username, password })
        }
    }

    /// The username bytes.
    pub fn username(&self) -> (r: &Vec<u8>)
        ensures
            r@ == self@.username,
    {
        &self.username
    }

    /// The password bytes.
    pub fn password(&self) -> (r: &Vec<u8>)
        ensures
            r@ == self@.password,
    {
        &self.password
    }

    /// Serializes this login into handshake user-data bytes.
    pub fn as_bytes(&self) -> (r: Vec<u8>)
        ensures
            r@ == spec_login_bytes(self@),
            login_wf(self@),
    {
        proof {
            use_type_invariant(self);
        }
        let mut out: Vec<u8> = Vec::new();
        out.push(self.username.len() as u8);
        out.push(self.password.len() as u8);
        let mut i: usize = 0;
        while i < self.username.len()
            invariant
                i <= self.username.len(),
                out@ == seq![
                    self@.username.len() as u8,
                    self@.password.len() as u8,
                ] + self@.username.take(i as int),
            decreases self.username.len() - i,
        {
            out.push(self.username[i]);
            i += 1;
            proof {
                assert(out@ =~= seq![
                    self@.username.len() as u8,
                    self@.password.len() as u8,
                ] + self@.username.take(i as int));
            }
        }
        let mut j: usize = 0;
        while j < self.password.len()
            invariant
                j <= self.password.len(),
                out@ == seq![
                    self@.username.len() as u8,
                    self@.password.len() as u8,
                ] + self@.username + self@.password.take(j as int),
            decreases self.password.len() - j,
        {
            out.push(self.password[j]);
            j += 1;
            proof {
                assert(out@ =~= seq![
                    self@.username.len() as u8,
                    self@.password.len() as u8,
                ] + self@.username + self@.password.take(j as int));
            }
        }
        proof {
            assert(out@ =~= spec_login_bytes(self@));
        }
        out
    }

    /// Reconstructs a login from handshake user-data bytes; fails exactly on
    /// buffers that do not begin with a validly encoded login.
    pub fn from_bytes(bytes: &Vec<u8>) -> (r: Option<LoginData>)
        ensures
            match r {
                Some(d) => spec_login_from_bytes(bytes@) == Some(d@) && login_wf(d@),
                None => spec_login_from_bytes(bytes@) is None,
            },
    {
        if bytes.len() < 2 {
            return None;
        }
        let ulen = bytes[0] as usize;
        let plen = bytes[1] as usize;
        if ulen == 0 || ulen > MAX_USERNAME_LEN || plen > MAX_PASSWORD_LEN || bytes.len() < 2 + ulen
            + plen {
            return None;
        }
        let mut username: Vec<u8> = Vec::new();
        let mut i: usize = 2;
        while i < 2 + ulen
            invariant
                2 <= i <= 2 + ulen,
                2 + ulen + plen <= bytes.len(),
                username@ == bytes@.subrange(2, i as int),
            decreases 2 + ulen - i,
        {
            username.push(bytes[i]);
            i += 1;
            proof {
                assert(username@ =~= bytes@.subrange(2, i as int));
            }
        }
        let mut password: Vec<u8> = Vec::new();
        let mut j: usize = 2 + ulen;
        while j < 2 + ulen + plen
            invariant
                2 + ulen <= j <= 2 + ulen + plen,
                2 + ulen + plen <= bytes.len(),
                password@ == bytes@.subrange(2 + ulen as int, j as int),
            decreases 2 + ulen + plen - j,
        {
            password.push(bytes[j]);
            j += 1;
            proof {
                assert(password@ =~= bytes@.subrange(2 + ulen as int, j as int));
            }
        }
        Some(LoginData { username, password })
    }
}

/// Round trip: reading back serialized login data yields the same login, for
/// every validated login.
pub proof fn lemma_login_round_trip(m: LoginModel)
    requires
        login_wf(m),
    ensures
        spec_login_from_bytes(spec_login_bytes(m)) == Some(m),
{
    let bytes = spec_login_bytes(m);
    assert(bytes[0] == m.username.len() as u8);
    assert(bytes[1] == m.password.len() as u8);
    assert(bytes.subrange(2, 2 + m.username.len() as int) =~= m.username);
    assert(bytes.subrange(
        2 + m.username.len() as int,
        2 + m.username.len() as int + m.password.len() as int,
    ) =~= m.password);
}

} // verus!
