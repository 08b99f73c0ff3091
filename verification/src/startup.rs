//! Application set-up that is not I/O.

use vstd::prelude::*;

verus! {

/// The number of bytes of the session signing key.
pub const SESSION_KEY_LEN: usize = 64;

/// The password's bytes repeated, cut to `SESSION_KEY_LEN`; empty for an
/// empty password.
pub open spec fn cycled_key(password: Seq<u8>) -> Seq<u8> {
    if password.len() == 0 {
        Seq::empty()
    } else {
        Seq::new(SESSION_KEY_LEN as nat, |i: int| password[i % (password.len() as int)])
    }
}

/// The session key is 64 bytes long for any non-empty password, and two
/// different passwords of one length up to 64 bytes give different keys, so
/// changing the password invalidates old sessions. (Passwords of different
/// lengths can share a key: `ab` and `abab` both give `abab...ab`.)
pub proof fn session_key_tracks_password(p1: Seq<u8>, p2: Seq<u8>)
    requires
        0 < p1.len() <= SESSION_KEY_LEN,
        p2.len() == p1.len(),
        p1 != p2,
    ensures
        cycled_key(p1).len() == SESSION_KEY_LEN,
        cycled_key(p1) != cycled_key(p2),
{
    let i = choose|i: int| 0 <= i < p1.len() && p1[i] != p2[i];
    if !(0 <= i < p1.len() && p1[i] != p2[i]) {
        assert(p1 =~= p2);
    }
    let n = p1.len() as int;
    assert(i % n == i) by {
        vstd::arithmetic::div_mod::lemma_small_mod(i as nat, n as nat);
    }
    assert(cycled_key(p1)[i] == p1[i]);
    assert(cycled_key(p2)[i] == p2[i]);
}

/// Derives the bytes of the session signing key from the admin password:
/// its bytes repeated until 64 are taken. The key changes when the password
/// does, which signs out every session.
pub fn session_key_bytes(password: &[u8]) -> (key: Vec<u8>)
    ensures
        key@ == cycled_key(password@),
{
    let n = password.len();
    let mut key: Vec<u8> = Vec::new();
    if n == 0 {
        assert(key@ =~= cycled_key(password@));
        return key;
    }
    let mut i: usize = 0;
    let mut j: usize = 0;
    while i < SESSION_KEY_LEN
        invariant
            n == password@.len(),
            n > 0,
            i <= SESSION_KEY_LEN,
            j < n,
            j == (i as int) % (n as int),
            key@.len() == i,
            forall|k: int| 0 <= k < i ==> #[trigger] key@[k] == password@[k % (n as int)],
        decreases SESSION_KEY_LEN - i,
    {
        key.push(password[j]);
        proof {
            let ii = i as int;
            let nn = n as int;
            assert((ii + 1) % nn == if j + 1 == nn { 0 } else { j + 1 }) by (nonlinear_arith)
                requires
                    j == ii % nn,
                    0 <= j < nn,
                    0 <= ii,
            {
                vstd::arithmetic::div_mod::lemma_fundamental_div_mod(ii, nn);
                vstd::arithmetic::div_mod::lemma_fundamental_div_mod(ii + 1, nn);
            }
        }
        j = if j + 1 == n { 0 } else { j + 1 };
        i = i + 1;
    }
    assert(key@ =~= cycled_key(password@));
    key
}

} // verus!
