//! Maps an image's declared run-as user to a host identity for the
//! rootless user-namespace mapping.
//!
//! The fallback rules are asymmetric on purpose: an unknown user name
//! falls back to root permissively, while the group defaults to root
//! whenever no group token is declared, regardless of the user's primary
//! group.
use vstd::prelude::*;
use vstd::string::StrSliceExecFns;

use crate::model::Image;
use crate::{lemma_index_of, spec_index_of};

verus! {

/// Relies on `nix::unistd::getuid`: the invoking process's real user ID.
#[verifier::external_body]
pub(crate) fn host_uid() -> u32 {
    nix::unistd::getuid().as_raw()
}

/// Relies on `nix::unistd::getgid`: the invoking process's real group ID.
#[verifier::external_body]
pub(crate) fn host_gid() -> u32 {
    nix::unistd::getgid().as_raw()
}

/// Relies on `nix::unistd::User::from_name`: the user ID the host user
/// database assigns to `name`, or nothing when the lookup finds no entry
/// or fails.
#[verifier::external_body]
fn user_id_for(name: &str) -> Option<u32> {
    match nix::unistd::User::from_name(name) {
        Ok(Some(user)) => Some(user.uid.as_raw()),
        _ => None,
    }
}

/// Relies on `nix::unistd::Group::from_name`: the group ID the host group
/// database assigns to `name`, or nothing when the lookup finds no entry
/// or fails.
#[verifier::external_body]
fn group_id_for(name: &str) -> Option<u32> {
    match nix::unistd::Group::from_name(name) {
        Ok(Some(group)) => Some(group.gid.as_raw()),
        _ => None,
    }
}

/// Decimal digit.
pub open spec fn is_digit(c: char) -> bool {
    48 <= c as u32 <= 57
}

/// Every character is a decimal digit.
pub open spec fn all_digits(s: Seq<char>) -> bool {
    forall|i: int| 0 <= i < s.len() ==> is_digit(#[trigger] s[i])
}

/// The integer the decimal digit string denotes.
pub open spec fn dec_value(s: Seq<char>) -> int
    decreases s.len(),
{
    if s.len() == 0 {
        0
    } else {
        dec_value(s.drop_last()) * 10 + (s.last() as u32 - 48)
    }
}

/// What a decimal string parses to: its value when it is a nonempty digit
/// string whose value fits, nothing otherwise.
pub open spec fn spec_parse_u32(s: Seq<char>) -> Option<u32> {
    if s.len() > 0 && all_digits(s) && dec_value(s) <= u32::MAX {
        Some(dec_value(s) as u32)
    } else {
        None
    }
}

/// Once a digit prefix exceeds `u32::MAX`, every longer prefix does too.
proof fn lemma_dec_grows(s: Seq<char>, i: int, j: int)
    requires
        0 <= i <= j <= s.len(),
        dec_value(s.take(i)) > u32::MAX,
    ensures
        dec_value(s.take(j)) > u32::MAX,
    decreases j - i,
{
    if i < j {
        assert(s.take(i + 1).drop_last() =~= s.take(i));
        assert(s.take(i + 1).last() == s[i]);
        lemma_dec_grows(s, i + 1, j);
    }
}

/// Parses a decimal `u32`, exactly when the whole token is a nonempty
/// digit string whose value fits.
pub fn parse_gid(token: &str) -> (r: Option<u32>)
    ensures
        r == spec_parse_u32(token@),
{
    let n = token.unicode_len();
    if n == 0 {
        return None;
    }
    let mut acc: u64 = 0;
    let mut i: usize = 0;
    while i < n
        invariant
            n == token@.len(),
            0 < n,
            i <= n,
            all_digits(token@.take(i as int)),
            acc == dec_value(token@.take(i as int)),
            acc <= u32::MAX,
        decreases n - i,
    {
        let c = token.get_char(i);
        let d = c as u32;
        if d < 48 || d > 57 {
            proof {
                assert(!is_digit(token@[i as int]));
            }
            return None;
        }
        acc = acc * 10 + ((d - 48) as u64);
        proof {
            assert(token@.take((i + 1) as int).drop_last() =~= token@.take(i as int));
            assert(token@.take((i + 1) as int).last() == token@[i as int]);
        }
        if acc > 0xFFFF_FFFF {
            proof {
                lemma_dec_grows(token@, (i + 1) as int, n as int);
                assert(token@.take(n as int) =~= token@);
            }
            return None;
        }
        i = i + 1;
    }
    proof {
        assert(token@.take(n as int) =~= token@);
    }
    Some(acc as u32)
}

/// The user ID once the name lookup has answered: the looked-up ID when
/// the name was found, else root — the permissive half of the asymmetric
/// fallback.
pub open spec fn spec_uid_fallback(lookup: Option<u32>) -> u32 {
    match lookup {
        Some(u) => u,
        None => 0,
    }
}

/// Applies the permissive user fallback to a lookup answer.
pub fn uid_fallback(lookup: Option<u32>) -> (r: u32)
    ensures
        r == spec_uid_fallback(lookup),
{
    match lookup {
        Some(u) => u,
        None => 0,
    }
}

/// The group ID once the name lookup has answered: the looked-up ID when
/// the name was found, else the token parsed as a raw numeric ID, else
/// root.
pub open spec fn spec_gid_fallback(lookup: Option<u32>, token: Seq<char>) -> u32 {
    match lookup {
        Some(g) => g,
        None => match spec_parse_u32(token) {
            Some(v) => v,
            None => 0,
        },
    }
}

/// Applies the group fallback chain to a lookup answer and the raw token.
pub fn gid_fallback(lookup: Option<u32>, token: &str) -> (r: u32)
    ensures
        r == spec_gid_fallback(lookup, token@),
{
    match lookup {
        Some(g) => g,
        None => match parse_gid(token) {
            Some(v) => v,
            None => 0,
        },
    }
}

/// The part of the declared user string before its first colon.
pub open spec fn spec_user_token(u: Seq<char>) -> Seq<char> {
    u.take(spec_index_of(u, ':'))
}

/// The part after the first colon, when the string contains one.
pub open spec fn spec_group_token(u: Seq<char>) -> Option<Seq<char>> {
    let i = spec_index_of(u, ':');
    if i < u.len() {
        Some(u.subrange(i + 1, u.len() as int))
    } else {
        None
    }
}

/// Resolves the image's declared user to a container identity.
///
/// No declared user resolves to root; an unknown user name falls back to
/// the root UID; a missing group token resolves the group to root no
/// matter what the user's primary group is.
pub fn resolve_user(image: &Image) -> (r: (u32, u32))
    ensures
        image.spec_user() is None ==> r == (0u32, 0u32),
        match image.spec_user() {
            Some(u) => spec_group_token(u) is None ==> r.1 == 0,
            None => true,
        },
{
    match &image.config {
        Some(c) => match &c.user {
            Some(user) => {
                proof {
                    lemma_index_of(user@, ':');
                }
                let ci = crate::find_char(user.as_str(), ':');
                let n = user.as_str().unicode_len();
                let uname = user.as_str().substring_char(0, ci);
                let uid = uid_fallback(user_id_for(uname));
                let gid = if ci < n {
                    let gtok = user.as_str().substring_char(ci + 1, n);
                    let glook = group_id_for(gtok);
                    gid_fallback(glook, gtok)
                } else {
                    0
                };
                (uid, gid)
            },
            None => (0, 0),
        },
        None => (0, 0),
    }
}

} // verus!
