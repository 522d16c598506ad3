//! Accounts and the `user@host` notation for remote accounts.

use vstd::prelude::*;
use crate::text::{find_char, lemma_first_index_from_facts};

verus! {

/// An account row: local accounts carry a password hash, remote ones do not.
#[derive(Clone, Debug)]
pub struct User {
    pub name: String,
    pub password_hash: Option<String>,
    pub display_name: String,
    pub summary: String,
    pub avatar_url: String,
}

/// `s` splits at its first `'@'` into `user` and the text after it up to the
/// next `'@'` (or the end), which is `host`.
pub open spec fn splits_user_and_host(s: Seq<char>, user: Seq<char>, host: Seq<char>) -> bool {
    let at: int = user.len() as int;
    let end: int = at + 1 + host.len();
    &&& !user.contains('@')
    &&& !host.contains('@')
    &&& end <= s.len()
    &&& s.take(at) == user
    &&& s[at] == '@'
    &&& s.subrange(at + 1, end) == host
    &&& (end == s.len() || s[end] == '@')
}

/// Splits `user@host` into its two parts; `None` when there is no `'@'`.
/// Text after a second `'@'` is ignored.
pub fn parse_user_and_host_name(user_and_host_name: &str) -> (r: Option<(String, String)>)
    ensures
        r is None <==> !user_and_host_name@.contains('@'),
        r matches Some((u, h)) ==> splits_user_and_host(user_and_host_name@, u@, h@),
{
    let s = user_and_host_name;
    let n = s.unicode_len();
    match find_char(s, '@', 0) {
        None => {
            proof {
                lemma_first_index_from_facts(s@, '@', 0);
                if s@.contains('@') {
                    let k = choose|k: int| 0 <= k < s@.len() && s@[k] == '@';
                    assert(s@[k] != '@');
                }
            }
            None
        },
        Some(at) => {
            let end = match find_char(s, '@', at + 1) {
                Some(j) => j,
                None => n,
            };
            proof {
                lemma_first_index_from_facts(s@, '@', 0);
                lemma_first_index_from_facts(s@, '@', at as int + 1);
            }
            let user = String::from_str(s.substring_char(0, at));
            let host = String::from_str(s.substring_char(at + 1, end));
            proof {
                assert(s@.take(at as int) =~= s@.subrange(0, at as int));
                assert forall|k: int| 0 <= k < user@.len() implies user@[k] != '@' by {
                    assert(user@[k] == s@[k]);
                }
                assert forall|k: int| 0 <= k < host@.len() implies host@[k] != '@' by {
                    assert(host@[k] == s@[at + 1 + k]);
                }
            }
            Some((user, host))
        },
    }
}

/// Splitting `user@host` (neither part holding an `'@'`) gives back exactly
/// `user` and `host`: [`parse_user_and_host_name`] undoes joining with `'@'`.
pub proof fn lemma_split_of_joined(user: Seq<char>, host: Seq<char>, u: Seq<char>, h: Seq<char>)
    requires
        !user.contains('@'),
        !host.contains('@'),
    ensures
        (user + seq!['@'] + host).contains('@'),
        splits_user_and_host(user + seq!['@'] + host, u, h) <==> (u == user && h == host),
{
    let s = user + seq!['@'] + host;
    let n = user.len() as int;
    assert(s[n] == '@');
    assert forall|k: int| 0 <= k < n implies s[k] == user[k] && s[k] != '@' by {
        if user[k] == '@' {
            assert(user.contains('@'));
        }
    }
    assert forall|k: int| n < k < s.len() implies s[k] == host[k - n - 1] && s[k] != '@' by {
        if host[k - n - 1] == '@' {
            assert(host.contains('@'));
        }
    }
    if splits_user_and_host(s, u, h) {
        let at = u.len() as int;
        if at < n {
            assert(s[at] != '@');
        }
        if at > n {
            assert(s.take(at)[n] == '@');
            assert(u.contains('@'));
        }
        assert(u =~= user);
        let end = at + 1 + h.len();
        if end < s.len() {
            assert(s[end] != '@');
        }
        assert(h =~= host);
    }
    if u == user && h == host {
        assert(s.take(n) =~= user);
        assert(s.subrange(n + 1, s.len() as int) =~= host);
    }
}

} // verus!
