//! Answers WebFinger queries about local accounts.

use vstd::prelude::*;
use crate::model::webfinger::{Webfinger, WebfingerLink, self_href, self_link_index_from};
use crate::routes::users::{ActorDocument, actor_url, is_person_document, local_actor_url};
use crate::text::{
    before_first_at, contains_text, lemma_before_first_at_of_joined, lemma_remove_all_keeps_head,
    lemma_remove_all_leading, occurs_at, remove_all, remove_all_str, text_before_first_at,
};

verus! {

/// The query of a WebFinger request.
#[derive(Clone, Debug)]
pub struct WebfingerQuery {
    pub resource: String,
}

/// The account name asked about: the resource with every `acct:` removed,
/// up to its first `'@'`.
pub open spec fn queried_user_name(resource: Seq<char>) -> Seq<char> {
    before_first_at(remove_all(resource, "acct:"@))
}

/// Reads the account name out of a WebFinger resource.
pub fn webfinger_user_name(resource: &str) -> (r: String)
    ensures
        r@ == queried_user_name(resource@),
{
    proof {
        reveal_strlit("acct:");
    }
    let rest = remove_all_str(resource, "acct:");
    text_before_first_at(rest.as_str())
}

/// Is `w` the answer about the local account `user_name` on `host_name`:
/// subject `acct:<user>@<host>` and a single `self` link of type
/// `application/activity+json` to the account's actor URL?
pub open spec fn is_webfinger_answer(w: Webfinger, user_name: Seq<char>, host_name: Seq<char>) -> bool {
    &&& w.subject@ == "acct:"@ + user_name + "@"@ + host_name
    &&& w.links@.len() == 1
    &&& w.links@[0].href matches Some(h) && h@ == actor_url(host_name, user_name)
    &&& w.links@[0].rel@ == "self"@
    &&& w.links@[0].type_ matches Some(t) && t@ == "application/activity+json"@
}

/// The WebFinger answer about the local account `user_name`.
pub fn webfinger_response(user_name: &str, host_name: &str) -> (w: Webfinger)
    ensures
        is_webfinger_answer(w, user_name@, host_name@),
{
    let mut subject = String::from_str("acct:");
    subject.append(user_name);
    subject.append("@");
    subject.append(host_name);
    let mut links: Vec<WebfingerLink> = Vec::new();
    links.push(
        WebfingerLink {
            href: Some(local_actor_url(host_name, user_name)),
            rel: String::from_str("self"),
            type_: Some(String::from_str("application/activity+json")),
        },
    );
    Webfinger { subject, links }
}

/// A client that follows the `self` link of this server's WebFinger answer
/// about an account reaches the id of the actor document served for it.
pub proof fn lemma_webfinger_self_link_is_actor_id(
    w: Webfinger,
    d: ActorDocument,
    user_name: Seq<char>,
    host_name: Seq<char>,
    public_key_pem: Seq<char>,
)
    requires
        is_webfinger_answer(w, user_name, host_name),
        is_person_document(d, actor_url(host_name, user_name), user_name, public_key_pem),
    ensures
        self_href(w.links@) == Some(d.id@),
{
    assert(self_link_index_from(w.links@, 0) == Some(0int));
}

/// A WebFinger query for `acct:<user>@<host>`, the subject this server
/// answers with, asks about `user` again, for user names holding no `'@'` and
/// no `acct:`.
pub proof fn lemma_webfinger_subject_names_account(user_name: Seq<char>, host_name: Seq<char>)
    requires
        !user_name.contains('@'),
        !contains_text(user_name, "acct:"@),
    ensures
        queried_user_name("acct:"@ + user_name + "@"@ + host_name) == user_name,
{
    reveal_strlit("acct:");
    reveal_strlit("@");
    let pat = "acct:"@;
    let rest = seq!['@'] + host_name;
    assert("@"@ =~= seq!['@']);
    assert("acct:"@ + user_name + "@"@ + host_name =~= pat + (user_name + rest));
    lemma_remove_all_leading(pat, user_name + rest);
    let s = user_name + rest;
    let n = user_name.len() as int;
    assert forall|i: int| 0 <= i < n implies !occurs_at(s, pat, i) by {
        if occurs_at(s, pat, i) {
            let m = s.subrange(i, i + 5);
            if i + 5 <= n {
                assert(user_name.subrange(i, i + 5) =~= m);
                assert(occurs_at(user_name, pat, i));
                assert(contains_text(user_name, pat));
            } else {
                let j = n - i;
                assert(0 <= j <= 4);
                assert(m[j] == s[n]);
                assert(s[n] == '@');
            }
        }
    }
    lemma_remove_all_keeps_head(user_name, rest, pat);
    let tail = remove_all(rest, pat);
    if rest.len() >= pat.len() {
        assert(rest.take(5)[0] == '@');
        assert(rest.take(5) != pat);
        assert(tail == seq![rest[0]] + remove_all(rest.skip(1), pat));
        assert(tail =~= seq!['@'] + remove_all(rest.skip(1), pat));
        lemma_before_first_at_of_joined(user_name, remove_all(rest.skip(1), pat));
        assert(user_name + tail =~= user_name + seq!['@'] + remove_all(rest.skip(1), pat));
    } else {
        assert(tail == rest);
        lemma_before_first_at_of_joined(user_name, host_name);
        assert(user_name + tail =~= user_name + seq!['@'] + host_name);
    }
}

} // verus!
