//! Key scheme: deterministic mapping from (username) and (username, document)
//! to store key strings. Keys are derived only from fields that passed
//! [`crate::validate::valid_key_field`], which keeps the scheme injective.

use vstd::prelude::*;
use vstd::string::*;

use crate::validate::valid_key_field;

verus! {

/// The store key holding a user's credential: `user:<username>:key`.
pub open spec fn user_key_spec(user: Seq<char>) -> Seq<char> {
    "user:"@ + user + ":key"@
}

/// The store key holding a user's per-document progress hash:
/// `user:<username>:document:<document>`.
pub open spec fn doc_key_spec(user: Seq<char>, doc: Seq<char>) -> Seq<char> {
    "user:"@ + user + ":document:"@ + doc
}

/// Derives the credential key for a username.
pub fn user_key(user: &str) -> (k: String)
    ensures
        k@ == user_key_spec(user@),
{
    let mut k = String::from_str("user:");
    k.append(user);
    k.append(":key");
    proof {
        assert(k@ =~= user_key_spec(user@));
    }
    k
}

/// Derives the progress key for a (username, document) pair.
pub fn doc_key(user: &str, doc: &str) -> (k: String)
    ensures
        k@ == doc_key_spec(user@, doc@),
{
    let mut k = String::from_str("user:");
    k.append(user);
    k.append(":document:");
    k.append(doc);
    proof {
        assert(k@ =~= doc_key_spec(user@, doc@));
    }
    k
}

/// Two valid usernames derive the same credential key only if they are
/// equal.
pub proof fn lemma_user_key_injective(u1: Seq<char>, u2: Seq<char>)
    requires
        valid_key_field(u1),
        valid_key_field(u2),
        user_key_spec(u1) == user_key_spec(u2),
    ensures
        u1 == u2,
{
    reveal_strlit("user:");
    reveal_strlit(":key");
    let k1 = user_key_spec(u1);
    let k2 = user_key_spec(u2);
    assert(k1.len() == 9 + u1.len());
    assert(k2.len() == 9 + u2.len());
    assert forall|i: int| 0 <= i < u1.len() implies u1[i] == u2[i] by {
        assert(k1[5 + i] == u1[i]);
        assert(k2[5 + i] == u2[i]);
    }
    assert(u1 =~= u2);
}

/// Two valid (username, document) pairs derive the same progress key only
/// if they are equal: no crafted pair can alias another user's record.
pub proof fn lemma_doc_key_injective(u1: Seq<char>, d1: Seq<char>, u2: Seq<char>, d2: Seq<char>)
    requires
        valid_key_field(u1),
        valid_key_field(d1),
        valid_key_field(u2),
        valid_key_field(d2),
        doc_key_spec(u1, d1) == doc_key_spec(u2, d2),
    ensures
        u1 == u2,
        d1 == d2,
{
    reveal_strlit("user:");
    reveal_strlit(":document:");
    let k = doc_key_spec(u1, d1);
    assert(k.len() == 15 + u1.len() + d1.len());
    assert(k.len() == 15 + u2.len() + d2.len());
    if u1.len() < u2.len() {
        assert(k[5 + u1.len() as int] == ":document:"@[0]);
        assert(k[5 + u1.len() as int] == u2[u1.len() as int]);
        assert(false);
    }
    if u2.len() < u1.len() {
        assert(k[5 + u2.len() as int] == ":document:"@[0]);
        assert(k[5 + u2.len() as int] == u1[u2.len() as int]);
        assert(false);
    }
    assert forall|i: int| 0 <= i < u1.len() implies u1[i] == u2[i] by {
        assert(k[5 + i] == u1[i]);
        assert(k[5 + i] == u2[i]);
    }
    assert(u1 =~= u2);
    assert forall|j: int| 0 <= j < d1.len() implies d1[j] == d2[j] by {
        assert(k[15 + u1.len() as int + j] == d1[j]);
        assert(k[15 + u2.len() as int + j] == d2[j]);
    }
    assert(d1 =~= d2);
}

/// A credential key never equals a progress key, whatever valid fields each
/// was derived from: the two key families never collide in the store.
pub proof fn lemma_key_families_disjoint(u1: Seq<char>, u2: Seq<char>, d: Seq<char>)
    requires
        valid_key_field(u1),
        valid_key_field(u2),
        valid_key_field(d),
    ensures
        user_key_spec(u1) != doc_key_spec(u2, d),
{
    reveal_strlit("user:");
    reveal_strlit(":key");
    reveal_strlit(":document:");
    let k1 = user_key_spec(u1);
    let k2 = doc_key_spec(u2, d);
    if k1 == k2 {
        assert(k1.len() == 9 + u1.len());
        assert(k2.len() == 15 + u2.len() + d.len());
        // equal lengths force u2 to be shorter than u1, so the separator
        // opening ":document:" in the progress key falls inside the
        // credential key's username span — which valid usernames forbid
        assert(u2.len() + 6 + d.len() == u1.len());
        let q = 5 + u2.len() as int;
        assert(k2[q] == ":document:"@[0]);
        assert(k1[q] == u1[u2.len() as int]);
        assert(false);
    }
}

} // verus!
