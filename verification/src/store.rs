//! In-memory model of the key-value store, with the adapter operations the
//! orchestrators are built on: one string value per account at
//! `user:<username>:key`, one field hash per (user, document) at
//! `user:<username>:document:<document>`. The network store is an external
//! collaborator; this model fixes the exact semantics every contract is
//! stated against, and backs the tests. Valid key fields keep the two key
//! families disjoint, so the model may hold them side by side.

use vstd::prelude::*;
use vstd::string::*;
use vstd::hash_map::StringHashMap;

use crate::dto::field_map_view;
use crate::keys::doc_key;
use crate::keys::doc_key_spec;
use crate::keys::user_key;
use crate::keys::user_key_spec;

verus! {

/// Spec-level image of [`Store`]: the account keyspace and the document
/// keyspace, both over character sequences.
#[verifier::ext_equal]
pub struct StoreView {
    pub accounts: Map<Seq<char>, Seq<char>>,
    pub documents: Map<Seq<char>, Map<Seq<char>, Seq<char>>>,
}

/// The store model.
pub struct Store {
    accounts: StringHashMap<String>,
    documents: StringHashMap<StringHashMap<String>>,
}

impl View for Store {
    type V = StoreView;

    closed spec fn view(&self) -> StoreView {
        StoreView {
            accounts: self.accounts@.map_values(|v: String| v@),
            documents: self.documents@.map_values(|m: StringHashMap<String>| field_map_view(m)),
        }
    }
}

impl Store {
    /// An empty store: no accounts, no progress records.
    pub fn new() -> (s: Self)
        ensures
            s@.accounts == Map::<Seq<char>, Seq<char>>::empty(),
            s@.documents == Map::<Seq<char>, Map<Seq<char>, Seq<char>>>::empty(),
    {
        let s = Store { accounts: StringHashMap::new(), documents: StringHashMap::new() };
        proof {
            assert(s@.accounts =~= Map::<Seq<char>, Seq<char>>::empty());
            assert(s@.documents =~= Map::<Seq<char>, Map<Seq<char>, Seq<char>>>::empty());
        }
        s
    }

    /// Existence check at the account key (the store's EXISTS).
    pub fn account_exists(&self, username: &str) -> (r: bool)
        ensures
            r == self@.accounts.contains_key(user_key_spec(username@)),
    {
        let k = user_key(username);
        self.accounts.contains_key(k.as_str())
    }

    /// Read of the stored secret at the account key (the store's GET).
    pub fn fetch_secret(&self, username: &str) -> (r: Option<String>)
        ensures
            match r {
                Some(v) => self@.accounts.contains_key(user_key_spec(username@)) && v@
                    == self@.accounts[user_key_spec(username@)],
                None => !self@.accounts.contains_key(user_key_spec(username@)),
            },
    {
        let k = user_key(username);
        match self.accounts.get(k.as_str()) {
            Some(v) => Some(v.clone()),
            None => None,
        }
    }

    /// Write of the secret at the account key (the store's SET).
    pub fn put_account(&mut self, username: &str, secret: &str)
        ensures
            final(self)@.accounts == old(self)@.accounts.insert(
                user_key_spec(username@),
                secret@,
            ),
            final(self)@.documents == old(self)@.documents,
    {
        let k = user_key(username);
        self.accounts.insert(k, String::from_str(secret));
        proof {
            assert(self@.accounts =~= old(self)@.accounts.insert(
                user_key_spec(username@),
                secret@,
            ));
            assert(self@.documents =~= old(self)@.documents);
        }
    }

    /// Read of the whole field hash at the progress key (the store's
    /// HGETALL); `None` when no record was ever synced there.
    pub fn get_document<'a>(&'a self, username: &str, doc: &str) -> (r: Option<
        &'a StringHashMap<String>,
    >)
        ensures
            match r {
                Some(m) => self@.documents.contains_key(doc_key_spec(username@, doc@))
                    && field_map_view(*m) == self@.documents[doc_key_spec(username@, doc@)],
                None => !self@.documents.contains_key(doc_key_spec(username@, doc@)),
            },
    {
        let k = doc_key(username, doc);
        self.documents.get(k.as_str())
    }

    /// Wholesale write of the field hash at the progress key: every update
    /// replaces the full record atomically (the store's multi-field write).
    pub fn put_document(&mut self, username: &str, doc: &str, fields: StringHashMap<String>)
        ensures
            final(self)@.documents == old(self)@.documents.insert(
                doc_key_spec(username@, doc@),
                field_map_view(fields),
            ),
            final(self)@.accounts == old(self)@.accounts,
    {
        let k = doc_key(username, doc);
        let ghost fv = field_map_view(fields);
        self.documents.insert(k, fields);
        proof {
            assert(self@.documents =~= old(self)@.documents.insert(
                doc_key_spec(username@, doc@),
                fv,
            ));
            assert(self@.accounts =~= old(self)@.accounts);
        }
    }
}

} // verus!
