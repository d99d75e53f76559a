//! The four endpoint orchestrators — create-user, authenticate, get-progress,
//! update-progress — composed from the validators, the key scheme and the
//! store adapters, together with the small decision functions a network store
//! loop drives: each turns one store answer (an existence bit, a fetched
//! secret, a write acknowledgement) into the documented outcome.

use vstd::prelude::*;
use vstd::string::*;
use vstd::hash_map::StringHashMap;

use crate::dto::first_invalid_credential;
use crate::dto::first_invalid_field;
use crate::dto::from_map_spec;
use crate::dto::to_map_spec;
use crate::dto::CreateUserRequest;
use crate::dto::Progress;
use crate::dto::ProgressView;
use crate::error::result_view;
use crate::error::Error;
use crate::error::ErrorSpec;
use crate::keys::doc_key_spec;
use crate::keys::user_key_spec;
use crate::store::Store;
use crate::store::StoreView;
use crate::time::now_seconds;
use crate::validate::is_valid_field;
use crate::validate::is_valid_key_field;
use crate::validate::valid_field;
use crate::validate::valid_key_field;

verus! {

/// The view of an optional header value.
pub open spec fn opt_view(o: Option<String>) -> Option<Seq<char>> {
    match o {
        Some(s) => Some(s@),
        None => None,
    }
}

/// Credentials are usable when both headers are present, the username is a
/// valid key field and the secret a valid free-text field. Malformed
/// credentials are indistinguishable from wrong ones to the caller.
pub open spec fn credentials_ok(user: Option<Seq<char>>, key: Option<Seq<char>>) -> bool {
    &&& user is Some
    &&& key is Some
    &&& valid_key_field(user.unwrap())
    &&& valid_field(key.unwrap())
}

/// The authentication outcome: the canonical username exactly when both
/// credentials are present and well-formed, the account exists, and the
/// stored secret equals the supplied one; `Unauthorized` otherwise.
pub open spec fn authorize_spec(
    s: StoreView,
    user: Option<Seq<char>>,
    key: Option<Seq<char>>,
) -> Result<Seq<char>, ErrorSpec> {
    if !credentials_ok(user, key) {
        Err(ErrorSpec::Unauthorized)
    } else {
        let ak = user_key_spec(user.unwrap());
        if !s.accounts.contains_key(ak) {
            Err(ErrorSpec::Unauthorized)
        } else if s.accounts[ak] != key.unwrap() {
            Err(ErrorSpec::Unauthorized)
        } else {
            Ok(user.unwrap())
        }
    }
}

/// The account-creation outcome and the store it leaves behind: the username
/// is created exactly when both fields validate and the account key is free;
/// every failure leaves the store untouched.
pub open spec fn create_user_spec(s: StoreView, u: Seq<char>, p: Seq<char>) -> (Result<
    Seq<char>,
    ErrorSpec,
>, StoreView) {
    match first_invalid_credential(u, p) {
        Some(f) => (Err(ErrorSpec::InvalidField(f)), s),
        None => {
            if s.accounts.contains_key(user_key_spec(u)) {
                (Err(ErrorSpec::UserExists(u)), s)
            } else {
                (
                    Ok(u),
                    StoreView { accounts: s.accounts.insert(user_key_spec(u), p), ..s },
                )
            }
        },
    }
}

/// A draft with the server-assigned timestamp in place of whatever the
/// client supplied.
pub open spec fn stamped_spec(draft: ProgressView, now: u64) -> ProgressView {
    ProgressView { timestamp: Some(now), ..draft }
}

/// The progress-update outcome and the store it leaves behind: a valid draft
/// is stamped with the server time and written wholesale at the progress
/// key; an invalid draft names its first offending field and leaves the
/// store untouched.
pub open spec fn update_progress_spec(
    s: StoreView,
    u: Seq<char>,
    draft: ProgressView,
    now: u64,
) -> (Result<ProgressView, ErrorSpec>, StoreView) {
    match first_invalid_field(draft) {
        Some(f) => (Err(ErrorSpec::InvalidField(f)), s),
        None => {
            let p = stamped_spec(draft, now);
            (
                Ok(p),
                StoreView {
                    documents: s.documents.insert(doc_key_spec(u, draft.document), to_map_spec(p)),
                    ..s
                },
            )
        },
    }
}

/// The progress-read outcome: an invalid document identifier is rejected;
/// otherwise the stored hash — or the empty hash, absence is not an error —
/// parsed into a record.
pub open spec fn get_progress_spec(s: StoreView, u: Seq<char>, d: Seq<char>) -> Result<
    ProgressView,
    ErrorSpec,
> {
    if !valid_key_field(d) {
        Err(ErrorSpec::InvalidField("document"@))
    } else {
        let dk = doc_key_spec(u, d);
        if s.documents.contains_key(dk) {
            Ok(from_map_spec(s.documents[dk]))
        } else {
            Ok(from_map_spec(Map::<Seq<char>, Seq<char>>::empty()))
        }
    }
}

/// Health endpoint body: the plain success indicator.
pub fn healthcheck() -> (r: &'static str)
    ensures
        r@ == "ok"@,
{
    "ok"
}

/// Validates header credentials: both present and well-formed, or
/// `Unauthorized`. The first decision of the authentication flow; nothing
/// here touches the store.
pub fn check_credentials(user: Option<String>, key: Option<String>) -> (r: Result<
    (String, String),
    Error,
>)
    ensures
        match r {
            Ok(p) => credentials_ok(opt_view(user), opt_view(key)) && opt_view(user) == Some(p.0@)
                && opt_view(key) == Some(p.1@),
            Err(e) => !credentials_ok(opt_view(user), opt_view(key)) && e@
                == ErrorSpec::Unauthorized,
        },
{
    let u = match user {
        Some(u) => u,
        None => {
            return Err(Error::Unauthorized);
        },
    };
    let k = match key {
        Some(k) => k,
        None => {
            return Err(Error::Unauthorized);
        },
    };
    if !is_valid_key_field(u.as_str()) || !is_valid_field(k.as_str()) {
        return Err(Error::Unauthorized);
    }
    Ok((u, k))
}

/// Compares the secret fetched from the store — `None` when the account key
/// is absent or the fetch failed — with the supplied one: exact string
/// equality yields the canonical username, anything else `Unauthorized`.
pub fn check_secret(username: String, supplied: &String, stored: Option<String>) -> (r: Result<
    String,
    Error,
>)
    ensures
        match r {
            Ok(u) => stored is Some && stored.unwrap()@ == supplied@ && u@ == username@,
            Err(e) => e@ == ErrorSpec::Unauthorized && !(stored is Some && stored.unwrap()@
                == supplied@),
        },
{
    match stored {
        Some(s) => {
            if s == *supplied {
                Ok(username)
            } else {
                Err(Error::Unauthorized)
            }
        },
        None => Err(Error::Unauthorized),
    }
}

/// Turns the existence answer for an account key into the creation decision:
/// a taken username is a conflict.
pub fn check_user_absent(username: &str, exists: bool) -> (r: Result<(), Error>)
    ensures
        match r {
            Ok(_) => !exists,
            Err(e) => exists && e@ == ErrorSpec::UserExists(username@),
        },
{
    if exists {
        Err(Error::UserExists(String::from_str(username)))
    } else {
        Ok(())
    }
}

/// Turns the store's acknowledgement of the credential write into the
/// creation outcome.
pub fn ack_create(username: String, ok: bool) -> (r: Result<String, Error>)
    ensures
        match r {
            Ok(u) => ok && u@ == username@,
            Err(e) => !ok && e@ == ErrorSpec::Unknown("could not create user"@),
        },
{
    if ok {
        Ok(username)
    } else {
        Err(Error::Unknown(String::from_str("could not create user")))
    }
}

/// Turns the store's acknowledgement of the record write into the update
/// outcome.
pub fn ack_update(stamped: Progress, ok: bool) -> (r: Result<Progress, Error>)
    ensures
        match r {
            Ok(p) => ok && p@ == stamped@,
            Err(e) => !ok && e@ == ErrorSpec::Unknown("could not update progress"@),
        },
{
    if ok {
        Ok(stamped)
    } else {
        Err(Error::Unknown(String::from_str("could not update progress")))
    }
}

/// Authentication over the store model: validates the header credentials,
/// fetches the stored secret at the account key and compares.
pub fn authorize(store: &Store, user: Option<String>, key: Option<String>) -> (r: Result<
    String,
    Error,
>)
    ensures
        result_view(r) == authorize_spec(store@, opt_view(user), opt_view(key)),
{
    let (u, k) = match check_credentials(user, key) {
        Ok(p) => p,
        Err(e) => {
            return Err(e);
        },
    };
    let stored = store.fetch_secret(u.as_str());
    check_secret(u, &k, stored)
}

/// Account creation over the store model: validate, reject a taken username,
/// then write the secret at the account key. Checking and writing are one
/// atomic step of the model, so a duplicate can never slip past the check.
pub fn create_user(store: &mut Store, req: &CreateUserRequest) -> (r: Result<String, Error>)
    ensures
        ({
            let (res, s2) = create_user_spec(old(store)@, req.username@, req.password@);
            &&& result_view(r) == res
            &&& final(store)@ == s2
        }),
{
    if let Err(e) = req.validate() {
        return Err(e);
    }
    let exists = store.account_exists(req.username.as_str());
    if let Err(e) = check_user_absent(req.username.as_str(), exists) {
        return Err(e);
    }
    store.put_account(req.username.as_str(), req.password.as_str());
    proof {
        let (res, s2) = create_user_spec(old(store)@, req.username@, req.password@);
        assert(store@ =~= s2);
    }
    Ok(req.username.clone())
}

/// Progress retrieval over the store model: an absent record is not an
/// error but the zero-valued record.
pub fn get_progress(store: &Store, username: &str, doc: &str) -> (r: Result<Progress, Error>)
    ensures
        result_view(r) == get_progress_spec(store@, username@, doc@),
{
    if !is_valid_key_field(doc) {
        return Err(Error::InvalidField(String::from_str("document")));
    }
    match store.get_document(username, doc) {
        Some(m) => Ok(Progress::from_map(m)),
        None => {
            let empty: StringHashMap<String> = StringHashMap::new();
            proof {
                assert(crate::dto::field_map_view(empty) =~= Map::<Seq<char>, Seq<char>>::empty());
            }
            Ok(Progress::from_map(&empty))
        },
    }
}

/// Progress update over the store model at a given server time: validate the
/// draft, overwrite its timestamp with `now`, and write the full record
/// wholesale at the progress key.
pub fn update_progress_at(store: &mut Store, username: &str, draft: &Progress, now: u64) -> (r:
    Result<Progress, Error>)
    ensures
        ({
            let (res, s2) = update_progress_spec(old(store)@, username@, draft@, now);
            &&& result_view(r) == res
            &&& final(store)@ == s2
        }),
{
    if let Err(e) = draft.validate() {
        return Err(e);
    }
    let stamped = Progress {
        document: draft.document.clone(),
        progress: draft.progress.clone(),
        percentage: draft.percentage.clone(),
        device: draft.device.clone(),
        device_id: draft.device_id.clone(),
        timestamp: Some(now),
    };
    let fields = stamped.to_map();
    store.put_document(username, stamped.document.as_str(), fields);
    proof {
        let (res, s2) = update_progress_spec(old(store)@, username@, draft@, now);
        assert(stamped@ =~= stamped_spec(draft@, now));
        assert(store@ =~= s2);
    }
    Ok(stamped)
}

/// Progress update over the store model at the current wall-clock time. The
/// stored timestamp is whatever the clock returned — the client-supplied one
/// is discarded; beyond that the outcome is exactly [`update_progress_spec`]
/// at that instant.
pub fn update_progress(store: &mut Store, username: &str, draft: &Progress) -> (r: Result<
    Progress,
    Error,
>)
    ensures
        match r {
            Ok(p) => p@.timestamp is Some && ({
                let (res, s2) = update_progress_spec(
                    old(store)@,
                    username@,
                    draft@,
                    p@.timestamp.unwrap(),
                );
                &&& res == Ok::<ProgressView, ErrorSpec>(p@)
                &&& final(store)@ == s2
            }),
            Err(e) => final(store)@ == old(store)@ && update_progress_spec(
                old(store)@,
                username@,
                draft@,
                0,
            ).0 == Err::<ProgressView, ErrorSpec>(e@),
        },
{
    let now = now_seconds();
    update_progress_at(store, username, draft, now)
}

} // verus!
