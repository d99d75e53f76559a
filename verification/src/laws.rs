//! The protocol's cross-cutting guarantees, stated over the same spec
//! functions the executable contracts use.

use vstd::prelude::*;
use vstd::string::*;

use crate::dto::first_invalid_field;
use crate::dto::from_map_spec;
use crate::dto::lemma_record_round_trip;
use crate::dto::zero_progress;
use crate::dto::ProgressView;
use crate::error::ErrorSpec;
use crate::handlers::authorize_spec;
use crate::handlers::create_user_spec;
use crate::handlers::get_progress_spec;
use crate::handlers::stamped_spec;
use crate::handlers::update_progress_spec;
use crate::keys::doc_key_spec;
use crate::keys::lemma_doc_key_injective;
use crate::keys::lemma_user_key_injective;
use crate::keys::user_key_spec;
use crate::store::StoreView;
use crate::validate::lemma_separator_never_valid;
use crate::validate::valid_key_field;

verus! {

/// A username holding the namespace separator is rejected by account
/// creation with `InvalidField` and by authentication with `Unauthorized`,
/// whatever the secret: creation leaves every store unchanged, and both
/// outcomes are the same for any two store states — the store is never
/// consulted.
pub proof fn lemma_separator_rejected(
    s1: StoreView,
    s2: StoreView,
    u: Seq<char>,
    p: Seq<char>,
    key: Option<Seq<char>>,
    i: int,
)
    requires
        0 <= i < u.len(),
        u[i] == ':',
    ensures
        create_user_spec(s1, u, p).0 == Err::<Seq<char>, ErrorSpec>(
            ErrorSpec::InvalidField("username"@),
        ),
        create_user_spec(s1, u, p).1 == s1,
        authorize_spec(s1, Some(u), key) == Err::<Seq<char>, ErrorSpec>(ErrorSpec::Unauthorized),
        authorize_spec(s1, Some(u), key) == authorize_spec(s2, Some(u), key),
{
    lemma_separator_never_valid(u, i);
}

/// Reading a never-synced (user, document) pair yields the zero-valued
/// record. The read takes the store by shared reference and changes nothing,
/// and [`get_progress_spec`] is a function of the state alone, so repeated
/// reads return this identical record.
pub proof fn lemma_unsynced_read_zero(s: StoreView, u: Seq<char>, d: Seq<char>)
    requires
        valid_key_field(d),
        !s.documents.contains_key(doc_key_spec(u, d)),
    ensures
        get_progress_spec(s, u, d) == Ok::<ProgressView, ErrorSpec>(zero_progress()),
{
    assert(from_map_spec(Map::<Seq<char>, Seq<char>>::empty()) =~= zero_progress());
}

/// Updating progress with a valid draft and immediately reading the same
/// document back yields exactly the stored record: the draft's fields with
/// the server-assigned timestamp `now` in place of anything the client
/// supplied.
pub proof fn lemma_update_then_get(s: StoreView, u: Seq<char>, draft: ProgressView, now: u64)
    requires
        first_invalid_field(draft) is None,
    ensures
        ({
            let (res, s2) = update_progress_spec(s, u, draft, now);
            &&& res == Ok::<ProgressView, ErrorSpec>(stamped_spec(draft, now))
            &&& stamped_spec(draft, now).timestamp == Some(now)
            &&& get_progress_spec(s2, u, draft.document) == Ok::<ProgressView, ErrorSpec>(
                stamped_spec(draft, now),
            )
        }),
{
    let p = stamped_spec(draft, now);
    lemma_record_round_trip(p);
}

/// The stored outcome never depends on the client-supplied timestamp: two
/// drafts that agree on everything but their timestamp produce the same
/// result and the same store.
pub proof fn lemma_client_timestamp_ignored(
    s: StoreView,
    u: Seq<char>,
    d1: ProgressView,
    d2: ProgressView,
    now: u64,
)
    requires
        (ProgressView { timestamp: None, ..d1 }) == (ProgressView { timestamp: None, ..d2 }),
    ensures
        update_progress_spec(s, u, d1, now) == update_progress_spec(s, u, d2, now),
{
    assert(d1.document == d2.document);
    assert(d1.percentage == d2.percentage);
    assert(d1.progress == d2.progress);
    assert(d1.device == d2.device);
    assert(d1.device_id == d2.device_id);
    assert(first_invalid_field(d1) == first_invalid_field(d2));
    assert(stamped_spec(d1, now) =~= stamped_spec(d2, now));
}

/// An account's secret, once set, is immutable through this protocol:
/// account creation is the only operation that writes the account keyspace,
/// and on a taken username it fails as a conflict and changes nothing.
pub proof fn lemma_secret_immutable(s: StoreView, u: Seq<char>, p: Seq<char>)
    requires
        s.accounts.contains_key(user_key_spec(u)),
    ensures
        create_user_spec(s, u, p).0 is Err,
        create_user_spec(s, u, p).1 == s,
{
}

/// Creating one account never disturbs another: authentication for a
/// different username reads the same answer before and after, because
/// distinct valid usernames derive distinct credential keys.
pub proof fn lemma_accounts_isolated(
    s: StoreView,
    u1: Seq<char>,
    u2: Seq<char>,
    p2: Seq<char>,
    key: Option<Seq<char>>,
)
    requires
        valid_key_field(u1),
        u1 != u2,
    ensures
        authorize_spec(create_user_spec(s, u2, p2).1, Some(u1), key) == authorize_spec(
            s,
            Some(u1),
            key,
        ),
{
    let s2 = create_user_spec(s, u2, p2).1;
    if valid_key_field(u2) {
        if user_key_spec(u1) == user_key_spec(u2) {
            lemma_user_key_injective(u1, u2);
        }
        assert(s2.accounts.contains_key(user_key_spec(u1)) == s.accounts.contains_key(
            user_key_spec(u1),
        ));
    } else {
        assert(s2 == s);
    }
}

/// Each progress record is owned by its (user, document) pair alone:
/// updating one pair leaves every other pair's read unchanged, because
/// distinct valid pairs derive distinct progress keys.
pub proof fn lemma_records_isolated(
    s: StoreView,
    u1: Seq<char>,
    d1: Seq<char>,
    u2: Seq<char>,
    draft: ProgressView,
    now: u64,
)
    requires
        valid_key_field(u1),
        valid_key_field(d1),
        valid_key_field(u2),
        u1 != u2 || d1 != draft.document,
    ensures
        get_progress_spec(update_progress_spec(s, u2, draft, now).1, u1, d1) == get_progress_spec(
            s,
            u1,
            d1,
        ),
{
    let s2 = update_progress_spec(s, u2, draft, now).1;
    if first_invalid_field(draft) is None {
        assert(valid_key_field(draft.document));
        if doc_key_spec(u1, d1) == doc_key_spec(u2, draft.document) {
            lemma_doc_key_injective(u1, d1, u2, draft.document);
        }
        assert(s2.documents.contains_key(doc_key_spec(u1, d1)) == s.documents.contains_key(
            doc_key_spec(u1, d1),
        ));
    } else {
        assert(s2 == s);
    }
}

} // verus!
