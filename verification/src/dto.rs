//! The request payloads: the account-creation request and the progress
//! record, with their validation rules and the record's (de)serialization to
//! and from the store's hash representation.

use vstd::prelude::*;
use vstd::string::*;
use vstd::hash_map::StringHashMap;

use crate::error::Error;
use crate::error::ErrorSpec;
use crate::numerals::dec_of;
use crate::numerals::lemma_parse_dec_of;
use crate::numerals::parse_dec_or_zero;
use crate::numerals::parse_u64_dec;
use crate::numerals::u64_to_dec;
use crate::percent::is_valid_percentage;
use crate::percent::percentage_in_range;
use crate::validate::is_valid_field;
use crate::validate::is_valid_key_field;
use crate::validate::valid_field;
use crate::validate::valid_key_field;

verus! {

/// Body of the create-account request.
pub struct CreateUserRequest {
    pub username: String,
    pub password: String,
}

/// Spec-level image of [`CreateUserRequest`].
pub struct CreateUserRequestView {
    pub username: Seq<char>,
    pub password: Seq<char>,
}

impl View for CreateUserRequest {
    type V = CreateUserRequestView;

    open spec fn view(&self) -> CreateUserRequestView {
        CreateUserRequestView { username: self.username@, password: self.password@ }
    }
}

/// The first credential field that fails validation, if any: the username
/// must be a key field, the password a non-empty free-text field.
pub open spec fn first_invalid_credential(u: Seq<char>, p: Seq<char>) -> Option<Seq<char>> {
    if !valid_key_field(u) {
        Some("username"@)
    } else if !valid_field(p) {
        Some("password"@)
    } else {
        None
    }
}

impl CreateUserRequest {
    /// Accepts the request iff both fields pass their rules; otherwise names
    /// the first offending field.
    pub fn validate(&self) -> (r: Result<(), Error>)
        ensures
            match r {
                Ok(_) => first_invalid_credential(self.username@, self.password@) is None,
                Err(e) => match first_invalid_credential(self.username@, self.password@) {
                    Some(f) => e@ == ErrorSpec::InvalidField(f),
                    None => false,
                },
            },
    {
        if !is_valid_key_field(self.username.as_str()) {
            return Err(Error::InvalidField(String::from_str("username")));
        }
        if !is_valid_field(self.password.as_str()) {
            return Err(Error::InvalidField(String::from_str("password")));
        }
        Ok(())
    }
}

/// The sync payload: one progress record per (user, document) pair. The
/// percentage travels and is stored as the decimal numeral string the client
/// sent; the timestamp is absent until the server assigns one.
pub struct Progress {
    pub document: String,
    pub progress: String,
    pub percentage: String,
    pub device: String,
    pub device_id: String,
    pub timestamp: Option<u64>,
}

/// Spec-level image of [`Progress`].
#[verifier::ext_equal]
pub struct ProgressView {
    pub document: Seq<char>,
    pub progress: Seq<char>,
    pub percentage: Seq<char>,
    pub device: Seq<char>,
    pub device_id: Seq<char>,
    pub timestamp: Option<u64>,
}

impl View for Progress {
    type V = ProgressView;

    open spec fn view(&self) -> ProgressView {
        ProgressView {
            document: self.document@,
            progress: self.progress@,
            percentage: self.percentage@,
            device: self.device@,
            device_id: self.device_id@,
            timestamp: self.timestamp,
        }
    }
}

/// The record read out of an absent hash: every string field empty, the
/// percentage the empty numeral (rendered as zero), the timestamp zero.
pub open spec fn zero_progress() -> ProgressView {
    ProgressView {
        document: Seq::<char>::empty(),
        progress: Seq::<char>::empty(),
        percentage: Seq::<char>::empty(),
        device: Seq::<char>::empty(),
        device_id: Seq::<char>::empty(),
        timestamp: Some(0u64),
    }
}

/// The first record field that fails validation, if any, in the documented
/// order: document, percentage, progress, device. The device id is free-form
/// and may be empty; the timestamp is server-assigned and never validated.
pub open spec fn first_invalid_field(p: ProgressView) -> Option<Seq<char>> {
    if !valid_key_field(p.document) {
        Some("document"@)
    } else if !percentage_in_range(p.percentage) {
        Some("percentage"@)
    } else if !valid_field(p.progress) {
        Some("progress"@)
    } else if !valid_field(p.device) {
        Some("device"@)
    } else {
        None
    }
}

pub open spec fn valid_progress(p: ProgressView) -> bool {
    first_invalid_field(p) is None
}

/// The timestamp a record is serialized with: the assigned one, or zero.
pub open spec fn ts_or_zero(t: Option<u64>) -> u64 {
    match t {
        Some(v) => v,
        None => 0u64,
    }
}

/// The hash representation of a record, as the ordered field/value pairs a
/// multi-field store write takes.
pub open spec fn to_pairs_spec(p: ProgressView) -> Seq<(Seq<char>, Seq<char>)> {
    seq![
        ("document"@, p.document),
        ("progress"@, p.progress),
        ("percentage"@, p.percentage),
        ("device"@, p.device),
        ("device_id"@, p.device_id),
        ("timestamp"@, dec_of(ts_or_zero(p.timestamp) as nat)),
    ]
}

/// The hash representation of a record, as the field map the store holds.
pub open spec fn to_map_spec(p: ProgressView) -> Map<Seq<char>, Seq<char>> {
    Map::<Seq<char>, Seq<char>>::empty()
        .insert("document"@, p.document)
        .insert("progress"@, p.progress)
        .insert("percentage"@, p.percentage)
        .insert("device"@, p.device)
        .insert("device_id"@, p.device_id)
        .insert("timestamp"@, dec_of(ts_or_zero(p.timestamp) as nat))
}

/// The field map denoted by a sequence of field/value pairs, later pairs
/// overwriting earlier ones.
pub open spec fn pairs_map_spec(s: Seq<(Seq<char>, Seq<char>)>) -> Map<Seq<char>, Seq<char>>
    decreases s.len(),
{
    if s.len() == 0 {
        Map::<Seq<char>, Seq<char>>::empty()
    } else {
        pairs_map_spec(s.drop_last()).insert(s.last().0, s.last().1)
    }
}

/// The value at `k` in a field map, or the empty string when absent.
pub open spec fn lookup_or_empty(m: Map<Seq<char>, Seq<char>>, k: Seq<char>) -> Seq<char> {
    if m.contains_key(k) {
        m[k]
    } else {
        Seq::<char>::empty()
    }
}

/// The record parsed out of a field map: absent fields default to the empty
/// string, and a missing or malformed timestamp numeral defaults to zero.
pub open spec fn from_map_spec(m: Map<Seq<char>, Seq<char>>) -> ProgressView {
    ProgressView {
        document: lookup_or_empty(m, "document"@),
        progress: lookup_or_empty(m, "progress"@),
        percentage: lookup_or_empty(m, "percentage"@),
        device: lookup_or_empty(m, "device"@),
        device_id: lookup_or_empty(m, "device_id"@),
        timestamp: Some(parse_dec_or_zero(lookup_or_empty(m, "timestamp"@))),
    }
}

/// The view of an exec field map, with the values' views as entries.
pub open spec fn field_map_view(m: StringHashMap<String>) -> Map<Seq<char>, Seq<char>> {
    m@.map_values(|v: String| v@)
}

/// Reads a field's value out of a hash, or the empty string when absent.
pub fn safe_get(map: &StringHashMap<String>, key: &str) -> (r: String)
    ensures
        r@ == lookup_or_empty(field_map_view(*map), key@),
{
    match map.get(key) {
        Some(v) => {
            proof {
                assert(field_map_view(*map).contains_key(key@));
                assert(field_map_view(*map)[key@] == v@);
            }
            v.clone()
        },
        None => {
            proof {
                assert(!field_map_view(*map).contains_key(key@));
            }
            String::new()
        },
    }
}

impl Progress {
    /// Accepts the record iff every field passes its rule; otherwise names
    /// the first offending field in the documented order.
    pub fn validate(&self) -> (r: Result<(), Error>)
        ensures
            match r {
                Ok(_) => valid_progress(self@),
                Err(e) => match first_invalid_field(self@) {
                    Some(f) => e@ == ErrorSpec::InvalidField(f),
                    None => false,
                },
            },
    {
        if !is_valid_key_field(self.document.as_str()) {
            return Err(Error::InvalidField(String::from_str("document")));
        }
        if !is_valid_percentage(self.percentage.as_str()) {
            return Err(Error::InvalidField(String::from_str("percentage")));
        }
        if !is_valid_field(self.progress.as_str()) {
            return Err(Error::InvalidField(String::from_str("progress")));
        }
        if !is_valid_field(self.device.as_str()) {
            return Err(Error::InvalidField(String::from_str("device")));
        }
        Ok(())
    }

    /// The record's hash representation as ordered field/value pairs, the
    /// shape a multi-field store write takes.
    pub fn to_vec(&self) -> (r: Vec<(String, String)>)
        ensures
            r.deep_view() == to_pairs_spec(self@),
    {
        let mut r: Vec<(String, String)> = Vec::new();
        r.push((String::from_str("document"), self.document.clone()));
        r.push((String::from_str("progress"), self.progress.clone()));
        r.push((String::from_str("percentage"), self.percentage.clone()));
        r.push((String::from_str("device"), self.device.clone()));
        r.push((String::from_str("device_id"), self.device_id.clone()));
        let ts = match self.timestamp {
            Some(v) => v,
            None => 0,
        };
        r.push((String::from_str("timestamp"), u64_to_dec(ts)));
        proof {
            assert(r.deep_view() =~~= to_pairs_spec(self@));
        }
        r
    }

    /// The record's hash representation as the field map the store model
    /// holds.
    pub fn to_map(&self) -> (m: StringHashMap<String>)
        ensures
            field_map_view(m) == to_map_spec(self@),
    {
        let mut m: StringHashMap<String> = StringHashMap::new();
        m.insert(String::from_str("document"), self.document.clone());
        m.insert(String::from_str("progress"), self.progress.clone());
        m.insert(String::from_str("percentage"), self.percentage.clone());
        m.insert(String::from_str("device"), self.device.clone());
        m.insert(String::from_str("device_id"), self.device_id.clone());
        let ts = match self.timestamp {
            Some(v) => v,
            None => 0,
        };
        m.insert(String::from_str("timestamp"), u64_to_dec(ts));
        proof {
            assert(field_map_view(m) =~= to_map_spec(self@));
        }
        m
    }

    /// Parses a record out of the hash's field/value pairs as a store hands
    /// them back; a repeated field keeps its last occurrence, as the
    /// sequential writes of a multi-field store command would.
    pub fn from_pairs(pairs: &Vec<(String, String)>) -> (p: Progress)
        ensures
            p@ == from_map_spec(pairs_map_spec(pairs.deep_view())),
    {
        let mut m: StringHashMap<String> = StringHashMap::new();
        let n = pairs.len();
        let mut i: usize = 0;
        while i < n
            invariant
                n == pairs.len(),
                i <= n,
                field_map_view(m) == pairs_map_spec(pairs.deep_view().take(i as int)),
            decreases n - i,
        {
            let (k, v) = (pairs[i].0.clone(), pairs[i].1.clone());
            m.insert(k, v);
            proof {
                let dv = pairs.deep_view();
                assert(dv.take(i + 1).drop_last() =~= dv.take(i as int));
                assert(dv.take(i + 1).last() == dv[i as int]);
                assert(field_map_view(m) =~= pairs_map_spec(dv.take(i + 1)));
            }
            i += 1;
        }
        proof {
            assert(pairs.deep_view().take(n as int) =~= pairs.deep_view());
        }
        Progress::from_map(&m)
    }

    /// Parses a record out of a stored field map, applying the zero defaults
    /// for absent or malformed fields.
    pub fn from_map(map: &StringHashMap<String>) -> (p: Progress)
        ensures
            p@ == from_map_spec(field_map_view(*map)),
    {
        let ts_str = safe_get(map, "timestamp");
        let ts: u64 = match parse_u64_dec(ts_str.as_str()) {
            Some(v) => v,
            None => 0,
        };
        Progress {
            document: safe_get(map, "document"),
            progress: safe_get(map, "progress"),
            percentage: safe_get(map, "percentage"),
            device: safe_get(map, "device"),
            device_id: safe_get(map, "device_id"),
            timestamp: Some(ts),
        }
    }
}

/// The six field names of the hash representation are pairwise distinct, so
/// each lookup in [`to_map_spec`] resolves to its own field.
proof fn lemma_field_names_distinct()
    ensures
        "document"@ != "progress"@,
        "document"@ != "percentage"@,
        "document"@ != "device"@,
        "document"@ != "device_id"@,
        "document"@ != "timestamp"@,
        "progress"@ != "percentage"@,
        "progress"@ != "device"@,
        "progress"@ != "device_id"@,
        "progress"@ != "timestamp"@,
        "percentage"@ != "device"@,
        "percentage"@ != "device_id"@,
        "percentage"@ != "timestamp"@,
        "device"@ != "device_id"@,
        "device"@ != "timestamp"@,
        "device_id"@ != "timestamp"@,
{
    reveal_strlit("document");
    reveal_strlit("progress");
    reveal_strlit("percentage");
    reveal_strlit("device");
    reveal_strlit("device_id");
    reveal_strlit("timestamp");
    assert("document"@.len() == 8);
    assert("progress"@.len() == 8);
    assert("percentage"@.len() == 10);
    assert("device"@.len() == 6);
    assert("device_id"@.len() == 9);
    assert("timestamp"@.len() == 9);
    assert("document"@[0] == 'd' && "progress"@[0] == 'p');
    assert("device_id"@[0] == 'd' && "timestamp"@[0] == 't');
}

/// A record with an assigned timestamp, written as its hash representation
/// and parsed back, comes back unchanged: every field survives the trip
/// through the store.
pub proof fn lemma_record_round_trip(p: ProgressView)
    requires
        p.timestamp is Some,
    ensures
        from_map_spec(to_map_spec(p)) == p,
{
    lemma_field_names_distinct();
    let m = to_map_spec(p);
    assert(lookup_or_empty(m, "document"@) == p.document);
    assert(lookup_or_empty(m, "progress"@) == p.progress);
    assert(lookup_or_empty(m, "percentage"@) == p.percentage);
    assert(lookup_or_empty(m, "device"@) == p.device);
    assert(lookup_or_empty(m, "device_id"@) == p.device_id);
    assert(lookup_or_empty(m, "timestamp"@) == dec_of(ts_or_zero(p.timestamp) as nat));
    lemma_parse_dec_of(ts_or_zero(p.timestamp));
    assert(from_map_spec(to_map_spec(p)) =~= p);
}

} // verus!
