use vstd::prelude::*;

verus! {

/// The integer stored under `key` in the top-level JSON object of `text`, or
/// `None` where the text is not JSON, the key is absent, or its value is not an
/// integer in `u64`'s range.
pub uninterp spec fn json_u64_field(text: Seq<char>, key: Seq<char>) -> Option<u64>;

/// The pretty-printed JSON object text of a string-to-integer mapping.
pub uninterp spec fn json_text_of_counts(m: Map<Seq<char>, u64>) -> Seq<char>;

/// Relies on `serde_json::from_str` into a `serde_json::Value`, then
/// `Value::get(key)` and `Value::as_u64`.
#[verifier::external_body]
fn read_u64_field(text: &str, key: &str) -> (r: Option<u64>)
    ensures
        r == json_u64_field(text@, key@),
{
    serde_json::from_str::<serde_json::Value>(text).ok().and_then(|v| v.get(key).and_then(|x| x.as_u64()))
}

/// Relies on `serde_json::to_string_pretty` of a `BTreeMap<&str, u64>` holding
/// the two pairs, whose keys differ. Its documented failures (a failing
/// `Serialize` impl, a map key that is not a string) cannot occur for such a
/// map, so it always returns the text.
#[verifier::external_body]
fn pretty_count_map(k1: &str, v1: u64, k2: &str, v2: u64) -> (r: Option<String>)
    requires
        k1@ != k2@,
    ensures
        r is Some,
        r matches Some(t) ==> t@ == json_text_of_counts(map![k1@ => v1].insert(k2@, v2)),
{
    let m: std::collections::BTreeMap<&str, u64> = [(k1, v1), (k2, v2)].into_iter().collect();
    serde_json::to_string_pretty(&m).ok()
}

pub open spec fn field_or_zero(text: Seq<char>, key: Seq<char>) -> u64 {
    match json_u64_field(text, key) {
        Some(n) => n,
        None => 0,
    }
}

/// Metadata about the most recent run.
pub struct TrackingRecord {
    /// Seconds since the Unix epoch at the end of the run.
    pub last_backup_timestamp: u64,
    /// Size of the checksum store when it was persisted.
    pub backup_count: u64,
}

impl TrackingRecord {
    /// The record that `text` holds; a field that is missing or unreadable,
    /// or all of them where the text does not parse, reads as 0.
    pub fn from_json(text: &str) -> (r: TrackingRecord)
        ensures
            r.last_backup_timestamp == field_or_zero(text@, "last_backup_timestamp"@),
            r.backup_count == field_or_zero(text@, "backup_count"@),
    {
        let ts = match read_u64_field(text, "last_backup_timestamp") {
            Some(n) => n,
            None => 0,
        };
        let count = match read_u64_field(text, "backup_count") {
            Some(n) => n,
            None => 0,
        };
        TrackingRecord { last_backup_timestamp: ts, backup_count: count }
    }

    /// The record as pretty-printed JSON object text.
    pub fn to_json(&self) -> (r: Option<String>)
        ensures
            r is Some,
            r matches Some(t) ==> t@ == json_text_of_counts(
                map!["last_backup_timestamp"@ => self.last_backup_timestamp].insert(
                    "backup_count"@,
                    self.backup_count,
                ),
            ),
    {
        proof {
            reveal_strlit("last_backup_timestamp");
            reveal_strlit("backup_count");
            assert("last_backup_timestamp"@.len() != "backup_count"@.len());
        }
        pretty_count_map(
            "last_backup_timestamp",
            self.last_backup_timestamp,
            "backup_count",
            self.backup_count,
        )
    }
}

} // verus!
