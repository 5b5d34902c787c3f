//! Key-value records as templates see them: a record found in the store, or an empty record
//! that says it does not exist.
use vstd::prelude::*;

verus! {

/// A record as the store keeps it.
#[derive(Debug, Clone)]
pub struct StoredKvRecord<V, T> {
    pub id: String,
    pub key: String,
    pub value: V,
    pub scope: String,
    pub created_at: Option<T>,
    pub last_updated_at: Option<T>,
}

/// A record as a template sees it, with whether it exists.
#[derive(Debug, Clone)]
pub struct KvRecord<V, T> {
    pub id: String,
    pub key: String,
    pub value: V,
    pub scope: String,
    pub exists: bool,
    pub created_at: Option<T>,
    pub last_updated_at: Option<T>,
}

impl<V, T> KvRecord<V, T> {
    /// The record of a stored one: it exists, and every field is the stored one's.
    pub fn from_stored(r: StoredKvRecord<V, T>) -> (out: KvRecord<V, T>)
        ensures
            out.exists,
            out.id == r.id && out.key == r.key && out.value == r.value && out.scope == r.scope,
            out.created_at == r.created_at && out.last_updated_at == r.last_updated_at,
    {
        KvRecord {
            id: r.id,
            key: r.key,
            value: r.value,
            scope: r.scope,
            exists: true,
            created_at: r.created_at,
            last_updated_at: r.last_updated_at,
        }
    }

    /// The record of a key the store does not hold: empty texts, the null value, no times,
    /// and it does not exist.
    pub fn missing(null: V) -> (out: KvRecord<V, T>)
        ensures
            !out.exists,
            out.id@.len() == 0 && out.key@.len() == 0 && out.scope@.len() == 0,
            out.value == null,
            out.created_at is None && out.last_updated_at is None,
    {
        KvRecord {
            id: String::new(),
            key: String::new(),
            value: null,
            scope: String::new(),
            exists: false,
            created_at: None,
            last_updated_at: None,
        }
    }

    /// The record a lookup gives: the stored one if found, else the missing one.
    pub fn from_lookup(found: Option<StoredKvRecord<V, T>>, null: V) -> (out: KvRecord<V, T>)
        ensures
            out.exists == found is Some,
            found matches Some(r) ==> out.id == r.id && out.key == r.key && out.value == r.value
                && out.scope == r.scope && out.created_at == r.created_at && out.last_updated_at == r.last_updated_at,
            found is None ==> out.value == null && out.id@.len() == 0 && out.key@.len() == 0 && out.scope@.len() == 0
                && out.created_at is None && out.last_updated_at is None,
    {
        match found {
            Some(r) => KvRecord::from_stored(r),
            None => KvRecord::missing(null),
        }
    }

    /// The stored form of the record (whether it exists is not kept).
    pub fn into_stored(self) -> (out: StoredKvRecord<V, T>)
        ensures
            out.id == self.id && out.key == self.key && out.value == self.value && out.scope == self.scope,
            out.created_at == self.created_at && out.last_updated_at == self.last_updated_at,
    {
        StoredKvRecord {
            id: self.id,
            key: self.key,
            value: self.value,
            scope: self.scope,
            created_at: self.created_at,
            last_updated_at: self.last_updated_at,
        }
    }
}

} // verus!
