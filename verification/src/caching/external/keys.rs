//! Cache and lock keys.
//!
//! Keys hash their identifiers with BLAKE3 so that no internal identifier
//! shows in the store, and follow one scheme: the prefix, the kind, then the
//! hashes, separated by colons.
use vstd::prelude::*;
use crate::caching::external::ExternalCache;
use crate::observability::metrics::labels::ExternalCacheLayer;
use crate::storage::object::config::keys_view;
use crate::text::{join, push_char, push_str};

verus! {

/// The BLAKE3 digest of the UTF-8 encoding of `text`, in lower-case hex.
pub uninterp spec fn blake3_hex(text: Seq<char>) -> Seq<char>;

/// `blake3::hash` of the string's bytes, as lower-case hex (`Hash::to_hex`).
///
/// The contract names the digest and claims nothing else of it: the same
/// text gives the same digest.
#[verifier::external_body]
fn hash_string(value: &str) -> (hex: String)
    ensures
        hex@ == blake3_hex(value@),
{
    blake3::hash(value.as_bytes()).to_hex().to_string()
}

/// Joins the parts of a key with colons.
pub fn colon_key(parts: &[&str]) -> (key: String)
    ensures
        key@ == join(keys_view(parts@), ':'),
{
    let ghost kv = keys_view(parts@);
    let mut key = String::new();
    let mut i: usize = 0;
    while i < parts.len()
        invariant
            i <= parts@.len(),
            kv == keys_view(parts@),
            key@ == join(kv.take(i as int), ':'),
        decreases parts.len() - i,
    {
        let ghost before = key@;
        if i > 0 {
            push_char(&mut key, ':');
        }
        push_str(&mut key, parts[i]);
        proof {
            assert(kv.take(i + 1).drop_last() =~= kv.take(i as int));
            assert(kv[i as int] == parts@[i as int]@);
            if i == 0 {
                assert(kv.take(1) =~= seq![kv[0]]);
                assert(key@ =~= kv[0]);
            } else {
                assert(key@ =~= before.push(':') + kv[i as int]);
            }
        }
        i = i + 1;
    }
    assert(kv.take(kv.len() as int) =~= kv);
    key
}

impl ExternalCache {
    /// The key of a transform result: `{prefix}:result:` and the hashes of the
    /// object key, the version token and the transform signature.
    pub fn build_result_cache_key(
        &self,
        object_key: &str,
        version_token: &str,
        transform_signature: &str,
    ) -> (key: String)
        ensures
            key@ == join(
                seq![
                    self.config.prefix@,
                    "result"@,
                    blake3_hex(object_key@),
                    blake3_hex(version_token@),
                    blake3_hex(transform_signature@),
                ],
                ':',
            ),
    {
        let object_hash = hash_string(object_key);
        let version_hash = hash_string(version_token);
        let transform_hash = hash_string(transform_signature);
        let parts: [&str; 5] = [
            self.config.prefix.as_str(),
            "result",
            object_hash.as_str(),
            version_hash.as_str(),
            transform_hash.as_str(),
        ];
        assert(keys_view(parts@) =~= seq![
            self.config.prefix@,
            "result"@,
            blake3_hex(object_key@),
            blake3_hex(version_token@),
            blake3_hex(transform_signature@),
        ]);
        colon_key(&parts)
    }

    /// The key of the lock on computing a result: `{prefix}:lock:result:` and
    /// the hash of the result key.
    pub fn build_result_lock_key(&self, result_cache_key: &str) -> (key: String)
        ensures
            key@ == join(
                seq![self.config.prefix@, "lock"@, "result"@, blake3_hex(result_cache_key@)],
                ':',
            ),
    {
        let key_hash = hash_string(result_cache_key);
        let parts: [&str; 4] = [self.config.prefix.as_str(), "lock", "result", key_hash.as_str()];
        assert(keys_view(parts@) =~= seq![
            self.config.prefix@,
            "lock"@,
            "result"@,
            blake3_hex(result_cache_key@),
        ]);
        colon_key(&parts)
    }

    /// The key of the lock on fetching source bytes: `{prefix}:lock:source:`
    /// and the hashes of the object key and the version token.
    pub fn build_source_lock_key(&self, object_key: &str, version_token: &str) -> (key: String)
        ensures
            key@ == join(
                seq![
                    self.config.prefix@,
                    "lock"@,
                    "source"@,
                    blake3_hex(object_key@),
                    blake3_hex(version_token@),
                ],
                ':',
            ),
    {
        let object_hash = hash_string(object_key);
        let version_hash = hash_string(version_token);
        let parts: [&str; 5] = [
            self.config.prefix.as_str(),
            "lock",
            "source",
            object_hash.as_str(),
            version_hash.as_str(),
        ];
        assert(keys_view(parts@) =~= seq![
            self.config.prefix@,
            "lock"@,
            "source"@,
            blake3_hex(object_key@),
            blake3_hex(version_token@),
        ]);
        colon_key(&parts)
    }

    /// The key of cached source bytes: `{prefix}:source:` and the hashes of the
    /// object key and the version token.
    pub fn source_entry_key(&self, object_key: &str, version_token: &str) -> (key: String)
        ensures
            key@ == join(
                seq![
                    self.config.prefix@,
                    "source"@,
                    blake3_hex(object_key@),
                    blake3_hex(version_token@),
                ],
                ':',
            ),
    {
        let object_hash = hash_string(object_key);
        let version_hash = hash_string(version_token);
        let parts: [&str; 4] = [
            self.config.prefix.as_str(),
            "source",
            object_hash.as_str(),
            version_hash.as_str(),
        ];
        assert(keys_view(parts@) =~= seq![
            self.config.prefix@,
            "source"@,
            blake3_hex(object_key@),
            blake3_hex(version_token@),
        ]);
        colon_key(&parts)
    }

    /// The key of an object's version token: `{prefix}:version:` and the hash
    /// of the object key.
    pub fn version_key(&self, object_key: &str) -> (key: String)
        ensures
            key@ == join(seq![self.config.prefix@, "version"@, blake3_hex(object_key@)], ':'),
    {
        let object_hash = hash_string(object_key);
        let parts: [&str; 3] = [self.config.prefix.as_str(), "version", object_hash.as_str()];
        assert(keys_view(parts@) =~= seq![
            self.config.prefix@,
            "version"@,
            blake3_hex(object_key@),
        ]);
        colon_key(&parts)
    }

    /// The key of an entry's read counter for the adaptive time to live:
    /// `{prefix}:freq:`, the layer and the hash of the entry key.
    pub fn frequency_key(&self, layer: ExternalCacheLayer, entry_key: &str) -> (key: String)
        ensures
            key@ == join(
                seq![self.config.prefix@, "freq"@, layer.name_spec(), blake3_hex(entry_key@)],
                ':',
            ),
    {
        let layer_name = layer.as_name();
        let entry_hash = hash_string(entry_key);
        let parts: [&str; 4] = [self.config.prefix.as_str(), "freq", layer_name, entry_hash.as_str()];
        assert(keys_view(parts@) =~= seq![
            self.config.prefix@,
            "freq"@,
            layer.name_spec(),
            blake3_hex(entry_key@),
        ]);
        colon_key(&parts)
    }
}

} // verus!
