//! The cache namespace of an access mode.
//!
//! The clients themselves (an HTTP client for signed URLs, an S3 client) are
//! built around the library; what the library decides is the namespace that
//! keeps the cached bytes of different storage backends apart.
use vstd::prelude::*;
use crate::storage::object::config::{ModeSettings, ModeView};
use crate::text::push_str;

verus! {

/// The namespace of a storage backend: `signed:` and the URL template, or
/// `s3:`, the endpoint (empty when none), `:` and the bucket.
pub open spec fn namespace_spec(mode: ModeView) -> Seq<char> {
    match mode {
        ModeView::SignedUrl { template, .. } => "signed:"@ + template,
        ModeView::S3 { bucket, endpoint, .. } => "s3:"@ + match endpoint {
            Some(e) => e,
            None => Seq::empty(),
        } + ":"@ + bucket,
    }
}

/// The cache namespace of an access mode.
pub fn cache_namespace(mode: &ModeSettings) -> (ns: String)
    ensures
        ns@ == namespace_spec(mode@),
{
    let mut ns = String::new();
    match mode {
        ModeSettings::SignedUrl { template, .. } => {
            push_str(&mut ns, "signed:");
            push_str(&mut ns, template.as_str());
        },
        ModeSettings::S3 { bucket, endpoint, .. } => {
            push_str(&mut ns, "s3:");
            match endpoint {
                Some(e) => push_str(&mut ns, e.as_str()),
                None => {},
            }
            push_str(&mut ns, ":");
            push_str(&mut ns, bucket.as_str());
        },
    }
    assert(ns@ =~= namespace_spec(mode@));
    ns
}

} // verus!
