//! The configuration: its version and the resources to monitor.

use crate::text::{occurs_at, starts_with};
use vstd::prelude::*;
use vstd::string::StringSliceAdditionalSpecFns;
use vstd::utf8::is_ascii_chars_encode_utf8;

verus! {

/// A resource to monitor: its URL and the digest that its content is pinned
/// with.
#[derive(Debug, Clone, Copy, PartialEq, Eq)]
pub struct Resource {
    pub url: &'static str,
    pub sri: &'static str,
}

/// The version of the configuration.
pub open spec fn configured_version() -> Seq<char> {
    "1.0"@
}

/// The configured resources, in order.
pub open spec fn configured_resources() -> Seq<Resource> {
    seq![
        Resource {
            url: "https://example.com/example-framework.js",
            sri: "sha384-oqVuAfXRKap7fdgcCY5uykM6+R9GqQ8K/uxy9rx7HNQlGYl1kPzQho1wx4JwY8wC",
        },
    ]
}

/// Whether a digest string begins with the name of a supported algorithm
/// and the separator.
pub open spec fn has_digest_prefix(sri: Seq<u8>) -> bool {
    ||| occurs_at(sri, "sha256-".spec_bytes(), 0)
    ||| occurs_at(sri, "sha384-".spec_bytes(), 0)
    ||| occurs_at(sri, "sha512-".spec_bytes(), 0)
}

impl Resource {
    /// What is asked of an entry: a URL that is not empty, and a digest
    /// string that begins with `sha256-`, `sha384-` or `sha512-`.
    pub open spec fn well_formed(self) -> bool {
        self.url@.len() > 0 && has_digest_prefix(self.sri.spec_bytes())
    }

    /// Whether the entry is well formed.
    pub fn is_well_formed(&self) -> (ok: bool)
        ensures
            ok == self.well_formed(),
    {
        let sri = self.sri.as_bytes();
        !self.url.is_empty() && (starts_with(sri, "sha256-".as_bytes()) || starts_with(
            sri,
            "sha384-".as_bytes(),
        ) || starts_with(sri, "sha512-".as_bytes()))
    }
}

/// The version of the configuration.
pub fn version() -> (version: &'static str)
    ensures
        version@ == configured_version(),
{
    "1.0"
}

/// The configured resources, in order.
pub fn resources() -> (resources: Vec<Resource>)
    ensures
        resources@ == configured_resources(),
{
    let mut resources: Vec<Resource> = Vec::new();
    resources.push(
        Resource {
            url: "https://example.com/example-framework.js",
            sri: "sha384-oqVuAfXRKap7fdgcCY5uykM6+R9GqQ8K/uxy9rx7HNQlGYl1kPzQho1wx4JwY8wC",
        },
    );
    assert(resources@ =~= configured_resources());
    resources
}

/// The number of configured resources.
pub fn resource_count() -> (count: usize)
    ensures
        count == configured_resources().len(),
{
    1
}

/// Every configured resource is well formed, and there is at least one.
pub proof fn lemma_configured_resources_well_formed()
    ensures
        configured_resources().len() > 0,
        forall|i: int|
            0 <= i < configured_resources().len() ==> (#[trigger] configured_resources()[i]).well_formed(),
{
    reveal_strlit("https://example.com/example-framework.js");
    reveal_strlit("sha384-oqVuAfXRKap7fdgcCY5uykM6+R9GqQ8K/uxy9rx7HNQlGYl1kPzQho1wx4JwY8wC");
    reveal_strlit("sha384-");
    let sri = "sha384-oqVuAfXRKap7fdgcCY5uykM6+R9GqQ8K/uxy9rx7HNQlGYl1kPzQho1wx4JwY8wC";
    is_ascii_chars_encode_utf8(sri@);
    is_ascii_chars_encode_utf8("sha384-"@);
    assert(occurs_at(sri.spec_bytes(), "sha384-".spec_bytes(), 0)) by {
        let text = sri.spec_bytes();
        let prefix = "sha384-".spec_bytes();
        assert forall|j: int| 0 <= j < prefix.len() implies text[0 + j] == #[trigger] prefix[j] by {
            assert(sri@[j] == "sha384-"@[j]);
        }
    }
    assert(configured_resources()[0].well_formed());
}

} // verus!
