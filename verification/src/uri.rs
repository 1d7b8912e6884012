//! The request target as the handler chain sees it.
//!
//! A target is kept as its components — scheme, authority, path, query — so
//! that a rewrite can be stated precisely: a redirect replaces the authority
//! and touches nothing else. Whether a string is a well-formed authority is
//! decided by the HTTP library's own parser, behind [`Authority::parse`].

use vstd::prelude::*;

verus! {

/// Whether `s` spells a well-formed, nonempty authority (`host[:port]`,
/// optionally with userinfo). The exact character rules are those of the
/// HTTP library's parser; nothing in this crate restates them.
pub uninterp spec fn is_authority(s: Seq<char>) -> bool;

/// Relies on `http::uri::Authority`'s `FromStr` (reached through hyper):
/// it accepts a string iff it is a nonempty well-formed authority, a
/// decision that depends on the characters alone.
#[verifier::external_body]
fn authority_accepted(s: &str) -> (ok: bool)
    ensures
        ok == is_authority(s@),
{
    s.parse::<hyper::http::uri::Authority>().is_ok()
}

/// A destination authority (`host[:port]`), validated on construction.
#[derive(Clone, PartialEq, Eq, Debug)]
pub struct Authority {
    host_port: String,
}

impl Authority {
    /// Whether the held string is a well-formed authority. Every value built
    /// by [`Authority::parse`] satisfies this.
    pub closed spec fn wf(&self) -> bool {
        is_authority(self.host_port@)
    }

    /// The held `host[:port]` string.
    pub closed spec fn spec_str(&self) -> String {
        self.host_port
    }

    /// Validate `s` as an authority; return the destination on success.
    pub fn parse(s: String) -> (result: Option<Authority>)
        ensures
            match result {
                Some(authority) => {
                    &&& authority.spec_str() == s
                    &&& authority.wf()
                    &&& is_authority(s@)
                },
                None => !is_authority(s@),
            },
    {
        if authority_accepted(s.as_str()) {
            Some(Authority { host_port: s })
        } else {
            None
        }
    }

    /// The authority as a string, for placing into a request target.
    pub fn as_string(&self) -> (s: &String)
        ensures
            *s == self.spec_str(),
    {
        &self.host_port
    }
}

/// A request target, split into its components. `None` stands for a
/// component the target does not carry (an origin-form target has neither
/// scheme nor authority).
#[derive(Clone, PartialEq, Eq, Debug)]
pub struct Uri {
    pub scheme: Option<String>,
    pub authority: Option<String>,
    pub path: String,
    pub query: Option<String>,
}

} // verus!
