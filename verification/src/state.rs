//! The node's runtime identity: a unique identifier drawn once at startup
//! and the node's semantic version.  Read-only after construction.

use crate::util::spec_decimal;
use crate::util::decimal_string;
use vstd::prelude::*;
use vstd::string::StringExecFns;

verus! {

/// A semantic version triple.
#[derive(Debug, Clone, Copy, PartialEq, Eq, Structural)]
pub struct Version {
    pub major: u64,
    pub minor: u64,
    pub patch: u64,
}

/// The version rendered as text: the three components in decimal, separated
/// by dots.
pub open spec fn spec_version_chars(v: Version) -> Seq<char> {
    spec_decimal(v.major as nat) + seq!['.'] + spec_decimal(v.minor as nat) + seq!['.']
        + spec_decimal(v.patch as nat)
}

impl Version {
    /// Renders the version as `major.minor.patch`.
    pub fn display_string(&self) -> (s: String)
        ensures
            s@ == spec_version_chars(*self),
    {
        proof {
            reveal_strlit(".");
        }
        let mut s = decimal_string(self.major);
        s.append(".");
        let minor = decimal_string(self.minor);
        s.append(minor.as_str());
        s.append(".");
        let patch = decimal_string(self.patch);
        s.append(patch.as_str());
        proof {
            assert(s@ =~= spec_version_chars(*self));
        }
        s
    }
}

/// A rendered version is short ASCII text: at most twenty digits per
/// component plus the two dots.
pub proof fn lemma_version_chars_ascii_len(v: Version)
    ensures
        vstd::utf8::is_ascii_chars(spec_version_chars(v)),
        spec_version_chars(v).len() <= 62,
{
    reveal_with_fuel(crate::util::pow10, 21);
    assert(u64::MAX < crate::util::pow10(20));
    crate::util::lemma_decimal_len(v.major as nat, 20);
    crate::util::lemma_decimal_len(v.minor as nat, 20);
    crate::util::lemma_decimal_len(v.patch as nat, 20);
    crate::util::lemma_decimal_is_ascii(v.major as nat);
    crate::util::lemma_decimal_is_ascii(v.minor as nat);
    crate::util::lemma_decimal_is_ascii(v.patch as nat);
    let whole = spec_version_chars(v);
    let ma = spec_decimal(v.major as nat);
    let mi = spec_decimal(v.minor as nat);
    let pa = spec_decimal(v.patch as nat);
    assert forall|i: int| 0 <= i < whole.len() implies '\0' <= #[trigger] whole[i] <= '\u{7f}' by {
        if i < ma.len() {
            assert(whole[i] == ma[i]);
        } else if i == ma.len() {
            assert(whole[i] == '.');
        } else if i < ma.len() + 1 + mi.len() {
            assert(whole[i] == mi[i - ma.len() - 1]);
        } else if i == ma.len() + 1 + mi.len() {
            assert(whole[i] == '.');
        } else {
            assert(whole[i] == pa[i - ma.len() - mi.len() - 2]);
        }
    }
}

/// Relies on `uuid::Uuid::new_v4`: a freshly generated random (version 4)
/// UUID, taken as its 128-bit value.  The value depends on process
/// randomness, so nothing is promised of it.
#[verifier::external_body]
fn fresh_node_id() -> u128 {
    uuid::Uuid::new_v4().as_u128()
}

/// The node's identity: immutable for the process lifetime, read by every
/// outbound heartbeat, never mutated.
pub struct State {
    /// A randomly generated 128-bit unique identifier.
    pub node_id: u128,
    /// The node's semantic version.
    pub version: Version,
}

impl State {
    pub fn new() -> (s: State)
        ensures
            s.version == (Version { major: 0, minor: 0, patch: 1 }),
    {
        State { node_id: fresh_node_id(), version: Version { major: 0, minor: 0, patch: 1 } }
    }
}

} // verus!
