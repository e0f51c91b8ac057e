//! Versions of the MCP protocol, ordered as their date strings are.
use vstd::prelude::*;

use core::cmp::Ordering;
use vstd::std_specs::cmp::{PartialEqSpecImpl, PartialOrdSpecImpl};
use crate::text::text_compare;

verus! {

/// The MCP protocol version used for communication.
#[derive(Debug, Eq, Hash)]
pub struct ProtocolVersion(pub String);

impl Clone for ProtocolVersion {
    fn clone(&self) -> (r: Self)
        ensures
            r == *self,
    {
        ProtocolVersion(self.0.clone())
    }
}

/// The ordering that a three-way comparison result stands for.
pub open spec fn ordering_of(c: int) -> Ordering {
    if c < 0 {
        Ordering::Less
    } else if c == 0 {
        Ordering::Equal
    } else {
        Ordering::Greater
    }
}

impl PartialEq for ProtocolVersion {
    fn eq(&self, other: &Self) -> (r: bool) {
        self.0.eq(&other.0)
    }
}

impl PartialEqSpecImpl for ProtocolVersion {
    open spec fn obeys_eq_spec() -> bool {
        true
    }

    open spec fn eq_spec(&self, other: &Self) -> bool {
        self.0@ == other.0@
    }
}

impl PartialOrd for ProtocolVersion {
    fn partial_cmp(&self, other: &Self) -> (r: Option<Ordering>) {
        let a = crate::text::chars_of(self.0.as_str());
        let b = crate::text::chars_of(other.0.as_str());
        let c = crate::text::compare_chars(a.as_slice(), b.as_slice());
        if c < 0 {
            Some(Ordering::Less)
        } else if c == 0 {
            Some(Ordering::Equal)
        } else {
            Some(Ordering::Greater)
        }
    }
}

impl PartialOrdSpecImpl for ProtocolVersion {
    open spec fn obeys_partial_cmp_spec() -> bool {
        true
    }

    open spec fn partial_cmp_spec(&self, other: &Self) -> Option<Ordering> {
        Some(ordering_of(text_compare(self.0@, other.0@)))
    }
}

/// The text of the 2025-03-26 revision.
pub open spec fn v_2025_03_26() -> Seq<char> {
    "2025-03-26"@
}

/// The text of the 2024-11-05 revision.
pub open spec fn v_2024_11_05() -> Seq<char> {
    "2024-11-05"@
}

#[allow(non_snake_case)]
impl ProtocolVersion {
    /// The 2025-03-26 revision.
    pub fn V_2025_03_26() -> (r: Self)
        ensures
            r.0@ == v_2025_03_26(),
    {
        ProtocolVersion("2025-03-26".to_owned())
    }

    /// The 2024-11-05 revision.
    pub fn V_2024_11_05() -> (r: Self)
        ensures
            r.0@ == v_2024_11_05(),
    {
        ProtocolVersion("2024-11-05".to_owned())
    }

    /// The latest revision this library speaks.
    pub fn LATEST() -> (r: Self)
        ensures
            r.0@ == v_2025_03_26(),
    {
        Self::V_2025_03_26()
    }

    /// The version a peer announced, from its text.
    pub fn from_text(s: String) -> (r: Self)
        ensures
            r.0 == s,
    {
        ProtocolVersion(s)
    }

    /// The text of the version (what `Display` writes).
    pub fn to_string(&self) -> (r: String)
        ensures
            r == self.0,
    {
        self.0.clone()
    }
}

impl Default for ProtocolVersion {
    fn default() -> (r: Self)
        ensures
            r.0@ == v_2025_03_26(),
    {
        Self::LATEST()
    }
}

/// The 2024-11-05 revision comes before the 2025-03-26 one.
pub proof fn lemma_revisions_ordered()
    ensures
        text_compare(v_2024_11_05(), v_2025_03_26()) < 0,
{
    reveal_strlit("2024-11-05");
    reveal_strlit("2025-03-26");
    let a = v_2024_11_05();
    let b = v_2025_03_26();
    let a3 = a.drop_first().drop_first().drop_first();
    let b3 = b.drop_first().drop_first().drop_first();
    assert(a3[0] == '4' && b3[0] == '5');
    assert(text_compare(a3, b3) < 0);
    assert(text_compare(a.drop_first().drop_first(), b.drop_first().drop_first()) < 0);
    assert(text_compare(a.drop_first(), b.drop_first()) < 0);
}

} // verus!
