//! The wire-protocol version of a call, and its label value.
use vstd::prelude::*;

verus! {

broadcast use vstd::string::group_string_axioms;

/// The HTTP versions a request can carry; `Other` covers any version the
/// transport may add later.
#[derive(Debug, Clone, Copy, PartialEq, Eq, Structural)]
pub enum ProtocolVersion {
    Http09,
    Http10,
    Http11,
    Http2,
    Http3,
    Other,
}

/// The label value of each version; `None` means the label is left out.
pub open spec fn version_label(v: ProtocolVersion) -> Option<Seq<char>> {
    match v {
        ProtocolVersion::Http09 => Some(seq!['0', '.', '9']),
        ProtocolVersion::Http10 => Some(seq!['1', '.', '0']),
        ProtocolVersion::Http11 => Some(seq!['1', '.', '1']),
        ProtocolVersion::Http2 => Some(seq!['2']),
        ProtocolVersion::Http3 => Some(seq!['3']),
        ProtocolVersion::Other => None,
    }
}

/// View of an optional string as optional characters.
pub open spec fn opt_chars(o: Option<String>) -> Option<Seq<char>> {
    match o {
        Some(s) => Some(s@),
        None => None,
    }
}

impl ProtocolVersion {
    /// The value of the `network.protocol.version` label, if any.
    pub fn label(&self) -> (r: Option<String>)
        ensures
            opt_chars(r) == version_label(*self),
    {
        match self {
            ProtocolVersion::Http09 => {
                proof { reveal_strlit("0.9"); }
                Some("0.9".to_string())
            },
            ProtocolVersion::Http10 => {
                proof { reveal_strlit("1.0"); }
                Some("1.0".to_string())
            },
            ProtocolVersion::Http11 => {
                proof { reveal_strlit("1.1"); }
                Some("1.1".to_string())
            },
            ProtocolVersion::Http2 => {
                proof { reveal_strlit("2"); }
                Some("2".to_string())
            },
            ProtocolVersion::Http3 => {
                proof { reveal_strlit("3"); }
                Some("3".to_string())
            },
            ProtocolVersion::Other => None,
        }
    }
}

} // verus!
