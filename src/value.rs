use vstd::prelude::*;

use crate::text::{append_decimal, append_hex_list, decimal, hex_list};

verus! {

/// A typed value of a backing store: the closed union of the value kinds
/// that the catalogue uses.
pub enum RegData {
    Dword(u32),
    Text(String),
    Binary(Vec<u8>),
}

/// The mathematical form of a [`RegData`].
pub ghost enum DataView {
    Dword(u32),
    Text(Seq<char>),
    Binary(Seq<u8>),
}

impl View for RegData {
    type V = DataView;

    open spec fn view(&self) -> DataView {
        match self {
            RegData::Dword(n) => DataView::Dword(*n),
            RegData::Text(s) => DataView::Text(s@),
            RegData::Binary(b) => DataView::Binary(b@),
        }
    }
}

/// Two values are of the same kind.
pub open spec fn same_kind(a: DataView, b: DataView) -> bool {
    match (a, b) {
        (DataView::Dword(_), DataView::Dword(_)) => true,
        (DataView::Text(_), DataView::Text(_)) => true,
        (DataView::Binary(_), DataView::Binary(_)) => true,
        _ => false,
    }
}

/// The view of an optional value.
pub open spec fn opt_view(o: Option<RegData>) -> Option<DataView> {
    match o {
        Some(v) => Some(v@),
        None => None,
    }
}

/// How a value is shown: `dword:` and the decimal number, `sz:` and the
/// text, or `binary:` and the bytes in hexadecimal.
pub open spec fn describe_spec(v: DataView) -> Seq<char> {
    match v {
        DataView::Dword(n) => "dword:"@ + decimal(n as nat),
        DataView::Text(s) => "sz:"@ + s,
        DataView::Binary(b) => "binary:"@ + hex_list(b),
    }
}

/// A value found in a store, as a status line shows it: the bare decimal
/// number, the bare text, or the bytes in hexadecimal.
pub open spec fn observed_spec(v: DataView) -> Seq<char> {
    match v {
        DataView::Dword(n) => decimal(n as nat),
        DataView::Text(s) => s,
        DataView::Binary(b) => hex_list(b),
    }
}

/// Byte-for-byte equality of two byte sequences.
pub fn bytes_equal(a: &Vec<u8>, b: &Vec<u8>) -> (r: bool)
    ensures
        r == (a@ == b@),
{
    if a.len() != b.len() {
        return false;
    }
    let mut i: usize = 0;
    while i < a.len()
        invariant
            a@.len() == b@.len(),
            i <= a@.len(),
            forall|j: int| 0 <= j < i ==> a@[j] == b@[j],
        decreases a@.len() - i,
    {
        if a[i] != b[i] {
            return false;
        }
        i = i + 1;
    }
    assert(a@ =~= b@);
    true
}

impl RegData {
    /// Exact equality by kind: integer, text or byte-for-byte.
    pub fn equals(&self, other: &RegData) -> (r: bool)
        ensures
            r == (self@ == other@),
    {
        match (self, other) {
            (RegData::Dword(a), RegData::Dword(b)) => *a == *b,
            (RegData::Text(a), RegData::Text(b)) => *a == *b,
            (RegData::Binary(a), RegData::Binary(b)) => bytes_equal(a, b),
            _ => false,
        }
    }

    /// Whether two values are of the same kind.
    pub fn same_kind_as(&self, other: &RegData) -> (r: bool)
        ensures
            r == same_kind(self@, other@),
    {
        match (self, other) {
            (RegData::Dword(_), RegData::Dword(_)) => true,
            (RegData::Text(_), RegData::Text(_)) => true,
            (RegData::Binary(_), RegData::Binary(_)) => true,
            _ => false,
        }
    }

    /// The value as it is shown in a status line.
    pub fn describe(&self) -> (r: String)
        ensures
            r@ == describe_spec(self@),
    {
        match self {
            RegData::Dword(n) => {
                let mut out = String::from_str("dword:");
                append_decimal(&mut out, *n);
                out
            },
            RegData::Text(s) => {
                let mut out = String::from_str("sz:");
                out.append(s.as_str());
                out
            },
            RegData::Binary(b) => {
                let mut out = String::from_str("binary:");
                append_hex_list(&mut out, b);
                out
            },
        }
    }

    /// The value as a status line shows a value found in a store.
    pub fn observed(&self) -> (r: String)
        ensures
            r@ == observed_spec(self@),
    {
        let mut out = String::new();
        match self {
            RegData::Dword(n) => append_decimal(&mut out, *n),
            RegData::Text(s) => out.append(s.as_str()),
            RegData::Binary(b) => append_hex_list(&mut out, b),
        }
        out
    }

    /// A copy of the value.
    pub fn duplicate(&self) -> (r: RegData)
        ensures
            r@ == self@,
    {
        match self {
            RegData::Dword(n) => RegData::Dword(*n),
            RegData::Text(s) => RegData::Text(s.clone()),
            RegData::Binary(b) => RegData::Binary(b.clone()),
        }
    }
}

/// A copy of an optional value.
pub fn duplicate_opt(o: &Option<RegData>) -> (r: Option<RegData>)
    ensures
        opt_view(r) == opt_view(*o),
{
    match o {
        Some(v) => Some(v.duplicate()),
        None => None,
    }
}

} // verus!
