//! HTTP header values.

use vstd::prelude::*;
use vstd::slice::slice_subrange;
use vstd::string::StringSliceAdditionalSpecFns;

verus! {

/// The content codings a client can accept.
#[derive(Clone, Copy, Debug, PartialEq, Eq, Structural, Hash)]
pub enum AcceptEncoding {
    /// Lempel-Ziv coding (LZ77) with a 32-bit CRC
    Gzip,
    /// Lempel-Ziv-Welch coding
    Compress,
    /// The zlib structure with the deflate algorithm
    Deflate,
    /// The Brotli algorithm
    Br,
}

/// The lower-case form of an ASCII letter; any other byte as it is.
pub open spec fn spec_lower(b: u8) -> u8 {
    if 65 <= b <= 90 {
        (b + 32) as u8
    } else {
        b
    }
}

/// True when `s`, letter case set aside, spells `word`.
pub open spec fn spec_spells(s: Seq<u8>, word: Seq<u8>) -> bool {
    s.len() == word.len() && forall|i: int| 0 <= i < s.len() ==> spec_lower(s[i]) == word[i]
}

impl AcceptEncoding {
    /// The name of the coding, in lower case.
    pub open spec fn spec_name(self) -> Seq<u8> {
        match self {
            AcceptEncoding::Gzip => seq![103u8, 122, 105, 112],
            AcceptEncoding::Compress => seq![99u8, 111, 109, 112, 114, 101, 115, 115],
            AcceptEncoding::Deflate => seq![100u8, 101, 102, 108, 97, 116, 101],
            AcceptEncoding::Br => seq![98u8, 114],
        }
    }

    /// The coding that `s` names, letter case set aside.
    pub open spec fn spec_parse(s: Seq<u8>) -> Option<AcceptEncoding> {
        if spec_spells(s, AcceptEncoding::Gzip.spec_name()) {
            Some(AcceptEncoding::Gzip)
        } else if spec_spells(s, AcceptEncoding::Compress.spec_name()) {
            Some(AcceptEncoding::Compress)
        } else if spec_spells(s, AcceptEncoding::Deflate.spec_name()) {
            Some(AcceptEncoding::Deflate)
        } else if spec_spells(s, AcceptEncoding::Br.spec_name()) {
            Some(AcceptEncoding::Br)
        } else {
            None
        }
    }

    /// The name of the coding, in lower case.
    pub fn name(&self) -> (r: Vec<u8>)
        ensures
            r@ == self.spec_name(),
    {
        match self {
            AcceptEncoding::Gzip => vec![103u8, 122, 105, 112],
            AcceptEncoding::Compress => vec![99u8, 111, 109, 112, 114, 101, 115, 115],
            AcceptEncoding::Deflate => vec![100u8, 101, 102, 108, 97, 116, 101],
            AcceptEncoding::Br => vec![98u8, 114],
        }
    }

    /// Reads the name of a coding, whatever the case of its letters.
    pub fn from_str(s: &str) -> (r: Option<AcceptEncoding>)
        ensures
            r == Self::spec_parse(s.spec_bytes()),
    {
        Self::from_bytes(s.as_bytes())
    }

    /// Reads the name of a coding, whatever the case of its letters.
    pub fn from_bytes(s: &[u8]) -> (r: Option<AcceptEncoding>)
        ensures
            r == Self::spec_parse(s@),
    {
        if spells(s, AcceptEncoding::Gzip.name().as_slice()) {
            Some(AcceptEncoding::Gzip)
        } else if spells(s, AcceptEncoding::Compress.name().as_slice()) {
            Some(AcceptEncoding::Compress)
        } else if spells(s, AcceptEncoding::Deflate.name().as_slice()) {
            Some(AcceptEncoding::Deflate)
        } else if spells(s, AcceptEncoding::Br.name().as_slice()) {
            Some(AcceptEncoding::Br)
        } else {
            None
        }
    }
}

/// Tells whether `b` is an ASCII white space character.
pub fn is_space(b: u8) -> (r: bool)
    ensures
        r == spec_is_space(b),
{
    b == 32 || (9 <= b && b <= 13)
}

/// Tells whether `s`, letter case set aside, spells `word`.
pub fn spells(s: &[u8], word: &[u8]) -> (r: bool)
    ensures
        r == spec_spells(s@, word@),
{
    if s.len() != word.len() {
        return false;
    }
    let mut i: usize = 0;
    while i < s.len()
        invariant
            i <= s.len(),
            s.len() == word.len(),
            forall|j: int| 0 <= j < i ==> spec_lower(s@[j]) == word@[j],
        decreases s.len() - i,
    {
        let b: u8 = s[i];
        let low: u8 = if 65 <= b && b <= 90 {
            b + 32
        } else {
            b
        };
        if low != word[i] {
            return false;
        }
        i = i + 1;
    }
    true
}

/// True for the ASCII white space characters.
pub open spec fn spec_is_space(b: u8) -> bool {
    b == 32 || 9 <= b <= 13
}

/// The first position in `from..to` that holds no white space, or `to`.
pub open spec fn spec_lead(s: Seq<u8>, from: int, to: int) -> int
    decreases to - from,
{
    if from >= to {
        to
    } else if !spec_is_space(s[from]) {
        from
    } else {
        spec_lead(s, from + 1, to)
    }
}

/// The position behind the last byte in `from..to` that is no white space,
/// or `from`.
pub open spec fn spec_trail(s: Seq<u8>, from: int, to: int) -> int
    decreases to - from,
{
    if from >= to {
        from
    } else if !spec_is_space(s[to - 1]) {
        to
    } else {
        spec_trail(s, from, to - 1)
    }
}

/// The first comma at or behind `from`, or the length of `s`.
pub open spec fn spec_next_comma(s: Seq<u8>, from: int) -> int
    decreases s.len() - from,
{
    if from >= s.len() {
        s.len() as int
    } else if s[from] == 44 {
        from
    } else {
        spec_next_comma(s, from + 1)
    }
}

/// The item in `from..to` without the white space around it.
pub open spec fn spec_trimmed(s: Seq<u8>, from: int, to: int) -> Seq<u8> {
    s.subrange(spec_lead(s, from, to), spec_trail(s, spec_lead(s, from, to), to))
}

/// The codings that the comma-separated items of `s` from `from` on name,
/// in order; an item that names none is passed over.
pub open spec fn spec_encodings(s: Seq<u8>, from: int) -> Seq<AcceptEncoding>
    decreases s.len() - from,
{
    if from < 0 || from > s.len() {
        Seq::empty()
    } else {
        let end = spec_next_comma(s, from);
        let head = match AcceptEncoding::spec_parse(spec_trimmed(s, from, end)) {
            Some(e) => seq![e],
            None => Seq::empty(),
        };
        if end >= s.len() || end < from {
            head
        } else {
            head + spec_encodings(s, end + 1)
        }
    }
}

/// The codings of an `Accept-Encoding` header.
#[derive(Debug, Default)]
pub struct HeaderAcceptEncoding {
    pub items: Vec<AcceptEncoding>,
}

impl HeaderAcceptEncoding {
    /// Reads the value of an `Accept-Encoding` header: items separated by
    /// commas, each a coding name with white space around it. Items that
    /// name no coding are passed over.
    pub fn from_bytes(s: &[u8]) -> (r: Self)
        ensures
            r.items@ == spec_encodings(s@, 0),
    {
        let n: usize = s.len();
        let mut items: Vec<AcceptEncoding> = Vec::new();
        let mut from: usize = 0;
        loop
            invariant
                n == s.len(),
                from <= n,
                items@ + spec_encodings(s@, from as int) == spec_encodings(s@, 0),
            decreases n - from,
        {
            let mut end: usize = from;
            while end < n && s[end] != 44
                invariant
                    n == s.len(),
                    from <= end <= n,
                    spec_next_comma(s@, from as int) == spec_next_comma(s@, end as int),
                decreases n - end,
            {
                end = end + 1;
            }
            let mut lo: usize = from;
            while lo < end && is_space(s[lo])
                invariant
                    n == s.len(),
                    from <= lo <= end <= n,
                    spec_lead(s@, from as int, end as int) == spec_lead(s@, lo as int, end as int),
                decreases end - lo,
            {
                lo = lo + 1;
            }
            let mut hi: usize = end;
            while lo < hi && is_space(s[hi - 1])
                invariant
                    n == s.len(),
                    lo <= hi <= end <= n,
                    spec_trail(s@, lo as int, end as int) == spec_trail(s@, lo as int, hi as int),
                decreases hi - lo,
            {
                hi = hi - 1;
            }
            let ghost before = items@;
            match AcceptEncoding::from_bytes(slice_subrange(s, lo, hi)) {
                Some(e) => {
                    items.push(e);
                },
                None => {},
            }
            proof {
                let head = match AcceptEncoding::spec_parse(
                    spec_trimmed(s@, from as int, end as int),
                ) {
                    Some(e) => seq![e],
                    None => Seq::<AcceptEncoding>::empty(),
                };
                assert(items@ =~= before + head);
                if end < n {
                    assert(before + (head + spec_encodings(s@, end + 1)) =~= (before + head)
                        + spec_encodings(s@, end + 1));
                }
            }
            if end >= n {
                proof {
                    assert(items@ =~= spec_encodings(s@, 0));
                }
                return HeaderAcceptEncoding { items };
            }
            from = end + 1;
        }
    }

    /// Reads the value of an `Accept-Encoding` header.
    pub fn from_str(s: &str) -> (r: Self)
        ensures
            r.items@ == spec_encodings(s.spec_bytes(), 0),
    {
        Self::from_bytes(s.as_bytes())
    }

    /// Tells whether the header lists `encoding`.
    pub fn contains(&self, encoding: &AcceptEncoding) -> (r: bool)
        ensures
            r == self.items@.contains(*encoding),
    {
        let mut i: usize = 0;
        while i < self.items.len()
            invariant
                i <= self.items.len(),
                forall|j: int| 0 <= j < i ==> self.items@[j] != *encoding,
            decreases self.items.len() - i,
        {
            if self.items[i] == *encoding {
                return true;
            }
            i = i + 1;
        }
        false
    }
}

} // verus!
