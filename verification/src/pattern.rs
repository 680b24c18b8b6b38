//! Byte signatures with wildcards, and the scanner that finds them in a
//! module's mapped image.

use vstd::prelude::*;
use vstd::string::StringSliceAdditionalSpecFns;

verus! {

/// One position of a byte signature: a byte that must be present, or a
/// wildcard that accepts any byte.
#[derive(Clone, Copy, Debug, PartialEq, Eq, Structural)]
pub enum Token {
    Byte(u8),
    Any,
}

impl Token {
    /// Whether this token accepts the byte `b`.
    pub open spec fn accepts(self, b: u8) -> bool {
        match self {
            Token::Byte(v) => v == b,
            Token::Any => true,
        }
    }

    /// Tests whether this token accepts the byte `b`.
    pub fn matches(&self, b: u8) -> (r: bool)
        ensures
            r == self.accepts(b),
    {
        match self {
            Token::Byte(v) => *v == b,
            Token::Any => true,
        }
    }
}

/// Why a signature text was rejected.
#[derive(Clone, Copy, Debug, PartialEq, Eq, Structural)]
pub enum PatternError {
    /// The text holds no token at all.
    Empty,
    /// The token with this index is neither two hex digits nor `??`.
    InvalidToken { index: usize },
    /// The byte that follows the token with this index is not a space.
    MissingSeparator { index: usize },
}

/// The value of an ASCII hex digit, upper or lower case.
pub open spec fn hex_digit(c: u8) -> Option<u8> {
    if 0x30 <= c <= 0x39 {
        Some((c - 0x30) as u8)
    } else if 0x41 <= c <= 0x46 {
        Some((c - 0x41 + 10) as u8)
    } else if 0x61 <= c <= 0x66 {
        Some((c - 0x61 + 10) as u8)
    } else {
        None
    }
}

/// The token that two characters spell: `??` is the wildcard, two hex digits
/// are a byte, anything else is no token.
pub open spec fn token_from(hi: u8, lo: u8) -> Option<Token> {
    if hi == 0x3f && lo == 0x3f {
        Some(Token::Any)
    } else {
        match (hex_digit(hi), hex_digit(lo)) {
            (Some(h), Some(l)) => Some(Token::Byte((h * 16 + l) as u8)),
            _ => None,
        }
    }
}

/// The token with index `i` of a signature text. Token `i` occupies the bytes
/// `3 * i` and `3 * i + 1`; byte `3 * i + 2` separates it from the next.
pub open spec fn token_at(text: Seq<u8>, i: int) -> Option<Token> {
    if 0 <= i && 3 * i + 1 < text.len() {
        token_from(text[3 * i], text[3 * i + 1])
    } else {
        None
    }
}

/// Tokens `0..i` are all present and each is followed by a space.
pub open spec fn prefix_ok(text: Seq<u8>, i: int) -> bool {
    forall|j: int|
        0 <= j < i ==> (#[trigger] token_at(text, j)).is_some() && 3 * j + 2 < text.len() && text[3
            * j + 2] == 0x20
}

/// The number of tokens of a well-formed text.
pub open spec fn token_count(text: Seq<u8>) -> int {
    (text.len() as int + 1) / 3
}

/// A signature text is well formed when it is one or more tokens, each two
/// characters long, with exactly one space between neighbours and nothing
/// before the first or after the last.
pub open spec fn well_formed(text: Seq<u8>) -> bool {
    &&& text.len() % 3 == 2
    &&& prefix_ok(text, token_count(text) - 1)
    &&& token_at(text, token_count(text) - 1).is_some()
}

/// The tokens that a well-formed text spells.
pub open spec fn parsed(text: Seq<u8>) -> Seq<Token> {
    Seq::new(token_count(text) as nat, |i: int| token_at(text, i).unwrap())
}

/// `r` is what reading `text` gives: the tokens of a well-formed text, or the
/// first thing that is wrong with it.
pub open spec fn is_parse_of(text: Seq<u8>, r: Result<Seq<Token>, PatternError>) -> bool {
    match r {
        Ok(tokens) => well_formed(text) && tokens == parsed(text),
        Err(PatternError::Empty) => text.len() == 0,
        Err(PatternError::InvalidToken { index }) => {
            &&& text.len() > 0
            &&& prefix_ok(text, index as int)
            &&& token_at(text, index as int).is_none()
        },
        Err(PatternError::MissingSeparator { index }) => {
            &&& prefix_ok(text, index as int)
            &&& token_at(text, index as int).is_some()
            &&& 3 * index + 2 < text.len()
            &&& text[3 * index + 2] != 0x20
        },
    }
}

/// The result of reading a text, with the pattern taken by its tokens.
pub open spec fn tokens_of(r: Result<Pattern, PatternError>) -> Result<Seq<Token>, PatternError> {
    match r {
        Ok(p) => Ok(p@),
        Err(e) => Err(e),
    }
}

/// `tokens` matches `image` at offset `at`: the whole pattern fits, and every
/// token that is not a wildcard equals the byte under it.
pub open spec fn matches_at(image: Seq<u8>, tokens: Seq<Token>, at: int) -> bool {
    &&& 0 <= at
    &&& at + tokens.len() <= image.len()
    &&& forall|i: int| 0 <= i < tokens.len() ==> (#[trigger] tokens[i]).accepts(image[at + i])
}

/// `offsets` is the scan of `image` for `tokens`: every entry is a match,
/// the entries ascend strictly, and no match is left out.
pub open spec fn is_scan_of(offsets: Seq<usize>, image: Seq<u8>, tokens: Seq<Token>) -> bool {
    &&& forall|k: int|
        0 <= k < offsets.len() ==> matches_at(image, tokens, #[trigger] offsets[k] as int)
    &&& forall|j: int, k: int| 0 <= j < k < offsets.len() ==> offsets[j] < offsets[k]
    &&& forall|at: int| #[trigger]
        matches_at(image, tokens, at) ==> exists|k: int|
            0 <= k < offsets.len() && #[trigger] offsets[k] == at
}

/// An ordered sequence of byte and wildcard tokens.
#[derive(Debug)]
pub struct Pattern {
    tokens: Vec<Token>,
}

impl View for Pattern {
    type V = Seq<Token>;

    closed spec fn view(&self) -> Seq<Token> {
        self.tokens@
    }
}

fn hex_value(c: u8) -> (r: Option<u8>)
    ensures
        r == hex_digit(c),
{
    if 0x30 <= c && c <= 0x39 {
        Some(c - 0x30)
    } else if 0x41 <= c && c <= 0x46 {
        Some(c - 0x41 + 10)
    } else if 0x61 <= c && c <= 0x66 {
        Some(c - 0x61 + 10)
    } else {
        None
    }
}

fn token_of(hi: u8, lo: u8) -> (r: Option<Token>)
    ensures
        r == token_from(hi, lo),
{
    if hi == 0x3f && lo == 0x3f {
        return Some(Token::Any);
    }
    match (hex_value(hi), hex_value(lo)) {
        (Some(h), Some(l)) => Some(Token::Byte(h * 16 + l)),
        _ => None,
    }
}

impl Pattern {
    /// A pattern made of the given tokens.
    pub fn new(tokens: Vec<Token>) -> (p: Pattern)
        ensures
            p@ == tokens@,
    {
        Pattern { tokens }
    }

    /// The number of bytes that a match covers.
    pub fn size(&self) -> (n: usize)
        ensures
            n == self@.len(),
    {
        self.tokens.len()
    }

    /// The token with index `i`, if there is one.
    pub fn token(&self, i: usize) -> (t: Option<Token>)
        ensures
            t == (if i < self@.len() {
                Some(self@[i as int])
            } else {
                None
            }),
    {
        if i < self.tokens.len() {
            Some(self.tokens[i])
        } else {
            None
        }
    }

    /// Reads a signature written as text: tokens of two characters, `??` for
    /// a wildcard and two hex digits for a byte, with one space between
    /// neighbours, as in `48 89 ?? 24`. The text is taken byte by byte.
    ///
    /// Succeeds exactly on the well-formed texts. Otherwise the error names
    /// the first token that is wrong, or that lacks its separator.
    pub fn parse(text: &[u8]) -> (r: Result<Pattern, PatternError>)
        ensures
            r is Ok <==> well_formed(text@),
            is_parse_of(text@, tokens_of(r)),
    {
        let n = text.len();
        if n == 0 {
            return Err(PatternError::Empty);
        }
        let mut tokens: Vec<Token> = Vec::new();
        let mut pos: usize = 0;
        loop
            invariant
                n == text@.len(),
                n > 0,
                pos == 3 * tokens@.len(),
                pos <= n,
                prefix_ok(text@, tokens@.len() as int),
                forall|j: int|
                    0 <= j < tokens@.len() ==> token_at(text@, j) == Some(#[trigger] tokens@[j]),
            decreases n - pos,
        {
            let index = tokens.len();
            if n - pos < 2 {
                proof {
                    if well_formed(text@) {
                        assert(token_at(text@, index as int).is_some());
                    }
                }
                return Err(PatternError::InvalidToken { index });
            }
            let t = match token_of(text[pos], text[pos + 1]) {
                Some(t) => t,
                None => {
                    proof {
                        if well_formed(text@) {
                            assert(token_at(text@, index as int).is_some());
                        }
                    }
                    return Err(PatternError::InvalidToken { index });
                },
            };
            assert(token_at(text@, index as int) == Some(t));
            tokens.push(t);
            if pos + 2 == n {
                proof {
                    assert(token_count(text@) == index + 1);
                    assert(tokens@ =~= parsed(text@));
                }
                return Ok(Pattern { tokens });
            }
            if text[pos + 2] != 0x20 {
                proof {
                    if well_formed(text@) {
                        assert(token_at(text@, index as int).is_some());
                    }
                }
                return Err(PatternError::MissingSeparator { index });
            }
            pos = pos + 3;
        }
    }

    /// Reads a signature from a string slice; see [`Pattern::parse`].
    pub fn from_ida(text: &str) -> (r: Result<Pattern, PatternError>)
        ensures
            r is Ok <==> well_formed(text.spec_bytes()),
            is_parse_of(text.spec_bytes(), tokens_of(r)),
    {
        Pattern::parse(text.as_bytes())
    }

    /// Whether the pattern matches `image` at offset `at`.
    pub fn is_matching_at(&self, image: &[u8], at: usize) -> (r: bool)
        ensures
            r == matches_at(image@, self@, at as int),
    {
        let n = self.tokens.len();
        let len = image.len();
        if at > len || len - at < n {
            return false;
        }
        let mut i: usize = 0;
        while i < n
            invariant
                n == self.tokens@.len(),
                len == image@.len(),
                at + n <= len,
                i <= n,
                forall|j: int| 0 <= j < i ==> (#[trigger] self.tokens@[j]).accepts(image@[at + j]),
            decreases n - i,
        {
            if !self.tokens[i].matches(image[at + i]) {
                return false;
            }
            i = i + 1;
        }
        true
    }

    /// The first match at or after `start`, if there is one. Calling it again
    /// with the offset after a match walks the matches one by one.
    pub fn find_from(&self, image: &[u8], start: usize) -> (r: Option<usize>)
        ensures
            match r {
                Some(at) => {
                    &&& start <= at
                    &&& matches_at(image@, self@, at as int)
                    &&& forall|j: int| start <= j < at ==> !matches_at(image@, self@, j)
                },
                None => forall|j: int| start <= j ==> !matches_at(image@, self@, j),
            },
    {
        let n = self.tokens.len();
        let len = image.len();
        if n > len || start > len - n {
            return None;
        }
        let last = len - n;
        let mut at = start;
        loop
            invariant
                n == self@.len(),
                len == image@.len(),
                last == len - n,
                start <= at <= last,
                forall|j: int| start <= j < at ==> !matches_at(image@, self@, j),
            decreases last - at,
        {
            if self.is_matching_at(image, at) {
                return Some(at);
            }
            if at == last {
                return None;
            }
            at = at + 1;
        }
    }

    /// The first match in `image`, if there is one.
    pub fn find_first(&self, image: &[u8]) -> (r: Option<usize>)
        ensures
            match r {
                Some(at) => {
                    &&& matches_at(image@, self@, at as int)
                    &&& forall|j: int| 0 <= j < at ==> !matches_at(image@, self@, j)
                },
                None => forall|j: int| !matches_at(image@, self@, j),
            },
    {
        self.find_from(image, 0)
    }

    /// Every offset at which the pattern matches `image`, in ascending order.
    /// No match gives the empty list.
    pub fn scan(&self, image: &[u8]) -> (offsets: Vec<usize>)
        ensures
            is_scan_of(offsets@, image@, self@),
    {
        let mut offsets: Vec<usize> = Vec::new();
        let n = self.tokens.len();
        let len = image.len();
        if n > len {
            return offsets;
        }
        let last = len - n;
        let mut at: usize = 0;
        loop
            invariant
                n == self@.len(),
                len == image@.len(),
                last == len - n,
                at <= last,
                forall|k: int|
                    0 <= k < offsets@.len() ==> matches_at(
                        image@,
                        self@,
                        #[trigger] offsets@[k] as int,
                    ) && offsets@[k] < at,
                forall|j: int, k: int| 0 <= j < k < offsets@.len() ==> offsets@[j] < offsets@[k],
                forall|j: int|
                    0 <= j < at && #[trigger] matches_at(image@, self@, j) ==> exists|k: int|
                        0 <= k < offsets@.len() && #[trigger] offsets@[k] == j,
            decreases last - at,
        {
            if self.is_matching_at(image, at) {
                let ghost before = offsets@;
                offsets.push(at);
                proof {
                    assert(offsets@[before.len() as int] == at);
                    assert forall|j: int|
                        0 <= j < at + 1 && #[trigger] matches_at(image@, self@, j) implies exists|
                        k: int,
                    |
                        0 <= k < offsets@.len() && #[trigger] offsets@[k] == j by {
                        if j < at {
                            let k = choose|k: int|
                                0 <= k < before.len() && #[trigger] before[k] == j;
                            assert(offsets@[k] == j);
                        }
                    }
                }
            }
            if at == last {
                return offsets;
            }
            at = at + 1;
        }
    }
}

/// Reading is determined by the text: two results that are both what
/// reading one text gives are the same result.
pub proof fn lemma_parse_is_unique(
    text: Seq<u8>,
    a: Result<Seq<Token>, PatternError>,
    b: Result<Seq<Token>, PatternError>,
)
    requires
        is_parse_of(text, a),
        is_parse_of(text, b),
    ensures
        a == b,
{
    let i = first_fault(a);
    let j = first_fault(b);
    if a is Err && b is Err {
        if i < j {
            assert(token_at(text, i).is_some() && 3 * i + 2 < text.len() && text[3 * i + 2]
                == 0x20);
        }
        if j < i {
            assert(token_at(text, j).is_some() && 3 * j + 2 < text.len() && text[3 * j + 2]
                == 0x20);
        }
    } else if a is Err {
        lemma_fault_is_not_well_formed(text, a);
    } else if b is Err {
        lemma_fault_is_not_well_formed(text, b);
    }
}

/// The index of the token that an error names; 0 where it names none.
spec fn first_fault(r: Result<Seq<Token>, PatternError>) -> int {
    match r {
        Err(PatternError::InvalidToken { index }) => index as int,
        Err(PatternError::MissingSeparator { index }) => index as int,
        _ => 0,
    }
}

/// A text with a fault is not well formed.
proof fn lemma_fault_is_not_well_formed(text: Seq<u8>, r: Result<Seq<Token>, PatternError>)
    requires
        r is Err,
        is_parse_of(text, r),
    ensures
        !well_formed(text),
{
    let i = first_fault(r);
    if well_formed(text) {
        match r {
            Err(PatternError::InvalidToken { index }) => {
                if i > 0 {
                    assert(token_at(text, i - 1).is_some() && 3 * (i - 1) + 2 < text.len());
                }
                if i < token_count(text) - 1 {
                    assert(token_at(text, i).is_some());
                }
            },
            Err(PatternError::MissingSeparator { index }) => {
                assert(i < token_count(text) - 1);
                assert(token_at(text, i).is_some() && text[3 * i + 2] == 0x20);
            },
            _ => {},
        }
    }
}

/// A scan is determined by the image and the pattern: two lists that are both
/// the scan of one image for one pattern are the same list, offset for
/// offset. Scanning a fixed buffer therefore gives the same ordered offsets
/// every time.
pub proof fn lemma_scan_is_unique(
    a: Seq<usize>,
    b: Seq<usize>,
    image: Seq<u8>,
    tokens: Seq<Token>,
)
    requires
        is_scan_of(a, image, tokens),
        is_scan_of(b, image, tokens),
    ensures
        a == b,
{
    lemma_scan_prefix_agrees(a, b, image, tokens, a.len() as int);
    lemma_scan_prefix_agrees(b, a, image, tokens, b.len() as int);
    assert(a =~= b);
}

/// The first `k` entries of one scan are the first `k` entries of any other.
proof fn lemma_scan_prefix_agrees(
    a: Seq<usize>,
    b: Seq<usize>,
    image: Seq<u8>,
    tokens: Seq<Token>,
    k: int,
)
    requires
        is_scan_of(a, image, tokens),
        is_scan_of(b, image, tokens),
        0 <= k <= a.len(),
    ensures
        k <= b.len(),
        forall|i: int| 0 <= i < k ==> a[i] == b[i],
    decreases k,
{
    if k > 0 {
        lemma_scan_prefix_agrees(a, b, image, tokens, k - 1);
        let x = a[k - 1];
        assert(matches_at(image, tokens, x as int));
        let m = choose|m: int| 0 <= m < b.len() && #[trigger] b[m] == x as int;
        // `x` cannot sit among the entries of `b` that `a` already accounts for.
        if m < k - 1 {
            assert(a[m] == b[m]);
            assert(a[m] < a[k - 1]);
        }
        assert(k <= b.len());
        let y = b[k - 1];
        assert(matches_at(image, tokens, y as int));
        let p = choose|p: int| 0 <= p < a.len() && #[trigger] a[p] == y as int;
        if p < k - 1 {
            assert(a[p] == b[p]);
            assert(b[p] < b[k - 1]);
        }
        // Both lists ascend, so `m >= k - 1` and `p >= k - 1` pin the entry.
        if m > k - 1 {
            assert(b[k - 1] < b[m]);
        }
        if p > k - 1 {
            assert(a[k - 1] < a[p]);
        }
    }
}

} // verus!
