//! Validated identifiers for chains, denominations and IBC objects.
use vstd::prelude::*;
use vstd::string::*;

verus! {

/// Longest identifier accepted, in characters.
pub const MAX_IDENTIFIER_LEN: usize = 64;

/// Characters that an identifier may hold besides ASCII letters and digits.
pub open spec fn is_identifier_char(c: char) -> bool {
    ('a' <= c && c <= 'z') || ('A' <= c && c <= 'Z') || ('0' <= c && c <= '9') || c == '.'
        || c == '_' || c == '+' || c == '-' || c == '#' || c == '[' || c == ']' || c == '<'
        || c == '>'
}

/// A valid identifier is non-empty, at most `MAX_IDENTIFIER_LEN` characters long,
/// and made only of identifier characters.
pub open spec fn valid_identifier(s: Seq<char>) -> bool {
    0 < s.len() <= MAX_IDENTIFIER_LEN && forall|i: int| 0 <= i < s.len() ==> is_identifier_char(
        #[trigger] s[i],
    )
}

/// The first identifier rule that `s` breaks, if any.
pub open spec fn identifier_error(s: Seq<char>) -> Option<IdentifierError> {
    if s.len() == 0 {
        Some(IdentifierError::Empty)
    } else if s.len() > MAX_IDENTIFIER_LEN {
        Some(IdentifierError::TooLong)
    } else if !valid_identifier(s) {
        Some(IdentifierError::InvalidCharacter)
    } else {
        None
    }
}

/// Why a string was refused as an identifier.
#[derive(Debug, Clone, Copy, PartialEq, Eq, Structural)]
pub enum IdentifierError {
    Empty,
    TooLong,
    InvalidCharacter,
}

/// Decides whether one character may stand in an identifier.
pub fn identifier_char(c: char) -> (r: bool)
    ensures
        r == is_identifier_char(c),
{
    ('a' <= c && c <= 'z') || ('A' <= c && c <= 'Z') || ('0' <= c && c <= '9') || c == '.'
        || c == '_' || c == '+' || c == '-' || c == '#' || c == '[' || c == ']' || c == '<'
        || c == '>'
}

/// Checks a string against the identifier rules, naming the first rule broken.
pub fn check_identifier(s: &str) -> (r: Result<(), IdentifierError>)
    ensures
        r is Ok <==> valid_identifier(s@),
        r is Err <==> identifier_error(s@) == Some(r->Err_0),
{
    let n = s.unicode_len();
    if n == 0 {
        return Err(IdentifierError::Empty);
    }
    if n > MAX_IDENTIFIER_LEN {
        return Err(IdentifierError::TooLong);
    }
    let mut i: usize = 0;
    while i < n
        invariant
            n == s@.len(),
            0 < n <= MAX_IDENTIFIER_LEN,
            i <= n,
            forall|j: int| 0 <= j < i ==> is_identifier_char(#[trigger] s@[j]),
        decreases n - i,
    {
        if !identifier_char(s.get_char(i)) {
            return Err(IdentifierError::InvalidCharacter);
        }
        i += 1;
    }
    Ok(())
}

/// An identifier of a denomination or of an IBC client, connection or channel.
#[derive(Debug, Clone, PartialEq, Eq)]
pub struct Identifier {
    value: String,
}

impl Identifier {
    pub closed spec fn view(&self) -> Seq<char> {
        self.value@
    }

    /// Makes an identifier, refusing a string that breaks the identifier rules.
    pub fn new(s: &str) -> (r: Result<Identifier, IdentifierError>)
        ensures
            r is Ok <==> valid_identifier(s@),
            r is Ok ==> r->Ok_0@ == s@,
            r is Err <==> identifier_error(s@) == Some(r->Err_0),
            r is Ok ==> r->Ok_0.wf(),
    {
        match check_identifier(s) {
            Ok(()) => Ok(Identifier { value: String::from_str(s) }),
            Err(e) => Err(e),
        }
    }

    /// The identifier's text.
    pub fn as_str(&self) -> (r: &str)
        ensures
            r@ == self@,
    {
        self.value.as_str()
    }

    /// A copy of the identifier's text.
    pub fn to_text(&self) -> (r: String)
        ensures
            r@ == self@,
    {
        self.value.clone()
    }

    /// Another identifier with the same text.
    pub fn duplicate(&self) -> (r: Identifier)
        ensures
            r@ == self@,
    {
        Identifier { value: self.value.clone() }
    }

    pub closed spec fn wf(&self) -> bool {
        valid_identifier(self.value@)
    }
}

} // verus!

verus! {

/// Identifier of a remote chain; it follows the identifier rules.
#[derive(Debug, Clone, PartialEq, Eq)]
pub struct ChainId {
    value: String,
}

impl ChainId {
    pub closed spec fn view(&self) -> Seq<char> {
        self.value@
    }

    /// Makes a chain identifier, refusing a string that breaks the identifier rules.
    pub fn new(s: &str) -> (r: Result<ChainId, IdentifierError>)
        ensures
            r is Ok <==> valid_identifier(s@),
            r is Ok ==> r->Ok_0@ == s@,
            r is Err <==> identifier_error(s@) == Some(r->Err_0),
    {
        match check_identifier(s) {
            Ok(()) => Ok(ChainId { value: String::from_str(s) }),
            Err(e) => Err(e),
        }
    }

    /// The chain identifier's text.
    pub fn as_str(&self) -> (r: &str)
        ensures
            r@ == self@,
    {
        self.value.as_str()
    }

    /// A copy of the chain identifier's text.
    pub fn to_text(&self) -> (r: String)
        ensures
            r@ == self@,
    {
        self.value.clone()
    }

    /// Another chain identifier with the same text.
    pub fn duplicate(&self) -> (r: ChainId)
        ensures
            r@ == self@,
    {
        ChainId { value: self.value.clone() }
    }
}

/// Whether two strings hold the same characters.
pub fn same_text(a: &str, b: &str) -> (r: bool)
    ensures
        r == (a@ == b@),
{
    let n = a.unicode_len();
    if n != b.unicode_len() {
        return false;
    }
    let mut i: usize = 0;
    while i < n
        invariant
            n == a@.len(),
            n == b@.len(),
            i <= n,
            forall|j: int| 0 <= j < i ==> a@[j] == b@[j],
        decreases n - i,
    {
        if a.get_char(i) != b.get_char(i) {
            return false;
        }
        i += 1;
    }
    assert(a@ =~= b@);
    true
}

} // verus!
