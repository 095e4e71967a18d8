use vstd::prelude::*;
use vstd::string::StrSliceExecFns;
use vstd::string::StringExecFns;

verus! {

/// A key has fewer characters than this.
pub const MAX_KEY_LENGTH: usize = 50;

/// The characters a key is made of: ASCII letters and digits, `-` and `_`.
pub open spec fn is_key_char(c: char) -> bool {
    let code = c as u32;
    ||| 0x30 <= code <= 0x39
    ||| 0x41 <= code <= 0x5a
    ||| 0x61 <= code <= 0x7a
    ||| c == '-'
    ||| c == '_'
}

/// Every character of `text` may stand in a key.
pub open spec fn only_key_chars(text: Seq<char>) -> bool {
    forall|i: int| 0 <= i < text.len() ==> is_key_char(#[trigger] text[i])
}

/// `text` is a well-formed idempotency key: not empty, shorter than
/// `MAX_KEY_LENGTH` characters, and made of key characters only.
pub open spec fn is_valid_key(text: Seq<char>) -> bool {
    &&& 0 < text.len() < MAX_KEY_LENGTH
    &&& only_key_chars(text)
}

/// Why a string is no idempotency key.
#[derive(Debug, Clone, Copy, PartialEq, Eq, Structural)]
pub enum KeyError {
    /// The string is empty.
    Empty,
    /// The string has `MAX_KEY_LENGTH` characters or more.
    TooLong,
    /// The string holds a character that is no key character.
    ForbiddenCharacter,
}

/// The error that `text` is turned down with, if any. Emptiness is reported
/// first, then the length, then the characters.
pub open spec fn key_rejection(text: Seq<char>) -> Option<KeyError> {
    if text.len() == 0 {
        Some(KeyError::Empty)
    } else if text.len() >= MAX_KEY_LENGTH {
        Some(KeyError::TooLong)
    } else if !only_key_chars(text) {
        Some(KeyError::ForbiddenCharacter)
    } else {
        None
    }
}

impl KeyError {
    /// The sentence shown to the client.
    pub fn message(&self) -> (text: String)
        ensures
            text@ == match *self {
                KeyError::Empty => "The idempotency key cannot be empty"@,
                KeyError::TooLong => "The idempotency key must be shorter than 50 characters"@,
                KeyError::ForbiddenCharacter =>
                    "The idempotency key may only contain letters, digits, '-' and '_'"@,
            },
    {
        match self {
            KeyError::Empty => String::from_str("The idempotency key cannot be empty"),
            KeyError::TooLong => String::from_str(
                "The idempotency key must be shorter than 50 characters",
            ),
            KeyError::ForbiddenCharacter => String::from_str(
                "The idempotency key may only contain letters, digits, '-' and '_'",
            ),
        }
    }
}

/// Tells whether `c` is a key character.
pub fn check_key_char(c: char) -> (allowed: bool)
    ensures
        allowed == is_key_char(c),
{
    let code: u32 = c as u32;
    (0x30 <= code && code <= 0x39) || (0x41 <= code && code <= 0x5a) || (0x61 <= code && code
        <= 0x7a) || c == '-' || c == '_'
}

/// A client-supplied token that names one logical publish operation.
#[derive(Debug)]
pub struct IdempotencyKey {
    text: String,
}

impl View for IdempotencyKey {
    type V = Seq<char>;

    closed spec fn view(&self) -> Seq<char> {
        self.text@
    }
}

impl Clone for IdempotencyKey {
    fn clone(&self) -> (copy: Self)
        ensures
            copy@ == self@,
    {
        proof {
            use_type_invariant(self);
        }
        IdempotencyKey { text: self.text.clone() }
    }
}

impl IdempotencyKey {
    #[verifier::type_invariant]
    spec fn well_formed(&self) -> bool {
        is_valid_key(self.text@)
    }

    /// Checks the syntax of `s`. A well-formed string becomes a key that
    /// holds it unchanged; any other is turned down with the first rule
    /// that it breaks.
    pub fn parse(s: String) -> (parsed: Result<IdempotencyKey, KeyError>)
        ensures
            parsed is Ok <==> is_valid_key(s@),
            parsed matches Ok(key) ==> key@ == s@,
            parsed matches Err(e) ==> key_rejection(s@) == Some(e),
    {
        let length: usize = s.as_str().unicode_len();
        if length == 0 {
            return Err(KeyError::Empty);
        }
        if length >= MAX_KEY_LENGTH {
            return Err(KeyError::TooLong);
        }
        let mut i: usize = 0;
        while i < length
            invariant
                length == s@.len(),
                0 < length < MAX_KEY_LENGTH,
                i <= length,
                forall|j: int| 0 <= j < i ==> is_key_char(#[trigger] s@[j]),
            decreases length - i,
        {
            let c = s.as_str().get_char(i);
            if !check_key_char(c) {
                assert(!is_key_char(s@[i as int]));
                return Err(KeyError::ForbiddenCharacter);
            }
            i += 1;
        }
        Ok(IdempotencyKey { text: s })
    }

    /// The key as text. Every value of this type holds a well-formed key.
    pub fn as_ref(&self) -> (text: &str)
        ensures
            text@ == self@,
            is_valid_key(self@),
    {
        proof {
            use_type_invariant(self);
        }
        self.text.as_str()
    }

    /// Whether two keys hold the same text.
    pub fn same_as(&self, other: &IdempotencyKey) -> (same: bool)
        ensures
            same == (self@ == other@),
    {
        self.text == other.text
    }
}

} // verus!
