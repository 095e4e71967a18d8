use crate::text::joined;
use vstd::prelude::*;
use vstd::string::StrSliceExecFns;

verus! {

/// A name has at most this many characters.
pub const MAX_NAME_LENGTH: usize = 256;

/// The characters that may not stand in a name.
pub open spec fn is_forbidden_in_name(c: char) -> bool {
    c == '/' || c == '(' || c == ')' || c == '"' || c == '<' || c == '>' || c == '\\' || c == '{'
        || c == '}'
}

/// Blanks, tabs and line ends.
pub open spec fn is_blank(c: char) -> bool {
    c == ' ' || c == '\t' || c == '\n' || c == '\r'
}

/// `text` is a valid name: it has a character that is not blank, no more
/// than `MAX_NAME_LENGTH` characters, and no forbidden character.
pub open spec fn is_valid_name(text: Seq<char>) -> bool {
    &&& exists|i: int| 0 <= i < text.len() && !is_blank(#[trigger] text[i])
    &&& text.len() <= MAX_NAME_LENGTH
    &&& forall|i: int| 0 <= i < text.len() ==> !is_forbidden_in_name(#[trigger] text[i])
}

/// The message that a rejected name is reported with.
pub open spec fn invalid_name_reason(text: Seq<char>) -> Seq<char> {
    text + " is not a valid subscriber name."@
}

/// The name of a subscriber, validated.
#[derive(Debug)]
pub struct SubscriberName {
    name: String,
}

impl View for SubscriberName {
    type V = Seq<char>;

    closed spec fn view(&self) -> Seq<char> {
        self.name@
    }
}

impl Clone for SubscriberName {
    fn clone(&self) -> (copy: Self)
        ensures
            copy@ == self@,
    {
        proof {
            use_type_invariant(self);
        }
        SubscriberName { name: self.name.clone() }
    }
}

impl SubscriberName {
    #[verifier::type_invariant]
    spec fn valid(&self) -> bool {
        is_valid_name(self.name@)
    }

    /// Validates `s`. A valid name is kept letter for letter.
    pub fn parse(s: String) -> (parsed: Result<SubscriberName, String>)
        ensures
            parsed is Ok <==> is_valid_name(s@),
            parsed matches Ok(name) ==> name@ == s@,
            parsed matches Err(reason) ==> reason@ == invalid_name_reason(s@),
    {
        let length: usize = s.as_str().unicode_len();
        let mut has_visible = false;
        let mut acceptable = length <= MAX_NAME_LENGTH;
        let mut i: usize = 0;
        while acceptable && i < length
            invariant
                length == s@.len(),
                i <= length,
                acceptable ==> length <= MAX_NAME_LENGTH,
                acceptable ==> forall|j: int| 0 <= j < i ==> !is_forbidden_in_name(#[trigger] s@[j]),
                !acceptable ==> !is_valid_name(s@),
                has_visible <==> exists|j: int| 0 <= j < i && !is_blank(#[trigger] s@[j]),
            decreases length - i,
        {
            let c = s.as_str().get_char(i);
            if c == '/' || c == '(' || c == ')' || c == '"' || c == '<' || c == '>' || c == '\\' || c
                == '{' || c == '}' {
                assert(is_forbidden_in_name(s@[i as int]));
                acceptable = false;
            }
            if !(c == ' ' || c == '\t' || c == '\n' || c == '\r') {
                assert(!is_blank(s@[i as int]));
                has_visible = true;
            }
            i += 1;
        }
        if acceptable && has_visible {
            Ok(SubscriberName { name: s })
        } else {
            Err(joined(s.as_str(), " is not a valid subscriber name."))
        }
    }

    /// The name as text. Every value of this type holds a valid name.
    pub fn as_ref(&self) -> (name: &str)
        ensures
            name@ == self@,
            is_valid_name(self@),
    {
        proof {
            use_type_invariant(self);
        }
        self.name.as_str()
    }
}

} // verus!
