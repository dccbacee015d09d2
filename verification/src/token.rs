//! Access tokens and how they are shown.
//!
//! A token is a secret: wherever it is shown to a person, in a page or in a
//! log, only its first and its last four bytes appear.

use vstd::prelude::*;
use vstd::string::{StringExecFns, StringSliceAdditionalSpecFns};
use vstd::utf8::{decode_utf8, encode_utf8, is_ascii_chars, is_char_boundary, is_continuation_byte};

verus! {

/// Whether a token can be shortened: it has four bytes or more, and neither
/// the cut after the first four nor the cut before the last four splits a
/// character.
pub open spec fn spec_can_simplify(token: Seq<char>) -> bool {
    let bytes = encode_utf8(token);
    &&& bytes.len() >= 4
    &&& is_char_boundary(bytes, 4)
    &&& is_char_boundary(bytes, bytes.len() - 4)
}

/// The short form of a token: its first four bytes, three dots, its last
/// four bytes.
pub open spec fn spec_simplify_token(token: Seq<char>) -> Seq<char> {
    let bytes = encode_utf8(token);
    decode_utf8(bytes.subrange(0, 4)) + "..."@ + decode_utf8(
        bytes.subrange(bytes.len() - 4, bytes.len() as int),
    )
}

/// Returns the short form of `token`, which shows only its first and last
/// four bytes.
pub fn simplify_token_string(token: &str) -> (result: String)
    requires
        spec_can_simplify(token@),
    ensures
        result@ == spec_simplify_token(token@),
{
    broadcast use vstd::utf8::encode_utf8_decode_utf8;

    let n: usize = token.as_bytes().len();
    let (head, _) = token.split_at(4);
    let (_, tail) = token.split_at(n - 4);
    let mut result: String = String::new();
    result.append(head);
    result.append("...");
    result.append(tail);
    result
}

/// Something that holds a token.
pub trait Token {
    /// The token in full.
    spec fn spec_full_token(&self) -> Seq<char>;

    /// The token in full.
    fn full_token<'a>(&'a self) -> (token: &'a str)
        ensures
            token@ == self.spec_full_token(),
    ;

    /// The token's short form.
    fn simplified(&self) -> (short: String)
        requires
            spec_can_simplify(self.spec_full_token()),
        ensures
            short@ == spec_simplify_token(self.spec_full_token()),
    {
        simplify_token_string(self.full_token())
    }
}

/// A token as it was handed in: nothing is known of its validity.
pub struct DbToken(pub String);

impl Token for DbToken {
    open spec fn spec_full_token(&self) -> Seq<char> {
        self.0@
    }

    fn full_token<'a>(&'a self) -> (token: &'a str) {
        self.0.as_str()
    }
}

impl DbToken {
    /// The token as it is shown to a person: its short form in angle
    /// brackets.
    pub fn to_string(&self) -> (shown: String)
        requires
            spec_can_simplify(self.spec_full_token()),
        ensures
            shown@ == "<"@ + spec_simplify_token(self.spec_full_token()) + ">"@,
    {
        let mut shown: String = String::from_str("<");
        shown.append(self.simplified().as_str());
        shown.append(">");
        shown
    }
}

/// A token that was found among the tokens that may write. The unit field
/// is private, so that only [`ValidDbToken::from_count`] makes one.
pub struct ValidDbToken(pub DbToken, ());

impl Token for ValidDbToken {
    closed spec fn spec_full_token(&self) -> Seq<char> {
        self.0.spec_full_token()
    }

    fn full_token<'a>(&'a self) -> (token: &'a str) {
        self.0.full_token()
    }
}

impl ValidDbToken {
    /// Accepts `token` where the store holds it: `count` is the number of
    /// stored tokens equal to it.
    pub fn from_count(token: DbToken, count: i64) -> (valid: Option<Self>)
        ensures
            valid is Some <==> count != 0,
            valid is Some ==> valid->0.spec_full_token() == token.spec_full_token(),
    {
        if count == 0 {
            None
        } else {
            Some(ValidDbToken(token, ()))
        }
    }

    /// The token as it is shown to a person: its short form in angle
    /// brackets.
    pub fn to_string(&self) -> (shown: String)
        requires
            spec_can_simplify(self.spec_full_token()),
        ensures
            shown@ == "<"@ + spec_simplify_token(self.spec_full_token()) + ">"@,
    {
        self.0.to_string()
    }
}

/// A token that was found among the tokens that may read, and has not
/// expired. The unit field is private, so that only
/// [`ValidViewToken::from_count`] makes one.
pub struct ValidViewToken(pub DbToken, ());

impl Token for ValidViewToken {
    closed spec fn spec_full_token(&self) -> Seq<char> {
        self.0.spec_full_token()
    }

    fn full_token<'a>(&'a self) -> (token: &'a str) {
        self.0.full_token()
    }
}

impl ValidViewToken {
    /// Accepts `token` where the store holds it: `count` is the number of
    /// stored view tokens equal to it that have not expired.
    pub fn from_count(token: DbToken, count: i64) -> (valid: Option<Self>)
        ensures
            valid is Some <==> count != 0,
            valid is Some ==> valid->0.spec_full_token() == token.spec_full_token(),
    {
        if count == 0 {
            None
        } else {
            Some(ValidViewToken(token, ()))
        }
    }

    /// The token as it is shown to a person: its short form in angle
    /// brackets.
    pub fn to_string(&self) -> (shown: String)
        requires
            spec_can_simplify(self.spec_full_token()),
        ensures
            shown@ == "<"@ + spec_simplify_token(self.spec_full_token()) + ">"@,
    {
        self.0.to_string()
    }
}

/// Every token of four or more characters, all of them ASCII, can be
/// shortened, and its short form is its first four characters, three dots
/// and its last four characters.
pub proof fn lemma_ascii_token_short_form(token: Seq<char>)
    requires
        is_ascii_chars(token),
        token.len() >= 4,
    ensures
        spec_can_simplify(token),
        spec_simplify_token(token) == token.subrange(0, 4) + "..."@ + token.subrange(
            token.len() - 4,
            token.len() as int,
        ),
{
    broadcast use vstd::utf8::group_utf8_lib;

    let bytes = encode_utf8(token);
    let n = token.len() as int;
    let head = token.subrange(0, 4);
    let tail = token.subrange(n - 4, n);
    assert(is_ascii_chars(head));
    assert(is_ascii_chars(tail));
    assert forall|i: int| 0 <= i < n implies !is_continuation_byte(#[trigger] bytes[i]) by {
        let b = bytes[i];
        assert(!is_continuation_byte(b)) by (bit_vector)
            requires
                b < 128,
        ;
    }
    assert(is_char_boundary(bytes, 4)) by {
        if n > 4 {
            assert(!is_continuation_byte(bytes[4]));
        }
    }
    assert(is_char_boundary(bytes, n - 4));
    assert(encode_utf8(head) =~= bytes.subrange(0, 4));
    assert(encode_utf8(tail) =~= bytes.subrange(n - 4, n));
}

} // verus!
