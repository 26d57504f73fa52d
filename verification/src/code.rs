//! Issuing authorization codes and token values from a cryptographically
//! secure random source.

use vstd::prelude::*;

verus! {

/// The length of an authorization code, in characters.
pub const AUTHORIZATION_CODE_LENGTH: usize = 24;

/// The length of an access or refresh token value, in characters.
pub const TOKEN_LENGTH: usize = 32;

/// `b` is the ASCII code of a letter or a digit.
pub open spec fn is_alphanumeric_byte(b: u8) -> bool {
    ||| 0x41 <= b <= 0x5a
    ||| 0x61 <= b <= 0x7a
    ||| 0x30 <= b <= 0x39
}

/// `c` is an ASCII letter or digit.
pub open spec fn is_alphanumeric(c: char) -> bool {
    c as u32 <= 0x7f && is_alphanumeric_byte(c as u8)
}

/// `text` has exactly `length` characters, each of them alphanumeric.
pub open spec fn is_alphanumeric_text(text: Seq<char>, length: nat) -> bool {
    &&& text.len() == length
    &&& forall|i: int| 0 <= i < text.len() ==> is_alphanumeric(#[trigger] text[i])
}

/// `code` has the shape of an authorization code.
pub open spec fn is_authorization_code(code: Seq<char>) -> bool {
    is_alphanumeric_text(code, AUTHORIZATION_CODE_LENGTH as nat)
}

/// `token` has the shape of a token value.
pub open spec fn is_token(token: Seq<char>) -> bool {
    is_alphanumeric_text(token, TOKEN_LENGTH as nat)
}

#[verifier::external_type_specification]
#[verifier::external_body]
pub struct ExThreadRng(rand::rngs::ThreadRng);

/// `rand::thread_rng` hands out the calling thread's generator, which the
/// operating system seeds. Nothing is claimed of it.
pub assume_specification[ rand::thread_rng ]() -> (rng: rand::rngs::ThreadRng)
;

/// `String::push` appends one character to the end of the string.
pub assume_specification[ String::push ](text: &mut String, c: char)
    ensures
        final(text)@ == old(text)@.push(c),
;

/// `Rng::sample` with the `Alphanumeric` distribution draws one byte out of
/// the 62 ASCII letters and digits. Which one is left open: two calls may
/// differ.
#[verifier::external_body]
fn sample_alphanumeric(rng: &mut rand::rngs::ThreadRng) -> (b: u8)
    ensures
        is_alphanumeric_byte(b),
{
    rand::Rng::sample(rng, rand::distributions::Alphanumeric)
}

/// Draws `length` random alphanumeric characters from `rng`.
fn random_text(rng: &mut rand::rngs::ThreadRng, length: usize) -> (text: String)
    ensures
        is_alphanumeric_text(text@, length as nat),
{
    let mut text = String::new();
    let mut drawn: usize = 0;
    while drawn < length
        invariant
            drawn <= length,
            is_alphanumeric_text(text@, drawn as nat),
        decreases length - drawn,
    {
        let b = sample_alphanumeric(rng);
        text.push(b as char);
        drawn += 1;
    }
    text
}

/// Generates a fresh authorization code: 24 random alphanumeric
/// characters. Whether a code is already in use is for the store of grants
/// to say.
pub fn generate_authorization_code() -> (code: String)
    ensures
        is_authorization_code(code@),
{
    let mut rng = rand::thread_rng();
    random_text(&mut rng, AUTHORIZATION_CODE_LENGTH)
}

/// Generates a fresh access or refresh token value: 32 random alphanumeric
/// characters, drawn independently of any authorization code.
pub fn generate_token() -> (token: String)
    ensures
        is_token(token@),
{
    let mut rng = rand::thread_rng();
    random_text(&mut rng, TOKEN_LENGTH)
}

/// A source of authorization codes.
///
/// An issuer whose type says `well_formed()` hands out nothing but codes of
/// the right shape. One that is implemented in unverified code leaves it as
/// it is here, and nothing is known of its codes.
pub trait CodeIssuer {
    /// Whether every code that is issued has the shape of an authorization
    /// code.
    open spec fn well_formed() -> bool {
        false
    }

    /// Issues a fresh authorization code.
    fn issue_code(&mut self) -> (code: String)
        ensures
            Self::well_formed() ==> is_authorization_code(code@),
    ;
}

/// A source of access and refresh token values.
///
/// An issuer whose type says `well_formed()` hands out nothing but values of
/// the right shape. One that is implemented in unverified code leaves it as
/// it is here, and nothing is known of its values.
pub trait TokenIssuer {
    /// Whether every value that is issued has the shape of a token.
    open spec fn well_formed() -> bool {
        false
    }

    /// Issues a fresh token value.
    fn issue_token(&mut self) -> (token: String)
        ensures
            Self::well_formed() ==> is_token(token@),
    ;
}

/// Issues codes and tokens from the calling thread's cryptographically
/// secure random number generator.
pub struct RandomIssuer {
    rng: rand::rngs::ThreadRng,
}

impl RandomIssuer {
    /// An issuer on the calling thread's generator.
    pub fn new() -> RandomIssuer {
        RandomIssuer { rng: rand::thread_rng() }
    }
}

impl CodeIssuer for RandomIssuer {
    open spec fn well_formed() -> bool {
        true
    }

    fn issue_code(&mut self) -> (code: String) {
        random_text(&mut self.rng, AUTHORIZATION_CODE_LENGTH)
    }
}

impl TokenIssuer for RandomIssuer {
    open spec fn well_formed() -> bool {
        true
    }

    fn issue_token(&mut self) -> (token: String) {
        random_text(&mut self.rng, TOKEN_LENGTH)
    }
}

} // verus!
