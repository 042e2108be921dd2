use proc_macro2::TokenStream;
use vstd::prelude::*;

verus! {

/// The literal on the right of a `name = literal` directive.
pub enum Lit {
    /// An integer literal, by its base-10 digits (suffix left out).
    Int(String),
    /// A boolean literal.
    Bool(bool),
    /// Any other literal.
    Other,
}

/// One directive attached to a declaration, with the tokens that locate it.
pub enum Directive {
    /// A bare name, such as `default`.
    Path { name: String, tokens: TokenStream },
    /// `name = literal`; `tokens` locate the literal.
    NameValue { name: String, lit: Lit, tokens: TokenStream },
    /// Any other shape, such as a list.
    Other { tokens: TokenStream },
}

/// Whether `c` is an ASCII decimal digit.
pub open spec fn is_digit(c: char) -> bool {
    '0' <= c && c <= '9'
}

/// The value of the decimal digit `c`.
pub open spec fn digit_value(c: char) -> nat {
    (c as nat - '0' as nat) as nat
}

/// The number the decimal digits `s` spell.
pub open spec fn decimal_value(s: Seq<char>) -> nat
    decreases s.len(),
{
    if s.len() == 0 {
        0
    } else {
        decimal_value(s.drop_last()) * 10 + digit_value(s.last())
    }
}

/// The unsigned 32-bit number that `s` spells in decimal, if `s` is a
/// non-empty run of digits whose value fits.
pub open spec fn decimal_u32(s: Seq<char>) -> Option<u32> {
    if s.len() > 0 && (forall|i: int| 0 <= i < s.len() ==> is_digit(#[trigger] s[i]))
        && decimal_value(s) <= u32::MAX {
        Some(decimal_value(s) as u32)
    } else {
        None
    }
}

/// A longer run of digits never spells a smaller number.
proof fn lemma_decimal_value_grows(s: Seq<char>, i: int)
    requires
        0 <= i <= s.len(),
    ensures
        decimal_value(s.take(i)) <= decimal_value(s),
    decreases s.len() - i,
{
    if i < s.len() {
        lemma_decimal_value_grows(s, i + 1);
        assert(s.take(i + 1).drop_last() =~= s.take(i));
    } else {
        assert(s.take(i) =~= s);
    }
}

/// Reads the decimal digits of an integer literal as an unsigned 32-bit
/// number; `None` when they do not form one.
pub fn parse_u32_digits(digits: &str) -> (r: Option<u32>)
    ensures
        r == decimal_u32(digits@),
{
    let n = digits.unicode_len();
    if n == 0 {
        return None;
    }
    let mut value: u32 = 0;
    let mut i: usize = 0;
    while i < n
        invariant
            n == digits@.len(),
            i <= n,
            value as nat == decimal_value(digits@.take(i as int)),
            forall|j: int| 0 <= j < i ==> is_digit(#[trigger] digits@[j]),
        decreases n - i,
    {
        let c = digits.get_char(i);
        assert(digits@.take(i as int + 1).drop_last() =~= digits@.take(i as int));
        if c < '0' || c > '9' {
            return None;
        }
        let d = (c as u32) - ('0' as u32);
        if value > (u32::MAX - d) / 10 {
            proof {
                lemma_decimal_value_grows(digits@, i as int + 1);
            }
            return None;
        }
        value = value * 10 + d;
        i = i + 1;
    }
    assert(digits@.take(n as int) =~= digits@);
    Some(value)
}

impl Directive {
    /// The tokens that locate this directive.
    pub open spec fn tokens_view(self) -> TokenStream {
        match self {
            Directive::Path { tokens, .. } => tokens,
            Directive::NameValue { tokens, .. } => tokens,
            Directive::Other { tokens } => tokens,
        }
    }

    /// Gives up the directive for the tokens that locate it.
    pub fn into_tokens(self) -> (r: TokenStream)
        ensures
            r == self.tokens_view(),
    {
        match self {
            Directive::Path { tokens, .. } => tokens,
            Directive::NameValue { tokens, .. } => tokens,
            Directive::Other { tokens } => tokens,
        }
    }
}

/// Whether `name` is spelled `expected`.
pub fn name_is(name: &String, expected: &str) -> (r: bool)
    ensures
        r == (name@ == expected@),
{
    let expected = String::from_str(expected);
    *name == expected
}

} // verus!
