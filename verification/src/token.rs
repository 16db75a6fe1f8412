use crate::random::{is_version_4, random_uuid};
use vstd::prelude::*;
use vstd::std_specs::cmp::PartialEqSpecImpl;
use vstd::string::StringExecFns;

verus! {

/// The number of characters of a confirmation token.
pub const TOKEN_LENGTH: usize = 64;

/// The digits of a token: `0` to `9` and `a` to `f`.
pub open spec fn is_lower_hex(c: char) -> bool {
    ('0' <= c && c <= '9') || ('a' <= c && c <= 'f')
}

/// What makes a text a confirmation token: 64 lower-case hexadecimal digits.
pub open spec fn well_formed_token(s: Seq<char>) -> bool {
    &&& s.len() == TOKEN_LENGTH
    &&& forall|i: int| 0 <= i < s.len() ==> is_lower_hex(#[trigger] s[i])
}

/// The digit that stands for a value below 16.
pub open spec fn hex_digit(n: u128) -> char {
    if n < 10 {
        ('0' as u8 + n) as char
    } else {
        ('a' as u8 + (n - 10)) as char
    }
}

/// The 32 hexadecimal digits of `bits`, the most significant first.
pub open spec fn hex_of(bits: u128) -> Seq<char> {
    Seq::new(32, |i: int| hex_digit((bits >> (4 * (31 - i)) as u128) & 0xf))
}

/// The text of the token drawn from the 256 bits `high` and `low`.
pub open spec fn token_text(high: u128, low: u128) -> Seq<char> {
    hex_of(high) + hex_of(low)
}

fn digit_text(n: u128) -> (digit: &'static str)
    requires
        n < 16,
    ensures
        digit@ == seq![hex_digit(n)],
{
    proof {
        reveal_strlit("0");
        reveal_strlit("1");
        reveal_strlit("2");
        reveal_strlit("3");
        reveal_strlit("4");
        reveal_strlit("5");
        reveal_strlit("6");
        reveal_strlit("7");
        reveal_strlit("8");
        reveal_strlit("9");
        reveal_strlit("a");
        reveal_strlit("b");
        reveal_strlit("c");
        reveal_strlit("d");
        reveal_strlit("e");
        reveal_strlit("f");
    }
    let digit = if n == 0 {
        "0"
    } else if n == 1 {
        "1"
    } else if n == 2 {
        "2"
    } else if n == 3 {
        "3"
    } else if n == 4 {
        "4"
    } else if n == 5 {
        "5"
    } else if n == 6 {
        "6"
    } else if n == 7 {
        "7"
    } else if n == 8 {
        "8"
    } else if n == 9 {
        "9"
    } else if n == 10 {
        "a"
    } else if n == 11 {
        "b"
    } else if n == 12 {
        "c"
    } else if n == 13 {
        "d"
    } else if n == 14 {
        "e"
    } else {
        "f"
    };
    digit
}

/// Appends the 32 hexadecimal digits of `bits` to `text`.
fn push_hex(text: &mut String, bits: u128)
    ensures
        final(text)@ == old(text)@ + hex_of(bits),
{
    let mut i: u32 = 0;
    while i < 32
        invariant
            i <= 32,
            text@ == old(text)@ + hex_of(bits).take(i as int),
        decreases 32 - i,
    {
        let shift: u32 = 4 * (31 - i);
        let nibble: u128 = (bits >> shift) & 0xf;
        assert(nibble < 16) by (bit_vector)
            requires
                nibble == (bits >> shift) & 0xf,
        ;
        let digit = digit_text(nibble);
        text.append(digit);
        proof {
            assert(hex_of(bits).take(i + 1) =~= hex_of(bits).take(i as int) + seq![
                hex_digit(nibble),
            ]);
        }
        i += 1;
    }
}

/// Every rendering of 256 bits is a well-formed token.
pub proof fn lemma_token_text_well_formed(high: u128, low: u128)
    ensures
        well_formed_token(token_text(high, low)),
{
    let text = token_text(high, low);
    assert forall|i: int| 0 <= i < text.len() implies is_lower_hex(#[trigger] text[i]) by {
        let bits = if i < 32 { high } else { low };
        let k = if i < 32 { i } else { i - 32 };
        let shift = (4 * (31 - k)) as u128;
        let nibble = (bits >> shift) & 0xf;
        assert(nibble < 16) by (bit_vector)
            requires
                nibble == (bits >> shift) & 0xf,
        ;
    }
}

/// The number whose lowest `4 * k` bits are set, and no other.
spec fn low_mask(k: nat) -> u128
    decreases k,
{
    if k == 0 {
        0
    } else {
        (low_mask((k - 1) as nat) << 4) | 0xf
    }
}

/// Numbers whose hexadecimal digits agree, agree in their lowest `4 * k` bits.
proof fn lemma_low_bits_agree(a: u128, b: u128, k: nat)
    requires
        hex_of(a) == hex_of(b),
        k <= 32,
    ensures
        a & low_mask(k) == b & low_mask(k),
        k < 32 ==> low_mask(k) == !(u128::MAX << (4 * k) as u128),
        k == 32 ==> low_mask(k) == u128::MAX,
    decreases k,
{
    if k == 0 {
        assert(a & 0 == b & 0 && 0 == !(0xffff_ffff_ffff_ffff_ffff_ffff_ffff_ffffu128 << 0))
            by (bit_vector);
    } else {
        lemma_low_bits_agree(a, b, (k - 1) as nat);
        let mask = low_mask((k - 1) as nat);
        let shift = (4 * (k - 1)) as u128;
        let x = (a >> shift) & 0xf;
        let y = (b >> shift) & 0xf;
        assert(x < 16 && y < 16) by (bit_vector)
            requires
                x == (a >> shift) & 0xf,
                y == (b >> shift) & 0xf,
        ;
        // The digit at position `32 - k` stands for these four bits.
        assert(hex_of(a)[32 - k] == hex_digit(x));
        assert(hex_of(b)[32 - k] == hex_digit(y));
        assert(x == y);
        assert({
            &&& a & ((mask << 4) | 0xf) == b & ((mask << 4) | 0xf)
            &&& shift < 124 ==> (mask << 4) | 0xf == !(0xffff_ffff_ffff_ffff_ffff_ffff_ffff_ffffu128
                << (shift + 4) as u128)
            &&& shift == 124 ==> (mask << 4) | 0xf == 0xffff_ffff_ffff_ffff_ffff_ffff_ffff_ffff
        }) by (bit_vector)
            requires
                a & mask == b & mask,
                (a >> shift) & 0xf == (b >> shift) & 0xf,
                mask == !(0xffff_ffff_ffff_ffff_ffff_ffff_ffff_ffffu128 << shift),
                shift <= 124,
                shift % 4 == 0,
        ;
    }
}

/// Numbers whose hexadecimal digits agree are one number.
proof fn lemma_hex_of_is_injective(a: u128, b: u128)
    requires
        hex_of(a) == hex_of(b),
    ensures
        a == b,
{
    lemma_low_bits_agree(a, b, 32);
    assert(a == b) by (bit_vector)
        requires
            a & 0xffff_ffff_ffff_ffff_ffff_ffff_ffff_ffff == b
                & 0xffff_ffff_ffff_ffff_ffff_ffff_ffff_ffff,
    ;
}

/// Different bits make different tokens: nothing of `high` and `low` is lost
/// in the text.
pub proof fn lemma_token_text_is_injective(
    high: u128,
    low: u128,
    other_high: u128,
    other_low: u128,
)
    requires
        token_text(high, low) == token_text(other_high, other_low),
    ensures
        high == other_high,
        low == other_low,
{
    let text = token_text(high, low);
    let other = token_text(other_high, other_low);
    assert(hex_of(high) =~= text.subrange(0, 32));
    assert(hex_of(other_high) =~= other.subrange(0, 32));
    assert(hex_of(low) =~= text.subrange(32, 64));
    assert(hex_of(other_low) =~= other.subrange(32, 64));
    lemma_hex_of_is_injective(high, other_high);
    lemma_hex_of_is_injective(low, other_low);
}

/// A confirmation token: 64 lower-case hexadecimal digits. One is made from
/// 256 bits, or parsed from a text of that form.
#[derive(Debug)]
pub struct Token(String);

impl View for Token {
    type V = Seq<char>;

    closed spec fn view(&self) -> Seq<char> {
        self.0@
    }
}

impl Clone for Token {
    fn clone(&self) -> (copy: Self)
        ensures
            copy@ == self@,
    {
        proof {
            use_type_invariant(self);
        }
        Token(self.0.clone())
    }
}

impl PartialEq for Token {
    fn eq(&self, other: &Self) -> (same: bool) {
        self.0 == other.0
    }
}

impl Eq for Token {

}

/// Two values are equal when their texts are.
impl PartialEqSpecImpl for Token {
    open spec fn obeys_eq_spec() -> bool {
        true
    }

    open spec fn eq_spec(&self, other: &Self) -> bool {
        self@ == other@
    }
}

impl Token {
    /// What holds of every token that a program can have in its hands.
    #[verifier::type_invariant]
    pub open spec fn is_valid(self) -> bool {
        well_formed_token(self@)
    }

    /// The token whose digits are those of `high`, then those of `low`.
    pub fn from_entropy(high: u128, low: u128) -> (token: Token)
        ensures
            token@ == token_text(high, low),
    {
        let mut text = String::new();
        push_hex(&mut text, high);
        push_hex(&mut text, low);
        proof {
            lemma_token_text_well_formed(high, low);
        }
        Token(text)
    }

    /// A token drawn from two random version-4 UUIDs, which hold 244 random
    /// bits between them.
    pub fn generate() -> (token: Token)
        ensures
            well_formed_token(token@),
            exists|high: u128, low: u128|
                is_version_4(high) && is_version_4(low) && token@ == #[trigger] token_text(
                    high,
                    low,
                ),
    {
        let high = random_uuid();
        let low = random_uuid();
        proof {
            lemma_token_text_well_formed(high, low);
        }
        Token::from_entropy(high, low)
    }

    /// Reads `raw` as a token: `Some` where it is well formed, with the same
    /// text, and `None` where it is not.
    pub fn parse(raw: &str) -> (r: Option<Token>)
        ensures
            r is Some <==> well_formed_token(raw@),
            r matches Some(token) ==> token@ == raw@,
    {
        let mut count: usize = 0;
        let mut digits_only = true;
        for c in it: raw.chars()
            invariant
                it.seq() == raw@,
                count == if it.index() <= TOKEN_LENGTH { it.index() } else { TOKEN_LENGTH + 1 },
                digits_only == forall|i: int|
                    0 <= i < it.index() ==> is_lower_hex(#[trigger] raw@[i]),
        {
            if count <= TOKEN_LENGTH {
                count += 1;
            }
            digits_only = digits_only && (('0' <= c && c <= '9') || ('a' <= c && c <= 'f'));
        }
        if count == TOKEN_LENGTH && digits_only {
            Some(Token(raw.to_owned()))
        } else {
            None
        }
    }
}

impl AsRef<str> for Token {
    /// The token as text.
    fn as_ref(&self) -> (s: &str)
        ensures
            s@ == self@,
            well_formed_token(s@),
    {
        proof {
            use_type_invariant(self);
        }
        self.0.as_str()
    }
}

} // verus!
