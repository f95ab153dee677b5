//! The fixed registry of character classes and their alphabets.
use vstd::prelude::*;

verus! {

/// A class of symbols that a password may draw from.
#[derive(Clone, Copy, Debug, PartialEq, Eq, Structural)]
pub enum CharClass {
    Lowercase,
    Uppercase,
    Digit,
    Symbol,
    /// A smaller set of symbols, for forms that reject most special characters.
    SymbolVariant,
}

/// The full symbol alphabet, in its fixed order:
/// `! " # $ % & ' ( ) - = ^ ~ \ | @ ` [ ] { } ; : + * , . / _ < > ?`
pub open spec fn symbol_seq() -> Seq<u8> {
    seq![
        33, 34, 35, 36, 37, 38, 39, 40, 41, 45, 61, 94, 126, 92,
        124, 64, 96, 91, 93, 123, 125, 59, 58, 43, 42, 44, 46, 47,
        95, 60, 62, 63,
    ]
}

/// The restricted symbol alphabet, in its fixed order: `@ # $ % ^ * ( ) _ + = & -`
pub open spec fn symbol_variant_seq() -> Seq<u8> {
    seq![64, 35, 36, 37, 94, 42, 40, 41, 95, 43, 61, 38, 45]
}

/// The alphabet of a class, as an ordered sequence of bytes.
pub open spec fn alphabet_of(c: CharClass) -> Seq<u8> {
    match c {
        CharClass::Lowercase => Seq::new(26, |i: int| (97 + i) as u8),
        CharClass::Uppercase => Seq::new(26, |i: int| (65 + i) as u8),
        CharClass::Digit => Seq::new(10, |i: int| (48 + i) as u8),
        CharClass::Symbol => symbol_seq(),
        CharClass::SymbolVariant => symbol_variant_seq(),
    }
}

/// Whether `b` belongs to the alphabet of `c`.
pub open spec fn in_class(c: CharClass, b: u8) -> bool {
    alphabet_of(c).contains(b)
}

/// Membership in the letter and digit classes is a range of byte values.
pub proof fn lemma_range_classes(b: u8)
    ensures
        in_class(CharClass::Lowercase, b) <==> 97 <= b <= 122,
        in_class(CharClass::Uppercase, b) <==> 65 <= b <= 90,
        in_class(CharClass::Digit, b) <==> 48 <= b <= 57,
{
    if 97 <= b <= 122 {
        assert(alphabet_of(CharClass::Lowercase)[b - 97] == b);
    }
    if 65 <= b <= 90 {
        assert(alphabet_of(CharClass::Uppercase)[b - 65] == b);
    }
    if 48 <= b <= 57 {
        assert(alphabet_of(CharClass::Digit)[b - 48] == b);
    }
}

/// Builds the bytes `first, first + 1, ..., first + n - 1`.
fn byte_range(first: u8, n: u8) -> (r: Vec<u8>)
    requires
        first + n <= 256,
    ensures
        r@ == Seq::new(n as nat, |i: int| (first + i) as u8),
{
    let mut r: Vec<u8> = Vec::new();
    let mut k: u8 = 0;
    while k < n
        invariant
            k <= n,
            first + n <= 256,
            r@ == Seq::new(k as nat, |i: int| (first + i) as u8),
        decreases n - k,
    {
        r.push(first + k);
        k = k + 1;
    }
    r
}

/// The alphabet of a class.
pub fn alphabet(c: CharClass) -> (r: Vec<u8>)
    ensures
        r@ == alphabet_of(c),
        r@.len() > 0,
{
    match c {
        CharClass::Lowercase => byte_range(97, 26),
        CharClass::Uppercase => byte_range(65, 26),
        CharClass::Digit => byte_range(48, 10),
        CharClass::Symbol => {
            let r = vec![
                33, 34, 35, 36, 37, 38, 39, 40, 41, 45, 61, 94, 126,
                92, 124, 64, 96, 91, 93, 123, 125, 59, 58, 43, 42, 44,
                46, 47, 95, 60, 62, 63,
            ];
            assert(r@ =~= symbol_seq());
            r
        },
        CharClass::SymbolVariant => {
            let r = vec![64, 35, 36, 37, 94, 42, 40, 41, 95, 43, 61, 38, 45];
            assert(r@ =~= symbol_variant_seq());
            r
        },
    }
}

/// Whether `b` is an ASCII punctuation byte, neither a letter nor a digit.
pub open spec fn is_punctuation(b: u8) -> bool {
    ||| 33 <= b <= 47
    ||| 58 <= b <= 64
    ||| 91 <= b <= 96
    ||| 123 <= b <= 126
}

/// Both symbol alphabets hold punctuation only.
proof fn lemma_symbols_are_punctuation(b: u8)
    requires
        in_class(CharClass::Symbol, b) || in_class(CharClass::SymbolVariant, b),
    ensures
        is_punctuation(b),
{
    let s = symbol_seq();
    let t = symbol_variant_seq();
    assert forall|i: int| 0 <= i < s.len() implies is_punctuation(#[trigger] s[i]) by {
    }
    assert forall|i: int| 0 <= i < t.len() implies is_punctuation(#[trigger] t[i]) by {
    }
}

/// Whether `c` is one of the two symbol classes.
pub open spec fn is_symbol_class(c: CharClass) -> bool {
    c == CharClass::Symbol || c == CharClass::SymbolVariant
}

/// Two different classes share no symbol, unless both are symbol classes.
pub proof fn lemma_classes_disjoint(c: CharClass, d: CharClass, b: u8)
    requires
        c != d,
        !(is_symbol_class(c) && is_symbol_class(d)),
        in_class(c, b),
    ensures
        !in_class(d, b),
{
    lemma_range_classes(b);
    if is_symbol_class(c) {
        lemma_symbols_are_punctuation(b);
    }
    if is_symbol_class(d) && in_class(d, b) {
        lemma_symbols_are_punctuation(b);
    }
}

} // verus!
