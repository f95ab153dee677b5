//! Drawing symbols, shuffling them together, and generating passwords.
use vstd::prelude::*;
use rand::rngs::StdRng;
use rand::seq::SliceRandom;
use crate::alphabet::{alphabet, alphabet_of, in_class, is_symbol_class, lemma_classes_disjoint, CharClass};
use crate::config::{ActiveClasses, PasswordSpec};
use crate::partition::{decide_num_of_extructs, GenError};

verus! {

/// rand's `StdRng`, the random source handed to every drawing function; it
/// is carried through and never looked into.
#[verifier::external_type_specification]
#[verifier::external_body]
pub struct ExStdRng(StdRng);

/// Relies on rand's `SliceRandom::choose` for slices: `None` exactly when the
/// slice is empty, otherwise one of its elements.
#[verifier::external_body]
fn choose_symbol(rng: &mut StdRng, symbols: &Vec<u8>) -> (r: Option<u8>)
    ensures
        r is Some <==> symbols@.len() > 0,
        r matches Some(b) ==> symbols@.contains(b),
{
    symbols.choose(rng).copied()
}

/// Relies on rand's `SliceRandom::shuffle` for slices: it only swaps
/// elements, so the same elements remain, as many times each.
#[verifier::external_body]
fn shuffle_in_place(rng: &mut StdRng, v: &mut Vec<u8>)
    ensures
        final(v)@.to_multiset() == old(v)@.to_multiset(),
        final(v)@.len() == old(v)@.len(),
{
    v.shuffle(rng)
}

/// Draws `length` symbols of class `class`, each uniformly and with
/// replacement.
pub fn extruct_chars_vec(rng: &mut StdRng, length: usize, class: CharClass) -> (r: Vec<u8>)
    ensures
        r@.len() == length,
        forall|i: int| 0 <= i < length ==> in_class(class, #[trigger] r@[i]),
{
    let target = alphabet(class);
    let mut v: Vec<u8> = Vec::new();
    let mut k: usize = 0;
    while k < length
        invariant
            k <= length,
            target@ == alphabet_of(class),
            target@.len() > 0,
            v@.len() == k,
            forall|i: int| 0 <= i < k ==> in_class(class, #[trigger] v@[i]),
        decreases length - k,
    {
        match choose_symbol(rng, &target) {
            Some(c) => {
                v.push(c);
            },
            // The alphabet is never empty, so a symbol always comes back.
            None => {},
        }
        k = k + 1;
    }
    v
}

/// Puts `symbols` into a random order.
pub fn shuffle_symbols(rng: &mut StdRng, symbols: Vec<u8>) -> (r: Vec<u8>)
    ensures
        r@.to_multiset() == symbols@.to_multiset(),
        r@.len() == symbols@.len(),
{
    let mut v = symbols;
    shuffle_in_place(rng, &mut v);
    v
}

/// Whether some symbol of `s` belongs to class `c`.
pub open spec fn has_symbol_of(s: Seq<u8>, c: CharClass) -> bool {
    exists|i: int| 0 <= i < s.len() && in_class(c, #[trigger] s[i])
}

/// What a generated password is: `total_length` symbols, each from an
/// active class, with at least one symbol of every active class.
pub open spec fn valid_password(p: Seq<u8>, total_length: int, active: ActiveClasses) -> bool {
    &&& p.len() == total_length
    &&& forall|i: int| 0 <= i < p.len() ==> active.admits(#[trigger] p[i])
    &&& forall|c: CharClass| #[trigger] active.has(c) ==> has_symbol_of(p, c)
}

/// No symbol of an inactive class appears in a valid password. This holds
/// for every class that shares no symbol with an active one: the letter and
/// digit classes always, and a symbol class when neither symbol class is
/// active (the two symbol alphabets overlap).
pub proof fn lemma_excluded_class_absent(
    p: Seq<u8>,
    total_length: int,
    active: ActiveClasses,
    c: CharClass,
)
    requires
        active.wf(),
        valid_password(p, total_length, active),
        !active.has(c),
        is_symbol_class(c) ==> !active.symbols_active(),
    ensures
        forall|i: int| 0 <= i < p.len() ==> !in_class(c, #[trigger] p[i]),
{
    assert forall|i: int| 0 <= i < p.len() implies !in_class(c, #[trigger] p[i]) by {
        let b = p[i];
        assert(active.admits(b));
        if active.lowercase && in_class(CharClass::Lowercase, b) {
            lemma_classes_disjoint(CharClass::Lowercase, c, b);
        } else if active.uppercase && in_class(CharClass::Uppercase, b) {
            lemma_classes_disjoint(CharClass::Uppercase, c, b);
        } else if active.digit && in_class(CharClass::Digit, b) {
            lemma_classes_disjoint(CharClass::Digit, c, b);
        } else if active.symbol && in_class(CharClass::Symbol, b) {
            lemma_classes_disjoint(CharClass::Symbol, c, b);
        } else {
            lemma_classes_disjoint(CharClass::SymbolVariant, c, b);
        }
    }
}

/// Appends `count` symbols of class `class` to `chars`.
fn append_part(rng: &mut StdRng, chars: &mut Vec<u8>, count: usize, class: CharClass, active: ActiveClasses)
    requires
        count > 0 ==> active.has(class),
        forall|i: int| 0 <= i < old(chars)@.len() ==> active.admits(#[trigger] old(chars)@[i]),
    ensures
        final(chars)@.len() == old(chars)@.len() + count,
        forall|i: int| 0 <= i < final(chars)@.len() ==> active.admits(#[trigger] final(chars)@[i]),
        forall|c: CharClass| has_symbol_of(old(chars)@, c) ==> has_symbol_of(final(chars)@, c),
        count > 0 ==> has_symbol_of(final(chars)@, class),
{
    let ghost before = chars@;
    let mut part = extruct_chars_vec(rng, count, class);
    let ghost drawn = part@;
    chars.append(&mut part);
    assert(chars@ == before + drawn);
    assert forall|i: int| 0 <= i < chars@.len() implies active.admits(#[trigger] chars@[i]) by {
        if i >= before.len() {
            assert(in_class(class, drawn[i - before.len()]));
        }
    }
    assert forall|c: CharClass| has_symbol_of(before, c) implies has_symbol_of(chars@, c) by {
        let i = choose|i: int| 0 <= i < before.len() && in_class(c, #[trigger] before[i]);
        assert(chars@[i] == before[i]);
    }
    if count > 0 {
        assert(in_class(class, drawn[0]));
        assert(chars@[before.len() as int] == drawn[0]);
    }
}

/// Generates one password of `total_length` symbols from the classes in
/// `active`: the partitioner decides each class's count (asking `draw` as
/// `decide_num_of_extructs` does), each class's symbols are drawn, and the
/// whole is shuffled.
pub fn generate_password<F: Fn(usize) -> usize>(
    rng: &mut StdRng,
    total_length: usize,
    active: ActiveClasses,
    draw: &F,
) -> (r: Result<Vec<u8>, GenError>)
    requires
        active.wf(),
        forall|m: usize| draw.requires((m,)),
    ensures
        match r {
            Err(GenError::NoActiveClass) => active.size() == 0,
            Err(GenError::LengthTooShort) => active.size() >= 1 && total_length < active.size(),
            Ok(p) => active.size() >= 1 && total_length >= active.size() && valid_password(
                p@,
                total_length as int,
                active,
            ),
        },
{
    let counts = decide_num_of_extructs(
        total_length,
        !active.lowercase,
        !active.uppercase,
        !active.digit,
        !(active.symbol || active.symbol_variant),
        draw,
    );
    match counts {
        Err(e) => Err(e),
        Ok((num_lc, num_uc, num_di, num_sy)) => {
            let mut chars: Vec<u8> = Vec::new();
            append_part(rng, &mut chars, num_lc, CharClass::Lowercase, active);
            append_part(rng, &mut chars, num_uc, CharClass::Uppercase, active);
            append_part(rng, &mut chars, num_di, CharClass::Digit, active);
            let last = if active.symbol_variant {
                CharClass::SymbolVariant
            } else {
                CharClass::Symbol
            };
            append_part(rng, &mut chars, num_sy, last, active);
            let ghost before = chars@;
            let p = shuffle_symbols(rng, chars);
            proof {
                before.to_multiset_ensures();
                p@.to_multiset_ensures();
                assert forall|i: int| 0 <= i < p@.len() implies active.admits(#[trigger] p@[i]) by {
                    assert(p@.to_multiset().count(p@[i]) > 0);
                    let j = choose|j: int| 0 <= j < before.len() && before[j] == p@[i];
                    assert(active.admits(before[j]));
                }
                assert forall|c: CharClass| #[trigger] active.has(c) implies has_symbol_of(p@, c) by {
                    let j = choose|j: int| 0 <= j < before.len() && in_class(c, #[trigger] before[j]);
                    assert(before.contains(before[j]));
                    assert(before.to_multiset().count(before[j]) > 0);
                    assert(p@.contains(before[j]));
                    let i = choose|i: int| 0 <= i < p@.len() && p@[i] == before[j];
                    assert(in_class(c, p@[i]));
                }
            }
            Ok(p)
        },
    }
}

/// Generates `spec.count` passwords, each independently as
/// `generate_password` does. An invalid request fails before any is made.
pub fn generate_passwords<F: Fn(usize) -> usize>(
    rng: &mut StdRng,
    spec: PasswordSpec,
    draw: &F,
) -> (r: Result<Vec<Vec<u8>>, GenError>)
    requires
        spec.active.wf(),
        forall|m: usize| draw.requires((m,)),
    ensures
        match r {
            Err(GenError::NoActiveClass) => spec.active.size() == 0,
            Err(GenError::LengthTooShort) => spec.active.size() >= 1 && spec.total_length
                < spec.active.size(),
            Ok(ps) => spec.active.size() >= 1 && spec.total_length >= spec.active.size()
                && ps@.len() == spec.count && forall|k: int|
                0 <= k < ps@.len() ==> valid_password(
                    #[trigger] ps@[k]@,
                    spec.total_length as int,
                    spec.active,
                ),
        },
{
    let mut n: usize = 0;
    if spec.active.lowercase {
        n = n + 1;
    }
    if spec.active.uppercase {
        n = n + 1;
    }
    if spec.active.digit {
        n = n + 1;
    }
    if spec.active.symbol || spec.active.symbol_variant {
        n = n + 1;
    }
    if n == 0 {
        return Err(GenError::NoActiveClass);
    }
    if spec.total_length < n {
        return Err(GenError::LengthTooShort);
    }
    let mut out: Vec<Vec<u8>> = Vec::new();
    let mut k: usize = 0;
    while k < spec.count
        invariant
            k <= spec.count,
            spec.active.wf(),
            spec.active.size() >= 1,
            spec.total_length >= spec.active.size(),
            forall|m: usize| draw.requires((m,)),
            out@.len() == k,
            forall|j: int|
                0 <= j < k ==> valid_password(
                    #[trigger] out@[j]@,
                    spec.total_length as int,
                    spec.active,
                ),
        decreases spec.count - k,
    {
        match generate_password(rng, spec.total_length, spec.active, draw) {
            Ok(p) => {
                out.push(p);
            },
            Err(e) => {
                return Err(e);
            },
        }
        k = k + 1;
    }
    Ok(out)
}

} // verus!
