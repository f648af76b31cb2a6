//! Random password generation: a password of a requested length drawn from
//! the selected character classes, with one character of each selected
//! class placed first and the order then shuffled. The classes leave out
//! the characters that are easily misread (`I`, `O`, `l`, `0`).

use crate::errors::TextError;
use vstd::prelude::*;
use vstd::seq_lib::group_to_multiset_ensures;
use vstd::seq_lib::to_multiset_update;

verus! {

/// The upper-case class: `A`-`Z` without `I` and `O`.
pub open spec fn is_upper_char(c: int) -> bool {
    65 <= c <= 90 && c != 73 && c != 79
}

/// The lower-case class: `a`-`z` without `l`.
pub open spec fn is_lower_char(c: int) -> bool {
    97 <= c <= 122 && c != 108
}

/// The digit class: `1`-`9`.
pub open spec fn is_number_char(c: int) -> bool {
    49 <= c <= 57
}

/// The symbol class: `!@#$%^&*()_`.
pub open spec fn is_symbol_char(c: int) -> bool {
    c == 33 || c == 64 || c == 35 || c == 36 || c == 37 || c == 94 || c == 38 || c == 42 || c == 40
        || c == 41 || c == 95
}

/// Whether a byte belongs to one of the selected classes.
pub open spec fn allowed_char(
    upper: bool,
    lower: bool,
    number: bool,
    symbol: bool,
    c: int,
) -> bool {
    ||| upper && is_upper_char(c)
    ||| lower && is_lower_char(c)
    ||| number && is_number_char(c)
    ||| symbol && is_symbol_char(c)
}

/// How many character classes are selected.
pub open spec fn selected_count(upper: bool, lower: bool, number: bool, symbol: bool) -> int {
    (if upper {
        1int
    } else {
        0
    }) + (if lower {
        1int
    } else {
        0
    }) + (if number {
        1int
    } else {
        0
    }) + (if symbol {
        1int
    } else {
        0
    })
}

/// Relies on `rand::Rng::gen_range` over a fresh `rand::thread_rng`: a value
/// below the bound, from a cryptographically secure generator. Nothing is
/// assumed of which value comes back.
#[verifier::external_body]
fn rand_below(n: usize) -> (r: usize)
    requires
        n > 0,
    ensures
        r < n,
{
    rand::Rng::gen_range(&mut rand::thread_rng(), 0..n)
}

/// Relies on `String::from_utf8`: bytes below 128 are valid UTF-8 and come
/// back unchanged, one character per byte.
#[verifier::external_body]
fn ascii_to_string(bytes: Vec<u8>) -> (r: String)
    requires
        forall|i: int| 0 <= i < bytes@.len() ==> bytes@[i] < 128,
    ensures
        r@.len() == bytes@.len(),
        forall|i: int| 0 <= i < bytes@.len() ==> r@[i] as int == bytes@[i] as int,
{
    String::from_utf8(bytes).unwrap()
}

fn upper_chars() -> (v: Vec<u8>)
    ensures
        v@.len() > 0,
        forall|i: int| 0 <= i < v@.len() ==> is_upper_char(#[trigger] v@[i] as int),
{
    let mut v: Vec<u8> = Vec::new();
    let mut c: u8 = 65;
    while c <= 90
        invariant
            65 <= c <= 91,
            c > 65 ==> v@.len() > 0,
            forall|i: int| 0 <= i < v@.len() ==> is_upper_char(#[trigger] v@[i] as int),
        decreases 91 - c,
    {
        if c != 73 && c != 79 {
            v.push(c);
        }
        c = c + 1;
    }
    v
}

fn lower_chars() -> (v: Vec<u8>)
    ensures
        v@.len() > 0,
        forall|i: int| 0 <= i < v@.len() ==> is_lower_char(#[trigger] v@[i] as int),
{
    let mut v: Vec<u8> = Vec::new();
    let mut c: u8 = 97;
    while c <= 122
        invariant
            97 <= c <= 123,
            c > 97 ==> v@.len() > 0,
            forall|i: int| 0 <= i < v@.len() ==> is_lower_char(#[trigger] v@[i] as int),
        decreases 123 - c,
    {
        if c != 108 {
            v.push(c);
        }
        c = c + 1;
    }
    v
}

fn number_chars() -> (v: Vec<u8>)
    ensures
        v@.len() > 0,
        forall|i: int| 0 <= i < v@.len() ==> is_number_char(#[trigger] v@[i] as int),
{
    let mut v: Vec<u8> = Vec::new();
    let mut c: u8 = 49;
    while c <= 57
        invariant
            49 <= c <= 58,
            c > 49 ==> v@.len() > 0,
            forall|i: int| 0 <= i < v@.len() ==> is_number_char(#[trigger] v@[i] as int),
        decreases 58 - c,
    {
        v.push(c);
        c = c + 1;
    }
    v
}

fn symbol_chars() -> (v: Vec<u8>)
    ensures
        v@.len() > 0,
        forall|i: int| 0 <= i < v@.len() ==> is_symbol_char(#[trigger] v@[i] as int),
{
    let mut v: Vec<u8> = Vec::new();
    v.push(33);
    v.push(64);
    v.push(35);
    v.push(36);
    v.push(37);
    v.push(94);
    v.push(38);
    v.push(42);
    v.push(40);
    v.push(41);
    v.push(95);
    v
}

/// Draw one byte of the set, uniformly at random.
fn pick_one(chars: &Vec<u8>) -> (r: u8)
    requires
        chars@.len() > 0,
    ensures
        chars@.contains(r),
{
    let i = rand_below(chars.len());
    let r = chars[i];
    proof {
        assert(chars@.contains(chars@[i as int]));
    }
    r
}

/// Put the bytes into a random order; none is added, dropped or changed.
fn shuffle(v: &mut Vec<u8>)
    ensures
        final(v)@.len() == old(v)@.len(),
        final(v)@.to_multiset() == old(v)@.to_multiset(),
{
    let n = v.len();
    let mut i: usize = n;
    while i > 1
        invariant
            i <= n,
            n == v@.len(),
            v@.to_multiset() == old(v)@.to_multiset(),
        decreases i,
    {
        let j = rand_below(i);
        i = i - 1;
        let ghost prev = v@;
        let a = v[i];
        let b = v[j];
        v[i] = b;
        v[j] = a;
        proof {
            broadcast use to_multiset_update;
            broadcast use group_to_multiset_ensures;

            let s1 = prev.update(i as int, b);
            assert(v@ == s1.update(j as int, a));
            assert(s1[j as int] == b);
            assert(s1.to_multiset() == prev.to_multiset().insert(b).remove(a));
            assert(v@.to_multiset() == s1.to_multiset().insert(a).remove(b));
            assert(prev.contains(prev[i as int]));
            assert(prev.to_multiset().count(a) > 0);
            assert(v@.to_multiset() =~= prev.to_multiset());
        }
    }
}

/// Build the password bytes: one byte of each selected class first, the
/// rest drawn from the union of the selected classes, then shuffled.
pub(crate) fn gen_pass_bytes(
    length: u8,
    upper: bool,
    lower: bool,
    number: bool,
    symbol: bool,
) -> (r: Vec<u8>)
    requires
        selected_count(upper, lower, number, symbol) <= length as int,
        length > 0 ==> upper || lower || number || symbol,
    ensures
        r@.len() == length as int,
        forall|i: int|
            0 <= i < r@.len() ==> allowed_char(
                upper,
                lower,
                number,
                symbol,
                #[trigger] r@[i] as int,
            ),
{
    let mut password: Vec<u8> = Vec::new();
    let mut chars: Vec<u8> = Vec::new();
    if upper {
        let set = upper_chars();
        chars.extend_from_slice(set.as_slice());
        password.push(pick_one(&set));
    }
    if lower {
        let set = lower_chars();
        chars.extend_from_slice(set.as_slice());
        password.push(pick_one(&set));
    }
    if number {
        let set = number_chars();
        chars.extend_from_slice(set.as_slice());
        password.push(pick_one(&set));
    }
    if symbol {
        let set = symbol_chars();
        chars.extend_from_slice(set.as_slice());
        password.push(pick_one(&set));
    }
    while password.len() < length as usize
        invariant
            password@.len() <= length as int,
            password@.len() < length as int ==> chars@.len() > 0,
            forall|i: int|
                0 <= i < chars@.len() ==> allowed_char(
                    upper,
                    lower,
                    number,
                    symbol,
                    #[trigger] chars@[i] as int,
                ),
            forall|i: int|
                0 <= i < password@.len() ==> allowed_char(
                    upper,
                    lower,
                    number,
                    symbol,
                    #[trigger] password@[i] as int,
                ),
        decreases length as int - password@.len(),
    {
        let c = pick_one(&chars);
        password.push(c);
    }
    let ghost before = password@;
    shuffle(&mut password);
    proof {
        broadcast use group_to_multiset_ensures;

        assert forall|i: int| 0 <= i < password@.len() implies allowed_char(
            upper,
            lower,
            number,
            symbol,
            #[trigger] password@[i] as int,
        ) by {
            assert(password@.to_multiset().contains(password@[i]));
            assert(before.to_multiset().contains(password@[i]));
            assert(before.contains(password@[i]));
            let k = choose|k: int| 0 <= k < before.len() && before[k] == password@[i];
            assert(allowed_char(upper, lower, number, symbol, before[k] as int));
        }
    }
    password
}

/// Generate a random password of the requested length from the selected
/// character classes.
pub fn process_gen_pass(
    length: u8,
    upper: bool,
    lower: bool,
    number: bool,
    symbol: bool,
) -> (r: Result<String, TextError>)
    requires
        selected_count(upper, lower, number, symbol) <= length as int,
        length > 0 ==> upper || lower || number || symbol,
    ensures
        r matches Ok(p) && p@.len() == length as int,
        r matches Ok(p) ==> forall|i: int|
            0 <= i < p@.len() ==> allowed_char(upper, lower, number, symbol, #[trigger] p@[i] as int),
{
    let bytes = gen_pass_bytes(length, upper, lower, number, symbol);
    proof {
        assert forall|i: int| 0 <= i < bytes@.len() implies bytes@[i] < 128 by {
            assert(allowed_char(upper, lower, number, symbol, bytes@[i] as int));
        }
    }
    let p = ascii_to_string(bytes);
    Ok(p)
}

} // verus!
