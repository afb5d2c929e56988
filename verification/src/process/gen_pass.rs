//! Random passwords over four classes of characters that are easy to tell
//! apart. The random choices are the source's; what every outcome holds is
//! proved here.

use crate::process::random::{RandomSource, SystemRandom};
use crate::utils::{ascii_text, is_ascii_bytes, lemma_ascii_is_utf8, string_from_utf8};
use vstd::pervasive::unreached;
use vstd::prelude::*;
use vstd::string::*;
use vstd::utf8::*;

verus! {

/// Upper-case letters, without `I` and `O`.
pub const UPPER: &'static str = "ABCDEFGHJKLMNPQRSTUVWXYZ";

/// Lower-case letters, without `l`.
pub const LOWER: &'static str = "abcdefghijkmnopqrstuvwxyz";

/// Digits, without `0`.
pub const NUMBERS: &'static str = "123456789";

/// Symbols.
pub const SYMBOLS: &'static str = "!@#$%^&*?";

/// The characters that a password may hold when the given classes are asked
/// for.
pub open spec fn allowed(upper: bool, lower: bool, numbers: bool, symbols: bool) -> Seq<char> {
    (if upper { UPPER@ } else { Seq::empty() }) + (if lower { LOWER@ } else { Seq::empty() }) + (
    if numbers { NUMBERS@ } else { Seq::empty() }) + (if symbols { SYMBOLS@ } else { Seq::empty() })
}

/// How many classes are asked for.
pub open spec fn class_count(upper: bool, lower: bool, numbers: bool, symbols: bool) -> nat {
    (if upper { 1nat } else { 0 }) + (if lower { 1nat } else { 0 }) + (if numbers { 1nat } else {
        0
    }) + (if symbols { 1nat } else { 0 })
}

/// Whether some character of `password` is of the class.
pub open spec fn has_one_of(password: Seq<char>, class: Seq<char>) -> bool {
    exists|i: int| 0 <= i < password.len() && class.contains(#[trigger] password[i])
}

/// What holds of every generated password: it has the length asked for,
/// only characters of the classes asked for, and one at least of each.
pub open spec fn is_password(
    password: Seq<char>,
    length: nat,
    upper: bool,
    lower: bool,
    numbers: bool,
    symbols: bool,
) -> bool {
    &&& password.len() == length
    &&& forall|i: int|
        0 <= i < password.len() ==> allowed(upper, lower, numbers, symbols).contains(
            #[trigger] password[i],
        )
    &&& upper ==> has_one_of(password, UPPER@)
    &&& lower ==> has_one_of(password, LOWER@)
    &&& numbers ==> has_one_of(password, NUMBERS@)
    &&& symbols ==> has_one_of(password, SYMBOLS@)
}

/// The four classes hold ASCII characters only, and none is empty.
proof fn lemma_classes_ascii()
    ensures
        is_ascii_chars(UPPER@),
        is_ascii_chars(LOWER@),
        is_ascii_chars(NUMBERS@),
        is_ascii_chars(SYMBOLS@),
        encode_utf8(UPPER@).len() > 0,
        encode_utf8(LOWER@).len() > 0,
        encode_utf8(NUMBERS@).len() > 0,
        encode_utf8(SYMBOLS@).len() > 0,
{
    reveal_strlit("ABCDEFGHJKLMNPQRSTUVWXYZ");
    reveal_strlit("abcdefghijkmnopqrstuvwxyz");
    reveal_strlit("123456789");
    reveal_strlit("!@#$%^&*?");
    is_ascii_chars_encode_utf8(UPPER@);
    is_ascii_chars_encode_utf8(LOWER@);
    is_ascii_chars_encode_utf8(NUMBERS@);
    is_ascii_chars_encode_utf8(SYMBOLS@);
}

/// A byte that a password may hold: ASCII, and as a character one of the
/// classes asked for.
spec fn good_byte(byte: u8, upper: bool, lower: bool, numbers: bool, symbols: bool) -> bool {
    byte < 128 && allowed(upper, lower, numbers, symbols).contains(byte as char)
}

/// Whether all bytes are ones that a password may hold.
spec fn good_bytes(bytes: Seq<u8>, upper: bool, lower: bool, numbers: bool, symbols: bool) -> bool {
    forall|i: int|
        0 <= i < bytes.len() ==> good_byte(#[trigger] bytes[i], upper, lower, numbers, symbols)
}

/// Whether some byte of `pass` is, as a character, of the class.
spec fn covers(pass: Seq<u8>, class: Seq<char>) -> bool {
    exists|i: int| 0 <= i < pass.len() && class.contains(#[trigger] pass[i] as char)
}

/// What holds of the bytes of a password while it is drawn.
spec fn drawn(pass: Seq<u8>, upper: bool, lower: bool, numbers: bool, symbols: bool) -> bool {
    &&& good_bytes(pass, upper, lower, numbers, symbols)
    &&& upper ==> covers(pass, UPPER@)
    &&& lower ==> covers(pass, LOWER@)
    &&& numbers ==> covers(pass, NUMBERS@)
    &&& symbols ==> covers(pass, SYMBOLS@)
}

/// A character of a class that is asked for is allowed.
proof fn lemma_in_allowed(c: char, upper: bool, lower: bool, numbers: bool, symbols: bool)
    requires
        (upper && UPPER@.contains(c)) || (lower && LOWER@.contains(c)) || (numbers
            && NUMBERS@.contains(c)) || (symbols && SYMBOLS@.contains(c)),
    ensures
        allowed(upper, lower, numbers, symbols).contains(c),
{
    let a = if upper { UPPER@ } else { Seq::empty() };
    let b = if lower { LOWER@ } else { Seq::empty() };
    let d = if numbers { NUMBERS@ } else { Seq::empty() };
    let e = if symbols { SYMBOLS@ } else { Seq::empty() };
    let all = allowed(upper, lower, numbers, symbols);
    assert(all == a + b + d + e);
    if upper && UPPER@.contains(c) {
        let j = choose|j: int| 0 <= j < a.len() && a[j] == c;
        assert(all[j] == c);
    } else if lower && LOWER@.contains(c) {
        let j = choose|j: int| 0 <= j < b.len() && b[j] == c;
        assert(all[a.len() + j] == c);
    } else if numbers && NUMBERS@.contains(c) {
        let j = choose|j: int| 0 <= j < d.len() && d[j] == c;
        assert(all[a.len() + b.len() + j] == c);
    } else {
        let j = choose|j: int| 0 <= j < e.len() && e[j] == c;
        assert(all[a.len() + b.len() + d.len() + j] == c);
    }
}

/// The bytes of a class that is asked for may all stand in a password.
proof fn lemma_class_is_good(
    class: Seq<char>,
    upper: bool,
    lower: bool,
    numbers: bool,
    symbols: bool,
)
    requires
        (upper && class == UPPER@) || (lower && class == LOWER@) || (numbers && class == NUMBERS@)
            || (symbols && class == SYMBOLS@),
    ensures
        good_bytes(encode_utf8(class), upper, lower, numbers, symbols),
        forall|byte: u8| #[trigger]
            encode_utf8(class).contains(byte) ==> class.contains(byte as char),
{
    lemma_classes_ascii();
    let bytes = encode_utf8(class);
    assert forall|byte: u8| #[trigger] bytes.contains(byte) implies class.contains(byte as char)
        && good_byte(byte, upper, lower, numbers, symbols) by {
        lemma_class_byte(class, byte);
        lemma_in_allowed(byte as char, upper, lower, numbers, symbols);
    }
    assert forall|i: int| 0 <= i < bytes.len() implies good_byte(
        #[trigger] bytes[i],
        upper,
        lower,
        numbers,
        symbols,
    ) by {
        assert(bytes.contains(bytes[i]));
    }
}

/// Good bytes stay good when more good bytes follow.
proof fn lemma_good_concat(
    a: Seq<u8>,
    b: Seq<u8>,
    upper: bool,
    lower: bool,
    numbers: bool,
    symbols: bool,
)
    requires
        good_bytes(a, upper, lower, numbers, symbols),
        good_bytes(b, upper, lower, numbers, symbols),
    ensures
        good_bytes(a + b, upper, lower, numbers, symbols),
{
    assert forall|i: int| 0 <= i < (a + b).len() implies good_byte(
        #[trigger] (a + b)[i],
        upper,
        lower,
        numbers,
        symbols,
    ) by {
        if i < a.len() {
            assert((a + b)[i] == a[i]);
        } else {
            assert((a + b)[i] == b[i - a.len()]);
        }
    }
}

/// A class that is covered stays covered when a byte is added.
proof fn lemma_covers_push(pass: Seq<u8>, byte: u8, class: Seq<char>)
    requires
        covers(pass, class) || class.contains(byte as char),
    ensures
        covers(pass.push(byte), class),
{
    if covers(pass, class) {
        let i = choose|i: int| 0 <= i < pass.len() && class.contains(#[trigger] pass[i] as char);
        assert(pass.push(byte)[i] == pass[i]);
    } else {
        assert(pass.push(byte)[pass.len() as int] == byte);
    }
}

/// What held of the bytes before they were shuffled holds after.
proof fn lemma_drawn_permuted(
    pass: Seq<u8>,
    mixed: Seq<u8>,
    upper: bool,
    lower: bool,
    numbers: bool,
    symbols: bool,
)
    requires
        drawn(pass, upper, lower, numbers, symbols),
        mixed.to_multiset() == pass.to_multiset(),
    ensures
        drawn(mixed, upper, lower, numbers, symbols),
        mixed.len() == pass.len(),
{
    pass.to_multiset_ensures();
    mixed.to_multiset_ensures();
    assert forall|i: int| 0 <= i < mixed.len() implies good_byte(
        #[trigger] mixed[i],
        upper,
        lower,
        numbers,
        symbols,
    ) by {
        assert(mixed.contains(mixed[i]));
        assert(mixed.to_multiset().count(mixed[i]) > 0);
        assert(pass.to_multiset().count(mixed[i]) > 0);
        assert(pass.contains(mixed[i]));
        let j = choose|j: int| 0 <= j < pass.len() && pass[j] == mixed[i];
        assert(good_byte(pass[j], upper, lower, numbers, symbols));
    }
    assert forall|class: Seq<char>| covers(pass, class) implies covers(mixed, class) by {
        let i = choose|i: int| 0 <= i < pass.len() && class.contains(#[trigger] pass[i] as char);
        assert(pass.contains(pass[i]));
        assert(pass.to_multiset().count(pass[i]) > 0);
        assert(mixed.to_multiset().count(pass[i]) > 0);
        assert(mixed.contains(pass[i]));
        let k = choose|k: int| 0 <= k < mixed.len() && mixed[k] == pass[i];
        assert(class.contains(mixed[k] as char));
    }
}

/// The drawn bytes, read as characters, are a password.
proof fn lemma_drawn_is_password(
    pass: Seq<u8>,
    upper: bool,
    lower: bool,
    numbers: bool,
    symbols: bool,
)
    requires
        drawn(pass, upper, lower, numbers, symbols),
    ensures
        is_ascii_bytes(pass),
        is_password(ascii_text(pass), pass.len(), upper, lower, numbers, symbols),
{
    let text = ascii_text(pass);
    assert forall|i: int| 0 <= i < pass.len() implies #[trigger] pass[i] < 128 by {
        assert(good_byte(pass[i], upper, lower, numbers, symbols));
    }
    assert forall|i: int| 0 <= i < text.len() implies allowed(
        upper,
        lower,
        numbers,
        symbols,
    ).contains(#[trigger] text[i]) by {
        assert(good_byte(pass[i], upper, lower, numbers, symbols));
    }
    assert forall|class: Seq<char>| covers(pass, class) implies has_one_of(text, class) by {
        let i = choose|i: int| 0 <= i < pass.len() && class.contains(#[trigger] pass[i] as char);
        assert(text[i] == pass[i] as char);
    }
}

/// A byte of the encoding of an ASCII class is below 128 and is, read as a
/// character, in the class.
proof fn lemma_class_byte(class: Seq<char>, byte: u8)
    requires
        is_ascii_chars(class),
        encode_utf8(class).contains(byte),
    ensures
        byte < 128,
        class.contains(byte as char),
{
    is_ascii_chars_encode_utf8(class);
    let j = choose|j: int| 0 <= j < encode_utf8(class).len() && encode_utf8(class)[j] == byte;
    let c = class[j];
    assert(c as u8 == byte);
    assert('\0' <= c <= '\u{7f}');
    assert(byte as char == c);
}

/// One random byte of a set that is not empty.
fn pick_one<R: RandomSource>(source: &mut R, set: &[u8]) -> (byte: u8)
    requires
        set@.len() > 0,
    ensures
        set@.contains(byte),
{
    match source.pick(set) {
        Some(byte) => byte,
        None => unreached(),
    }
}

/// Appends `set` to `chars`.
fn extend(chars: &mut Vec<u8>, set: &[u8])
    ensures
        final(chars)@ == old(chars)@ + set@,
{
    let mut i: usize = 0;
    while i < set.len()
        invariant
            i <= set@.len(),
            chars@ == old(chars)@ + set@.take(i as int),
        decreases set@.len() - i,
    {
        chars.push(set[i]);
        i += 1;
        proof {
            assert(set@.take(i as int) =~= set@.take(i - 1).push(set@[i - 1]));
            assert(chars@ =~= old(chars)@ + set@.take(i as int));
        }
    }
    proof {
        assert(set@.take(i as int) =~= set@);
    }
}

/// Adds one class to the characters to draw from, and one byte of it to
/// the password.
fn take_class<R: RandomSource>(
    source: &mut R,
    class: &'static str,
    chars: &mut Vec<u8>,
    pass: &mut Vec<u8>,
    Ghost(flags): Ghost<(bool, bool, bool, bool)>,
)
    requires
        (flags.0 && class@ == UPPER@) || (flags.1 && class@ == LOWER@) || (flags.2 && class@
            == NUMBERS@) || (flags.3 && class@ == SYMBOLS@),
        good_bytes(old(chars)@, flags.0, flags.1, flags.2, flags.3),
        good_bytes(old(pass)@, flags.0, flags.1, flags.2, flags.3),
    ensures
        good_bytes(final(chars)@, flags.0, flags.1, flags.2, flags.3),
        good_bytes(final(pass)@, flags.0, flags.1, flags.2, flags.3),
        final(chars)@.len() > 0,
        final(pass)@.len() == old(pass)@.len() + 1,
        covers(final(pass)@, class@),
        forall|other: Seq<char>| covers(old(pass)@, other) ==> covers(final(pass)@, other),
{
    let set = class.as_bytes();
    proof {
        lemma_classes_ascii();
        lemma_class_is_good(class@, flags.0, flags.1, flags.2, flags.3);
        lemma_good_concat(chars@, set@, flags.0, flags.1, flags.2, flags.3);
    }
    extend(chars, set);
    let byte = pick_one(source, set);
    proof {
        lemma_covers_push(pass@, byte, class@);
        assert forall|other: Seq<char>| covers(pass@, other) implies covers(
            pass@.push(byte),
            other,
        ) by {
            lemma_covers_push(pass@, byte, other);
        }
        assert(good_byte(byte, flags.0, flags.1, flags.2, flags.3)) by {
            let j = choose|j: int| 0 <= j < set@.len() && set@[j] == byte;
            assert(good_byte(set@[j], flags.0, flags.1, flags.2, flags.3));
        }
        lemma_good_concat(pass@, seq![byte], flags.0, flags.1, flags.2, flags.3);
        assert(pass@.push(byte) =~= pass@ + seq![byte]);
    }
    pass.push(byte);
}

/// The bytes of a random password of `length` characters over the classes
/// asked for, with one character at least of each, drawn from `source`.
/// There must be room for one of each class, and a class to draw from
/// unless nothing is asked for.
pub fn password_bytes<R: RandomSource>(
    source: &mut R,
    length: u8,
    upper: bool,
    lower: bool,
    numbers: bool,
    symbols: bool,
) -> (pass: Vec<u8>)
    requires
        class_count(upper, lower, numbers, symbols) <= length,
        length > 0 ==> class_count(upper, lower, numbers, symbols) > 0,
    ensures
        is_ascii_bytes(pass@),
        is_password(ascii_text(pass@), length as nat, upper, lower, numbers, symbols),
{
    let ghost flags = (upper, lower, numbers, symbols);
    let mut pass: Vec<u8> = Vec::new();
    let mut chars: Vec<u8> = Vec::new();
    if upper {
        take_class(source, UPPER, &mut chars, &mut pass, Ghost(flags));
    }
    if lower {
        take_class(source, LOWER, &mut chars, &mut pass, Ghost(flags));
    }
    if numbers {
        take_class(source, NUMBERS, &mut chars, &mut pass, Ghost(flags));
    }
    if symbols {
        take_class(source, SYMBOLS, &mut chars, &mut pass, Ghost(flags));
    }
    assert(pass@.len() == class_count(upper, lower, numbers, symbols));
    let rest: u8 = length - pass.len() as u8;
    let mut i: u8 = 0;
    while i < rest
        invariant
            i <= rest,
            pass@.len() == class_count(upper, lower, numbers, symbols) + i,
            rest == length - class_count(upper, lower, numbers, symbols),
            rest > 0 ==> chars@.len() > 0,
            good_bytes(chars@, upper, lower, numbers, symbols),
            drawn(pass@, upper, lower, numbers, symbols),
        decreases rest - i,
    {
        let byte = pick_one(source, chars.as_slice());
        proof {
            let j = choose|j: int| 0 <= j < chars@.len() && chars@[j] == byte;
            assert(good_byte(chars@[j], upper, lower, numbers, symbols));
            lemma_good_concat(pass@, seq![byte], upper, lower, numbers, symbols);
            assert(pass@.push(byte) =~= pass@ + seq![byte]);
            if upper {
                lemma_covers_push(pass@, byte, UPPER@);
            }
            if lower {
                lemma_covers_push(pass@, byte, LOWER@);
            }
            if numbers {
                lemma_covers_push(pass@, byte, NUMBERS@);
            }
            if symbols {
                lemma_covers_push(pass@, byte, SYMBOLS@);
            }
        }
        pass.push(byte);
        i += 1;
    }
    let ghost before = pass@;
    source.shuffle(&mut pass);
    proof {
        lemma_drawn_permuted(before, pass@, upper, lower, numbers, symbols);
        lemma_drawn_is_password(pass@, upper, lower, numbers, symbols);
    }
    pass
}

/// A random password of `length` characters over the classes asked for,
/// with one character at least of each. There must be room for one of each
/// class, and a class to draw from unless nothing is asked for.
pub fn process_gen_pass(
    length: u8,
    upper: bool,
    lower: bool,
    numbers: bool,
    symbols: bool,
) -> (password: String)
    requires
        class_count(upper, lower, numbers, symbols) <= length,
        length > 0 ==> class_count(upper, lower, numbers, symbols) > 0,
    ensures
        is_password(password@, length as nat, upper, lower, numbers, symbols),
{
    let mut source = SystemRandom;
    let pass = password_bytes(&mut source, length, upper, lower, numbers, symbols);
    proof {
        lemma_ascii_is_utf8(pass@);
    }
    match string_from_utf8(pass) {
        Ok(password) => password,
        Err(_) => unreached(),
    }
}

} // verus!
