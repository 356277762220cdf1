//! A chord that is shown and read again is the same chord.
use crate::chord::KeyChord;
use crate::key_code::KeyCode;
use crate::keyseq::{
    digit_key, is_digit, is_letter, is_space, lemma_lex_skip, letter_key, lex, modifier_of,
    parse_key, prepend, read_chord, run, sign_key, Read, Token,
};
use crate::modifiers::{hyphenate, Modifiers};
use vstd::prelude::*;

verus! {

/// The flag of the modifier at a place of the order Control, Alt, Shift,
/// Super.
pub open spec fn flag_at(place: int) -> u8 {
    if place == 0 {
        Modifiers::CONTROL
    } else if place == 1 {
        Modifiers::ALT
    } else if place == 2 {
        Modifiers::SHIFT
    } else {
        Modifiers::SUPER
    }
}

/// The name of the modifier at a place of the order.
pub open spec fn name_at(place: int) -> Seq<char> {
    if place == 0 {
        "Ctrl"@
    } else if place == 1 {
        "Alt"@
    } else if place == 2 {
        "Shift"@
    } else {
        "Super"@
    }
}

/// The modifiers of `bits` from `place` on as they stand in front of a key:
/// each name with a hyphen behind it.
pub open spec fn front(bits: u8, place: int) -> Seq<char>
    decreases 4 - place,
{
    if place < 0 || place >= 4 {
        Seq::empty()
    } else if bits & flag_at(place) == flag_at(place) {
        name_at(place) + "-"@ + front(bits, place + 1)
    } else {
        front(bits, place + 1)
    }
}

/// The token that one character at `at` makes when it stands alone: a word for
/// a letter, a number for a digit, a sign for any other.
pub open spec fn single_token(sign: char, at: int) -> Token {
    if is_letter(sign) {
        Token::Word { from: at as usize, to: (at + 1) as usize }
    } else if is_digit(sign) {
        Token::Number { from: at as usize, to: (at + 1) as usize }
    } else {
        Token::Punct(sign)
    }
}

/// The key that one character stands for when it stands alone.
pub open spec fn single_key(sign: char) -> Option<KeyCode> {
    if is_letter(sign) {
        letter_key(sign)
    } else if is_digit(sign) {
        digit_key(sign)
    } else {
        sign_key(sign)
    }
}

/// The tokens of `front(bits, place)` with the character `sign` behind it, in
/// a text where they begin at `at`.
pub open spec fn front_tokens(bits: u8, place: int, at: int, sign: char) -> Seq<Token>
    decreases 4 - place,
{
    if place < 0 || place >= 4 {
        seq![single_token(sign, at)]
    } else if bits & flag_at(place) == flag_at(place) {
        seq![
            Token::Word { from: at as usize, to: (at + name_at(place).len()) as usize },
            Token::Punct('-'),
        ] + front_tokens(bits, place + 1, at + name_at(place).len() + 1, sign)
    } else {
        front_tokens(bits, place + 1, at, sign)
    }
}

/// The names of the modifiers are words of letters.
pub proof fn lemma_names_are_words(place: int)
    requires
        0 <= place < 4,
    ensures
        3 <= name_at(place).len() <= 5,
        forall|j: int| 0 <= j < name_at(place).len() ==> is_letter(#[trigger] name_at(place)[j]),
        name_at(1) != name_at(0),
        name_at(2) != name_at(0),
        name_at(2) != name_at(1),
        name_at(3) != name_at(0),
        name_at(3) != name_at(1),
        name_at(3) != name_at(2),
{
    reveal_strlit("Ctrl");
    reveal_strlit("Alt");
    reveal_strlit("Shift");
    reveal_strlit("Super");
    assert("Ctrl"@.len() == 4);
    assert("Alt"@.len() == 3);
    assert("Shift"@.len() == 5);
    assert("Super"@.len() == 5);
    assert("Shift"@[1] == 'h');
    assert("Super"@[1] == 'u');
}

/// A run of letters and digits that ends at the end of the text, or before
/// another character, is as long as it looks.
pub proof fn lemma_run_exact(text: Seq<char>, at: int, count: int)
    requires
        0 <= at,
        0 <= count,
        at + count <= text.len(),
        forall|j: int| at <= j < at + count ==> is_letter(text[j]) || is_digit(text[j]),
        at + count == text.len() || !(is_letter(text[at + count]) || is_digit(text[at + count])),
    ensures
        run(text, at) == count,
    decreases count,
{
    if count > 0 {
        lemma_run_exact(text, at + 1, count - 1);
    }
}

/// A text that goes on from `at` with `front(bits, place)` and one character
/// that is no blank and no quote is cut there into
/// `front_tokens(bits, place, at, sign)`.
pub proof fn lemma_front_is_cut(text: Seq<char>, at: int, bits: u8, place: int, sign: char)
    requires
        0 <= at <= text.len() <= usize::MAX,
        0 <= place <= 4,
        text.skip(at) == front(bits, place) + seq![sign],
        !is_space(sign),
        sign != '\'',
    ensures
        lex(text, at, 0) == Some(front_tokens(bits, place, at, sign)),
    decreases 4 - place,
{
    if place >= 4 {
        assert(text.skip(at)[0] == sign);
        assert(text[at] == sign);
        assert(text.skip(at).len() == 1);
        assert(lex(text, at + 1, 0) == Some(Seq::<Token>::empty()));
        if is_letter(sign) || is_digit(sign) {
            lemma_run_exact(text, at, 1);
        }
        assert(lex(text, at, 0) == prepend(single_token(sign, at), lex(text, at + 1, 0)));
        assert(seq![single_token(sign, at)] + Seq::<Token>::empty() =~= front_tokens(
            bits,
            place,
            at,
            sign,
        ));
    } else if bits & flag_at(place) == flag_at(place) {
        let name = name_at(place);
        let count = name.len() as int;
        let rest = front(bits, place + 1) + seq![sign];
        lemma_names_are_words(place);
        reveal_strlit("-");
        assert(text.skip(at) =~= name + "-"@ + rest);
        assert forall|j: int| at <= j < at + count implies is_letter(text[j]) by {
            assert(text[j] == text.skip(at)[j - at]);
            assert(text.skip(at)[j - at] == name[j - at]);
        }
        assert(text[at + count] == '-') by {
            assert(text[at + count] == text.skip(at)[count]);
        }
        assert(text[at] == text.skip(at)[0]);
        lemma_run_exact(text, at, count);
        lemma_lex_skip(text, at + 1, (count - 1) as nat);
        assert("-"@.len() == 1);
        assert(text.skip(at).len() == count + 1 + rest.len());
        assert forall|j: int| 0 <= j < rest.len() implies text.skip(at + count + 1)[j]
            == rest[j] by {
            assert(text.skip(at + count + 1)[j] == text.skip(at)[count + 1 + j]);
            assert((name + "-"@ + rest)[count + 1 + j] == rest[j]);
        }
        assert(text.skip(at + count + 1) =~= rest);
        lemma_front_is_cut(text, at + count + 1, bits, place + 1, sign);
        let tail = front_tokens(bits, place + 1, at + count + 1, sign);
        assert(!is_space(text[at + count]) && !is_letter(text[at + count]) && !is_digit(
            text[at + count],
        ));
        assert(lex(text, at + count, 0) == prepend(Token::Punct('-'), Some(tail)));
        assert(!is_space(text[at]));
        assert(lex(text, at, 0) == prepend(
            Token::Word { from: at as usize, to: (at + count) as usize },
            lex(text, at + 1, (count - 1) as nat),
        ));
        assert(lex(text, at + 1, (count - 1) as nat) == lex(text, at + count, 0));
        assert(seq![Token::Word { from: at as usize, to: (at + count) as usize }] + (seq![
            Token::Punct('-'),
        ] + tail) =~= front_tokens(bits, place, at, sign));
    } else {
        lemma_front_is_cut(text, at, bits, place + 1, sign);
    }
}

/// The modifiers of `bits` before `place`.
pub open spec fn below(bits: u8, place: int) -> u8 {
    if place <= 0 {
        0
    } else if place == 1 {
        bits & 1
    } else if place == 2 {
        bits & 3
    } else if place == 3 {
        bits & 7
    } else {
        bits & 15
    }
}

/// Where a text goes on from `at` with `front(bits, place)` and the character
/// of a key, and the tokens from `first` on are those of that stretch, the
/// chord read there with the modifiers before `place` already taken is the
/// chord of `bits` and the key, and it ends the tokens.
pub proof fn lemma_front_is_read(
    text: Seq<char>,
    tokens: Seq<Token>,
    first: int,
    at: int,
    bits: u8,
    place: int,
    letter: char,
    key: KeyCode,
)
    requires
        0 <= at <= text.len() <= usize::MAX,
        0 <= place <= 4,
        0 <= first <= tokens.len(),
        text.skip(at) == front(bits, place) + seq![letter],
        tokens.skip(first) == front_tokens(bits, place, at, letter),
        single_key(letter) == Some(key),
        bits < 16,
    ensures
        read_chord(text, tokens, first, below(bits, place)) == Some(
            Read { chord: (Modifiers(bits), key), next: tokens.len() as int },
        ),
    decreases 4 - place,
{
    reveal_with_fuel(read_chord, 3);
    if place >= 4 {
        assert(tokens.skip(first).len() == 1);
        assert(tokens[first] == tokens.skip(first)[0]);
        assert(text[at] == text.skip(at)[0]);
        assert(bits & 15 == bits) by (bit_vector)
            requires
                bits < 16,
        ;
    } else if bits & flag_at(place) == flag_at(place) {
        let name = name_at(place);
        let count = name.len() as int;
        let rest = front(bits, place + 1) + seq![letter];
        lemma_names_are_words(place);
        reveal_strlit("-");
        assert(text.skip(at) =~= name + "-"@ + rest);
        assert(text.skip(at).len() == count + 1 + rest.len());
        assert forall|j: int| 0 <= j < rest.len() implies text.skip(at + count + 1)[j]
            == rest[j] by {
            assert(text.skip(at + count + 1)[j] == text.skip(at)[count + 1 + j]);
            assert((name + "-"@ + rest)[count + 1 + j] == rest[j]);
        }
        assert(text.skip(at + count + 1) =~= rest);
        assert(text.subrange(at, at + count) =~= name) by {
            assert forall|j: int| 0 <= j < count implies text.subrange(at, at + count)[j]
                == name[j] by {
                assert(text[at + j] == text.skip(at)[j]);
            }
        }
        let tail = front_tokens(bits, place + 1, at + count + 1, letter);
        assert(tail.len() >= 1) by {
            lemma_front_tokens_end(bits, place + 1, at + count + 1, letter);
        }
        assert(tokens.skip(first).len() == 2 + tail.len());
        assert(tokens[first] == tokens.skip(first)[0]);
        assert(tokens[first + 1] == tokens.skip(first)[1]);
        assert(tokens.skip(first + 2) =~= tail) by {
            assert forall|j: int| 0 <= j < tail.len() implies tokens.skip(first + 2)[j]
                == tail[j] by {
                assert(tokens.skip(first + 2)[j] == tokens.skip(first)[2 + j]);
            }
        }
        assert(modifier_of(text, tokens[first]) == Some(flag_at(place)));
        assert(!(flag_at(place) < below(bits, place)) && below(bits, place) | flag_at(place)
            == below(bits, place + 1)) by {
            if place == 0 {
                assert(0u8 | 1u8 == bits & 1) by (bit_vector)
                    requires
                        bits & 1 == 1,
                ;
            } else if place == 1 {
                assert(!(2u8 < bits & 1) && (bits & 1) | 2 == bits & 3) by (bit_vector)
                    requires
                        bits & 2 == 2,
                ;
            } else if place == 2 {
                assert(!(4u8 < bits & 3) && (bits & 3) | 4 == bits & 7) by (bit_vector)
                    requires
                        bits & 4 == 4,
                ;
            } else {
                assert(!(8u8 < bits & 7) && (bits & 7) | 8 == bits & 15) by (bit_vector)
                    requires
                        bits & 8 == 8,
                ;
            }
        }
        lemma_front_is_read(text, tokens, first + 2, at + count + 1, bits, place + 1, letter, key);
        assert(read_chord(text, tokens, first, below(bits, place)) == read_chord(
            text,
            tokens,
            first + 2,
            below(bits, place + 1),
        ));
    } else {
        assert(below(bits, place) == below(bits, place + 1)) by {
            if place == 0 {
                assert(0u8 == bits & 1) by (bit_vector)
                    requires
                        bits & 1 != 1,
                ;
            } else if place == 1 {
                assert(bits & 1 == bits & 3) by (bit_vector)
                    requires
                        bits & 2 != 2,
                ;
            } else if place == 2 {
                assert(bits & 3 == bits & 7) by (bit_vector)
                    requires
                        bits & 4 != 4,
                ;
            } else {
                assert(bits & 7 == bits & 15) by (bit_vector)
                    requires
                        bits & 8 != 8,
                ;
            }
        }
        lemma_front_is_read(text, tokens, first, at, bits, place + 1, letter, key);
    }
}

/// The tokens of a stretch are one at least.
pub proof fn lemma_front_tokens_end(bits: u8, place: int, at: int, sign: char)
    ensures
        front_tokens(bits, place, at, sign).len() >= 1,
    decreases 4 - place,
{
    if 0 <= place < 4 {
        lemma_front_tokens_end(bits, place + 1, at, sign);
        lemma_front_tokens_end(bits, place + 1, at + name_at(place).len() + 1, sign);
    }
}

/// A stretch is not longer than the four names with their hyphens.
pub proof fn lemma_front_is_short(bits: u8, place: int)
    requires
        0 <= place <= 4,
    ensures
        front(bits, place).len() <= 6 * (4 - place),
    decreases 4 - place,
{
    if place < 4 {
        lemma_names_are_words(place);
        reveal_strlit("-");
        lemma_front_is_short(bits, place + 1);
    }
}

/// A letter key shows as its letter.
pub proof fn lemma_letter_shows(letter: char, key: KeyCode)
    requires
        letter_key(letter) == Some(key),
    ensures
        key.short() == seq![letter],
        is_letter(letter),
{
    reveal_strlit("A");
    reveal_strlit("B");
    reveal_strlit("C");
    reveal_strlit("D");
    reveal_strlit("E");
    reveal_strlit("F");
    reveal_strlit("G");
    reveal_strlit("H");
    reveal_strlit("I");
    reveal_strlit("J");
    reveal_strlit("K");
    reveal_strlit("L");
    reveal_strlit("M");
    reveal_strlit("N");
    reveal_strlit("O");
    reveal_strlit("P");
    reveal_strlit("Q");
    reveal_strlit("R");
    reveal_strlit("S");
    reveal_strlit("T");
    reveal_strlit("U");
    reveal_strlit("V");
    reveal_strlit("W");
    reveal_strlit("X");
    reveal_strlit("Y");
    reveal_strlit("Z");
    match letter {
        'A' => {
            assert("A"@ =~= seq!['A']);
        },
        'B' => {
            assert("B"@ =~= seq!['B']);
        },
        'C' => {
            assert("C"@ =~= seq!['C']);
        },
        'D' => {
            assert("D"@ =~= seq!['D']);
        },
        'E' => {
            assert("E"@ =~= seq!['E']);
        },
        'F' => {
            assert("F"@ =~= seq!['F']);
        },
        'G' => {
            assert("G"@ =~= seq!['G']);
        },
        'H' => {
            assert("H"@ =~= seq!['H']);
        },
        'I' => {
            assert("I"@ =~= seq!['I']);
        },
        'J' => {
            assert("J"@ =~= seq!['J']);
        },
        'K' => {
            assert("K"@ =~= seq!['K']);
        },
        'L' => {
            assert("L"@ =~= seq!['L']);
        },
        'M' => {
            assert("M"@ =~= seq!['M']);
        },
        'N' => {
            assert("N"@ =~= seq!['N']);
        },
        'O' => {
            assert("O"@ =~= seq!['O']);
        },
        'P' => {
            assert("P"@ =~= seq!['P']);
        },
        'Q' => {
            assert("Q"@ =~= seq!['Q']);
        },
        'R' => {
            assert("R"@ =~= seq!['R']);
        },
        'S' => {
            assert("S"@ =~= seq!['S']);
        },
        'T' => {
            assert("T"@ =~= seq!['T']);
        },
        'U' => {
            assert("U"@ =~= seq!['U']);
        },
        'V' => {
            assert("V"@ =~= seq!['V']);
        },
        'W' => {
            assert("W"@ =~= seq!['W']);
        },
        'X' => {
            assert("X"@ =~= seq!['X']);
        },
        'Y' => {
            assert("Y"@ =~= seq!['Y']);
        },
        'Z' => {
            assert("Z"@ =~= seq!['Z']);
        },
        _ => {},
    }
}

/// The parts in order, each with a hyphen behind it.
pub open spec fn dashed(parts: Seq<Seq<char>>) -> Seq<char>
    decreases parts.len(),
{
    if parts.len() == 0 {
        Seq::empty()
    } else {
        parts[0] + "-"@ + dashed(parts.skip(1))
    }
}

/// The names of the modifiers of `bits` from `place` on, in order.
pub open spec fn names_from(bits: u8, place: int) -> Seq<Seq<char>>
    decreases 4 - place,
{
    if place < 0 || place >= 4 {
        Seq::empty()
    } else if bits & flag_at(place) == flag_at(place) {
        seq![name_at(place)] + names_from(bits, place + 1)
    } else {
        names_from(bits, place + 1)
    }
}

/// A digit key shows as its digit, and the keys of the signs `; . = / -` as
/// their signs.
pub proof fn lemma_digit_or_sign_shows(sign: char, key: KeyCode)
    requires
        digit_key(sign) == Some(key) || (sign_key(sign) == Some(key) && sign != ','),
    ensures
        key.short() == seq![sign],
        single_key(sign) == Some(key),
        !is_space(sign),
        sign != '\'',
{
    reveal_strlit("0");
    reveal_strlit("1");
    reveal_strlit("2");
    reveal_strlit("3");
    reveal_strlit("4");
    reveal_strlit("5");
    reveal_strlit("6");
    reveal_strlit("7");
    reveal_strlit("8");
    reveal_strlit("9");
    reveal_strlit(";");
    reveal_strlit(".");
    reveal_strlit("=");
    reveal_strlit("/");
    reveal_strlit("-");
    match sign {
        '0' => {
            assert("0"@ =~= seq!['0']);
        },
        '1' => {
            assert("1"@ =~= seq!['1']);
        },
        '2' => {
            assert("2"@ =~= seq!['2']);
        },
        '3' => {
            assert("3"@ =~= seq!['3']);
        },
        '4' => {
            assert("4"@ =~= seq!['4']);
        },
        '5' => {
            assert("5"@ =~= seq!['5']);
        },
        '6' => {
            assert("6"@ =~= seq!['6']);
        },
        '7' => {
            assert("7"@ =~= seq!['7']);
        },
        '8' => {
            assert("8"@ =~= seq!['8']);
        },
        '9' => {
            assert("9"@ =~= seq!['9']);
        },
        ';' => {
            assert(";"@ =~= seq![';']);
        },
        '.' => {
            assert("."@ =~= seq!['.']);
        },
        '=' => {
            assert("="@ =~= seq!['=']);
        },
        '/' => {
            assert("/"@ =~= seq!['/']);
        },
        '-' => {
            assert("-"@ =~= seq!['-']);
        },
        _ => {},
    }
}

proof fn lemma_dashed_push(parts: Seq<Seq<char>>, last: Seq<char>)
    ensures
        dashed(parts.push(last)) == dashed(parts) + last + "-"@,
    decreases parts.len(),
{
    let all = parts.push(last);
    if parts.len() == 0 {
        assert(all.skip(1) =~= Seq::<Seq<char>>::empty());
        assert(dashed(Seq::<Seq<char>>::empty()) =~= Seq::<char>::empty());
        assert(dashed(all) == all[0] + "-"@ + dashed(all.skip(1)));
        assert(dashed(all) =~= dashed(parts) + last + "-"@);
    } else {
        assert(all.skip(1) =~= parts.skip(1).push(last));
        lemma_dashed_push(parts.skip(1), last);
        assert(dashed(all) =~= dashed(parts) + last + "-"@);
    }
}

proof fn lemma_hyphenate_dashed(parts: Seq<Seq<char>>)
    requires
        parts.len() > 0,
    ensures
        hyphenate(parts) + "-"@ == dashed(parts),
    decreases parts.len(),
{
    if parts.len() == 1 {
        assert(parts.skip(1) =~= Seq::<Seq<char>>::empty());
        assert(dashed(Seq::<Seq<char>>::empty()) =~= Seq::<char>::empty());
        assert(dashed(parts) == parts[0] + "-"@ + dashed(parts.skip(1)));
        assert(hyphenate(parts) + "-"@ =~= dashed(parts));
    } else {
        let front = parts.drop_last();
        lemma_hyphenate_dashed(front);
        lemma_dashed_push(front, parts.last());
        assert(front.push(parts.last()) =~= parts);
        assert(hyphenate(parts) + "-"@ =~= (hyphenate(front) + "-"@) + parts.last() + "-"@);
    }
}

proof fn lemma_front_dashed(bits: u8, place: int)
    requires
        0 <= place <= 4,
    ensures
        front(bits, place) == dashed(names_from(bits, place)),
    decreases 4 - place,
{
    if place < 4 {
        lemma_front_dashed(bits, place + 1);
        if bits & flag_at(place) == flag_at(place) {
            let rest = names_from(bits, place + 1);
            let all = seq![name_at(place)] + rest;
            assert(all.skip(1) =~= rest);
            assert(all[0] == name_at(place));
        }
    }
}

proof fn lemma_names_from_start(mods: Modifiers)
    ensures
        mods.names() == names_from(mods.0, 0),
{
    reveal_with_fuel(names_from, 5);
    assert(mods.names() =~= names_from(mods.0, 0));
}

/// The modifiers as they are shown, with the hyphen that parts them from the
/// key where any is set, are the stretch of all four places.
pub proof fn lemma_text_is_front(mods: Modifiers)
    requires
        mods.0 < 16,
    ensures
        mods.text() + (if mods.0 != 0 {
            "-"@
        } else {
            Seq::<char>::empty()
        }) == front(mods.0, 0),
{
    let bits = mods.0;
    assert(bits != 0 <==> (bits & 1 == 1 || bits & 2 == 2 || bits & 4 == 4 || bits & 8 == 8))
        by (bit_vector)
        requires
            bits < 16,
    ;
    lemma_names_from_start(mods);
    lemma_front_dashed(bits, 0);
    if bits != 0 {
        assert(mods.names().len() > 0);
        lemma_hyphenate_dashed(mods.names());
    } else {
        assert(mods.names() =~= Seq::<Seq<char>>::empty());
        assert(mods.text() + Seq::<char>::empty() =~= front(bits, 0));
    }
}

/// A chord of any of the four modifiers and a key that is shown as the one
/// character that stands for it, shown and read again, is the same chord. Such
/// are the letter keys, the digit keys and the keys of the signs `; . = / -`
/// (see `lemma_letter_shows` and `lemma_digit_or_sign_shows`).
pub proof fn lemma_shown_chord_reads_back(chord: KeyChord, sign: char)
    requires
        chord.0.0 < 16,
        single_key(sign) == Some(chord.1),
        chord.1.short() == seq![sign],
        !is_space(sign),
        sign != '\'',
    ensures
        parse_key(chord.text()) == Some((chord.0, chord.1)),
{
    let bits = chord.0.0;
    let text = chord.text();
    lemma_text_is_front(chord.0);
    lemma_front_is_short(bits, 0);
    assert(text =~= front(bits, 0) + seq![sign]);
    assert(text.skip(0) =~= text);
    lemma_front_is_cut(text, 0, bits, 0, sign);
    let tokens = front_tokens(bits, 0, 0, sign);
    assert(tokens.skip(0) =~= tokens);
    lemma_front_is_read(text, tokens, 0, 0, bits, 0, sign, chord.1);
}

/// A chord of a letter key with any of the four modifiers, shown and read
/// again, is the same chord.
pub proof fn lemma_shown_letter_reads_back(chord: KeyChord, letter: char)
    requires
        chord.0.0 < 16,
        letter_key(letter) == Some(chord.1),
    ensures
        parse_key(chord.text()) == Some((chord.0, chord.1)),
{
    lemma_letter_shows(letter, chord.1);
    lemma_shown_chord_reads_back(chord, letter);
}

} // verus!
