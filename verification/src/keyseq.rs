//! The short-hand for key chords: `Ctrl-A`, `Ctrl-Shift-;`, and sequences of
//! them such as `Ctrl-X Ctrl-S`.
//!
//! A text is cut into tokens as source text is: words, numbers, characters in
//! single quotes, and signs, with blanks between them where wanted. A chord is
//! a run of modifiers and hyphens that ends in a key. The modifiers are `Ctrl`,
//! `Alt`, `Shift` and `Super`, in this order. A key is a capital letter, a
//! digit, one of the signs `; , . = / -`, one of the quoted characters
//! `'[' ']' '\'' '`' '\\'`, or the name of a key.
use crate::key_code::{KeyCode, NAMED_KEYS};
use crate::modifiers::Modifiers;
use vstd::prelude::*;
use vstd::string::StrSliceExecFns;

verus! {

/// A piece of a text.
#[derive(Clone, Copy, Debug, PartialEq, Eq, Structural)]
pub enum Token {
    /// A word: the letters, digits and underscores from `from` to before `to`,
    /// the first of them no digit.
    Word { from: usize, to: usize },
    /// A number: the letters, digits and underscores from `from` to before
    /// `to`, the first of them a digit.
    Number { from: usize, to: usize },
    /// A character between single quotes.
    Quoted(char),
    /// Any other character that is no blank.
    Punct(char),
}

/// A blank: it parts tokens and is none.
pub open spec fn is_space(c: char) -> bool {
    c == ' ' || c == '\t' || c == '\n' || c == '\r'
}

/// A digit.
pub open spec fn is_digit(c: char) -> bool {
    '0' <= c <= '9'
}

/// A letter or an underscore.
pub open spec fn is_letter(c: char) -> bool {
    'a' <= c <= 'z' || 'A' <= c <= 'Z' || c == '_'
}

/// How many letters, digits and underscores stand at `i` and behind it without
/// a break.
pub open spec fn run(text: Seq<char>, i: int) -> nat
    decreases text.len() - i,
{
    if 0 <= i < text.len() && (is_letter(text[i]) || is_digit(text[i])) {
        1 + run(text, i + 1)
    } else {
        0
    }
}

/// A token in front of the tokens that follow, where those could be cut.
pub open spec fn prepend(token: Token, rest: Option<Seq<Token>>) -> Option<Seq<Token>> {
    match rest {
        Some(rest) => Some(seq![token] + rest),
        None => None,
    }
}

/// The tokens of the text from `i` on, the first `skip` characters left out.
/// Nothing where a single quote opens no quoted character.
pub open spec fn lex(text: Seq<char>, i: int, skip: nat) -> Option<Seq<Token>>
    decreases text.len() - i,
{
    if i < 0 || i >= text.len() {
        Some(Seq::empty())
    } else if skip > 0 {
        lex(text, i + 1, (skip - 1) as nat)
    } else if is_space(text[i]) {
        lex(text, i + 1, 0)
    } else if is_letter(text[i]) {
        prepend(
            Token::Word { from: i as usize, to: (i + run(text, i)) as usize },
            lex(text, i + 1, (run(text, i) - 1) as nat),
        )
    } else if is_digit(text[i]) {
        prepend(
            Token::Number { from: i as usize, to: (i + run(text, i)) as usize },
            lex(text, i + 1, (run(text, i) - 1) as nat),
        )
    } else if text[i] == '\'' {
        if i + 2 < text.len() && text[i + 1] != '\\' && text[i + 2] == '\'' {
            prepend(Token::Quoted(text[i + 1]), lex(text, i + 1, 2))
        } else if i + 3 < text.len() && text[i + 1] == '\\' && text[i + 3] == '\'' {
            prepend(Token::Quoted(text[i + 2]), lex(text, i + 1, 3))
        } else {
            None
        }
    } else {
        prepend(Token::Punct(text[i]), lex(text, i + 1, 0))
    }
}

/// The token is a hyphen.
pub open spec fn is_dash(token: Token) -> bool {
    token == Token::Punct('-')
}

/// The flag of the modifier that the token names.
pub open spec fn modifier_of(text: Seq<char>, token: Token) -> Option<u8> {
    match token {
        Token::Word { from, to } => {
            let word = text.subrange(from as int, to as int);
            if word == "Ctrl"@ {
                Some(Modifiers::CONTROL)
            } else if word == "Alt"@ {
                Some(Modifiers::ALT)
            } else if word == "Shift"@ {
                Some(Modifiers::SHIFT)
            } else if word == "Super"@ {
                Some(Modifiers::SUPER)
            } else {
                None
            }
        },
        _ => None,
    }
}

/// The key of a capital letter.
pub open spec fn letter_key(c: char) -> Option<KeyCode> {
    match c {
        'A' => Some(KeyCode::KeyA),
        'B' => Some(KeyCode::KeyB),
        'C' => Some(KeyCode::KeyC),
        'D' => Some(KeyCode::KeyD),
        'E' => Some(KeyCode::KeyE),
        'F' => Some(KeyCode::KeyF),
        'G' => Some(KeyCode::KeyG),
        'H' => Some(KeyCode::KeyH),
        'I' => Some(KeyCode::KeyI),
        'J' => Some(KeyCode::KeyJ),
        'K' => Some(KeyCode::KeyK),
        'L' => Some(KeyCode::KeyL),
        'M' => Some(KeyCode::KeyM),
        'N' => Some(KeyCode::KeyN),
        'O' => Some(KeyCode::KeyO),
        'P' => Some(KeyCode::KeyP),
        'Q' => Some(KeyCode::KeyQ),
        'R' => Some(KeyCode::KeyR),
        'S' => Some(KeyCode::KeyS),
        'T' => Some(KeyCode::KeyT),
        'U' => Some(KeyCode::KeyU),
        'V' => Some(KeyCode::KeyV),
        'W' => Some(KeyCode::KeyW),
        'X' => Some(KeyCode::KeyX),
        'Y' => Some(KeyCode::KeyY),
        'Z' => Some(KeyCode::KeyZ),
        _ => None,
    }
}

/// The key of a digit.
pub open spec fn digit_key(c: char) -> Option<KeyCode> {
    match c {
        '0' => Some(KeyCode::Digit0),
        '1' => Some(KeyCode::Digit1),
        '2' => Some(KeyCode::Digit2),
        '3' => Some(KeyCode::Digit3),
        '4' => Some(KeyCode::Digit4),
        '5' => Some(KeyCode::Digit5),
        '6' => Some(KeyCode::Digit6),
        '7' => Some(KeyCode::Digit7),
        '8' => Some(KeyCode::Digit8),
        '9' => Some(KeyCode::Digit9),
        _ => None,
    }
}

/// The key of a sign.
pub open spec fn sign_key(c: char) -> Option<KeyCode> {
    match c {
        ';' => Some(KeyCode::Semicolon),
        ',' => Some(KeyCode::Comma),
        '.' => Some(KeyCode::Period),
        '=' => Some(KeyCode::Equal),
        '/' => Some(KeyCode::Slash),
        '-' => Some(KeyCode::Minus),
        _ => None,
    }
}

/// The key of a quoted character.
pub open spec fn quoted_key(c: char) -> Option<KeyCode> {
    match c {
        '[' => Some(KeyCode::BracketLeft),
        ']' => Some(KeyCode::BracketRight),
        '\'' => Some(KeyCode::Quote),
        '`' => Some(KeyCode::Backquote),
        '\\' => Some(KeyCode::Backslash),
        _ => None,
    }
}

/// The named key with the least ordinal from `from` on whose name is `name`.
pub open spec fn named_from(name: Seq<char>, from: u64) -> Option<KeyCode>
    decreases NAMED_KEYS + 1 - from,
{
    if from < 1 || from > NAMED_KEYS {
        None
    } else if KeyCode::at(from)->0.name() == name {
        KeyCode::at(from)
    } else {
        named_from(name, (from + 1) as u64)
    }
}

/// The key that a token stands for.
pub open spec fn key_of(text: Seq<char>, token: Token) -> Option<KeyCode> {
    match token {
        Token::Word { from, to } => if to - from == 1 {
            letter_key(text[from as int])
        } else {
            named_from(text.subrange(from as int, to as int), 1)
        },
        Token::Number { from, to } => if to - from == 1 {
            digit_key(text[from as int])
        } else {
            None
        },
        Token::Quoted(c) => quoted_key(c),
        Token::Punct(c) => sign_key(c),
    }
}

/// A chord that was read, and the place of the token behind it.
pub struct Read {
    /// The modifiers and the key.
    pub chord: (Modifiers, KeyCode),
    /// The index of the next token.
    pub next: int,
}

/// The chord that begins at token `i`, with the modifiers `bits` read before.
/// The key is the last token, or the first that is no hyphen and has none
/// behind it. In front of it stand hyphens and modifiers only, each modifier
/// no earlier in the order than those before it.
pub open spec fn read_chord(text: Seq<char>, tokens: Seq<Token>, i: int, bits: u8) -> Option<Read>
    decreases tokens.len() - i,
{
    if i < 0 || i >= tokens.len() {
        None
    } else if i + 1 == tokens.len() || (!is_dash(tokens[i]) && !is_dash(tokens[i + 1])) {
        match key_of(text, tokens[i]) {
            Some(key) => Some(Read { chord: (Modifiers(bits), key), next: i + 1 }),
            None => None,
        }
    } else if is_dash(tokens[i]) {
        read_chord(text, tokens, i + 1, bits)
    } else {
        match modifier_of(text, tokens[i]) {
            Some(flag) => if flag < bits {
                None
            } else {
                read_chord(text, tokens, i + 1, bits | flag)
            },
            None => None,
        }
    }
}

/// Chords in front of the chords that follow, where those could be read.
pub open spec fn extend(
    chords: Seq<(Modifiers, KeyCode)>,
    rest: Option<Seq<(Modifiers, KeyCode)>>,
) -> Option<Seq<(Modifiers, KeyCode)>> {
    match rest {
        Some(rest) => Some(chords + rest),
        None => None,
    }
}

/// The chords from token `i` to the last token: one at least.
pub open spec fn read_chords(text: Seq<char>, tokens: Seq<Token>, i: int) -> Option<
    Seq<(Modifiers, KeyCode)>,
>
    decreases tokens.len() - i,
{
    match read_chord(text, tokens, i, 0) {
        None => None,
        Some(read) => if read.next >= tokens.len() {
            Some(seq![read.chord])
        } else if read.next <= i {
            None
        } else {
            extend(seq![read.chord], read_chords(text, tokens, read.next))
        },
    }
}

/// The chords that a text stands for: nothing where it is not made of chords.
pub open spec fn parse_keyseq(text: Seq<char>) -> Option<Seq<(Modifiers, KeyCode)>> {
    match lex(text, 0, 0) {
        Some(tokens) => read_chords(text, tokens, 0),
        None => None,
    }
}

/// The one chord that a text stands for: nothing where it holds more or less.
pub open spec fn parse_key(text: Seq<char>) -> Option<(Modifiers, KeyCode)> {
    match lex(text, 0, 0) {
        Some(tokens) => match read_chord(text, tokens, 0, 0) {
            Some(read) => if read.next == tokens.len() {
                Some(read.chord)
            } else {
                None
            },
            None => None,
        },
        None => None,
    }
}

/// Leaving out `skip` characters is going on behind them.
pub proof fn lemma_lex_skip(text: Seq<char>, i: int, skip: nat)
    requires
        0 <= i,
        i + skip <= text.len(),
    ensures
        lex(text, i, skip) == lex(text, i + skip, 0),
    decreases skip,
{
    if skip > 0 && i < text.len() {
        lemma_lex_skip(text, i + 1, (skip - 1) as nat);
    }
}

/// A run ends within the text.
pub proof fn lemma_run_bound(text: Seq<char>, i: int)
    requires
        0 <= i <= text.len(),
    ensures
        i + run(text, i) <= text.len(),
    decreases text.len() - i,
{
    if i < text.len() && (is_letter(text[i]) || is_digit(text[i])) {
        lemma_run_bound(text, i + 1);
    }
}

fn check_space(c: char) -> (yes: bool)
    ensures
        yes == is_space(c),
{
    c == ' ' || c == '\t' || c == '\n' || c == '\r'
}

fn check_digit(c: char) -> (yes: bool)
    ensures
        yes == is_digit(c),
{
    '0' <= c && c <= '9'
}

fn check_letter(c: char) -> (yes: bool)
    ensures
        yes == is_letter(c),
{
    ('a' <= c && c <= 'z') || ('A' <= c && c <= 'Z') || c == '_'
}

/// The characters of a text.
fn chars_of(text: &str) -> (chars: Vec<char>)
    ensures
        chars@ == text@,
{
    let count = text.unicode_len();
    let mut chars: Vec<char> = Vec::new();
    let mut i: usize = 0;
    while i < count
        invariant
            i <= count,
            count == text@.len(),
            chars@ == text@.take(i as int),
        decreases count - i,
    {
        chars.push(text.get_char(i));
        assert(chars@ =~= text@.take(i + 1));
        i += 1;
    }
    assert(text@.take(i as int) == text@);
    chars
}

/// The end of the run that stands at `from`.
fn run_end(chars: &Vec<char>, from: usize) -> (to: usize)
    requires
        from <= chars@.len(),
    ensures
        to == from + run(chars@, from as int),
        to <= chars@.len(),
{
    let mut to: usize = from;
    while to < chars.len() && (check_letter(chars[to]) || check_digit(chars[to]))
        invariant
            from <= to <= chars@.len(),
            from + run(chars@, from as int) == to + run(chars@, to as int),
        decreases chars@.len() - to,
    {
        to += 1;
    }
    to
}

/// Cuts the text into tokens.
fn tokenize(chars: &Vec<char>) -> (tokens: Option<Vec<Token>>)
    ensures
        tokens is Some <==> lex(chars@, 0, 0) is Some,
        tokens is Some ==> Some(tokens->0@) == lex(chars@, 0, 0),
{
    let ghost text = chars@;
    let mut tokens: Vec<Token> = Vec::new();
    let mut i: usize = 0;
    while i < chars.len()
        invariant
            i <= chars@.len(),
            text == chars@,
            lex(text, 0, 0) == extend_tokens(tokens@, lex(text, i as int, 0)),
        decreases chars@.len() - i,
    {
        let c = chars[i];
        let ghost before = tokens@;
        if check_space(c) {
            i += 1;
        } else if check_letter(c) || check_digit(c) {
            let to = run_end(chars, i);
            proof {
                lemma_lex_skip(text, i + 1, (run(text, i as int) - 1) as nat);
            }
            if check_letter(c) {
                tokens.push(Token::Word { from: i, to });
            } else {
                tokens.push(Token::Number { from: i, to });
            }
            proof {
                lemma_extend_tokens(before, tokens@[tokens@.len() - 1], lex(text, to as int, 0));
            }
            i = to;
        } else if c == '\'' {
            if chars.len() - i > 2 && chars[i + 1] != '\\' && chars[i + 2] == '\'' {
                proof {
                    lemma_lex_skip(text, i + 1, 2);
                    lemma_extend_tokens(
                        before,
                        Token::Quoted(text[i + 1]),
                        lex(text, i + 3, 0),
                    );
                }
                tokens.push(Token::Quoted(chars[i + 1]));
                i += 3;
            } else if chars.len() - i > 3 && chars[i + 1] == '\\' && chars[i + 3] == '\'' {
                proof {
                    lemma_lex_skip(text, i + 1, 3);
                    lemma_extend_tokens(
                        before,
                        Token::Quoted(text[i + 2]),
                        lex(text, i + 4, 0),
                    );
                }
                tokens.push(Token::Quoted(chars[i + 2]));
                i += 4;
            } else {
                return None;
            }
        } else {
            proof {
                lemma_extend_tokens(before, Token::Punct(c), lex(text, i + 1, 0));
            }
            tokens.push(Token::Punct(c));
            i += 1;
        }
    }
    assert(tokens@ + Seq::<Token>::empty() =~= tokens@);
    Some(tokens)
}

/// The tokens read so far in front of those that follow.
pub open spec fn extend_tokens(tokens: Seq<Token>, rest: Option<Seq<Token>>) -> Option<
    Seq<Token>,
> {
    match rest {
        Some(rest) => Some(tokens + rest),
        None => None,
    }
}

proof fn lemma_extend_tokens(tokens: Seq<Token>, token: Token, rest: Option<Seq<Token>>)
    ensures
        extend_tokens(tokens, prepend(token, rest)) == extend_tokens(tokens.push(token), rest),
{
    if rest is Some {
        assert(tokens + (seq![token] + rest->0) =~= tokens.push(token) + rest->0);
    }
}

/// The characters from `from` to before `to` spell `name`.
fn spells(name: &str, chars: &Vec<char>, from: usize, to: usize) -> (same: bool)
    requires
        from <= to <= chars@.len(),
    ensures
        same == (chars@.subrange(from as int, to as int) == name@),
{
    let ghost word = chars@.subrange(from as int, to as int);
    let count = name.unicode_len();
    if count != to - from {
        return false;
    }
    let mut i: usize = 0;
    while i < count
        invariant
            i <= count,
            count == name@.len(),
            count == to - from,
            to <= chars@.len(),
            word == chars@.subrange(from as int, to as int),
            forall|j: int| 0 <= j < i ==> word[j] == name@[j],
        decreases count - i,
    {
        if name.get_char(i) != chars[from + i] {
            assert(word[i as int] != name@[i as int]);
            return false;
        }
        i += 1;
    }
    assert(word =~= name@);
    true
}

fn find_modifier(chars: &Vec<char>, token: Token) -> (flag: Option<u8>)
    requires
        token_fits(chars@, token),
    ensures
        flag == modifier_of(chars@, token),
{
    match token {
        Token::Word { from, to } => {
            if spells("Ctrl", chars, from, to) {
                Some(Modifiers::CONTROL)
            } else if spells("Alt", chars, from, to) {
                Some(Modifiers::ALT)
            } else if spells("Shift", chars, from, to) {
                Some(Modifiers::SHIFT)
            } else if spells("Super", chars, from, to) {
                Some(Modifiers::SUPER)
            } else {
                None
            }
        },
        _ => None,
    }
}

/// A word or a number lies within the text and is not empty.
pub open spec fn token_fits(text: Seq<char>, token: Token) -> bool {
    match token {
        Token::Word { from, to } => from < to <= text.len(),
        Token::Number { from, to } => from < to <= text.len(),
        _ => true,
    }
}

fn find_letter(c: char) -> (key: Option<KeyCode>)
    ensures
        key == letter_key(c),
{
    match c {
        'A' => Some(KeyCode::KeyA),
        'B' => Some(KeyCode::KeyB),
        'C' => Some(KeyCode::KeyC),
        'D' => Some(KeyCode::KeyD),
        'E' => Some(KeyCode::KeyE),
        'F' => Some(KeyCode::KeyF),
        'G' => Some(KeyCode::KeyG),
        'H' => Some(KeyCode::KeyH),
        'I' => Some(KeyCode::KeyI),
        'J' => Some(KeyCode::KeyJ),
        'K' => Some(KeyCode::KeyK),
        'L' => Some(KeyCode::KeyL),
        'M' => Some(KeyCode::KeyM),
        'N' => Some(KeyCode::KeyN),
        'O' => Some(KeyCode::KeyO),
        'P' => Some(KeyCode::KeyP),
        'Q' => Some(KeyCode::KeyQ),
        'R' => Some(KeyCode::KeyR),
        'S' => Some(KeyCode::KeyS),
        'T' => Some(KeyCode::KeyT),
        'U' => Some(KeyCode::KeyU),
        'V' => Some(KeyCode::KeyV),
        'W' => Some(KeyCode::KeyW),
        'X' => Some(KeyCode::KeyX),
        'Y' => Some(KeyCode::KeyY),
        'Z' => Some(KeyCode::KeyZ),
        _ => None,
    }
}

fn find_digit(c: char) -> (key: Option<KeyCode>)
    ensures
        key == digit_key(c),
{
    match c {
        '0' => Some(KeyCode::Digit0),
        '1' => Some(KeyCode::Digit1),
        '2' => Some(KeyCode::Digit2),
        '3' => Some(KeyCode::Digit3),
        '4' => Some(KeyCode::Digit4),
        '5' => Some(KeyCode::Digit5),
        '6' => Some(KeyCode::Digit6),
        '7' => Some(KeyCode::Digit7),
        '8' => Some(KeyCode::Digit8),
        '9' => Some(KeyCode::Digit9),
        _ => None,
    }
}

fn find_sign(c: char) -> (key: Option<KeyCode>)
    ensures
        key == sign_key(c),
{
    match c {
        ';' => Some(KeyCode::Semicolon),
        ',' => Some(KeyCode::Comma),
        '.' => Some(KeyCode::Period),
        '=' => Some(KeyCode::Equal),
        '/' => Some(KeyCode::Slash),
        '-' => Some(KeyCode::Minus),
        _ => None,
    }
}

fn find_quoted(c: char) -> (key: Option<KeyCode>)
    ensures
        key == quoted_key(c),
{
    match c {
        '[' => Some(KeyCode::BracketLeft),
        ']' => Some(KeyCode::BracketRight),
        '\'' => Some(KeyCode::Quote),
        '`' => Some(KeyCode::Backquote),
        '\\' => Some(KeyCode::Backslash),
        _ => None,
    }
}

/// The key whose name the characters from `from` to before `to` spell.
fn find_named(chars: &Vec<char>, from: usize, to: usize) -> (key: Option<KeyCode>)
    requires
        from <= to <= chars@.len(),
    ensures
        key == named_from(chars@.subrange(from as int, to as int), 1),
{
    let ghost name = chars@.subrange(from as int, to as int);
    let mut ordinal: u64 = 1;
    while ordinal <= NAMED_KEYS
        invariant
            1 <= ordinal <= NAMED_KEYS + 1,
            from <= to <= chars@.len(),
            name == chars@.subrange(from as int, to as int),
            named_from(name, 1) == named_from(name, ordinal),
        decreases NAMED_KEYS + 1 - ordinal,
    {
        match KeyCode::from_ordinal(ordinal) {
            Some(key) => {
                if spells(key.variant_name(), chars, from, to) {
                    return Some(key);
                }
            },
            None => {},
        }
        ordinal += 1;
    }
    None
}

fn find_key(chars: &Vec<char>, token: Token) -> (key: Option<KeyCode>)
    requires
        token_fits(chars@, token),
    ensures
        key == key_of(chars@, token),
{
    match token {
        Token::Word { from, to } => {
            if to - from == 1 {
                find_letter(chars[from])
            } else {
                find_named(chars, from, to)
            }
        },
        Token::Number { from, to } => {
            if to - from == 1 {
                find_digit(chars[from])
            } else {
                None
            }
        },
        Token::Quoted(c) => find_quoted(c),
        Token::Punct(c) => find_sign(c),
    }
}

fn check_dash(token: Token) -> (yes: bool)
    ensures
        yes == is_dash(token),
{
    match token {
        Token::Punct(c) => c == '-',
        _ => false,
    }
}

/// Every token of the list fits the text.
pub open spec fn tokens_fit(text: Seq<char>, tokens: Seq<Token>) -> bool {
    forall|k: int| 0 <= k < tokens.len() ==> token_fits(text, #[trigger] tokens[k])
}

/// A chord that was read, and the index of the token behind it.
struct Found {
    chord: (Modifiers, KeyCode),
    next: usize,
}

/// Reads the chord that begins at token `start`.
fn chord_at(chars: &Vec<char>, tokens: &Vec<Token>, start: usize) -> (read: Option<Found>)
    requires
        tokens_fit(chars@, tokens@),
    ensures
        read is Some <==> read_chord(chars@, tokens@, start as int, 0) is Some,
        read is Some ==> read_chord(chars@, tokens@, start as int, 0) == Some(
            Read { chord: read->Some_0.chord, next: read->Some_0.next as int },
        ),
        read is Some ==> start < read->Some_0.next <= tokens@.len(),
{
    if start >= tokens.len() {
        return None;
    }
    let mut bits: u8 = 0;
    let mut i: usize = start;
    while i < tokens.len()
        invariant
            start <= i <= tokens@.len(),
            tokens_fit(chars@, tokens@),
            read_chord(chars@, tokens@, start as int, 0) == read_chord(
                chars@,
                tokens@,
                i as int,
                bits,
            ),
        decreases tokens@.len() - i,
    {
        let token = tokens[i];
        if i + 1 == tokens.len() || (!check_dash(token) && !check_dash(tokens[i + 1])) {
            return match find_key(chars, token) {
                Some(key) => Some(Found { chord: (Modifiers(bits), key), next: i + 1 }),
                None => None,
            };
        }
        if !check_dash(token) {
            match find_modifier(chars, token) {
                Some(flag) => {
                    if flag < bits {
                        return None;
                    }
                    bits = bits | flag;
                },
                None => {
                    return None;
                },
            }
        }
        i += 1;
    }
    None
}

/// A token that fits in front of tokens that fit.
proof fn lemma_prepend_fits(text: Seq<char>, token: Token, rest: Seq<Token>)
    requires
        token_fits(text, token),
        tokens_fit(text, rest),
    ensures
        tokens_fit(text, seq![token] + rest),
{
    let all = seq![token] + rest;
    assert forall|k: int| 0 <= k < all.len() implies token_fits(text, #[trigger] all[k]) by {
        if k > 0 {
            assert(all[k] == rest[k - 1]);
        }
    }
}

/// Runs and quoted characters as `lex` cuts them fit the text.
proof fn lemma_lex_fits(text: Seq<char>, i: int, skip: nat)
    requires
        0 <= i,
        text.len() <= usize::MAX,
        lex(text, i, skip) is Some,
    ensures
        tokens_fit(text, lex(text, i, skip)->0),
    decreases text.len() - i,
{
    if i < text.len() {
        if skip > 0 {
            lemma_lex_fits(text, i + 1, (skip - 1) as nat);
        } else if is_space(text[i]) {
            lemma_lex_fits(text, i + 1, 0);
        } else if is_letter(text[i]) {
            lemma_run_bound(text, i);
            let rest = lex(text, i + 1, (run(text, i) - 1) as nat);
            lemma_lex_fits(text, i + 1, (run(text, i) - 1) as nat);
            lemma_prepend_fits(
                text,
                Token::Word { from: i as usize, to: (i + run(text, i)) as usize },
                rest->0,
            );
        } else if is_digit(text[i]) {
            lemma_run_bound(text, i);
            let rest = lex(text, i + 1, (run(text, i) - 1) as nat);
            lemma_lex_fits(text, i + 1, (run(text, i) - 1) as nat);
            lemma_prepend_fits(
                text,
                Token::Number { from: i as usize, to: (i + run(text, i)) as usize },
                rest->0,
            );
        } else if text[i] == '\'' {
            if i + 2 < text.len() && text[i + 1] != '\\' && text[i + 2] == '\'' {
                lemma_lex_fits(text, i + 1, 2);
                lemma_prepend_fits(text, Token::Quoted(text[i + 1]), lex(text, i + 1, 2)->0);
            } else {
                lemma_lex_fits(text, i + 1, 3);
                lemma_prepend_fits(text, Token::Quoted(text[i + 2]), lex(text, i + 1, 3)->0);
            }
        } else {
            lemma_lex_fits(text, i + 1, 0);
            lemma_prepend_fits(text, Token::Punct(text[i]), lex(text, i + 1, 0)->0);
        }
    }
}

/// The chords that the text stands for, such as `Ctrl-X Ctrl-S`; nothing where
/// the text is not made of chords.
pub fn keyseq(text: &str) -> (chords: Option<Vec<(Modifiers, KeyCode)>>)
    ensures
        chords is Some <==> parse_keyseq(text@) is Some,
        chords is Some ==> Some(chords->0@) == parse_keyseq(text@),
{
    let chars = chars_of(text);
    let tokens = match tokenize(&chars) {
        Some(tokens) => tokens,
        None => {
            return None;
        },
    };
    let count = chars.len();
    proof {
        lemma_lex_fits(chars@, 0, 0);
    }
    let mut chords: Vec<(Modifiers, KeyCode)> = Vec::new();
    let mut i: usize = 0;
    loop
        invariant
            i <= tokens@.len(),
            chars@ == text@,
            tokens_fit(chars@, tokens@),
            parse_keyseq(text@) == read_chords(chars@, tokens@, 0),
            read_chords(chars@, tokens@, 0) == extend(
                chords@,
                read_chords(chars@, tokens@, i as int),
            ),
        decreases tokens@.len() - i,
    {
        match chord_at(&chars, &tokens, i) {
            None => {
                return None;
            },
            Some(Found { chord, next }) => {
                let ghost before = chords@;
                chords.push(chord);
                if next >= tokens.len() {
                    assert(before + seq![chord] =~= chords@);
                    return Some(chords);
                }
                proof {
                    let rest = read_chords(chars@, tokens@, next as int);
                    if rest is Some {
                        assert(before + (seq![chord] + rest->0) =~= chords@ + rest->0);
                    }
                }
                i = next;
            },
        }
    }
}

/// The one chord that the text stands for, such as `Ctrl-Shift-A`; nothing
/// where the text holds no chord or more than one.
pub fn key(text: &str) -> (chord: Option<(Modifiers, KeyCode)>)
    ensures
        chord == parse_key(text@),
{
    let chars = chars_of(text);
    let tokens = match tokenize(&chars) {
        Some(tokens) => tokens,
        None => {
            return None;
        },
    };
    let count = chars.len();
    proof {
        lemma_lex_fits(chars@, 0, 0);
    }
    match chord_at(&chars, &tokens, 0) {
        Some(Found { chord, next }) => {
            if next == tokens.len() {
                Some(chord)
            } else {
                None
            }
        },
        None => None,
    }
}

} // verus!
