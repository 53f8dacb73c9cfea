//! The textual form of Untyped Plutus Core.
use vstd::prelude::*;
use vstd::hash_map::StringHashMap;
use crate::text::{collect, decode, has_word, starts_with};
use crate::uplc::ast::{
    Constant,
    ConstantView,
    Name,
    NameView,
    Program,
    ProgramView,
    Term,
    TermView,
    Unique,
};
use crate::uplc::builtins::{DefaultFunction, named};

verus! {

// ------------------------------------------------------------ outside helpers
/// Whether `char::is_alphanumeric` holds of `c`.
pub uninterp spec fn alphanumeric(c: char) -> bool;

/// Whether `char::is_whitespace` holds of `c`.
pub uninterp spec fn whitespace(c: char) -> bool;

/// `char::is_alphanumeric`: whether the character is a letter or a number
/// in the sense of Unicode. The result depends on the character alone.
#[verifier::external_body]
fn is_alphanumeric(c: char) -> (r: bool)
    ensures
        r == alphanumeric(c),
{
    c.is_alphanumeric()
}

/// `char::is_whitespace`: whether the character is white space in the
/// sense of Unicode. The result depends on the character alone.
#[verifier::external_body]
fn is_whitespace(c: char) -> (r: bool)
    ensures
        r == whitespace(c),
{
    c.is_whitespace()
}

/// `hex::FromHexError`, which says why `hex::decode` failed. The library
/// carries it and never looks into it.
#[verifier::external_type_specification]
#[verifier::external_body]
pub struct ExFromHexError(hex::FromHexError);

pub open spec fn is_hex_digit(c: char) -> bool {
    ('0' <= c <= '9') || ('a' <= c <= 'f') || ('A' <= c <= 'F')
}

/// The number that the hexadecimal digit `c` writes.
pub open spec fn hex_value(c: char) -> nat {
    if '0' <= c <= '9' {
        (c as nat - '0' as nat) as nat
    } else if 'a' <= c <= 'f' {
        (c as nat - 'a' as nat + 10) as nat
    } else {
        (c as nat - 'A' as nat + 10) as nat
    }
}

/// The bytes that the hexadecimal digits write, two digits to a byte, the
/// high one first.
pub open spec fn hex_bytes(digits: Seq<char>) -> Seq<u8> {
    Seq::new(
        digits.len() / 2,
        |i: int| (16 * hex_value(digits[2 * i]) + hex_value(digits[2 * i + 1])) as u8,
    )
}

/// `hex::decode` on hexadecimal digits: it fails where their number is
/// odd, and else gives the bytes that they write, two digits to a byte.
#[verifier::external_body]
fn hex_decode(digits: &String) -> (r: Result<Vec<u8>, hex::FromHexError>)
    requires
        forall|i: int| 0 <= i < digits@.len() ==> is_hex_digit(#[trigger] digits@[i]),
    ensures
        r is Ok <==> digits@.len() % 2 == 0,
        r matches Ok(bytes) ==> bytes@ == hex_bytes(digits@),
{
    hex::decode(digits)
}

// ------------------------------------------------------------------ interning
/// The names that a parse has met, each with its unique, and the unique
/// that the next new name gets.
pub struct ParserState {
    pub identifiers: StringHashMap<Unique>,
    pub current: Unique,
}

pub struct Interned {
    pub identifiers: Map<Seq<char>, Unique>,
    pub current: Unique,
}

impl View for ParserState {
    type V = Interned;

    open spec fn view(&self) -> Interned {
        Interned { identifiers: self.identifiers@, current: self.current }
    }
}

impl Interned {
    /// Each name has a unique of its own, below the next one to give out.
    pub open spec fn well_formed(self) -> bool {
        &&& 0 <= self.current.0
        &&& forall|text: Seq<char>| #[trigger]
            self.identifiers.contains_key(text) ==> 0 <= self.identifiers[text].0 < self.current.0
        &&& forall|a: Seq<char>, b: Seq<char>|
            #![trigger self.identifiers[a], self.identifiers[b]]
            self.identifiers.contains_key(a) && self.identifiers.contains_key(b)
                && self.identifiers[a] == self.identifiers[b] ==> a == b
    }

    /// Whether `text` can be interned: it is known, or a unique is left.
    pub open spec fn has_room(self, text: Seq<char>) -> bool {
        self.identifiers.contains_key(text) || self.current.0 < isize::MAX
    }

    /// The unique of `text`, and the names after `text` was met: a known
    /// name keeps its unique and changes nothing; a new one takes the next
    /// unique.
    pub open spec fn intern(self, text: Seq<char>) -> (Unique, Interned) {
        if self.identifiers.contains_key(text) {
            (self.identifiers[text], self)
        } else {
            (
                self.current,
                Interned {
                    identifiers: self.identifiers.insert(text, self.current),
                    current: Unique((self.current.0 + 1) as isize),
                },
            )
        }
    }

    /// Whether `later` knows each name of `self` by the same unique.
    pub open spec fn within(self, later: Interned) -> bool {
        forall|text: Seq<char>| #[trigger]
            self.identifiers.contains_key(text) ==> later.identifiers.contains_key(text)
                && later.identifiers[text] == self.identifiers[text]
    }
}

impl ParserState {
    pub fn new() -> (r: ParserState)
        ensures
            r@.identifiers == Map::<Seq<char>, Unique>::empty(),
            r@.current == Unique(0),
            r@.well_formed(),
    {
        ParserState { identifiers: StringHashMap::new(), current: Unique::new(0) }
    }

    /// The unique of `text`: the one it has, or else the next new one.
    pub fn intern(&mut self, text: &str) -> (unique: Unique)
        requires
            old(self)@.well_formed(),
            old(self)@.has_room(text@),
        ensures
            (unique, final(self)@) == old(self)@.intern(text@),
            final(self)@.well_formed(),
            old(self)@.within(final(self)@),
            final(self)@.identifiers.contains_key(text@),
            final(self)@.identifiers[text@] == unique,
    {
        match self.identifiers.get(text) {
            Some(u) => {
                let unique = *u;
                unique
            },
            None => {
                let unique = self.current;
                self.identifiers.insert(text.to_owned(), unique);
                self.current.increment();
                assert(final(self)@.identifiers =~= old(self)@.identifiers.insert(text@, unique));
                unique
            },
        }
    }

    /// Whether `text` can be interned.
    pub fn has_room(&self, text: &str) -> (r: bool)
        ensures
            r == self@.has_room(text@),
    {
        self.identifiers.contains_key(text) || self.current.unique() < isize::MAX
    }
}

// -------------------------------------------------------------------- grammar
/// What a run of characters is made of.
#[derive(Clone, Copy, PartialEq, Eq, Structural)]
pub enum Class {
    Space,
    Word,
    Digit,
    Hex,
}

pub open spec fn in_class(c: char, class: Class) -> bool {
    match class {
        Class::Space => whitespace(c),
        Class::Word => alphanumeric(c),
        Class::Digit => '0' <= c <= '9',
        Class::Hex => is_hex_digit(c),
    }
}

/// The position behind the longest run of `class` that starts at `pos`.
pub open spec fn run_end(chars: Seq<char>, pos: nat, class: Class) -> nat
    decreases chars.len() - pos,
{
    if pos < chars.len() && in_class(chars[pos as int], class) {
        run_end(chars, pos + 1, class)
    } else {
        pos
    }
}

/// The position behind the word `word` at `pos` and the white space that
/// must follow it.
pub open spec fn after_keyword(chars: Seq<char>, pos: nat, word: Seq<char>) -> Option<nat> {
    let p = run_end(chars, pos + word.len(), Class::Space);
    if starts_with(chars, pos, word) && pos + word.len() < p <= chars.len() {
        Some(p)
    } else {
        None
    }
}

/// The position behind the character `c` that closes a form, before which
/// white space may stand, from `pos` on.
pub open spec fn closing(chars: Seq<char>, pos: nat, c: char) -> Option<nat> {
    let p = run_end(chars, pos, Class::Space);
    if pos <= p < chars.len() && chars[p as int] == c {
        Some(p + 1)
    } else {
        None
    }
}

/// The number that the decimal digits write.
pub open spec fn number(digits: Seq<char>) -> nat
    decreases digits.len(),
{
    if digits.len() == 0 {
        0
    } else {
        number(digits.drop_last()) * 10 + (digits.last() as nat - '0' as nat) as nat
    }
}

/// The number at `pos`, written with one decimal digit or more, where it
/// is at most `max`, and the position behind it.
pub open spec fn number_at(chars: Seq<char>, pos: nat, max: nat) -> Option<(nat, nat)> {
    let end = run_end(chars, pos, Class::Digit);
    if pos < end <= chars.len() && number(chars.subrange(pos as int, end as int)) <= max {
        Some((number(chars.subrange(pos as int, end as int)), end))
    } else {
        None
    }
}

/// `major.minor.patch` at `pos`.
pub open spec fn version_at(chars: Seq<char>, pos: nat) -> Option<((usize, usize, usize), nat)> {
    match number_at(chars, pos, usize::MAX as nat) {
        Some((major, p1)) if p1 < chars.len() && chars[p1 as int] == '.' => match number_at(
            chars,
            p1 + 1,
            usize::MAX as nat,
        ) {
            Some((minor, p2)) if p2 < chars.len() && chars[p2 as int] == '.' => match number_at(
                chars,
                p2 + 1,
                usize::MAX as nat,
            ) {
                Some((patch, p3)) => Some(((major as usize, minor as usize, patch as usize), p3)),
                None => None,
            },
            _ => None,
        },
        _ => None,
    }
}

/// A constant at `pos`: `integer` and digits; `bytestring`, `#` and an
/// even number of hexadecimal digits; `string` and letters or numbers
/// between quotes; `unit ()`; or `bool` and `True` or `False`.
pub open spec fn constant_at(chars: Seq<char>, pos: nat) -> Option<(ConstantView, nat)> {
    if let Some(p) = after_keyword(chars, pos, "integer"@) {
        match number_at(chars, p, isize::MAX as nat) {
            Some((value, end)) => Some((ConstantView::Integer(value as int), end)),
            None => None,
        }
    } else if let Some(p) = after_keyword(chars, pos, "bytestring"@) {
        let end = run_end(chars, p + 1, Class::Hex);
        if p < chars.len() && chars[p as int] == '#' && p + 1 < end <= chars.len() && (end - (p
            + 1)) % 2 == 0 {
            Some((ConstantView::ByteString(hex_bytes(chars.subrange(p + 1 as int, end as int))), end))
        } else {
            None
        }
    } else if let Some(p) = after_keyword(chars, pos, "string"@) {
        let end = run_end(chars, p + 1, Class::Word);
        if p < chars.len() && chars[p as int] == '"' && p + 1 < end < chars.len()
            && chars[end as int] == '"' {
            Some((ConstantView::String(chars.subrange(p + 1 as int, end as int)), end + 1))
        } else {
            None
        }
    } else if let Some(p) = after_keyword(chars, pos, "unit"@) {
        if starts_with(chars, p, "()"@) {
            Some((ConstantView::Unit, p + 2))
        } else {
            None
        }
    } else if let Some(p) = after_keyword(chars, pos, "bool"@) {
        if starts_with(chars, p, "True"@) {
            Some((ConstantView::Bool(true), p + 4))
        } else if starts_with(chars, p, "False"@) {
            Some((ConstantView::Bool(false), p + 5))
        } else {
            None
        }
    } else {
        None
    }
}

/// A term with the position behind it and the names met so far.
pub struct Step {
    pub term: TermView<NameView>,
    pub end: nat,
    pub names: Interned,
}

/// A variable at `pos`: a run of letters and numbers, interned.
pub open spec fn variable_at(chars: Seq<char>, pos: nat, names: Interned) -> Option<Step> {
    let end = run_end(chars, pos, Class::Word);
    let text = chars.subrange(pos as int, end as int);
    if pos < end <= chars.len() && names.has_room(text) {
        Some(
            Step {
                term: TermView::Var(NameView { text, unique: names.intern(text).0 }),
                end,
                names: names.intern(text).1,
            },
        )
    } else {
        None
    }
}

/// A term that starts at `pos`, read with the names `names` met before:
/// a variable; `(delay t)`, `(force t)`, `(lam x t)`, `(builtin f)`,
/// `(error )` or `(con c)`; or an application `[t t]`. White space must
/// part a keyword from what follows it and the two terms of an
/// application, and may stand behind an opening and before a closing
/// bracket. Variables and the parameters of `lam` are interned alike.
pub open spec fn term_at(chars: Seq<char>, pos: nat, names: Interned) -> Option<Step>
    decreases chars.len() - pos, 2nat,
{
    if pos >= chars.len() {
        None
    } else if alphanumeric(chars[pos as int]) {
        variable_at(chars, pos, names)
    } else if chars[pos as int] == '[' {
        application_at(chars, pos, names)
    } else if chars[pos as int] == '(' {
        form_at(chars, pos, names)
    } else {
        None
    }
}

/// `[function argument]`, whose `[` stands at `pos`.
pub open spec fn application_at(chars: Seq<char>, pos: nat, names: Interned) -> Option<Step>
    decreases chars.len() - pos, 1nat,
{
    let p1 = run_end(chars, pos + 1, Class::Space);
    if !(pos < p1 <= chars.len()) {
        None
    } else {
        match term_at(chars, p1, names) {
            Some(function) if p1 < function.end <= chars.len() => {
                let p2 = run_end(chars, function.end, Class::Space);
                if !(function.end < p2 <= chars.len()) {
                    None
                } else {
                    match term_at(chars, p2, function.names) {
                        Some(argument) => match closing(chars, argument.end, ']') {
                            Some(end) => Some(
                                Step {
                                    term: TermView::Apply {
                                        function: Box::new(function.term),
                                        argument: Box::new(argument.term),
                                    },
                                    end,
                                    names: argument.names,
                                },
                            ),
                            None => None,
                        },
                        None => None,
                    }
                }
            },
            _ => None,
        }
    }
}

/// The term of a `delay`, where `delay` holds, or of a `force`, at `pos`,
/// and the `)` behind it.
pub open spec fn wrapped_at(chars: Seq<char>, pos: nat, names: Interned, delay: bool) -> Option<
    Step,
>
    decreases chars.len() - pos, 3nat,
{
    match term_at(chars, pos, names) {
        Some(body) => match closing(chars, body.end, ')') {
            Some(end) => Some(
                Step {
                    term: if delay {
                        TermView::Delay(Box::new(body.term))
                    } else {
                        TermView::Force(Box::new(body.term))
                    },
                    end,
                    names: body.names,
                },
            ),
            None => None,
        },
        None => None,
    }
}

/// The parameter of a `lam` at `pos`, white space, the body, and the `)`
/// behind it.
pub open spec fn lambda_at(chars: Seq<char>, pos: nat, names: Interned) -> Option<Step>
    decreases chars.len() - pos, 3nat,
{
    let name_end = run_end(chars, pos, Class::Word);
    let text = chars.subrange(pos as int, name_end as int);
    let p2 = run_end(chars, name_end, Class::Space);
    if !(pos < name_end < p2 <= chars.len()) || !names.has_room(text) {
        None
    } else {
        match term_at(chars, p2, names.intern(text).1) {
            Some(body) => match closing(chars, body.end, ')') {
                Some(end) => Some(
                    Step {
                        term: TermView::Lambda {
                            parameter_name: NameView { text, unique: names.intern(text).0 },
                            body: Box::new(body.term),
                        },
                        end,
                        names: body.names,
                    },
                ),
                None => None,
            },
            None => None,
        }
    }
}

/// The name of a built-in function at `pos` and the `)` behind it.
pub open spec fn builtin_at(chars: Seq<char>, pos: nat) -> Option<(DefaultFunction, nat)> {
    let name_end = run_end(chars, pos, Class::Word);
    if !(pos < name_end <= chars.len()) {
        None
    } else {
        match (named(chars.subrange(pos as int, name_end as int)), closing(chars, name_end, ')')) {
            (Some(fun), Some(end)) => Some((fun, end)),
            _ => None,
        }
    }
}

/// A constant at `pos` and the `)` behind it.
pub open spec fn literal_at(chars: Seq<char>, pos: nat) -> Option<(ConstantView, nat)> {
    match constant_at(chars, pos) {
        Some((constant, p2)) => match closing(chars, p2, ')') {
            Some(end) => Some((constant, end)),
            None => None,
        },
        None => None,
    }
}

/// A form between parentheses, whose `(` stands at `pos`.
pub open spec fn form_at(chars: Seq<char>, pos: nat, names: Interned) -> Option<Step>
    decreases chars.len() - pos, 1nat,
{
    let p1 = run_end(chars, pos + 1, Class::Space);
    if !(pos < p1 <= chars.len()) {
        None
    } else if let Some(p) = after_keyword(chars, p1, "delay"@) {
        wrapped_at(chars, p, names, true)
    } else if let Some(p) = after_keyword(chars, p1, "force"@) {
        wrapped_at(chars, p, names, false)
    } else if let Some(p) = after_keyword(chars, p1, "lam"@) {
        lambda_at(chars, p, names)
    } else if let Some(p) = after_keyword(chars, p1, "builtin"@) {
        match builtin_at(chars, p) {
            Some((fun, end)) => Some(Step { term: TermView::Builtin(fun), end, names }),
            None => None,
        }
    } else if let Some(p) = after_keyword(chars, p1, "error"@) {
        match closing(chars, p, ')') {
            Some(end) => Some(Step { term: TermView::Error, end, names }),
            None => None,
        }
    } else if let Some(p) = after_keyword(chars, p1, "con"@) {
        match literal_at(chars, p) {
            Some((constant, end)) => Some(Step { term: TermView::Constant(constant), end, names }),
            None => None,
        }
    } else {
        None
    }
}

/// The names before any was met.
pub open spec fn no_names() -> Interned {
    Interned { identifiers: Map::empty(), current: Unique(0) }
}

/// The term that the text starts with, behind white space. What follows
/// the term is not read.
pub open spec fn term_of(chars: Seq<char>) -> Option<TermView<NameView>> {
    match term_at(chars, run_end(chars, 0, Class::Space), no_names()) {
        Some(step) => Some(step.term),
        None => None,
    }
}

/// The program `(program major.minor.patch term)` that the text starts
/// with, behind white space. What follows the program is not read.
pub open spec fn program_of(chars: Seq<char>) -> Option<ProgramView<NameView>> {
    let p0 = run_end(chars, 0, Class::Space);
    let p1 = run_end(chars, p0 + 1, Class::Space);
    if !(p0 < chars.len() && chars[p0 as int] == '(') {
        None
    } else {
        match after_keyword(chars, p1, "program"@) {
            Some(p2) => match version_at(chars, p2) {
                Some((version, p3)) => {
                    let p4 = run_end(chars, p3, Class::Space);
                    if !(p3 < p4) {
                        None
                    } else {
                        match term_at(chars, p4, no_names()) {
                            Some(step) => match closing(chars, step.end, ')') {
                                Some(_) => Some(ProgramView { version, term: step.term }),
                                None => None,
                            },
                            None => None,
                        }
                    }
                },
                None => None,
            },
            None => None,
        }
    }
}

// --------------------------------------------------------------------- parser
#[derive(Clone, Copy, Debug, PartialEq, Eq, Structural)]
pub enum ParseError {
    /// The text is no program, or no term, of the grammar.
    UnexpectedParse,
}

fn belongs(c: char, class: Class) -> (r: bool)
    ensures
        r == in_class(c, class),
{
    match class {
        Class::Space => is_whitespace(c),
        Class::Word => is_alphanumeric(c),
        Class::Digit => '0' <= c && c <= '9',
        Class::Hex => ('0' <= c && c <= '9') || ('a' <= c && c <= 'f') || ('A' <= c && c <= 'F'),
    }
}

fn scan(chars: &Vec<char>, pos: usize, class: Class) -> (end: usize)
    ensures
        end == run_end(chars@, pos as nat, class),
        pos <= end,
        pos <= chars@.len() ==> end <= chars@.len(),
        forall|i: int| pos <= i < end ==> in_class(#[trigger] chars@[i], class),
{
    let mut i: usize = pos;
    while i < chars.len() && belongs(chars[i], class)
        invariant
            pos <= i,
            pos <= chars@.len() ==> i <= chars@.len(),
            run_end(chars@, pos as nat, class) == run_end(chars@, i as nat, class),
            forall|k: int| pos <= k < i ==> in_class(#[trigger] chars@[k], class),
        decreases chars@.len() - i,
    {
        i += 1;
    }
    i
}

fn keyword(chars: &Vec<char>, pos: usize, word: &str) -> (r: Option<usize>)
    requires
        pos <= chars@.len(),
    ensures
        match r {
            Some(p) => after_keyword(chars@, pos as nat, word@) == Some(p as nat) && pos < p
                <= chars@.len(),
            None => after_keyword(chars@, pos as nat, word@) is None,
        },
{
    let len = chars.len();
    if !has_word(chars, pos, word) {
        return None;
    }
    let start = pos + word.unicode_len();
    let p = scan(chars, start, Class::Space);
    if start < p {
        Some(p)
    } else {
        None
    }
}

fn close(chars: &Vec<char>, pos: usize, c: char) -> (r: Option<usize>)
    requires
        pos <= chars@.len(),
    ensures
        match r {
            Some(p) => closing(chars@, pos as nat, c) == Some(p as nat) && pos < p <= chars@.len(),
            None => closing(chars@, pos as nat, c) is None,
        },
{
    let p = scan(chars, pos, Class::Space);
    if p < chars.len() && chars[p] == c {
        Some(p + 1)
    } else {
        None
    }
}

/// A number is at least the number that its first digits write.
proof fn number_grows(digits: Seq<char>, n: int)
    requires
        0 <= n <= digits.len(),
    ensures
        number(digits.take(n)) <= number(digits),
    decreases digits.len() - n,
{
    if n < digits.len() {
        number_grows(digits, n + 1);
        assert(digits.take(n + 1).drop_last() =~= digits.take(n));
    } else {
        assert(digits.take(n) =~= digits);
    }
}

fn read_number(chars: &Vec<char>, pos: usize, max: usize) -> (r: Option<(usize, usize)>)
    requires
        pos <= chars@.len(),
    ensures
        match r {
            Some((value, end)) => number_at(chars@, pos as nat, max as nat) == Some(
                (value as nat, end as nat),
            ) && pos < end <= chars@.len() && value <= max,
            None => number_at(chars@, pos as nat, max as nat) is None,
        },
{
    let end = scan(chars, pos, Class::Digit);
    if end == pos {
        return None;
    }
    let ghost digits = chars@.subrange(pos as int, end as int);
    let mut value: usize = 0;
    let mut i: usize = pos;
    assert(digits.take(0) =~= Seq::<char>::empty());
    while i < end
        invariant
            pos <= i <= end <= chars@.len(),
            digits == chars@.subrange(pos as int, end as int),
            end == run_end(chars@, pos as nat, Class::Digit),
            value == number(digits.take(i - pos)),
            value <= max,
            forall|k: int| pos <= k < end ==> in_class(#[trigger] chars@[k], Class::Digit),
        decreases end - i,
    {
        let c = chars[i];
        let d: usize = (c as u32 - '0' as u32) as usize;
        proof {
            assert(in_class(chars@[i as int], Class::Digit));
            assert(digits.take(i + 1 - pos).drop_last() =~= digits.take(i - pos));
            assert(digits.take(i + 1 - pos).last() == c);
            assert(number(digits.take(i + 1 - pos)) == value * 10 + d);
            number_grows(digits, i + 1 - pos);
        }
        if d > max {
            return None;
        }
        if value > (max - d) / 10 {
            assert(value * 10 + d > max) by (nonlinear_arith)
                requires
                    value > (max - d) / 10,
                    d <= max,
            ;
            return None;
        }
        assert(value * 10 + d <= max) by (nonlinear_arith)
            requires
                value <= (max - d) / 10,
                d <= max,
        ;
        value = value * 10 + d;
        i += 1;
    }
    assert(digits.take(end - pos) =~= digits);
    Some((value, end))
}

fn version(chars: &Vec<char>, pos: usize) -> (r: Option<((usize, usize, usize), usize)>)
    requires
        pos <= chars@.len(),
    ensures
        match r {
            Some((v, end)) => version_at(chars@, pos as nat) == Some((v, end as nat)) && pos < end
                <= chars@.len(),
            None => version_at(chars@, pos as nat) is None,
        },
{
    let (major, p1) = match read_number(chars, pos, usize::MAX) {
        Some(r) => r,
        None => { return None; },
    };
    if !(p1 < chars.len() && chars[p1] == '.') {
        return None;
    }
    let (minor, p2) = match read_number(chars, p1 + 1, usize::MAX) {
        Some(r) => r,
        None => { return None; },
    };
    if !(p2 < chars.len() && chars[p2] == '.') {
        return None;
    }
    match read_number(chars, p2 + 1, usize::MAX) {
        Some((patch, p3)) => Some(((major, minor, patch), p3)),
        None => None,
    }
}

fn constant(chars: &Vec<char>, pos: usize) -> (r: Option<(Constant, usize)>)
    requires
        pos <= chars@.len(),
    ensures
        match r {
            Some((c, end)) => constant_at(chars@, pos as nat) == Some((c.deep_view(), end as nat))
                && pos < end <= chars@.len(),
            None => constant_at(chars@, pos as nat) is None,
        },
{
    let len = chars.len();
    match keyword(chars, pos, "integer") {
        Some(p) => {
            return match read_number(chars, p, isize::MAX as usize) {
                Some((value, end)) => Some((Constant::Integer(value as isize), end)),
                None => None,
            };
        },
        None => {},
    }
    match keyword(chars, pos, "bytestring") {
        Some(p) => {
            if !(p < len && chars[p] == '#') {
                return None;
            }
            let end = scan(chars, p + 1, Class::Hex);
            if end == p + 1 {
                return None;
            }
            let digits = collect(chars, p + 1, end);
            return match hex_decode(&digits) {
                Ok(bytes) => Some((Constant::ByteString(bytes), end)),
                Err(_) => None,
            };
        },
        None => {},
    }
    match keyword(chars, pos, "string") {
        Some(p) => {
            if !(p < len && chars[p] == '"') {
                return None;
            }
            let end = scan(chars, p + 1, Class::Word);
            if end == p + 1 || !(end < len && chars[end] == '"') {
                return None;
            }
            return Some((Constant::String(collect(chars, p + 1, end)), end + 1));
        },
        None => {},
    }
    match keyword(chars, pos, "unit") {
        Some(p) => {
            proof {
                reveal_strlit("()");
            }
            return if has_word(chars, p, "()") {
                Some((Constant::Unit, p + 2))
            } else {
                None
            };
        },
        None => {},
    }
    match keyword(chars, pos, "bool") {
        Some(p) => {
            proof {
                reveal_strlit("True");
                reveal_strlit("False");
            }
            if has_word(chars, p, "True") {
                Some((Constant::Bool(true), p + 4))
            } else if has_word(chars, p, "False") {
                Some((Constant::Bool(false), p + 5))
            } else {
                None
            }
        },
        None => None,
    }
}

/// Whether each name of `term` is known to `names` by its unique.
pub open spec fn names_within(term: TermView<NameView>, names: Interned) -> bool
    decreases term,
{
    match term {
        TermView::Var(name) => names.identifiers.contains_key(name.text)
            && names.identifiers[name.text] == name.unique,
        TermView::Delay(body) => names_within(*body, names),
        TermView::Lambda { parameter_name, body } => names.identifiers.contains_key(
            parameter_name.text,
        ) && names.identifiers[parameter_name.text] == parameter_name.unique && names_within(
            *body,
            names,
        ),
        TermView::Apply { function, argument } => names_within(*function, names) && names_within(
            *argument,
            names,
        ),
        TermView::Force(body) => names_within(*body, names),
        _ => true,
    }
}

/// Whether the variable or parameter `name` stands somewhere in `term`.
pub open spec fn occurs(term: TermView<NameView>, name: NameView) -> bool
    decreases term,
{
    match term {
        TermView::Var(n) => n == name,
        TermView::Delay(body) => occurs(*body, name),
        TermView::Lambda { parameter_name, body } => parameter_name == name || occurs(*body, name),
        TermView::Apply { function, argument } => occurs(*function, name) || occurs(
            *argument,
            name,
        ),
        TermView::Force(body) => occurs(*body, name),
        _ => false,
    }
}

/// Whether the names of `term` were interned: there are names, each with a
/// unique of its own, that know each name of the term by its unique.
pub open spec fn interned(term: TermView<NameView>) -> bool {
    exists|names: Interned| names.well_formed() && #[trigger] names_within(term, names)
}

/// A name that stands in a term is known to the names that the term lies
/// within.
pub proof fn occurring_name_is_known(term: TermView<NameView>, names: Interned, name: NameView)
    requires
        names_within(term, names),
        occurs(term, name),
    ensures
        names.identifiers.contains_key(name.text),
        names.identifiers[name.text] == name.unique,
    decreases term,
{
    match term {
        TermView::Delay(body) => occurring_name_is_known(*body, names, name),
        TermView::Lambda { parameter_name, body } => {
            if parameter_name != name {
                occurring_name_is_known(*body, names, name);
            }
        },
        TermView::Apply { function, argument } => {
            if occurs(*function, name) {
                occurring_name_is_known(*function, names, name);
            } else {
                occurring_name_is_known(*argument, names, name);
            }
        },
        TermView::Force(body) => occurring_name_is_known(*body, names, name),
        _ => {},
    }
}

/// In a term whose names were interned, two names have the same unique
/// where they have the same text, and only there: the uniques stand one
/// to one for the texts.
pub proof fn uniques_follow_texts(term: TermView<NameView>, a: NameView, b: NameView)
    requires
        interned(term),
        occurs(term, a),
        occurs(term, b),
    ensures
        (a.text == b.text) <==> (a.unique == b.unique),
{
    let names = choose|names: Interned| names.well_formed() && #[trigger] names_within(term, names);
    occurring_name_is_known(term, names, a);
    occurring_name_is_known(term, names, b);
}

/// Names that are known stay known when more names are met.
pub proof fn names_stay(term: TermView<NameView>, before: Interned, after: Interned)
    requires
        names_within(term, before),
        before.within(after),
    ensures
        names_within(term, after),
    decreases term,
{
    match term {
        TermView::Delay(body) => names_stay(*body, before, after),
        TermView::Lambda { parameter_name, body } => names_stay(*body, before, after),
        TermView::Apply { function, argument } => {
            names_stay(*function, before, after);
            names_stay(*argument, before, after);
        },
        TermView::Force(body) => names_stay(*body, before, after),
        _ => {},
    }
}

fn variable(chars: &Vec<char>, pos: usize, names: &mut ParserState) -> (r: Option<
    (Term<Name>, usize),
>)
    requires
        pos < chars@.len(),
        old(names)@.well_formed(),
    ensures
        final(names)@.well_formed(),
        old(names)@.within(final(names)@),
        match r {
            Some((term, end)) => variable_at(chars@, pos as nat, old(names)@) == Some(
                Step { term: term.deep_view(), end: end as nat, names: final(names)@ },
            ) && pos < end <= chars@.len() && names_within(term.deep_view(), final(names)@),
            None => variable_at(chars@, pos as nat, old(names)@) is None,
        },
{
    let end = scan(chars, pos, Class::Word);
    if end == pos {
        return None;
    }
    let text = collect(chars, pos, end);
    if !names.has_room(text.as_str()) {
        return None;
    }
    let unique = names.intern(text.as_str());
    Some((Term::Var(Name { text, unique }), end))
}

fn term_parser(chars: &Vec<char>, pos: usize, names: &mut ParserState) -> (r: Option<
    (Term<Name>, usize),
>)
    requires
        pos <= chars@.len(),
        old(names)@.well_formed(),
    ensures
        final(names)@.well_formed(),
        old(names)@.within(final(names)@),
        match r {
            Some((term, end)) => term_at(chars@, pos as nat, old(names)@) == Some(
                Step { term: term.deep_view(), end: end as nat, names: final(names)@ },
            ) && pos < end <= chars@.len() && names_within(term.deep_view(), final(names)@),
            None => term_at(chars@, pos as nat, old(names)@) is None,
        },
    decreases chars@.len() - pos, 2nat,
{
    if pos >= chars.len() {
        return None;
    }
    let c = chars[pos];
    if is_alphanumeric(c) {
        variable(chars, pos, names)
    } else if c == '[' {
        application(chars, pos, names)
    } else if c == '(' {
        form(chars, pos, names)
    } else {
        None
    }
}

fn application(chars: &Vec<char>, pos: usize, names: &mut ParserState) -> (r: Option<
    (Term<Name>, usize),
>)
    requires
        pos < chars@.len(),
        old(names)@.well_formed(),
    ensures
        final(names)@.well_formed(),
        old(names)@.within(final(names)@),
        match r {
            Some((term, end)) => application_at(chars@, pos as nat, old(names)@) == Some(
                Step { term: term.deep_view(), end: end as nat, names: final(names)@ },
            ) && pos < end <= chars@.len() && names_within(term.deep_view(), final(names)@),
            None => application_at(chars@, pos as nat, old(names)@) is None,
        },
    decreases chars@.len() - pos, 1nat,
{
    let len = chars.len();
    let p1 = scan(chars, pos + 1, Class::Space);
    let (function, f_end) = match term_parser(chars, p1, names) {
        Some(r) => r,
        None => { return None; },
    };
    let ghost middle = names@;
    let p2 = scan(chars, f_end, Class::Space);
    if p2 == f_end {
        return None;
    }
    let (argument, a_end) = match term_parser(chars, p2, names) {
        Some(r) => r,
        None => { return None; },
    };
    proof {
        names_stay(function.deep_view(), middle, names@);
    }
    match close(chars, a_end, ']') {
        Some(end) => Some(
            (Term::Apply { function: Box::new(function), argument: Box::new(argument) }, end),
        ),
        None => None,
    }
}

fn wrapped(chars: &Vec<char>, pos: usize, names: &mut ParserState, delay: bool) -> (r: Option<
    (Term<Name>, usize),
>)
    requires
        pos <= chars@.len(),
        old(names)@.well_formed(),
    ensures
        final(names)@.well_formed(),
        old(names)@.within(final(names)@),
        match r {
            Some((term, end)) => wrapped_at(chars@, pos as nat, old(names)@, delay) == Some(
                Step { term: term.deep_view(), end: end as nat, names: final(names)@ },
            ) && pos < end <= chars@.len() && names_within(term.deep_view(), final(names)@),
            None => wrapped_at(chars@, pos as nat, old(names)@, delay) is None,
        },
    decreases chars@.len() - pos, 3nat,
{
    let (body, b_end) = match term_parser(chars, pos, names) {
        Some(r) => r,
        None => { return None; },
    };
    match close(chars, b_end, ')') {
        Some(end) => if delay {
            Some((Term::Delay(Box::new(body)), end))
        } else {
            Some((Term::Force(Box::new(body)), end))
        },
        None => None,
    }
}

fn lambda(chars: &Vec<char>, pos: usize, names: &mut ParserState) -> (r: Option<
    (Term<Name>, usize),
>)
    requires
        pos <= chars@.len(),
        old(names)@.well_formed(),
    ensures
        final(names)@.well_formed(),
        old(names)@.within(final(names)@),
        match r {
            Some((term, end)) => lambda_at(chars@, pos as nat, old(names)@) == Some(
                Step { term: term.deep_view(), end: end as nat, names: final(names)@ },
            ) && pos < end <= chars@.len() && names_within(term.deep_view(), final(names)@),
            None => lambda_at(chars@, pos as nat, old(names)@) is None,
        },
    decreases chars@.len() - pos, 3nat,
{
    let name_end = scan(chars, pos, Class::Word);
    let p2 = scan(chars, name_end, Class::Space);
    if name_end == pos || p2 == name_end {
        return None;
    }
    let text = collect(chars, pos, name_end);
    if !names.has_room(text.as_str()) {
        return None;
    }
    let unique = names.intern(text.as_str());
    let ghost middle = names@;
    let (body, b_end) = match term_parser(chars, p2, names) {
        Some(r) => r,
        None => { return None; },
    };
    match close(chars, b_end, ')') {
        Some(end) => Some(
            (Term::Lambda { parameter_name: Name { text, unique }, body: Box::new(body) }, end),
        ),
        None => None,
    }
}

fn builtin(chars: &Vec<char>, pos: usize) -> (r: Option<(DefaultFunction, usize)>)
    requires
        pos <= chars@.len(),
    ensures
        match r {
            Some((fun, end)) => builtin_at(chars@, pos as nat) == Some((fun, end as nat)) && pos
                < end <= chars@.len(),
            None => builtin_at(chars@, pos as nat) is None,
        },
{
    let name_end = scan(chars, pos, Class::Word);
    if name_end == pos {
        return None;
    }
    let fun = match DefaultFunction::from_chars(chars, pos, name_end) {
        Some(fun) => fun,
        None => { return None; },
    };
    match close(chars, name_end, ')') {
        Some(end) => Some((fun, end)),
        None => None,
    }
}

fn literal(chars: &Vec<char>, pos: usize) -> (r: Option<(Constant, usize)>)
    requires
        pos <= chars@.len(),
    ensures
        match r {
            Some((c, end)) => literal_at(chars@, pos as nat) == Some((c.deep_view(), end as nat))
                && pos < end <= chars@.len(),
            None => literal_at(chars@, pos as nat) is None,
        },
{
    let (value, p2) = match constant(chars, pos) {
        Some(r) => r,
        None => { return None; },
    };
    match close(chars, p2, ')') {
        Some(end) => Some((value, end)),
        None => None,
    }
}

fn form(chars: &Vec<char>, pos: usize, names: &mut ParserState) -> (r: Option<
    (Term<Name>, usize),
>)
    requires
        pos < chars@.len(),
        old(names)@.well_formed(),
    ensures
        final(names)@.well_formed(),
        old(names)@.within(final(names)@),
        match r {
            Some((term, end)) => form_at(chars@, pos as nat, old(names)@) == Some(
                Step { term: term.deep_view(), end: end as nat, names: final(names)@ },
            ) && pos < end <= chars@.len() && names_within(term.deep_view(), final(names)@),
            None => form_at(chars@, pos as nat, old(names)@) is None,
        },
    decreases chars@.len() - pos, 1nat,
{
    let len = chars.len();
    let p1 = scan(chars, pos + 1, Class::Space);
    match keyword(chars, p1, "delay") {
        Some(p) => { return wrapped(chars, p, names, true); },
        None => {},
    }
    match keyword(chars, p1, "force") {
        Some(p) => { return wrapped(chars, p, names, false); },
        None => {},
    }
    match keyword(chars, p1, "lam") {
        Some(p) => { return lambda(chars, p, names); },
        None => {},
    }
    match keyword(chars, p1, "builtin") {
        Some(p) => {
            return match builtin(chars, p) {
                Some((fun, end)) => Some((Term::Builtin(fun), end)),
                None => None,
            };
        },
        None => {},
    }
    match keyword(chars, p1, "error") {
        Some(p) => {
            return match close(chars, p, ')') {
                Some(end) => Some((Term::Error, end)),
                None => None,
            };
        },
        None => {},
    }
    match keyword(chars, p1, "con") {
        Some(p) => match literal(chars, p) {
            Some((value, end)) => Some((Term::Constant(value), end)),
            None => None,
        },
        None => None,
    }
}

/// Parses the term that `src` starts with.
pub fn term(src: &str) -> (res: Result<Term<Name>, ParseError>)
    ensures
        match res {
            Ok(term) => term_of(src@) == Some(term.deep_view()) && interned(term.deep_view()),
            Err(_) => term_of(src@) is None,
        },
{
    let (chars, _) = decode(src);
    let mut names = ParserState::new();
    let start = scan(&chars, 0, Class::Space);
    match term_parser(&chars, start, &mut names) {
        Some((term, _)) => Ok(term),
        None => Err(ParseError::UnexpectedParse),
    }
}

/// Parses the program that `src` starts with.
pub fn program(src: &str) -> (res: Result<Program<Name>, ParseError>)
    ensures
        match res {
            Ok(program) => program_of(src@) == Some(program.deep_view()) && interned(
                program.term.deep_view(),
            ),
            Err(_) => program_of(src@) is None,
        },
{
    let (chars, _) = decode(src);
    let len = chars.len();
    let p0 = scan(&chars, 0, Class::Space);
    if !(p0 < len && chars[p0] == '(') {
        return Err(ParseError::UnexpectedParse);
    }
    let p1 = scan(&chars, p0 + 1, Class::Space);
    let p2 = match keyword(&chars, p1, "program") {
        Some(p) => p,
        None => { return Err(ParseError::UnexpectedParse); },
    };
    let (version, p3) = match version(&chars, p2) {
        Some(r) => r,
        None => { return Err(ParseError::UnexpectedParse); },
    };
    let p4 = scan(&chars, p3, Class::Space);
    if p4 == p3 {
        return Err(ParseError::UnexpectedParse);
    }
    let mut names = ParserState::new();
    let (term, end) = match term_parser(&chars, p4, &mut names) {
        Some(r) => r,
        None => { return Err(ParseError::UnexpectedParse); },
    };
    match close(&chars, end, ')') {
        Some(_) => Ok(Program { version, term }),
        None => Err(ParseError::UnexpectedParse),
    }
}

} // verus!
