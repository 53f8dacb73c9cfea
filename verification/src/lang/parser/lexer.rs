//! From the characters of the source to tokens with their byte spans.
use vstd::prelude::*;
use crate::list::{no_items, push_item};
use crate::lang::ast::Span;
use crate::lang::parser::stream::well_formed;
use crate::lang::parser::token::{Lexeme, Token, TokenKind};
use crate::text::{byte_offset, collect, offsets_of, same_text};

verus! {

// -------------------------------------------------------------------- grammar
pub open spec fn is_digit(c: char) -> bool {
    '0' <= c <= '9'
}

pub open spec fn is_ident_start(c: char) -> bool {
    ('a' <= c <= 'z') || ('A' <= c <= 'Z') || c == '_'
}

pub open spec fn is_blank(c: char) -> bool {
    c == ' ' || c == '\t' || c == '\r' || c == '\n'
}

/// What a run of characters is made of: the rest of a line, the characters
/// of a name, or digits.
#[derive(Clone, Copy, PartialEq, Eq, Structural)]
pub enum Run {
    Line,
    Name,
    Digits,
}

pub open spec fn in_run(c: char, run: Run) -> bool {
    match run {
        Run::Line => c != '\n',
        Run::Name => is_ident_start(c) || is_digit(c),
        Run::Digits => is_digit(c),
    }
}

/// The position behind the longest run of `run` that starts at `pos`.
pub open spec fn run_end(chars: Seq<char>, pos: nat, run: Run) -> nat
    decreases chars.len() - pos,
{
    if pos < chars.len() && in_run(chars[pos as int], run) {
        run_end(chars, pos + 1, run)
    } else {
        pos
    }
}

/// Whether the character at `pos` exists and is `c`.
pub open spec fn is_char(chars: Seq<char>, pos: nat, c: char) -> bool {
    pos < chars.len() && chars[pos as int] == c
}

/// The kind of the word `text`: a keyword; or a name, which is an `UpName`
/// where it starts with a capital letter and a `DiscardName` where it
/// starts with an underscore.
pub open spec fn word_kind(text: Seq<char>) -> TokenKind {
    if text == "as"@ {
        TokenKind::As
    } else if text == "assert"@ {
        TokenKind::Assert
    } else if text == "check"@ {
        TokenKind::Check
    } else if text == "fn"@ {
        TokenKind::Fn
    } else if text == "if"@ {
        TokenKind::If
    } else if text == "else"@ {
        TokenKind::Else
    } else if text == "is"@ {
        TokenKind::Is
    } else if text == "let"@ {
        TokenKind::Let
    } else if text == "opaque"@ {
        TokenKind::Opaque
    } else if text == "pub"@ {
        TokenKind::Pub
    } else if text == "use"@ {
        TokenKind::Use
    } else if text == "todo"@ {
        TokenKind::Todo
    } else if text == "try"@ {
        TokenKind::Try
    } else if text == "type"@ {
        TokenKind::Type
    } else if text == "when"@ {
        TokenKind::When
    } else if text.len() > 0 && 'A' <= text[0] <= 'Z' {
        TokenKind::UpName
    } else if text.len() > 0 && text[0] == '_' {
        TokenKind::DiscardName
    } else {
        TokenKind::Name
    }
}

/// Whether tokens of the kind carry a text.
pub open spec fn carries_text(kind: TokenKind) -> bool {
    kind == TokenKind::Name || kind == TokenKind::UpName || kind == TokenKind::DiscardName || kind
        == TokenKind::Int || kind == TokenKind::String
}

/// The token of the kind `kind` that carries `text` where the kind carries
/// a text.
pub open spec fn lexeme(kind: TokenKind, text: Seq<char>) -> Lexeme {
    Lexeme {
        kind,
        text: if carries_text(kind) {
            text
        } else {
            Seq::empty()
        },
    }
}

/// The token that the two characters `a` and `b` write together.
pub open spec fn two_char_kind(a: char, b: char) -> Option<TokenKind> {
    if a == '=' && b == '=' {
        Some(TokenKind::EqualEqual)
    } else if a == '.' && b == '.' {
        Some(TokenKind::DotDot)
    } else if a == '!' && b == '=' {
        Some(TokenKind::NotEqual)
    } else if a == '<' && b == '=' {
        Some(TokenKind::LessEqual)
    } else if a == '>' && b == '=' {
        Some(TokenKind::GreaterEqual)
    } else if a == '-' && b == '>' {
        Some(TokenKind::RArrow)
    } else if a == '|' && b == '>' {
        Some(TokenKind::Pipe)
    } else if a == '|' && b == '|' {
        Some(TokenKind::VbarVbar)
    } else if a == '&' && b == '&' {
        Some(TokenKind::AmperAmper)
    } else {
        None
    }
}

/// The token that the character `c` writes alone.
pub open spec fn one_char_kind(c: char) -> Option<TokenKind> {
    if c == '=' {
        Some(TokenKind::Equal)
    } else if c == '.' {
        Some(TokenKind::Dot)
    } else if c == '!' {
        Some(TokenKind::Bang)
    } else if c == '<' {
        Some(TokenKind::Less)
    } else if c == '>' {
        Some(TokenKind::Greater)
    } else if c == '+' {
        Some(TokenKind::Plus)
    } else if c == '-' {
        Some(TokenKind::Minus)
    } else if c == '*' {
        Some(TokenKind::Star)
    } else if c == '/' {
        Some(TokenKind::Slash)
    } else if c == '%' {
        Some(TokenKind::Percent)
    } else if c == '|' {
        Some(TokenKind::Vbar)
    } else if c == ',' {
        Some(TokenKind::Comma)
    } else if c == ':' {
        Some(TokenKind::Colon)
    } else if c == '(' {
        Some(TokenKind::LeftParen)
    } else if c == ')' {
        Some(TokenKind::RightParen)
    } else if c == '[' {
        Some(TokenKind::LeftSquare)
    } else if c == ']' {
        Some(TokenKind::RightSquare)
    } else if c == '{' {
        Some(TokenKind::LeftBrace)
    } else if c == '}' {
        Some(TokenKind::RightBrace)
    } else {
        None
    }
}

/// The character that `\` and `c` write in a string.
pub open spec fn escaped(c: char) -> Option<char> {
    if c == '\\' || c == '/' || c == '"' {
        Some(c)
    } else if c == 'b' {
        Some('\x08')
    } else if c == 'f' {
        Some('\x0C')
    } else if c == 'n' {
        Some('\n')
    } else if c == 'r' {
        Some('\r')
    } else if c == 't' {
        Some('\t')
    } else {
        None
    }
}

/// The text of a string whose characters go on at `pos`, behind those in
/// `done`, up to the closing quote, and the position behind that quote.
/// Nothing where the string does not end or an escape is unknown.
pub open spec fn string_end(chars: Seq<char>, pos: nat, done: Seq<char>) -> Option<(Seq<char>, nat)>
    decreases chars.len() - pos,
{
    if pos >= chars.len() {
        None
    } else if chars[pos as int] == '"' {
        Some((done, pos + 1))
    } else if chars[pos as int] == '\\' {
        if pos + 1 < chars.len() {
            match escaped(chars[pos + 1 as int]) {
                Some(c) => string_end(chars, pos + 2, done.push(c)),
                None => None,
            }
        } else {
            None
        }
    } else {
        string_end(chars, pos + 1, done.push(chars[pos as int]))
    }
}

/// The token that starts at `pos`, where a character stands that is not
/// blank, and the position behind it.
pub open spec fn token_at(chars: Seq<char>, pos: nat) -> Option<(Lexeme, nat)> {
    let c = chars[pos as int];
    if c == '/' && is_char(chars, pos + 1, '/') {
        let end = run_end(chars, pos, Run::Line);
        if is_char(chars, pos + 2, '/') && is_char(chars, pos + 3, '/') {
            Some((lexeme(TokenKind::ModuleComment, Seq::empty()), end))
        } else if is_char(chars, pos + 2, '/') {
            Some((lexeme(TokenKind::DocComment, Seq::empty()), end))
        } else {
            Some((lexeme(TokenKind::Comment, Seq::empty()), end))
        }
    } else if is_ident_start(c) {
        let end = run_end(chars, pos, Run::Name);
        let text = chars.subrange(pos as int, end as int);
        Some((lexeme(word_kind(text), text), end))
    } else if is_digit(c) {
        let end = run_end(chars, pos, Run::Digits);
        Some((lexeme(TokenKind::Int, chars.subrange(pos as int, end as int)), end))
    } else if c == '"' {
        match string_end(chars, pos + 1, Seq::empty()) {
            Some((text, end)) => Some((lexeme(TokenKind::String, text), end)),
            None => None,
        }
    } else if pos + 1 < chars.len() && two_char_kind(c, chars[pos + 1 as int]) is Some {
        Some((lexeme(two_char_kind(c, chars[pos + 1 as int])->0, Seq::empty()), pos + 2))
    } else {
        match one_char_kind(c) {
            Some(kind) => Some((lexeme(kind, Seq::empty()), pos + 1)),
            None => None,
        }
    }
}

/// The byte span of the characters from `from` up to `to`.
pub open spec fn byte_span(chars: Seq<char>, from: nat, to: nat) -> Span {
    Span { start: byte_offset(chars, from) as usize, end: byte_offset(chars, to) as usize }
}

/// The tokens of the text from `pos` on, behind those in `done`, or the
/// position of the character at which no token starts. Blanks separate
/// tokens; two line feeds in a row are an empty line.
pub open spec fn tokens_from(chars: Seq<char>, pos: nat, done: Seq<(Lexeme, Span)>) -> Result<
    Seq<(Lexeme, Span)>,
    nat,
>
    decreases chars.len() - pos,
{
    if pos >= chars.len() {
        Ok(done)
    } else if is_char(chars, pos, '\n') && is_char(chars, pos + 1, '\n') {
        tokens_from(
            chars,
            pos + 2,
            done.push((lexeme(TokenKind::EmptyLine, Seq::empty()), byte_span(chars, pos, pos + 2))),
        )
    } else if is_blank(chars[pos as int]) {
        tokens_from(chars, pos + 1, done)
    } else {
        match token_at(chars, pos) {
            Some((token, end)) => if pos < end <= chars.len() {
                tokens_from(chars, end, done.push((token, byte_span(chars, pos, end))))
            } else {
                Err(pos)
            },
            None => Err(pos),
        }
    }
}

/// The tokens of a text.
pub open spec fn tokens_of(chars: Seq<char>) -> Result<Seq<(Lexeme, Span)>, nat> {
    tokens_from(chars, 0, Seq::empty())
}

// ---------------------------------------------------------------------- lexer
fn at_char(chars: &Vec<char>, pos: usize, c: char) -> (r: bool)
    ensures
        r == is_char(chars@, pos as nat, c),
        r ==> pos < usize::MAX,
{
    pos < chars.len() && chars[pos] == c
}

fn digit(c: char) -> (r: bool)
    ensures
        r == is_digit(c),
{
    '0' <= c && c <= '9'
}

fn ident_start(c: char) -> (r: bool)
    ensures
        r == is_ident_start(c),
{
    ('a' <= c && c <= 'z') || ('A' <= c && c <= 'Z') || c == '_'
}

fn blank(c: char) -> (r: bool)
    ensures
        r == is_blank(c),
{
    c == ' ' || c == '\t' || c == '\r' || c == '\n'
}

fn belongs(c: char, run: Run) -> (r: bool)
    ensures
        r == in_run(c, run),
{
    match run {
        Run::Line => c != '\n',
        Run::Name => ident_start(c) || digit(c),
        Run::Digits => digit(c),
    }
}

fn scan(chars: &Vec<char>, pos: usize, run: Run) -> (end: usize)
    requires
        pos <= chars@.len(),
    ensures
        end == run_end(chars@, pos as nat, run),
        pos <= end <= chars@.len(),
        pos < chars@.len() && in_run(chars@[pos as int], run) ==> pos < end,
{
    let mut i: usize = pos;
    while i < chars.len() && belongs(chars[i], run)
        invariant
            pos <= i <= chars@.len(),
            run_end(chars@, pos as nat, run) == run_end(chars@, i as nat, run),
            pos < chars@.len() && in_run(chars@[pos as int], run) && i == pos ==> in_run(
                chars@[i as int],
                run,
            ),
        decreases chars@.len() - i,
    {
        i += 1;
    }
    i
}

fn kind_of_word(chars: &Vec<char>, from: usize, to: usize) -> (kind: TokenKind)
    requires
        from < to <= chars@.len(),
    ensures
        kind == word_kind(chars@.subrange(from as int, to as int)),
{
    if same_text(chars, from, to, "as") {
        TokenKind::As
    } else if same_text(chars, from, to, "assert") {
        TokenKind::Assert
    } else if same_text(chars, from, to, "check") {
        TokenKind::Check
    } else if same_text(chars, from, to, "fn") {
        TokenKind::Fn
    } else if same_text(chars, from, to, "if") {
        TokenKind::If
    } else if same_text(chars, from, to, "else") {
        TokenKind::Else
    } else if same_text(chars, from, to, "is") {
        TokenKind::Is
    } else if same_text(chars, from, to, "let") {
        TokenKind::Let
    } else if same_text(chars, from, to, "opaque") {
        TokenKind::Opaque
    } else if same_text(chars, from, to, "pub") {
        TokenKind::Pub
    } else if same_text(chars, from, to, "use") {
        TokenKind::Use
    } else if same_text(chars, from, to, "todo") {
        TokenKind::Todo
    } else if same_text(chars, from, to, "try") {
        TokenKind::Try
    } else if same_text(chars, from, to, "type") {
        TokenKind::Type
    } else if same_text(chars, from, to, "when") {
        TokenKind::When
    } else if 'A' <= chars[from] && chars[from] <= 'Z' {
        TokenKind::UpName
    } else if chars[from] == '_' {
        TokenKind::DiscardName
    } else {
        TokenKind::Name
    }
}

/// The token of the kind `kind`, with `text` where the kind carries a text.
pub fn token_of(kind: TokenKind, text: String) -> (token: Token)
    ensures
        token.deep_view() == lexeme(kind, text@),
{
    match kind {
        TokenKind::Name => Token::Name { name: text },
        TokenKind::UpName => Token::UpName { name: text },
        TokenKind::DiscardName => Token::DiscardName { name: text },
        TokenKind::Int => Token::Int { value: text },
        TokenKind::String => Token::String { value: text },
        TokenKind::LeftParen => Token::LeftParen,
        TokenKind::RightParen => Token::RightParen,
        TokenKind::LeftSquare => Token::LeftSquare,
        TokenKind::RightSquare => Token::RightSquare,
        TokenKind::LeftBrace => Token::LeftBrace,
        TokenKind::RightBrace => Token::RightBrace,
        TokenKind::Plus => Token::Plus,
        TokenKind::Minus => Token::Minus,
        TokenKind::Star => Token::Star,
        TokenKind::Slash => Token::Slash,
        TokenKind::Less => Token::Less,
        TokenKind::Greater => Token::Greater,
        TokenKind::LessEqual => Token::LessEqual,
        TokenKind::GreaterEqual => Token::GreaterEqual,
        TokenKind::Percent => Token::Percent,
        TokenKind::Colon => Token::Colon,
        TokenKind::Comma => Token::Comma,
        TokenKind::Bang => Token::Bang,
        TokenKind::Equal => Token::Equal,
        TokenKind::EqualEqual => Token::EqualEqual,
        TokenKind::NotEqual => Token::NotEqual,
        TokenKind::Vbar => Token::Vbar,
        TokenKind::VbarVbar => Token::VbarVbar,
        TokenKind::AmperAmper => Token::AmperAmper,
        TokenKind::Pipe => Token::Pipe,
        TokenKind::Dot => Token::Dot,
        TokenKind::RArrow => Token::RArrow,
        TokenKind::DotDot => Token::DotDot,
        TokenKind::Comment => Token::Comment,
        TokenKind::DocComment => Token::DocComment,
        TokenKind::ModuleComment => Token::ModuleComment,
        TokenKind::EmptyLine => Token::EmptyLine,
        TokenKind::As => Token::As,
        TokenKind::Assert => Token::Assert,
        TokenKind::Check => Token::Check,
        TokenKind::Fn => Token::Fn,
        TokenKind::If => Token::If,
        TokenKind::Else => Token::Else,
        TokenKind::Is => Token::Is,
        TokenKind::Let => Token::Let,
        TokenKind::Opaque => Token::Opaque,
        TokenKind::Pub => Token::Pub,
        TokenKind::Use => Token::Use,
        TokenKind::Todo => Token::Todo,
        TokenKind::Try => Token::Try,
        TokenKind::Type => Token::Type,
        TokenKind::When => Token::When,
    }
}

fn two_chars(a: char, b: char) -> (r: Option<TokenKind>)
    ensures
        r == two_char_kind(a, b),
{
    if a == '=' && b == '=' {
        Some(TokenKind::EqualEqual)
    } else if a == '.' && b == '.' {
        Some(TokenKind::DotDot)
    } else if a == '!' && b == '=' {
        Some(TokenKind::NotEqual)
    } else if a == '<' && b == '=' {
        Some(TokenKind::LessEqual)
    } else if a == '>' && b == '=' {
        Some(TokenKind::GreaterEqual)
    } else if a == '-' && b == '>' {
        Some(TokenKind::RArrow)
    } else if a == '|' && b == '>' {
        Some(TokenKind::Pipe)
    } else if a == '|' && b == '|' {
        Some(TokenKind::VbarVbar)
    } else if a == '&' && b == '&' {
        Some(TokenKind::AmperAmper)
    } else {
        None
    }
}

fn one_char(c: char) -> (r: Option<TokenKind>)
    ensures
        r == one_char_kind(c),
{
    if c == '=' {
        Some(TokenKind::Equal)
    } else if c == '.' {
        Some(TokenKind::Dot)
    } else if c == '!' {
        Some(TokenKind::Bang)
    } else if c == '<' {
        Some(TokenKind::Less)
    } else if c == '>' {
        Some(TokenKind::Greater)
    } else if c == '+' {
        Some(TokenKind::Plus)
    } else if c == '-' {
        Some(TokenKind::Minus)
    } else if c == '*' {
        Some(TokenKind::Star)
    } else if c == '/' {
        Some(TokenKind::Slash)
    } else if c == '%' {
        Some(TokenKind::Percent)
    } else if c == '|' {
        Some(TokenKind::Vbar)
    } else if c == ',' {
        Some(TokenKind::Comma)
    } else if c == ':' {
        Some(TokenKind::Colon)
    } else if c == '(' {
        Some(TokenKind::LeftParen)
    } else if c == ')' {
        Some(TokenKind::RightParen)
    } else if c == '[' {
        Some(TokenKind::LeftSquare)
    } else if c == ']' {
        Some(TokenKind::RightSquare)
    } else if c == '{' {
        Some(TokenKind::LeftBrace)
    } else if c == '}' {
        Some(TokenKind::RightBrace)
    } else {
        None
    }
}

fn escape(c: char) -> (r: Option<char>)
    ensures
        r == escaped(c),
{
    if c == '\\' || c == '/' || c == '"' {
        Some(c)
    } else if c == 'b' {
        Some('\x08')
    } else if c == 'f' {
        Some('\x0C')
    } else if c == 'n' {
        Some('\n')
    } else if c == 'r' {
        Some('\r')
    } else if c == 't' {
        Some('\t')
    } else {
        None
    }
}

fn string(chars: &Vec<char>, pos: usize) -> (r: Option<(String, usize)>)
    requires
        pos <= chars@.len(),
    ensures
        match r {
            Some((text, end)) => string_end(chars@, pos as nat, Seq::empty()) == Some(
                (text@, end as nat),
            ) && pos < end <= chars@.len(),
            None => string_end(chars@, pos as nat, Seq::empty()) is None,
        },
{
    let mut text = String::new();
    let mut i: usize = pos;
    loop
        invariant
            pos <= i <= chars@.len(),
            string_end(chars@, pos as nat, Seq::empty()) == string_end(chars@, i as nat, text@),
        decreases chars@.len() - i,
    {
        if i >= chars.len() {
            return None;
        }
        let c = chars[i];
        if c == '"' {
            return Some((text, i + 1));
        } else if c == '\\' {
            if i + 1 >= chars.len() {
                return None;
            }
            match escape(chars[i + 1]) {
                Some(e) => {
                    text.push(e);
                    i += 2;
                },
                None => {
                    return None;
                },
            }
        } else {
            text.push(c);
            i += 1;
        }
    }
}

fn token(chars: &Vec<char>, pos: usize) -> (r: Option<(Token, usize)>)
    requires
        pos < chars@.len(),
    ensures
        match r {
            Some((token, end)) => token_at(chars@, pos as nat) == Some(
                (token.deep_view(), end as nat),
            ) && pos < end <= chars@.len(),
            None => token_at(chars@, pos as nat) is None,
        },
{
    let c = chars[pos];
    let _ = chars.len();
    if c == '/' && at_char(chars, pos + 1, '/') {
        let end = scan(chars, pos, Run::Line);
        if at_char(chars, pos + 2, '/') && at_char(chars, pos + 3, '/') {
            Some((token_of(TokenKind::ModuleComment, String::new()), end))
        } else if at_char(chars, pos + 2, '/') {
            Some((token_of(TokenKind::DocComment, String::new()), end))
        } else {
            Some((token_of(TokenKind::Comment, String::new()), end))
        }
    } else if ident_start(c) {
        let end = scan(chars, pos, Run::Name);
        let kind = kind_of_word(chars, pos, end);
        Some((token_of(kind, collect(chars, pos, end)), end))
    } else if digit(c) {
        let end = scan(chars, pos, Run::Digits);
        Some((token_of(TokenKind::Int, collect(chars, pos, end)), end))
    } else if c == '"' {
        match string(chars, pos + 1) {
            Some((text, end)) => Some((token_of(TokenKind::String, text), end)),
            None => None,
        }
    } else {
        if pos + 1 < chars.len() {
            match two_chars(c, chars[pos + 1]) {
                Some(kind) => {
                    return Some((token_of(kind, String::new()), pos + 2));
                },
                None => {},
            }
        }
        match one_char(c) {
            Some(kind) => Some((token_of(kind, String::new()), pos + 1)),
            None => None,
        }
    }
}

/// The tokens of the text `chars`, whose byte offsets are `offsets`, or the
/// position of the character at which no token starts.
pub fn lexer(chars: &Vec<char>, offsets: &Vec<usize>) -> (res: Result<Vec<(Token, Span)>, usize>)
    requires
        offsets_of(chars@, offsets@),
    ensures
        match res {
            Ok(tokens) => tokens_of(chars@) == Ok::<Seq<(Lexeme, Span)>, nat>(tokens.deep_view())
                && well_formed(tokens.deep_view()) && forall|i: int|
                0 <= i < tokens@.len() ==> (#[trigger] tokens@[i]).1.end
                    <= offsets@[chars@.len() as int],
            Err(e) => tokens_of(chars@) == Err::<Seq<(Lexeme, Span)>, nat>(e as nat) && e
                < chars@.len(),
        },
{
    let mut tokens: Vec<(Token, Span)> = no_items();
    let mut pos: usize = 0;
    proof {
        reveal(well_formed);
    }
    while pos < chars.len()
        invariant
            offsets_of(chars@, offsets@),
            pos <= chars@.len(),
            tokens@.len() == tokens.deep_view().len(),
            tokens_of(chars@) == tokens_from(chars@, pos as nat, tokens.deep_view()),
            well_formed(tokens.deep_view()),
            forall|i: int| 0 <= i < tokens@.len() ==> (#[trigger] tokens@[i]).1.end <= offsets@[pos as int],
        decreases chars@.len() - pos,
    {
        let ghost before = tokens.deep_view();
        let ghost before_tokens = tokens@;
        let (item, end) = if at_char(chars, pos, '\n') && at_char(chars, pos + 1, '\n') {
            (token_of(TokenKind::EmptyLine, String::new()), pos + 2)
        } else if blank(chars[pos]) {
            assert(offsets@[pos as int] < offsets@[pos + 1]);
            pos += 1;
            continue ;
        } else {
            match token(chars, pos) {
                Some(r) => r,
                None => {
                    return Err(pos);
                },
            }
        };
        let span = Span { start: offsets[pos], end: offsets[end] };
        assert(span == byte_span(chars@, pos as nat, end as nat));
        assert(offsets@[pos as int] < offsets@[end as int]);
        push_item(&mut tokens, (item, span));
        proof {
            reveal(well_formed);
            let after = tokens.deep_view();
            assert forall|i: int| 0 <= i < after.len() implies (#[trigger] after[i]).1.start
                < after[i].1.end by {
                if i < before.len() {
                    assert(after[i] == before[i]);
                }
            }
            assert forall|i: int, j: int| 0 <= i < j < after.len() implies (#[trigger] after[i]).1.end
                <= (#[trigger] after[j]).1.start by {
                assert(after[i] == before[i]);
                assert(before[i].1 == before_tokens[i].1);
                if j < before.len() {
                    assert(after[j] == before[j]);
                }
            }
            assert forall|i: int| 0 <= i < tokens@.len() implies (#[trigger] tokens@[i]).1.end
                <= offsets@[end as int] by {
                if i < before_tokens.len() {
                    assert(tokens@[i] == before_tokens[i]);
                }
            }
        }
        pos = end;
    }
    Ok(tokens)
}

} // verus!
