//! The tokens that the lexer hands to the grammar.
use vstd::prelude::*;

verus! {

#[derive(Debug, PartialEq, Eq)]
#[allow(inconsistent_fields)]
pub enum Token {
    Name { name: String },
    UpName { name: String },
    DiscardName { name: String },
    Int { value: String },
    String { value: String },
    // Groupings
    LeftParen,
    RightParen,
    LeftSquare,
    RightSquare,
    LeftBrace,
    RightBrace,
    // Operators
    Plus,
    Minus,
    Star,
    Slash,
    Less,
    Greater,
    LessEqual,
    GreaterEqual,
    Percent,
    // Other punctuation
    Colon,
    Comma,
    Bang,
    Equal,
    EqualEqual,
    NotEqual,
    Vbar,
    VbarVbar,
    AmperAmper,
    Pipe,
    Dot,
    RArrow,
    DotDot,
    // Trivia
    Comment,
    DocComment,
    ModuleComment,
    EmptyLine,
    // Keywords
    As,
    Assert,
    Check,
    Fn,
    If,
    Else,
    Is,
    Let,
    Opaque,
    Pub,
    Use,
    Todo,
    Try,
    Type,
    When,
}

/// What a token is, without the text it carries.
#[derive(Clone, Copy, Debug, PartialEq, Eq, Structural)]
#[allow(inconsistent_fields)]
pub enum TokenKind {
    Name,
    UpName,
    DiscardName,
    Int,
    String,
    LeftParen,
    RightParen,
    LeftSquare,
    RightSquare,
    LeftBrace,
    RightBrace,
    Plus,
    Minus,
    Star,
    Slash,
    Less,
    Greater,
    LessEqual,
    GreaterEqual,
    Percent,
    Colon,
    Comma,
    Bang,
    Equal,
    EqualEqual,
    NotEqual,
    Vbar,
    VbarVbar,
    AmperAmper,
    Pipe,
    Dot,
    RArrow,
    DotDot,
    Comment,
    DocComment,
    ModuleComment,
    EmptyLine,
    As,
    Assert,
    Check,
    Fn,
    If,
    Else,
    Is,
    Let,
    Opaque,
    Pub,
    Use,
    Todo,
    Try,
    Type,
    When,
}

/// A token as the grammar sees it: its kind and the text it carries.
pub struct Lexeme {
    pub kind: TokenKind,
    pub text: Seq<char>,
}

impl DeepView for Token {
    type V = Lexeme;

    open spec fn deep_view(&self) -> Lexeme {
        Lexeme { kind: self.spec_kind(), text: self.spec_text() }
    }
}

impl Token {
    pub open spec fn spec_kind(&self) -> TokenKind {
        match self {
            Token::Name { .. } => TokenKind::Name,
            Token::UpName { .. } => TokenKind::UpName,
            Token::DiscardName { .. } => TokenKind::DiscardName,
            Token::Int { .. } => TokenKind::Int,
            Token::String { .. } => TokenKind::String,
            Token::LeftParen => TokenKind::LeftParen,
            Token::RightParen => TokenKind::RightParen,
            Token::LeftSquare => TokenKind::LeftSquare,
            Token::RightSquare => TokenKind::RightSquare,
            Token::LeftBrace => TokenKind::LeftBrace,
            Token::RightBrace => TokenKind::RightBrace,
            Token::Plus => TokenKind::Plus,
            Token::Minus => TokenKind::Minus,
            Token::Star => TokenKind::Star,
            Token::Slash => TokenKind::Slash,
            Token::Less => TokenKind::Less,
            Token::Greater => TokenKind::Greater,
            Token::LessEqual => TokenKind::LessEqual,
            Token::GreaterEqual => TokenKind::GreaterEqual,
            Token::Percent => TokenKind::Percent,
            Token::Colon => TokenKind::Colon,
            Token::Comma => TokenKind::Comma,
            Token::Bang => TokenKind::Bang,
            Token::Equal => TokenKind::Equal,
            Token::EqualEqual => TokenKind::EqualEqual,
            Token::NotEqual => TokenKind::NotEqual,
            Token::Vbar => TokenKind::Vbar,
            Token::VbarVbar => TokenKind::VbarVbar,
            Token::AmperAmper => TokenKind::AmperAmper,
            Token::Pipe => TokenKind::Pipe,
            Token::Dot => TokenKind::Dot,
            Token::RArrow => TokenKind::RArrow,
            Token::DotDot => TokenKind::DotDot,
            Token::Comment => TokenKind::Comment,
            Token::DocComment => TokenKind::DocComment,
            Token::ModuleComment => TokenKind::ModuleComment,
            Token::EmptyLine => TokenKind::EmptyLine,
            Token::As => TokenKind::As,
            Token::Assert => TokenKind::Assert,
            Token::Check => TokenKind::Check,
            Token::Fn => TokenKind::Fn,
            Token::If => TokenKind::If,
            Token::Else => TokenKind::Else,
            Token::Is => TokenKind::Is,
            Token::Let => TokenKind::Let,
            Token::Opaque => TokenKind::Opaque,
            Token::Pub => TokenKind::Pub,
            Token::Use => TokenKind::Use,
            Token::Todo => TokenKind::Todo,
            Token::Try => TokenKind::Try,
            Token::Type => TokenKind::Type,
            Token::When => TokenKind::When,
        }
    }

    /// The text that the token carries: a name, or the text of a literal.
    pub open spec fn spec_text(&self) -> Seq<char> {
        match self {
            Token::Name { name } => name@,
            Token::UpName { name } => name@,
            Token::DiscardName { name } => name@,
            Token::Int { value } => value@,
            Token::String { value } => value@,
            _ => Seq::empty(),
        }
    }

    #[verifier::when_used_as_spec(spec_kind)]
    pub fn kind(&self) -> (k: TokenKind)
        ensures
            k == self.spec_kind(),
    {
        match self {
            Token::Name { .. } => TokenKind::Name,
            Token::UpName { .. } => TokenKind::UpName,
            Token::DiscardName { .. } => TokenKind::DiscardName,
            Token::Int { .. } => TokenKind::Int,
            Token::String { .. } => TokenKind::String,
            Token::LeftParen => TokenKind::LeftParen,
            Token::RightParen => TokenKind::RightParen,
            Token::LeftSquare => TokenKind::LeftSquare,
            Token::RightSquare => TokenKind::RightSquare,
            Token::LeftBrace => TokenKind::LeftBrace,
            Token::RightBrace => TokenKind::RightBrace,
            Token::Plus => TokenKind::Plus,
            Token::Minus => TokenKind::Minus,
            Token::Star => TokenKind::Star,
            Token::Slash => TokenKind::Slash,
            Token::Less => TokenKind::Less,
            Token::Greater => TokenKind::Greater,
            Token::LessEqual => TokenKind::LessEqual,
            Token::GreaterEqual => TokenKind::GreaterEqual,
            Token::Percent => TokenKind::Percent,
            Token::Colon => TokenKind::Colon,
            Token::Comma => TokenKind::Comma,
            Token::Bang => TokenKind::Bang,
            Token::Equal => TokenKind::Equal,
            Token::EqualEqual => TokenKind::EqualEqual,
            Token::NotEqual => TokenKind::NotEqual,
            Token::Vbar => TokenKind::Vbar,
            Token::VbarVbar => TokenKind::VbarVbar,
            Token::AmperAmper => TokenKind::AmperAmper,
            Token::Pipe => TokenKind::Pipe,
            Token::Dot => TokenKind::Dot,
            Token::RArrow => TokenKind::RArrow,
            Token::DotDot => TokenKind::DotDot,
            Token::Comment => TokenKind::Comment,
            Token::DocComment => TokenKind::DocComment,
            Token::ModuleComment => TokenKind::ModuleComment,
            Token::EmptyLine => TokenKind::EmptyLine,
            Token::As => TokenKind::As,
            Token::Assert => TokenKind::Assert,
            Token::Check => TokenKind::Check,
            Token::Fn => TokenKind::Fn,
            Token::If => TokenKind::If,
            Token::Else => TokenKind::Else,
            Token::Is => TokenKind::Is,
            Token::Let => TokenKind::Let,
            Token::Opaque => TokenKind::Opaque,
            Token::Pub => TokenKind::Pub,
            Token::Use => TokenKind::Use,
            Token::Todo => TokenKind::Todo,
            Token::Try => TokenKind::Try,
            Token::Type => TokenKind::Type,
            Token::When => TokenKind::When,
        }
    }

    /// A copy of the text that the token carries.
    pub fn text(&self) -> (s: String)
        ensures
            s@ == self.spec_text(),
    {
        match self {
            Token::Name { name } => name.clone(),
            Token::UpName { name } => name.clone(),
            Token::DiscardName { name } => name.clone(),
            Token::Int { value } => value.clone(),
            Token::String { value } => value.clone(),
            _ => String::new(),
        }
    }
}

impl TokenKind {
    /// Whether tokens of this kind are comments or blank lines, which the
    /// grammar never sees.
    pub open spec fn spec_is_trivia(self) -> bool {
        self == TokenKind::Comment || self == TokenKind::DocComment || self
            == TokenKind::ModuleComment || self == TokenKind::EmptyLine
    }

    #[verifier::when_used_as_spec(spec_is_trivia)]
    pub fn is_trivia(self) -> (r: bool)
        ensures
            r == self.spec_is_trivia(),
    {
        self == TokenKind::Comment || self == TokenKind::DocComment || self
            == TokenKind::ModuleComment || self == TokenKind::EmptyLine
    }
}

} // verus!
