//! Lexer for MQTT topic route patterns such as
//! `{var1}/routepart1/[enumval1|enumval2]/routepart3`.
//!
//! A `Cursor` walks the characters of a route; `advance_token` splits off
//! one token and reports its length in bytes of UTF-8.
use vstd::prelude::*;
use vstd::utf8::*;
use crate::text::chars_of;

verus! {

broadcast use {vstd::utf8::char_is_scalar, vstd::slice::group_slice_axioms};

/// The character `first` and `second` report past the end of input.
pub const EOF_CHAR: char = '\0';

/// Unicode `White_Space` property, the set that `char::is_whitespace` tests.
pub open spec fn spec_is_whitespace(c: char) -> bool {
    let u = c as u32;
    ||| 0x09 <= u <= 0x0D
    ||| u == 0x20
    ||| u == 0x85
    ||| u == 0xA0
    ||| u == 0x1680
    ||| 0x2000 <= u <= 0x200A
    ||| u == 0x2028
    ||| u == 0x2029
    ||| u == 0x202F
    ||| u == 0x205F
    ||| u == 0x3000
}

/// `a..=z | A..=Z | _`
pub open spec fn spec_is_ident_start(c: char) -> bool {
    ('a' <= c && c <= 'z') || ('A' <= c && c <= 'Z') || c == '_'
}

/// `a..=z | A..=Z | 0..=9 | _`
pub open spec fn spec_is_ident_continue(c: char) -> bool {
    spec_is_ident_start(c) || ('0' <= c && c <= '9')
}

/// Number of leading characters of `s` that satisfy `p`.
pub open spec fn leading_count(s: Seq<char>, p: spec_fn(char) -> bool) -> nat
    decreases s.len(),
{
    if s.len() > 0 && p(s[0]) {
        1 + leading_count(s.drop_first(), p)
    } else {
        0
    }
}

/// Number of bytes of the UTF-8 encoding of `s`.
pub open spec fn utf8_len(s: Seq<char>) -> nat {
    encode_utf8(s).len()
}

/// First byte of the UTF-8 encoding of `c`.
pub open spec fn spec_leading_byte(c: char) -> u8 {
    encode_scalar(c as u32)[0]
}

/// Kinds of tokens in a route pattern.
#[derive(Debug, PartialEq, Eq, Structural, Clone, Copy)]
pub enum TokenKind {
    Ident,
    OpenSquareBrace,
    CloseSquareBrace,
    OpenCurlyBrace,
    CloseCurlyBrace,
    Pipe,
    Slash,
    Whitespace,
    Unknown,
    EOF,
}

/// A token: its kind and its length in bytes.
pub struct Token {
    pub kind: TokenKind,
    pub len: u32,
}

/// Kind and length in characters of the first token of a non-empty `s`.
pub open spec fn spec_first_token(s: Seq<char>) -> (TokenKind, nat)
    recommends
        s.len() > 0,
{
    let c = s[0];
    let rest = s.drop_first();
    if c == '/' {
        (TokenKind::Slash, 1)
    } else if c == '[' {
        (TokenKind::OpenSquareBrace, 1)
    } else if c == ']' {
        (TokenKind::CloseSquareBrace, 1)
    } else if c == '{' {
        (TokenKind::OpenCurlyBrace, 1)
    } else if c == '}' {
        (TokenKind::CloseCurlyBrace, 1)
    } else if c == '|' {
        (TokenKind::Pipe, 1)
    } else if spec_is_whitespace(c) {
        (TokenKind::Whitespace, 1 + leading_count(rest, |x: char| spec_is_whitespace(x)))
    } else if spec_is_ident_start(c) {
        (TokenKind::Ident, 1 + leading_count(rest, |x: char| spec_is_ident_continue(x)))
    } else {
        (TokenKind::Unknown, 1)
    }
}

/// Kind of the first token of `s` (`EOF` for the empty sequence).
pub open spec fn first_token_kind(s: Seq<char>) -> TokenKind {
    if s.len() == 0 {
        TokenKind::EOF
    } else {
        spec_first_token(s).0
    }
}

/// Length in bytes of the first token of `s` (0 for the empty sequence).
pub open spec fn first_token_bytes(s: Seq<char>) -> nat {
    if s.len() == 0 {
        0
    } else {
        utf8_len(s.take(spec_first_token(s).1 as int))
    }
}

/// The token that a fresh cursor over `s` hands out first.
pub open spec fn first_token_len(s: Seq<char>) -> u32 {
    first_token_bytes(s) as u32
}

/// Lexing makes progress: only the empty text gives `EOF`, and the first
/// token of any other text spans at least one and at most all of its
/// characters, and at least one and at most all of its bytes.
pub proof fn law_first_token_progress(s: Seq<char>)
    ensures
        (first_token_kind(s) == TokenKind::EOF) <==> s.len() == 0,
        s.len() > 0 ==> 1 <= spec_first_token(s).1 <= s.len(),
        s.len() > 0 ==> 1 <= first_token_bytes(s) <= utf8_len(s),
{
    if s.len() > 0 {
        let rest = s.drop_first();
        lemma_leading_count_le(rest, |x: char| spec_is_whitespace(x));
        lemma_leading_count_le(rest, |x: char| spec_is_ident_continue(x));
        let n = spec_first_token(s).1;
        assert(1 <= n <= s.len());
        let t = s.take(n as int);
        lemma_utf8_len_drop_first(t);
        assert(encode_scalar(t[0] as u32).len() >= 1);
        lemma_utf8_len_split(s, n as int);
    }
}

pub proof fn lemma_utf8_len_drop_first(s: Seq<char>)
    requires
        s.len() > 0,
    ensures
        utf8_len(s) == encode_scalar(s[0] as u32).len() + utf8_len(s.drop_first()),
{
}

pub proof fn lemma_utf8_len_split(s: Seq<char>, k: int)
    requires
        0 <= k <= s.len(),
    ensures
        utf8_len(s) == utf8_len(s.take(k)) + utf8_len(s.skip(k)),
    decreases k,
{
    if k == 0 {
        assert(s.take(0) =~= Seq::<char>::empty());
        assert(s.skip(0) =~= s);
    } else {
        lemma_utf8_len_split(s.drop_first(), k - 1);
        assert(s.drop_first().take(k - 1) =~= s.take(k).drop_first());
        assert(s.drop_first().skip(k - 1) =~= s.skip(k));
        assert(s.take(k)[0] == s[0]);
    }
}

pub proof fn lemma_utf8_len_ascii(s: Seq<char>)
    requires
        forall|i: int| 0 <= i < s.len() ==> (s[i] as u32) < 0x80,
    ensures
        utf8_len(s) == s.len(),
    decreases s.len(),
{
    if s.len() > 0 {
        assert forall|i: int| 0 <= i < s.drop_first().len() implies (s.drop_first()[i] as u32)
            < 0x80 by {
            assert(s.drop_first()[i] == s[i + 1]);
        }
        lemma_utf8_len_ascii(s.drop_first());
    }
}

pub proof fn lemma_leading_count_le(s: Seq<char>, p: spec_fn(char) -> bool)
    ensures
        leading_count(s, p) <= s.len(),
        forall|i: int| 0 <= i < leading_count(s, p) ==> p(#[trigger] s[i]),
    decreases s.len(),
{
    if s.len() > 0 && p(s[0]) {
        lemma_leading_count_le(s.drop_first(), p);
        assert forall|i: int| 0 <= i < leading_count(s, p) implies p(#[trigger] s[i]) by {
            if i > 0 {
                assert(s[i] == s.drop_first()[i - 1]);
            }
        }
    }
}

/// `char::is_whitespace`: membership in the Unicode `White_Space` property.
pub fn is_whitespace(c: char) -> (r: bool)
    ensures
        r == spec_is_whitespace(c),
{
    let u = c as u32;
    (0x09 <= u && u <= 0x0D) || u == 0x20 || u == 0x85 || u == 0xA0 || u == 0x1680 || (0x2000
        <= u && u <= 0x200A) || u == 0x2028 || u == 0x2029 || u == 0x202F || u == 0x205F || u
        == 0x3000
}

/// Number of bytes of the UTF-8 encoding of `c` (`char::len_utf8`).
pub fn char_utf8_len(c: char) -> (r: usize)
    ensures
        r == encode_scalar(c as u32).len(),
        1 <= r <= 4,
{
    let u = c as u32;
    if u < 0x80 {
        1
    } else if u < 0x800 {
        2
    } else if u < 0x10000 {
        3
    } else {
        4
    }
}

/// First byte of the UTF-8 encoding of `c`.
pub fn leading_byte(c: char) -> (r: u8)
    ensures
        r == spec_leading_byte(c),
{
    let u = c as u32;
    if u < 0x80 {
        (u & 0x7F) as u8
    } else if u < 0x800 {
        0xC0 | ((u >> 6) & 0x1F) as u8
    } else if u < 0x10000 {
        0xE0 | ((u >> 12) & 0x0F) as u8
    } else {
        0xF0 | ((u >> 18) & 0x7) as u8
    }
}

/// A position in a route string.
pub struct Cursor<'a> {
    src: &'a str,
    chars: Vec<char>,
    pos: usize,
    len_remaining: usize,
    rest_bytes: usize,
}

impl<'a> Cursor<'a> {
    /// The characters not consumed yet.
    pub closed spec fn rest(&self) -> Seq<char> {
        self.chars@.skip(self.pos as int)
    }

    /// Byte length of the input the cursor was created over.
    pub closed spec fn start_len(&self) -> nat {
        self.len_remaining as nat
    }

    pub closed spec fn wf(&self) -> bool {
        &&& self.chars@ == self.src@
        &&& self.pos <= self.chars@.len()
        &&& self.rest_bytes == utf8_len(self.rest())
        &&& self.rest_bytes <= self.len_remaining
    }

    pub fn new(src: &'a str) -> (c: Cursor<'a>)
        ensures
            c.wf(),
            c.rest() == src@,
            c.start_len() == utf8_len(src@),
    {
        let chars = chars_of(src);
        let n = src.as_bytes().len();
        let c = Cursor { src, chars, pos: 0, len_remaining: n, rest_bytes: n };
        assert(c.rest() =~= src@);
        c
    }

    pub fn is_eof(&self) -> (r: bool)
        requires
            self.wf(),
        ensures
            r == (self.rest().len() == 0),
    {
        self.pos == self.chars.len()
    }

    /// The part of the input not consumed yet.
    pub fn as_str(&self) -> (r: &'a str)
        requires
            self.wf(),
        ensures
            r@ == self.rest(),
    {
        let r = self.src.substring_char(self.pos, self.chars.len());
        assert(r@ =~= self.rest());
        r
    }

    /// The next character, or `EOF_CHAR` at the end.
    pub fn first(&self) -> (r: char)
        requires
            self.wf(),
        ensures
            r == if self.rest().len() > 0 { self.rest()[0] } else { EOF_CHAR },
    {
        if self.pos < self.chars.len() {
            self.chars[self.pos]
        } else {
            EOF_CHAR
        }
    }

    /// The character after the next one, or `EOF_CHAR` if there is none.
    pub fn second(&self) -> (r: char)
        requires
            self.wf(),
        ensures
            r == if self.rest().len() > 1 { self.rest()[1] } else { EOF_CHAR },
    {
        if self.chars.len() - self.pos > 1 {
            self.chars[self.pos + 1]
        } else {
            EOF_CHAR
        }
    }

    /// Consumes and returns the next character.
    pub fn bump(&mut self) -> (r: Option<char>)
        requires
            old(self).wf(),
        ensures
            final(self).wf(),
            final(self).start_len() == old(self).start_len(),
            old(self).rest().len() == 0 ==> r is None && final(self).rest() == old(self).rest(),
            old(self).rest().len() > 0 ==> r == Some(old(self).rest()[0]) && final(self).rest()
                == old(self).rest().drop_first(),
    {
        if self.pos < self.chars.len() {
            let c = self.chars[self.pos];
            let w = char_utf8_len(c);
            proof {
                lemma_utf8_len_drop_first(self.rest());
                assert(self.rest().drop_first() =~= self.chars@.skip(self.pos + 1));
            }
            self.pos = self.pos + 1;
            self.rest_bytes = self.rest_bytes - w;
            Some(c)
        } else {
            None
        }
    }

    /// Consumes characters while `predicate` holds of them.
    fn eat_while(&mut self, predicate: impl Fn(char) -> bool, Ghost(p): Ghost<spec_fn(char) -> bool>)
        requires
            old(self).wf(),
            forall|c: char| predicate.requires((c,)),
            forall|c: char, b: bool| predicate.ensures((c,), b) ==> b == p(c),
        ensures
            final(self).wf(),
            final(self).start_len() == old(self).start_len(),
            final(self).rest() == old(self).rest().skip(leading_count(old(self).rest(), p) as int),
    {
        let ghost start = self.rest();
        let ghost mut k: int = 0;
        proof {
            assert(start.skip(0) =~= start);
        }
        while predicate(self.first()) && !self.is_eof()
            invariant
                self.wf(),
                self.start_len() == old(self).start_len(),
                forall|c: char| predicate.requires((c,)),
                forall|c: char, b: bool| predicate.ensures((c,), b) ==> b == p(c),
                0 <= k <= start.len(),
                self.rest() == start.skip(k),
                leading_count(start, p) == k + leading_count(start.skip(k), p),
            decreases self.rest().len(),
        {
            proof {
                assert(start.skip(k).drop_first() =~= start.skip(k + 1));
            }
            self.bump();
            proof {
                k = k + 1;
            }
        }
    }

    /// Moves to the first remaining character whose UTF-8 encoding starts
    /// with `byte`, or to the end if there is none.
    pub fn eat_until(&mut self, byte: u8)
        requires
            old(self).wf(),
            !is_continuation_byte(byte) || !encode_utf8(old(self).rest()).contains(byte),
        ensures
            final(self).wf(),
            final(self).start_len() == old(self).start_len(),
            final(self).rest() == old(self).rest().skip(
                leading_count(old(self).rest(), |c: char| spec_leading_byte(c) != byte) as int,
            ),
    {
        let ghost p = |c: char| spec_leading_byte(c) != byte;
        let ghost start = self.rest();
        let ghost mut k: int = 0;
        proof {
            assert(start.skip(0) =~= start);
        }
        while self.pos < self.chars.len() && leading_byte(self.chars[self.pos]) != byte
            invariant
                self.wf(),
                self.start_len() == old(self).start_len(),
                p == (|c: char| spec_leading_byte(c) != byte),
                0 <= k <= start.len(),
                self.rest() == start.skip(k),
                leading_count(start, p) == k + leading_count(start.skip(k), p),
            decreases self.rest().len(),
        {
            proof {
                assert(self.rest()[0] == self.chars@[self.pos as int]);
                assert(p(start.skip(k)[0]));
                assert(start.skip(k).drop_first() =~= start.skip(k + 1));
            }
            self.bump();
            proof {
                k = k + 1;
            }
        }
        proof {
            if self.pos < self.chars.len() {
                assert(self.rest()[0] == self.chars@[self.pos as int]);
            }
        }
    }

    fn white_space(&mut self) -> (r: TokenKind)
        requires
            old(self).wf(),
        ensures
            final(self).wf(),
            final(self).start_len() == old(self).start_len(),
            final(self).rest() == old(self).rest().skip(
                leading_count(old(self).rest(), |c: char| spec_is_whitespace(c)) as int,
            ),
            r == TokenKind::Whitespace,
    {
        self.eat_while(is_whitespace, Ghost(|c: char| spec_is_whitespace(c)));
        TokenKind::Whitespace
    }

    /// Whether `c` can start an identifier.
    pub fn is_ident_start(c: char) -> (r: bool)
        ensures
            r == spec_is_ident_start(c),
    {
        ('a' <= c && c <= 'z') || ('A' <= c && c <= 'Z') || c == '_'
    }

    /// Whether `c` can continue an identifier.
    pub fn is_ident_continue(c: char) -> (r: bool)
        ensures
            r == spec_is_ident_continue(c),
    {
        ('a' <= c && c <= 'z') || ('A' <= c && c <= 'Z') || ('0' <= c && c <= '9') || c == '_'
    }

    fn ident(&mut self) -> (r: TokenKind)
        requires
            old(self).wf(),
        ensures
            final(self).wf(),
            final(self).start_len() == old(self).start_len(),
            final(self).rest() == old(self).rest().skip(
                leading_count(old(self).rest(), |c: char| spec_is_ident_continue(c)) as int,
            ),
            r == TokenKind::Ident,
    {
        self.eat_while(Self::is_ident_continue, Ghost(|c: char| spec_is_ident_continue(c)));
        TokenKind::Ident
    }

    /// Bytes consumed since the cursor was created (wrapping to `u32`).
    pub fn pos_within_token(&self) -> (r: u32)
        requires
            self.wf(),
        ensures
            r == (self.start_len() - utf8_len(self.rest())) as u32,
    {
        (self.len_remaining - self.rest_bytes) as u32
    }

    /// Splits off the next token. Its length counts the bytes consumed
    /// since the cursor was created.
    pub fn advance_token(&mut self) -> (t: Token)
        requires
            old(self).wf(),
        ensures
            final(self).wf(),
            final(self).start_len() == old(self).start_len(),
            old(self).rest().len() == 0 ==> t.kind == TokenKind::EOF && t.len == 0
                && final(self).rest() == old(self).rest(),
            old(self).rest().len() > 0 ==> {
                let (kind, n) = spec_first_token(old(self).rest());
                &&& t.kind == kind
                &&& n <= old(self).rest().len()
                &&& final(self).rest() == old(self).rest().skip(n as int)
                &&& t.len == (old(self).start_len() - utf8_len(final(self).rest())) as u32
            },
    {
        let ghost s = self.rest();
        let first_char = match self.bump() {
            Some(c) => c,
            None => {
                return Token { kind: TokenKind::EOF, len: 0 };
            },
        };
        let ghost rest1 = self.rest();
        let kind: TokenKind = if first_char == '/' {
            TokenKind::Slash
        } else if first_char == '[' {
            TokenKind::OpenSquareBrace
        } else if first_char == ']' {
            TokenKind::CloseSquareBrace
        } else if first_char == '{' {
            TokenKind::OpenCurlyBrace
        } else if first_char == '}' {
            TokenKind::CloseCurlyBrace
        } else if first_char == '|' {
            TokenKind::Pipe
        } else if is_whitespace(first_char) {
            self.white_space()
        } else if Self::is_ident_start(first_char) {
            self.ident()
        } else {
            TokenKind::Unknown
        };
        proof {
            let n = spec_first_token(s).1;
            lemma_leading_count_le(rest1, |c: char| spec_is_whitespace(c));
            lemma_leading_count_le(rest1, |c: char| spec_is_ident_continue(c));
            assert(rest1 == s.drop_first());
            assert(self.rest() =~= s.skip(n as int));
        }
        Token { kind, len: self.pos_within_token() }
    }
}

/// Kind and length of the first token of `s`, as a fresh cursor reads it.
pub fn first_token_of(s: &str) -> (t: Token)
    ensures
        t.kind == first_token_kind(s@),
        t.len == first_token_len(s@),
{
    let mut cursor = Cursor::new(s);
    let t = cursor.advance_token();
    proof {
        if s@.len() > 0 {
            let n = spec_first_token(s@).1;
            lemma_utf8_len_split(s@, n as int);
        }
    }
    t
}

/// The identifier at the start of `s` is made of ASCII characters, and
/// its length in bytes is its length in characters.
pub proof fn lemma_ident_token_ascii(s: Seq<char>)
    requires
        first_token_kind(s) == TokenKind::Ident,
    ensures
        first_token_bytes(s) == spec_first_token(s).1,
        spec_first_token(s).1 <= s.len(),
        forall|i: int| 0 <= i < spec_first_token(s).1 ==> (s[i] as u32) < 0x80,
{
    let rest = s.drop_first();
    let n = spec_first_token(s).1;
    lemma_leading_count_le(rest, |x: char| spec_is_ident_continue(x));
    assert forall|i: int| 0 <= i < n implies (s[i] as u32) < 0x80 by {
        if i > 0 {
            assert(s[i] == rest[i - 1]);
            assert(spec_is_ident_continue(rest[i - 1]));
        }
    }
    let t = s.take(n as int);
    assert forall|i: int| 0 <= i < t.len() implies (t[i] as u32) < 0x80 by {
        assert(t[i] == s[i]);
    }
    lemma_utf8_len_ascii(t);
}

/// Counting stops at the first character that fails `p`.
proof fn lemma_leading_count_stops(s: Seq<char>, p: spec_fn(char) -> bool)
    ensures
        leading_count(s, p) < s.len() ==> !p(s[leading_count(s, p) as int]),
    decreases s.len(),
{
    if s.len() > 0 && p(s[0]) {
        lemma_leading_count_stops(s.drop_first(), p);
        lemma_leading_count_le(s.drop_first(), p);
        let k = leading_count(s.drop_first(), p);
        if k < s.drop_first().len() {
            assert(s[k as int + 1] == s.drop_first()[k as int]);
        }
    }
}

/// A text that starts with an ASCII letter or `_` starts with an
/// identifier, which runs over the following ASCII letters, digits and
/// `_` and ends at the first other character (such as `-` or `/`); its
/// length in bytes is its length in characters.
pub proof fn law_identifier_extent(s: Seq<char>)
    requires
        s.len() > 0,
        ('a' <= s[0] && s[0] <= 'z') || ('A' <= s[0] && s[0] <= 'Z') || s[0] == '_',
    ensures
        first_token_kind(s) == TokenKind::Ident,
        ({
            let n = spec_first_token(s).1 as int;
            &&& 1 <= n <= s.len()
            &&& first_token_bytes(s) == n
            &&& forall|i: int|
                1 <= i < n ==> ('a' <= #[trigger] s[i] && s[i] <= 'z') || ('A' <= s[i] && s[i]
                    <= 'Z') || ('0' <= s[i] && s[i] <= '9') || s[i] == '_'
            &&& n < s.len() ==> !(('a' <= s[n] && s[n] <= 'z') || ('A' <= s[n] && s[n] <= 'Z')
                || ('0' <= s[n] && s[n] <= '9') || s[n] == '_')
        }),
{
    let rest = s.drop_first();
    let p = |x: char| spec_is_ident_continue(x);
    lemma_leading_count_le(rest, p);
    lemma_leading_count_stops(rest, p);
    lemma_ident_token_ascii(s);
    let n = spec_first_token(s).1 as int;
    assert forall|i: int| 1 <= i < n implies ('a' <= #[trigger] s[i] && s[i] <= 'z') || ('A'
        <= s[i] && s[i] <= 'Z') || ('0' <= s[i] && s[i] <= '9') || s[i] == '_' by {
        assert(s[i] == rest[i - 1]);
        assert(p(rest[i - 1]));
    }
    if n < s.len() {
        assert(s[n] == rest[n - 1]);
        assert(!p(rest[n - 1]));
    }
}

/// A segment of a route pattern.
pub enum SegmentKind {
    Str(String),
    Enum(Vec<String>),
    Var,
}

/// A value matched against a route segment.
pub enum SegmentVal {
    Str,
    Enum(String),
    Var(String),
}

/// Index of a node in a `TopicRouter`.
pub struct NodeId(pub usize);

/// A node of the route tree.
pub struct Node {
    pub value: String,
    pub parent: Option<NodeId>,
    pub children: Vec<NodeId>,
}

/// Parser of route patterns.
pub struct Parser<'a> {
    pub cursor: Cursor<'a>,
    pub last_token: Token,
}

impl<'a> Parser<'a> {
    pub fn new(route: &'a str) -> (p: Parser<'a>)
        ensures
            p.cursor.wf(),
            p.cursor.rest() == route@,
            p.last_token.kind == TokenKind::EOF,
            p.last_token.len == 0,
    {
        Parser { cursor: Cursor::new(route), last_token: Token { kind: TokenKind::EOF, len: 0 } }
    }

    /// Reads the first segment of `route`: `None` at the end of input,
    /// the leading identifier otherwise. Routes that start with any other
    /// token are not supported yet.
    pub fn advance_parser(&mut self, route: &str) -> (r: Option<SegmentKind>)
        requires
            first_token_kind(route@) == TokenKind::Ident || first_token_kind(route@)
                == TokenKind::EOF,
        ensures
            *final(self) == *old(self),
            first_token_kind(route@) == TokenKind::EOF ==> r is None,
            first_token_kind(route@) == TokenKind::Ident ==> (r matches Some(SegmentKind::Str(
                seg,
            )) && seg@ == route@.take(first_token_len(route@) as int)),
    {
        let token = first_token_of(route);
        match token.kind {
            TokenKind::Ident => {
                proof {
                    lemma_ident_token_ascii(route@);
                }
                let seg = route.substring_char(0, token.len as usize).to_owned();
                Some(SegmentKind::Str(seg))
            },
            _ => None,
        }
    }

    pub fn parse_ident() {
    }

    pub fn parse_enum() {
    }

    pub fn parse_var() {
    }
}

/// Index of the character of `s` that starts at byte `l`, if `l` is a
/// character boundary of its UTF-8 encoding.
pub open spec fn char_index_at_byte(s: Seq<char>, l: int) -> Option<nat>
    decreases s.len(),
{
    if l == 0 {
        Some(0)
    } else if l < 0 || s.len() == 0 {
        None
    } else {
        let w = encode_scalar(s[0] as u32).len();
        if l < w {
            None
        } else {
            match char_index_at_byte(s.drop_first(), l - w) {
                Some(k) => Some(k + 1),
                None => None,
            }
        }
    }
}

/// `parse_route` on `s` reaches the end of input within `fuel` rescans,
/// starting from a token of kind `kind` and length `len`.
pub open spec fn route_scan_ends_within(s: Seq<char>, kind: TokenKind, len: u32, fuel: nat) -> bool
    decreases fuel,
{
    if kind == TokenKind::EOF {
        true
    } else if fuel == 0 {
        false
    } else {
        match char_index_at_byte(s, len as int) {
            Some(k) => route_scan_ends_within(
                s,
                first_token_kind(s.skip(k as int)),
                first_token_len(s.skip(k as int)),
                (fuel - 1) as nat,
            ),
            None => false,
        }
    }
}

/// `parse_route` on `s` ends: the rescans reach the end of input and each
/// restarts at a character boundary.
pub open spec fn route_scan_ends(s: Seq<char>) -> bool {
    exists|fuel: nat| route_scan_ends_within(s, first_token_kind(s), first_token_len(s), fuel)
}

/// Index of the character of `chars` that starts at byte `l`.
pub fn char_index_at_byte_exec(chars: &Vec<char>, l: usize) -> (r: Option<usize>)
    ensures
        match char_index_at_byte(chars@, l as int) {
            Some(k) => r == Some(k as usize),
            None => r is None,
        },
{
    let mut i: usize = 0;
    let mut off: usize = 0;
    proof {
        assert(chars@.skip(0) =~= chars@);
    }
    while off < l && i < chars.len()
        invariant
            i <= chars@.len(),
            off <= l,
            char_index_at_byte(chars@, l as int) == match char_index_at_byte(
                chars@.skip(i as int),
                l - off,
            ) {
                Some(k) => Some((k + i) as nat),
                None => None::<nat>,
            },
        decreases chars@.len() - i,
    {
        let w = char_utf8_len(chars[i]);
        let ghost t = chars@.skip(i as int);
        proof {
            assert(t[0] == chars@[i as int]);
            assert(t.drop_first() =~= chars@.skip(i + 1));
        }
        if l - off < w {
            return None;
        }
        off = off + w;
        i = i + 1;
    }
    if off == l {
        Some(i)
    } else {
        None
    }
}

/// Tree of topic routes.
pub struct TopicRouter {
    pub nodes: Vec<Node>,
    pub root: Option<NodeId>,
}

impl TopicRouter {
    pub fn new() -> (r: Self)
        ensures
            r.nodes@.len() == 0,
            r.root is None,
    {
        Self { nodes: Vec::new(), root: None }
    }

    /// Scans `route` token by token, each time from the byte offset that
    /// the previous token's length names. The router is left unchanged.
    pub fn parse_route(&mut self, route: &str)
        requires
            route_scan_ends(route@),
        ensures
            *final(self) == *old(self),
    {
        let chars = chars_of(route);
        let n = chars.len();
        let mut last_token = first_token_of(route);
        let ghost mut fuel: nat = choose|fuel: nat|
            route_scan_ends_within(route@, first_token_kind(route@), first_token_len(route@), fuel);
        while last_token.kind != TokenKind::EOF
            invariant
                chars@ == route@,
                n == chars@.len(),
                route_scan_ends_within(route@, last_token.kind, last_token.len, fuel),
            decreases fuel,
        {
            let k = match char_index_at_byte_exec(&chars, last_token.len as usize) {
                Some(k) => k,
                None => {
                    proof {
                        assert(false);
                    }
                    return;
                },
            };
            proof {
                lemma_char_index_in_range(route@, last_token.len as int);
            }
            let suffix = route.substring_char(k, n);
            proof {
                assert(suffix@ =~= route@.skip(k as int));
                fuel = (fuel - 1) as nat;
            }
            last_token = first_token_of(suffix);
        }
    }

    pub fn add_route(&mut self, route: &str)
        ensures
            *final(self) == *old(self),
    {
    }
}

/// A character index found for a byte offset lies within the sequence.
pub proof fn lemma_char_index_in_range(s: Seq<char>, l: int)
    ensures
        char_index_at_byte(s, l) matches Some(k) ==> k <= s.len(),
    decreases s.len(),
{
    if l != 0 && l >= 0 && s.len() > 0 {
        let w = encode_scalar(s[0] as u32).len();
        if l >= w {
            lemma_char_index_in_range(s.drop_first(), l - w);
        }
    }
}

} // verus!
