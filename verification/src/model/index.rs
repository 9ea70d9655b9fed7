//! Index attributes of a model: their argument syntax and index names.
//!
//! The arguments of `#[Index(...)]` are a comma separated list of
//! `name = "..."`, `fields = ["...", ...]` and `unique = true|false`.
use vstd::prelude::*;
use crate::dialect::{append_joined, join};
use crate::schema::{duplicate_strings, IndexView};
use crate::text::{is_white_space, push_char, white_space};

verus! {

/// Attribute for defining indexes at the table level, such as
/// `#[Index(name = "idx_email", fields = ["email"], unique = true)]`.
#[derive(Debug, Clone, PartialEq)]
pub struct IndexAttribute {
    pub name: String,
    pub fields: Vec<String>,
    pub unique: bool,
}

impl View for IndexAttribute {
    type V = IndexView;

    open spec fn view(&self) -> IndexView {
        IndexView { name: self.name@, fields: self.fields.deep_view(), unique: self.unique }
    }
}

/// A token of the attribute syntax.
#[derive(Debug, Clone, PartialEq)]
pub enum AttrToken {
    Ident(String),
    Eq,
    Comma,
    LBracket,
    RBracket,
    Str(String),
    Other,
}

/// The view of an [`AttrToken`].
pub enum AttrTokenView {
    Ident(Seq<char>),
    Eq,
    Comma,
    LBracket,
    RBracket,
    Str(Seq<char>),
    Other,
}

impl View for AttrToken {
    type V = AttrTokenView;

    open spec fn view(&self) -> AttrTokenView {
        match self {
            AttrToken::Ident(s) => AttrTokenView::Ident(s@),
            AttrToken::Eq => AttrTokenView::Eq,
            AttrToken::Comma => AttrTokenView::Comma,
            AttrToken::LBracket => AttrTokenView::LBracket,
            AttrToken::RBracket => AttrTokenView::RBracket,
            AttrToken::Str(s) => AttrTokenView::Str(s@),
            AttrToken::Other => AttrTokenView::Other,
        }
    }
}

impl DeepView for AttrToken {
    type V = AttrTokenView;

    open spec fn deep_view(&self) -> AttrTokenView {
        self@
    }
}

/// Where the tokenizer stands. Inside a string literal `acc` holds the
/// characters read so far.
pub enum LexMode {
    /// Between tokens.
    Between,
    /// Inside an identifier.
    InIdent(Seq<char>),
    /// Inside a string literal.
    InStr(Seq<char>),
    /// Right after a backslash in a string literal.
    InEscape(Seq<char>),
    /// Inside `\x..`: how many hex digits were read (none or one) and their value.
    InHex(Seq<char>, nat, nat),
    /// After `\u`, before its `{`.
    InUnicodeOpen(Seq<char>),
    /// Inside `\u{..}`: how many hex digits were read and their value.
    InUnicode(Seq<char>, nat, nat),
    /// After a backslash that ends a line: white space is skipped.
    InContinue(Seq<char>),
    /// After a carriage return in a string literal.
    InCarriage(Seq<char>),
    /// After `r` and this many `#`, before the opening quote of a raw string.
    InRawOpen(nat),
    /// Inside a raw string literal closed by a quote and this many `#`.
    InRaw(Seq<char>, nat),
    /// After a quote inside a raw string literal with this many `#`, of which
    /// the last number have been read.
    InRawClose(Seq<char>, nat, nat),
    /// Right after the closing quote of a string literal, where a suffix may
    /// follow.
    AfterStr,
    /// Inside the suffix of a string literal, which is ignored.
    InSuffix,
}

/// Whether `c` may start an identifier.
pub open spec fn is_ident_start(c: char) -> bool {
    ('a' <= c && c <= 'z') || ('A' <= c && c <= 'Z') || c == '_'
}

/// Whether `c` may continue an identifier.
pub open spec fn is_ident_char(c: char) -> bool {
    is_ident_start(c) || ('0' <= c && c <= '9')
}

/// The character that `\c` stands for inside a string literal, for the
/// escapes of one character.
pub open spec fn escape_value(c: char) -> Option<char> {
    if c == 'n' {
        Some('\n')
    } else if c == 'r' {
        Some('\r')
    } else if c == 't' {
        Some('\t')
    } else if c == '0' {
        Some('\0')
    } else if c == '\\' {
        Some('\\')
    } else if c == '"' {
        Some('"')
    } else if c == '\'' {
        Some('\'')
    } else {
        None
    }
}

/// The value of a hexadecimal digit.
pub open spec fn hex_value(c: char) -> Option<nat> {
    if '0' <= c && c <= '9' {
        Some((c as nat - '0' as nat) as nat)
    } else if 'a' <= c && c <= 'f' {
        Some((c as nat - 'a' as nat + 10) as nat)
    } else if 'A' <= c && c <= 'F' {
        Some((c as nat - 'A' as nat + 10) as nat)
    } else {
        None
    }
}

/// Whether `v` is the code of a character: at most `0x10FFFF` and not a
/// surrogate.
pub open spec fn is_char_code(v: nat) -> bool {
    v <= 0x10FFFF && !(0xD800 <= v && v <= 0xDFFF)
}

/// `n` number signs.
pub open spec fn hashes(n: nat) -> Seq<char> {
    Seq::new(n, |i: int| '#')
}

/// The effect of a character read between tokens.
pub open spec fn between_step(c: char, toks: Seq<AttrTokenView>) -> (LexMode, Seq<AttrTokenView>) {
    if is_white_space(c) {
        (LexMode::Between, toks)
    } else if is_ident_start(c) {
        (LexMode::InIdent(seq![c]), toks)
    } else if c == '"' {
        (LexMode::InStr(Seq::empty()), toks)
    } else if c == '=' {
        (LexMode::Between, toks.push(AttrTokenView::Eq))
    } else if c == ',' {
        (LexMode::Between, toks.push(AttrTokenView::Comma))
    } else if c == '[' {
        (LexMode::Between, toks.push(AttrTokenView::LBracket))
    } else if c == ']' {
        (LexMode::Between, toks.push(AttrTokenView::RBracket))
    } else {
        (LexMode::Between, toks.push(AttrTokenView::Other))
    }
}

/// The effect of a character read inside a string literal.
pub open spec fn str_step(c: char, acc: Seq<char>, toks: Seq<AttrTokenView>) -> (
    LexMode,
    Seq<AttrTokenView>,
) {
    if c == '"' {
        (LexMode::AfterStr, toks.push(AttrTokenView::Str(acc)))
    } else if c == '\\' {
        (LexMode::InEscape(acc), toks)
    } else if c == '\r' {
        (LexMode::InCarriage(acc), toks)
    } else {
        (LexMode::InStr(acc.push(c)), toks)
    }
}

/// The effect of one character in a mode: the next mode and the tokens, or
/// `None` where the text breaks the literal syntax (an unknown escape, a bad
/// `\x` or `\u{..}` escape, a carriage return not followed by a line feed,
/// a malformed raw string opening).
pub open spec fn lex_step(c: char, mode: LexMode, toks: Seq<AttrTokenView>) -> Option<
    (LexMode, Seq<AttrTokenView>),
> {
    match mode {
        LexMode::Between => Some(between_step(c, toks)),
        LexMode::InIdent(acc) => if acc == seq!['r'] && c == '"' {
            Some((LexMode::InRaw(Seq::empty(), 0), toks))
        } else if acc == seq!['r'] && c == '#' {
            Some((LexMode::InRawOpen(1), toks))
        } else if is_ident_char(c) {
            Some((LexMode::InIdent(acc.push(c)), toks))
        } else {
            Some(between_step(c, toks.push(AttrTokenView::Ident(acc))))
        },
        LexMode::InStr(acc) => Some(str_step(c, acc, toks)),
        LexMode::InEscape(acc) => if c == 'x' {
            Some((LexMode::InHex(acc, 0, 0), toks))
        } else if c == 'u' {
            Some((LexMode::InUnicodeOpen(acc), toks))
        } else if c == '\n' || c == '\r' {
            Some((LexMode::InContinue(acc), toks))
        } else {
            match escape_value(c) {
                Some(v) => Some((LexMode::InStr(acc.push(v)), toks)),
                None => None,
            }
        },
        LexMode::InHex(acc, n, v) => match hex_value(c) {
            None => None,
            Some(h) => if n == 0 {
                Some((LexMode::InHex(acc, 1, h), toks))
            } else if v * 16 + h > 0x7F {
                None
            } else {
                Some((LexMode::InStr(acc.push((v * 16 + h) as char)), toks))
            },
        },
        LexMode::InUnicodeOpen(acc) => if c == '{' {
            Some((LexMode::InUnicode(acc, 0, 0), toks))
        } else {
            None
        },
        LexMode::InUnicode(acc, n, v) => if c == '}' {
            if n == 0 || !is_char_code(v) {
                None
            } else {
                Some((LexMode::InStr(acc.push(v as char)), toks))
            }
        } else if c == '_' {
            if n == 0 {
                None
            } else {
                Some((LexMode::InUnicode(acc, n, v), toks))
            }
        } else {
            match hex_value(c) {
                None => None,
                Some(h) => if n == 6 {
                    None
                } else {
                    Some((LexMode::InUnicode(acc, n + 1, v * 16 + h), toks))
                },
            }
        },
        LexMode::InContinue(acc) => if c == ' ' || c == '\t' || c == '\n' || c == '\r' {
            Some((LexMode::InContinue(acc), toks))
        } else {
            Some(str_step(c, acc, toks))
        },
        LexMode::InCarriage(acc) => if c == '\n' {
            Some((LexMode::InStr(acc.push('\n')), toks))
        } else {
            None
        },
        LexMode::InRawOpen(h) => if c == '#' {
            Some((LexMode::InRawOpen(h + 1), toks))
        } else if c == '"' {
            Some((LexMode::InRaw(Seq::empty(), h), toks))
        } else {
            None
        },
        LexMode::InRaw(acc, h) => if c == '"' {
            if h == 0 {
                Some((LexMode::AfterStr, toks.push(AttrTokenView::Str(acc))))
            } else {
                Some((LexMode::InRawClose(acc, h, 0), toks))
            }
        } else {
            Some((LexMode::InRaw(acc.push(c), h), toks))
        },
        LexMode::InRawClose(acc, h, seen) => if c == '#' {
            if seen + 1 == h {
                Some((LexMode::AfterStr, toks.push(AttrTokenView::Str(acc))))
            } else {
                Some((LexMode::InRawClose(acc, h, seen + 1), toks))
            }
        } else {
            let a2 = acc.push('"') + hashes(seen);
            if c == '"' {
                Some((LexMode::InRawClose(a2, h, 0), toks))
            } else {
                Some((LexMode::InRaw(a2.push(c), h), toks))
            }
        },
        LexMode::AfterStr => if is_ident_start(c) {
            Some((LexMode::InSuffix, toks))
        } else {
            Some(between_step(c, toks))
        },
        LexMode::InSuffix => if is_ident_char(c) {
            Some((LexMode::InSuffix, toks))
        } else {
            Some(between_step(c, toks))
        },
    }
}

/// The tokens of `s` from position `p` on, given the mode and the tokens
/// read so far; `None` for an unterminated or malformed string literal.
pub open spec fn tokenize(s: Seq<char>, p: int, mode: LexMode, toks: Seq<AttrTokenView>) -> Option<
    Seq<AttrTokenView>,
>
    decreases s.len() - p,
{
    if p >= s.len() || p < 0 {
        match mode {
            LexMode::Between => Some(toks),
            LexMode::InIdent(acc) => Some(toks.push(AttrTokenView::Ident(acc))),
            LexMode::AfterStr => Some(toks),
            LexMode::InSuffix => Some(toks),
            _ => None,
        }
    } else {
        match lex_step(s[p], mode, toks) {
            None => None,
            Some((m, t)) => tokenize(s, p + 1, m, t),
        }
    }
}

/// Where the parser stands: at the start of a `key = value` pair, or at the
/// next string inside `fields = [...]`.
pub enum ParseMode {
    KeyStart,
    ListItem,
}

/// What follows a complete value: the end of the input, or a comma and the
/// next pair.
pub open spec fn after_value(toks: Seq<AttrTokenView>, t: int, st: IndexView) -> Option<IndexView>
    decreases toks.len() - t, 0int,
{
    if t >= toks.len() {
        Some(st)
    } else if t >= 0 && toks[t] is Comma {
        parse_attr(toks, t + 1, st, ParseMode::KeyStart)
    } else {
        None
    }
}

/// The attribute described by the tokens from position `t` on, given what
/// was read so far; `None` when the tokens do not follow the syntax.
/// A later `name` or `unique` replaces an earlier one; each `fields` list
/// adds its names to the names read so far; values of other keys are not read.
pub open spec fn parse_attr(toks: Seq<AttrTokenView>, t: int, st: IndexView, mode: ParseMode) -> Option<
    IndexView,
>
    decreases toks.len() - t, 1int,
{
    if t < 0 {
        None
    } else {
        match mode {
            ParseMode::KeyStart => if t >= toks.len() {
                Some(st)
            } else if t + 1 < toks.len() && toks[t] is Ident && toks[t + 1] is Eq {
                let key = toks[t]->Ident_0;
                if key == "name"@ {
                    if t + 2 < toks.len() && toks[t + 2] is Str {
                        after_value(toks, t + 3, IndexView { name: toks[t + 2]->Str_0, ..st })
                    } else {
                        None
                    }
                } else if key == "fields"@ {
                    if t + 2 < toks.len() && toks[t + 2] is LBracket {
                        parse_attr(toks, t + 3, st, ParseMode::ListItem)
                    } else {
                        None
                    }
                } else if key == "unique"@ {
                    if t + 2 < toks.len() && toks[t + 2] is Ident && (toks[t + 2]->Ident_0
                        == "true"@ || toks[t + 2]->Ident_0 == "false"@) {
                        after_value(
                            toks,
                            t + 3,
                            IndexView { unique: toks[t + 2]->Ident_0 == "true"@, ..st },
                        )
                    } else {
                        None
                    }
                } else {
                    after_value(toks, t + 2, st)
                }
            } else {
                None
            },
            ParseMode::ListItem => if t < toks.len() && toks[t] is Str {
                let st2 = IndexView { fields: st.fields.push(toks[t]->Str_0), ..st };
                if t + 1 < toks.len() && toks[t + 1] is Comma {
                    parse_attr(toks, t + 2, st2, ParseMode::ListItem)
                } else if t + 1 < toks.len() && toks[t + 1] is RBracket {
                    after_value(toks, t + 2, st2)
                } else {
                    None
                }
            } else {
                None
            },
        }
    }
}

/// The attribute that the argument text `s` describes, if it follows the syntax.
pub open spec fn parse_index_attribute_spec(s: Seq<char>) -> Option<IndexView> {
    match tokenize(s, 0, LexMode::Between, Seq::empty()) {
        Some(toks) => parse_attr(
            toks,
            0,
            IndexView { name: Seq::empty(), fields: Seq::empty(), unique: false },
            ParseMode::KeyStart,
        ),
        None => None,
    }
}

fn ident_start(c: char) -> (r: bool)
    ensures
        r == is_ident_start(c),
{
    ('a' <= c && c <= 'z') || ('A' <= c && c <= 'Z') || c == '_'
}

fn ident_char(c: char) -> (r: bool)
    ensures
        r == is_ident_char(c),
{
    ident_start(c) || ('0' <= c && c <= '9')
}

fn escaped(c: char) -> (r: Option<char>)
    ensures
        r == escape_value(c),
{
    if c == 'n' {
        Some('\n')
    } else if c == 'r' {
        Some('\r')
    } else if c == 't' {
        Some('\t')
    } else if c == '0' {
        Some('\0')
    } else if c == '\\' {
        Some('\\')
    } else if c == '"' {
        Some('"')
    } else if c == '\'' {
        Some('\'')
    } else {
        None
    }
}

/// The mode of the tokenizer in executable form; the numbers it carries
/// stand in the fields of `LexState`.
enum Lex {
    Between,
    InIdent,
    InStr,
    InEscape,
    InHex,
    InUnicodeOpen,
    InUnicode,
    InContinue,
    InCarriage,
    InRawOpen,
    InRaw,
    InRawClose,
    AfterStr,
    InSuffix,
}

/// The whole state of the tokenizer: the mode, the text of the token being
/// read, the digits and value of a numeric escape, and the `#` counts of a
/// raw string literal.
struct LexState {
    mode: Lex,
    acc: String,
    digits: usize,
    value: u32,
    pounds: usize,
    seen: usize,
}

/// `16` to the power `n`.
spec fn pow16(n: nat) -> nat
    decreases n,
{
    if n == 0 {
        1
    } else {
        16 * pow16((n - 1) as nat)
    }
}

proof fn lemma_pow16_small(n: nat)
    requires
        n <= 5,
    ensures
        pow16(n) <= 0x100000,
{
    assert(pow16(0) == 1);
    assert(pow16(1) == 16);
    assert(pow16(2) == 0x100);
    assert(pow16(3) == 0x1000);
    assert(pow16(4) == 0x10000);
    assert(pow16(5) == 0x100000);
}

/// The mode of the specification that an executable state stands for.
spec fn state_mode(st: &LexState) -> LexMode {
    match st.mode {
        Lex::Between => LexMode::Between,
        Lex::InIdent => LexMode::InIdent(st.acc@),
        Lex::InStr => LexMode::InStr(st.acc@),
        Lex::InEscape => LexMode::InEscape(st.acc@),
        Lex::InHex => LexMode::InHex(st.acc@, st.digits as nat, st.value as nat),
        Lex::InUnicodeOpen => LexMode::InUnicodeOpen(st.acc@),
        Lex::InUnicode => LexMode::InUnicode(st.acc@, st.digits as nat, st.value as nat),
        Lex::InContinue => LexMode::InContinue(st.acc@),
        Lex::InCarriage => LexMode::InCarriage(st.acc@),
        Lex::InRawOpen => LexMode::InRawOpen(st.pounds as nat),
        Lex::InRaw => LexMode::InRaw(st.acc@, st.pounds as nat),
        Lex::InRawClose => LexMode::InRawClose(st.acc@, st.pounds as nat, st.seen as nat),
        Lex::AfterStr => LexMode::AfterStr,
        Lex::InSuffix => LexMode::InSuffix,
    }
}

/// The bounds that keep the arithmetic of the next step in range.
spec fn state_ok(st: &LexState) -> bool {
    &&& st.mode is InHex ==> st.digits <= 1 && st.value < 16
    &&& st.mode is InUnicode ==> st.digits <= 6 && st.value < pow16(st.digits as nat)
    &&& st.mode is InRawClose ==> st.seen < st.pounds
}

fn state(mode: Lex, acc: String) -> (r: LexState)
    ensures
        r.mode == mode,
        r.acc@ == acc@,
        r.digits == 0,
        r.value == 0,
        r.pounds == 0,
        r.seen == 0,
{
    LexState { mode, acc, digits: 0, value: 0, pounds: 0, seen: 0 }
}

/// `std::char::from_u32`, believed as its documentation states it: the
/// character with code `v` when `v` is a Unicode scalar value (at most
/// `0x10FFFF` and not a surrogate), `None` otherwise.
#[verifier::external_body]
fn char_from_u32(v: u32) -> (r: Option<char>)
    ensures
        r == (if is_char_code(v as nat) {
            Some((v as nat) as char)
        } else {
            None
        }),
{
    std::char::from_u32(v)
}

fn hex_digit(c: char) -> (r: Option<u32>)
    ensures
        match hex_value(c) {
            Some(x) => r == Some(x as u32) && x < 16,
            None => r is None,
        },
{
    if '0' <= c && c <= '9' {
        Some((c as u32) - ('0' as u32))
    } else if 'a' <= c && c <= 'f' {
        Some((c as u32) - ('a' as u32) + 10)
    } else if 'A' <= c && c <= 'F' {
        Some((c as u32) - ('A' as u32) + 10)
    } else {
        None
    }
}

fn push_between(c: char, toks: &mut Vec<AttrToken>) -> (r: LexState)
    ensures
        (state_mode(&r), final(toks).deep_view()) == between_step(c, old(toks).deep_view()),
        state_ok(&r),
        r.pounds == 0,
{
    let ghost t0 = toks.deep_view();
    if white_space(c) {
        state(Lex::Between, String::new())
    } else if ident_start(c) {
        let mut s = String::new();
        push_char(&mut s, c);
        assert(s@ =~= seq![c]);
        state(Lex::InIdent, s)
    } else if c == '"' {
        state(Lex::InStr, String::new())
    } else {
        let tok = if c == '=' {
            AttrToken::Eq
        } else if c == ',' {
            AttrToken::Comma
        } else if c == '[' {
            AttrToken::LBracket
        } else if c == ']' {
            AttrToken::RBracket
        } else {
            AttrToken::Other
        };
        toks.push(tok);
        assert(toks.deep_view() =~= t0.push(tok@));
        state(Lex::Between, String::new())
    }
}

fn push_str_char(c: char, acc: String, toks: &mut Vec<AttrToken>) -> (r: LexState)
    ensures
        (state_mode(&r), final(toks).deep_view()) == str_step(c, acc@, old(toks).deep_view()),
        state_ok(&r),
        r.pounds == 0,
{
    let ghost t0 = toks.deep_view();
    let ghost a0 = acc@;
    if c == '"' {
        toks.push(AttrToken::Str(acc));
        assert(toks.deep_view() =~= t0.push(AttrTokenView::Str(a0)));
        state(Lex::AfterStr, String::new())
    } else if c == '\\' {
        state(Lex::InEscape, acc)
    } else if c == '\r' {
        state(Lex::InCarriage, acc)
    } else {
        let mut a = acc;
        push_char(&mut a, c);
        state(Lex::InStr, a)
    }
}

/// What one step of the executable tokenizer owes: the state and tokens that
/// `lex_step` gives, or `None` where it gives none; `bound` caps the `#`
/// count of the new state.
spec fn stepped(
    c: char,
    before: LexMode,
    t0: Seq<AttrTokenView>,
    r: Option<LexState>,
    t1: Seq<AttrTokenView>,
    bound: nat,
) -> bool {
    match r {
        Some(st) => {
            &&& state_ok(&st)
            &&& st.pounds <= bound
            &&& lex_step(c, before, t0) == Some((state_mode(&st), t1))
        },
        None => lex_step(c, before, t0) is None,
    }
}

fn step_ident(c: char, acc: String, toks: &mut Vec<AttrToken>) -> (r: Option<LexState>)
    ensures
        stepped(c, LexMode::InIdent(acc@), old(toks).deep_view(), r, final(toks).deep_view(), 1),
{
    let ghost t0 = toks.deep_view();
    let ghost a0 = acc@;
    proof {
        reveal_strlit("r");
        assert("r"@ =~= seq!['r']);
    }
    let is_r = word_is(&acc, "r");
    if is_r && c == '"' {
        Some(state(Lex::InRaw, String::new()))
    } else if is_r && c == '#' {
        Some(LexState { mode: Lex::InRawOpen, acc: String::new(), digits: 0, value: 0, pounds: 1, seen: 0 })
    } else if ident_char(c) {
        let mut a = acc;
        push_char(&mut a, c);
        Some(state(Lex::InIdent, a))
    } else {
        toks.push(AttrToken::Ident(acc));
        assert(toks.deep_view() =~= t0.push(AttrTokenView::Ident(a0)));
        Some(push_between(c, toks))
    }
}

fn step_escape(c: char, acc: String) -> (r: Option<LexState>)
    ensures
        forall|t: Seq<AttrTokenView>| #[trigger] stepped(c, LexMode::InEscape(acc@), t, r, t, 0),
{
    if c == 'x' {
        Some(state(Lex::InHex, acc))
    } else if c == 'u' {
        Some(state(Lex::InUnicodeOpen, acc))
    } else if c == '\n' || c == '\r' {
        Some(state(Lex::InContinue, acc))
    } else {
        match escaped(c) {
            Some(v) => {
                let mut a = acc;
                push_char(&mut a, v);
                Some(state(Lex::InStr, a))
            },
            None => None,
        }
    }
}

fn step_hex(c: char, acc: String, digits: usize, value: u32) -> (r: Option<LexState>)
    requires
        digits <= 1,
        value < 16,
    ensures
        forall|t: Seq<AttrTokenView>|
            #[trigger] stepped(c, LexMode::InHex(acc@, digits as nat, value as nat), t, r, t, 0),
{
    match hex_digit(c) {
        None => None,
        Some(d) => {
            if digits == 0 {
                Some(LexState { mode: Lex::InHex, acc, digits: 1, value: d, pounds: 0, seen: 0 })
            } else {
                let x: u32 = value * 16 + d;
                if x > 0x7F {
                    None
                } else {
                    let mut a = acc;
                    let ch = (x as u8) as char;
                    assert(ch == (value as nat * 16 + d as nat) as char);
                    push_char(&mut a, ch);
                    Some(state(Lex::InStr, a))
                }
            }
        },
    }
}

fn step_unicode(c: char, acc: String, digits: usize, value: u32) -> (r: Option<LexState>)
    requires
        digits <= 6,
        value < pow16(digits as nat),
    ensures
        forall|t: Seq<AttrTokenView>|
            #[trigger] stepped(
                c,
                LexMode::InUnicode(acc@, digits as nat, value as nat),
                t,
                r,
                t,
                0,
            ),
{
    if c == '}' {
        if digits == 0 {
            None
        } else {
            match char_from_u32(value) {
                None => None,
                Some(ch) => {
                    let mut a = acc;
                    push_char(&mut a, ch);
                    Some(state(Lex::InStr, a))
                },
            }
        }
    } else if c == '_' {
        if digits == 0 {
            None
        } else {
            Some(LexState { mode: Lex::InUnicode, acc, digits, value, pounds: 0, seen: 0 })
        }
    } else {
        match hex_digit(c) {
            None => None,
            Some(d) => {
                if digits == 6 {
                    None
                } else {
                    proof {
                        lemma_pow16_small(digits as nat);
                        assert(pow16((digits + 1) as nat) == 16 * pow16(digits as nat));
                    }
                    let v2: u32 = value * 16 + d;
                    Some(LexState { mode: Lex::InUnicode, acc, digits: digits + 1, value: v2, pounds: 0, seen: 0 })
                }
            },
        }
    }
}

fn step_raw_close(c: char, acc: String, pounds: usize, seen: usize, toks: &mut Vec<AttrToken>) -> (r: Option<LexState>)
    requires
        seen < pounds,
    ensures
        stepped(
            c,
            LexMode::InRawClose(acc@, pounds as nat, seen as nat),
            old(toks).deep_view(),
            r,
            final(toks).deep_view(),
            pounds as nat,
        ),
{
    let ghost t0 = toks.deep_view();
    let ghost a0 = acc@;
    if c == '#' {
        if seen + 1 == pounds {
            toks.push(AttrToken::Str(acc));
            assert(toks.deep_view() =~= t0.push(AttrTokenView::Str(a0)));
            Some(state(Lex::AfterStr, String::new()))
        } else {
            Some(LexState { mode: Lex::InRawClose, acc, digits: 0, value: 0, pounds, seen: seen + 1 })
        }
    } else {
        let mut a = acc;
        push_char(&mut a, '"');
        let mut i: usize = 0;
        while i < seen
            invariant
                i <= seen,
                a@ == a0.push('"') + hashes(i as nat),
            decreases seen - i,
        {
            push_char(&mut a, '#');
            i = i + 1;
            assert(hashes(i as nat) =~= hashes((i - 1) as nat).push('#'));
            assert(a0.push('"') + hashes(i as nat) =~= (a0.push('"') + hashes((i - 1) as nat)).push('#'));
        }
        if c == '"' {
            Some(LexState { mode: Lex::InRawClose, acc: a, digits: 0, value: 0, pounds, seen: 0 })
        } else {
            push_char(&mut a, c);
            Some(LexState { mode: Lex::InRaw, acc: a, digits: 0, value: 0, pounds, seen: 0 })
        }
    }
}

fn lex_char(c: char, st: LexState, toks: &mut Vec<AttrToken>) -> (r: Option<LexState>)
    requires
        state_ok(&st),
        st.pounds < usize::MAX,
    ensures
        stepped(
            c,
            state_mode(&st),
            old(toks).deep_view(),
            r,
            final(toks).deep_view(),
            (st.pounds + 1) as nat,
        ),
{
    let ghost t0 = toks.deep_view();
    let LexState { mode, acc, digits, value, pounds, seen } = st;
    let ghost a0 = acc@;
    match mode {
        Lex::Between => Some(push_between(c, toks)),
        Lex::InIdent => step_ident(c, acc, toks),
        Lex::InStr => Some(push_str_char(c, acc, toks)),
        Lex::InEscape => {
            let r = step_escape(c, acc);
            assert(stepped(c, LexMode::InEscape(a0), t0, r, t0, 0));
            r
        },
        Lex::InHex => {
            let r = step_hex(c, acc, digits, value);
            assert(stepped(c, LexMode::InHex(a0, digits as nat, value as nat), t0, r, t0, 0));
            r
        },
        Lex::InUnicodeOpen => {
            if c == '{' {
                assert(pow16(0) == 1);
                Some(state(Lex::InUnicode, acc))
            } else {
                None
            }
        },
        Lex::InUnicode => {
            let r = step_unicode(c, acc, digits, value);
            assert(stepped(c, LexMode::InUnicode(a0, digits as nat, value as nat), t0, r, t0, 0));
            r
        },
        Lex::InContinue => {
            if c == ' ' || c == '\t' || c == '\n' || c == '\r' {
                Some(state(Lex::InContinue, acc))
            } else {
                Some(push_str_char(c, acc, toks))
            }
        },
        Lex::InCarriage => {
            if c == '\n' {
                let mut a = acc;
                push_char(&mut a, '\n');
                Some(state(Lex::InStr, a))
            } else {
                None
            }
        },
        Lex::InRawOpen => {
            if c == '#' {
                Some(LexState { mode: Lex::InRawOpen, acc, digits: 0, value: 0, pounds: pounds + 1, seen: 0 })
            } else if c == '"' {
                Some(LexState { mode: Lex::InRaw, acc: String::new(), digits: 0, value: 0, pounds, seen: 0 })
            } else {
                None
            }
        },
        Lex::InRaw => {
            if c == '"' {
                if pounds == 0 {
                    toks.push(AttrToken::Str(acc));
                    assert(toks.deep_view() =~= t0.push(AttrTokenView::Str(a0)));
                    Some(state(Lex::AfterStr, String::new()))
                } else {
                    Some(LexState { mode: Lex::InRawClose, acc, digits: 0, value: 0, pounds, seen: 0 })
                }
            } else {
                let mut a = acc;
                push_char(&mut a, c);
                Some(LexState { mode: Lex::InRaw, acc: a, digits: 0, value: 0, pounds, seen: 0 })
            }
        },
        Lex::InRawClose => step_raw_close(c, acc, pounds, seen, toks),
        Lex::AfterStr => {
            if ident_start(c) {
                Some(state(Lex::InSuffix, acc))
            } else {
                Some(push_between(c, toks))
            }
        },
        Lex::InSuffix => {
            if ident_char(c) {
                Some(state(Lex::InSuffix, acc))
            } else {
                Some(push_between(c, toks))
            }
        },
    }
}

/// Split attribute text into tokens: identifiers, `=`, `,`, `[`, `]`,
/// string literals (plain, with their escapes and line continuations, and
/// raw; a suffix right after the closing quote is dropped), and one token for any other character; `None` where a string
/// literal is unterminated or malformed.
pub fn tokenize_attribute(s: &str) -> (r: Option<Vec<AttrToken>>)
    ensures
        match r {
            Some(v) => tokenize(s@, 0, LexMode::Between, Seq::empty()) == Some(v.deep_view()),
            None => tokenize(s@, 0, LexMode::Between, Seq::empty()) is None,
        },
{
    let n = s.unicode_len();
    let mut toks: Vec<AttrToken> = Vec::new();
    let mut st = state(Lex::Between, String::new());
    let mut p: usize = 0;
    proof {
        assert(toks.deep_view() =~= Seq::<AttrTokenView>::empty());
    }
    while p < n
        invariant
            p <= n,
            n == s@.len(),
            state_ok(&st),
            st.pounds <= p,
            tokenize(s@, p as int, state_mode(&st), toks.deep_view()) == tokenize(
                s@,
                0,
                LexMode::Between,
                Seq::empty(),
            ),
        decreases n - p,
    {
        let c = s.get_char(p);
        match lex_char(c, st, &mut toks) {
            Some(next) => {
                st = next;
            },
            None => {
                return None;
            },
        }
        p = p + 1;
    }
    let LexState { mode, acc, .. } = st;
    match mode {
        Lex::Between => Some(toks),
        Lex::AfterStr => Some(toks),
        Lex::InSuffix => Some(toks),
        Lex::InIdent => {
            let ghost t0 = toks.deep_view();
            let ghost a0 = acc@;
            toks.push(AttrToken::Ident(acc));
            assert(toks.deep_view() =~= t0.push(AttrTokenView::Ident(a0)));
            Some(toks)
        },
        _ => None,
    }
}

fn word_is(s: &String, w: &str) -> (r: bool)
    ensures
        r == (s@ == w@),
{
    let ws = String::from_str(w);
    *s == ws
}

impl IndexAttribute {
    /// Parse the argument text of an `#[Index(...)]` attribute; `None` when
    /// the text does not follow the syntax.
    pub fn parse(input: &str) -> (r: Option<IndexAttribute>)
        ensures
            match r {
                Some(a) => parse_index_attribute_spec(input@) == Some(a@),
                None => parse_index_attribute_spec(input@) is None,
            },
    {
        let toks = match tokenize_attribute(input) {
            Some(t) => t,
            None => {
                return None;
            },
        };
        let n = toks.len();
        let mut name = String::new();
        let mut fields: Vec<String> = Vec::new();
        let mut unique = false;
        let mut in_list = false;
        let mut t: usize = 0;
        let ghost init = IndexView { name: Seq::empty(), fields: Seq::empty(), unique: false };
        let ghost tv = toks.deep_view();
        assert(fields.deep_view() =~= Seq::<Seq<char>>::empty());
        assert(name@ =~= Seq::<char>::empty());
        loop
            invariant
                t <= n,
                n == toks.len(),
                tv == toks.deep_view(),
                init == (IndexView { name: Seq::empty(), fields: Seq::empty(), unique: false }),
                tokenize(input@, 0, LexMode::Between, Seq::empty()) == Some(tv),
                parse_attr(
                    tv,
                    t as int,
                    IndexView { name: name@, fields: fields.deep_view(), unique },
                    if in_list {
                        ParseMode::ListItem
                    } else {
                        ParseMode::KeyStart
                    },
                ) == parse_attr(tv, 0, init, ParseMode::KeyStart),
            decreases n - t,
        {
            let ghost st = IndexView { name: name@, fields: fields.deep_view(), unique };
            if !in_list {
                if t >= n {
                    assert(parse_attr(tv, t as int, st, ParseMode::KeyStart) == Some(st));
                    return Some(IndexAttribute { name, fields, unique });
                }
                if t + 1 >= n {
                    assert(parse_attr(tv, t as int, st, ParseMode::KeyStart) is None);
                    return None;
                }
                let key = match &toks[t] {
                    AttrToken::Ident(k) => k,
                    _ => {
                        return None;
                    },
                };
                match &toks[t + 1] {
                    AttrToken::Eq => {},
                    _ => {
                        return None;
                    },
                }
                let next: usize;
                if word_is(key, "name") {
                    if t + 2 >= n {
                        return None;
                    }
                    match &toks[t + 2] {
                        AttrToken::Str(v) => {
                            name = v.clone();
                        },
                        _ => {
                            return None;
                        },
                    }
                    next = t + 3;
                } else if word_is(key, "fields") {
                    if t + 2 >= n {
                        return None;
                    }
                    match &toks[t + 2] {
                        AttrToken::LBracket => {},
                        _ => {
                            return None;
                        },
                    }
                    in_list = true;
                    t = t + 3;
                    continue;
                } else if word_is(key, "unique") {
                    if t + 2 >= n {
                        return None;
                    }
                    match &toks[t + 2] {
                        AttrToken::Ident(v) => {
                            if word_is(v, "true") {
                                unique = true;
                            } else if word_is(v, "false") {
                                unique = false;
                            } else {
                                return None;
                            }
                        },
                        _ => {
                            return None;
                        },
                    }
                    next = t + 3;
                } else {
                    next = t + 2;
                }
                let ghost st2 = IndexView { name: name@, fields: fields.deep_view(), unique };
                assert(parse_attr(tv, t as int, st, ParseMode::KeyStart) == after_value(
                    tv,
                    next as int,
                    st2,
                ));
                if next >= n {
                    return Some(IndexAttribute { name, fields, unique });
                }
                match &toks[next] {
                    AttrToken::Comma => {},
                    _ => {
                        return None;
                    },
                }
                t = next + 1;
            } else {
                if t >= n {
                    return None;
                }
                match &toks[t] {
                    AttrToken::Str(v) => {
                        let ghost f0 = fields.deep_view();
                        fields.push(v.clone());
                        assert(fields.deep_view() =~= f0.push(v@));
                    },
                    _ => {
                        return None;
                    },
                }
                if t + 1 >= n {
                    return None;
                }
                match &toks[t + 1] {
                    AttrToken::Comma => {
                        t = t + 2;
                    },
                    AttrToken::RBracket => {
                        in_list = false;
                        let ghost st2 = IndexView { name: name@, fields: fields.deep_view(), unique };
                        assert(parse_attr(tv, t as int, st, ParseMode::ListItem) == after_value(
                            tv,
                            t + 2,
                            st2,
                        ));
                        if t + 2 >= n {
                            return Some(IndexAttribute { name, fields, unique });
                        }
                        match &toks[t + 2] {
                            AttrToken::Comma => {},
                            _ => {
                                return None;
                            },
                        }
                        t = t + 3;
                    },
                    _ => {
                        return None;
                    },
                }
            }
        }
    }
}

/// A parsed index definition, with the shape of an index of the schema.
#[derive(Debug, Clone, PartialEq, Eq)]
pub struct IndexDefinition {
    pub name: String,
    pub fields: Vec<String>,
    pub unique: bool,
}

impl View for IndexDefinition {
    type V = IndexView;

    open spec fn view(&self) -> IndexView {
        IndexView { name: self.name@, fields: self.fields.deep_view(), unique: self.unique }
    }
}

impl DeepView for IndexDefinition {
    type V = IndexView;

    open spec fn deep_view(&self) -> IndexView {
        self@
    }
}

/// The name generated for an index over `fields` of `table`:
/// `idx_{table}_{field1}_{field2}...`, or `idx_{table}` without fields.
pub open spec fn generated_index_name(table: Seq<char>, fields: Seq<Seq<char>>) -> Seq<char> {
    if fields.len() == 0 {
        "idx_"@ + table
    } else {
        "idx_"@ + table + "_"@ + join(fields, "_"@)
    }
}

impl IndexDefinition {
    /// The definition of the index from an attribute, field by field.
    pub fn from(attr: IndexAttribute) -> (r: IndexDefinition)
        ensures
            r@ == attr@,
    {
        IndexDefinition { name: attr.name, fields: attr.fields, unique: attr.unique }
    }

    /// Create a new index definition.
    pub fn new(name: String, fields: Vec<String>, unique: bool) -> (r: IndexDefinition)
        ensures
            r.name == name,
            r.fields == fields,
            r.unique == unique,
    {
        IndexDefinition { name, fields, unique }
    }

    /// Generate an index name from table name and field names:
    /// `idx_{table}_{field1}_{field2}...`.
    pub fn generate_name(table_name: &str, fields: &[String]) -> (r: String)
        ensures
            r@ == generated_index_name(table_name@, fields.deep_view()),
    {
        let mut r = String::from_str("idx_");
        r.append(table_name);
        if fields.len() == 0 {
            return r;
        }
        r.append("_");
        append_joined(&mut r, fields, "_");
        r
    }

    /// A copy of the definition with the same view.
    pub fn duplicate(&self) -> (r: IndexDefinition)
        ensures
            r@ == self@,
    {
        IndexDefinition {
            name: self.name.clone(),
            fields: duplicate_strings(&self.fields),
            unique: self.unique,
        }
    }
}

} // verus!
