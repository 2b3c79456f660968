//! Readers for quoted and backslash-escaped string text.

use crate::cursor::Cursor;
use vstd::prelude::*;

verus! {

pub const NUL: u8 = 0x00;
pub const BELL: u8 = 0x07;
pub const BACKSPACE: u8 = 0x08;
pub const TAB: u8 = 0x09;
pub const LINE_FEED: u8 = 0x0A;
pub const VERTICAL_TAB: u8 = 0x0B;
pub const FORM_FEED: u8 = 0x0C;
pub const CARRIAGE_RETURN: u8 = 0x0D;
pub const ESCAPE: u8 = 0x1B;
pub const DOUBLE_QUOTE: u8 = 0x22;
pub const SINGLE_QUOTE: u8 = 0x27;
pub const SLASH: u8 = 0x2F;
pub const DIGIT_0: u8 = 0x30;
pub const DIGIT_9: u8 = 0x39;
pub const UPPER_A: u8 = 0x41;
pub const UPPER_F: u8 = 0x46;
pub const UPPER_N: u8 = 0x4E;
pub const BACKSLASH: u8 = 0x5C;
pub const BACKTICK: u8 = 0x60;
pub const LOWER_A: u8 = 0x61;
pub const LOWER_B: u8 = 0x62;
pub const LOWER_E: u8 = 0x65;
pub const LOWER_F: u8 = 0x66;
pub const LOWER_N: u8 = 0x6E;
pub const LOWER_R: u8 = 0x72;
pub const LOWER_T: u8 = 0x74;
pub const LOWER_V: u8 = 0x76;
pub const LOWER_X: u8 = 0x78;

/// The class of a read failure, after the classes of I/O errors.
#[derive(Clone, Copy, Debug, PartialEq, Eq, Structural)]
pub enum ReadErrorKind {
    InvalidData,
    UnexpectedEof,
}

/// Why a string could not be read.
#[derive(Clone, Copy, Debug, PartialEq, Eq, Structural)]
pub enum ReadError {
    /// The input does not start with the given byte.
    ExpectedByte(u8),
    /// The input ends right after the backslash of an escape in a quoted text.
    UnterminatedEscape,
    /// The input ends before the closing quote, which is the given byte.
    UnterminatedQuote(u8),
    /// The input ends inside an escape sequence of an unquoted text.
    UnexpectedEof,
}

impl ReadError {
    /// The class this error falls under.
    pub open spec fn spec_kind(self) -> ReadErrorKind {
        match self {
            ReadError::UnexpectedEof => ReadErrorKind::UnexpectedEof,
            _ => ReadErrorKind::InvalidData,
        }
    }

    /// The class this error falls under.
    pub fn kind(&self) -> (k: ReadErrorKind)
        ensures
            k == self.spec_kind(),
    {
        match self {
            ReadError::UnexpectedEof => ReadErrorKind::UnexpectedEof,
            _ => ReadErrorKind::InvalidData,
        }
    }
}

/// What reading a text does: how many bytes it takes from the input, which
/// bytes it appends to the output, and how it ends.
pub ghost struct Scan {
    pub consumed: nat,
    pub text: Seq<u8>,
    pub outcome: Result<(), ReadError>,
}

impl Scan {
    /// A scan that takes nothing, appends nothing and ends with `outcome`.
    pub open spec fn stop(outcome: Result<(), ReadError>) -> Scan {
        Scan { consumed: 0, text: Seq::empty(), outcome }
    }

    /// This scan, carried out after `n` bytes were taken and `prefix` was appended.
    pub open spec fn after(self, n: nat, prefix: Seq<u8>) -> Scan {
        Scan { consumed: n + self.consumed, text: prefix + self.text, outcome: self.outcome }
    }
}

/// The byte that the escape letter `c` stands for; any other byte stands for itself.
pub open spec fn spec_unescape(c: u8) -> u8 {
    if c == LOWER_A {
        BELL
    } else if c == LOWER_B {
        BACKSPACE
    } else if c == LOWER_V {
        VERTICAL_TAB
    } else if c == LOWER_F {
        FORM_FEED
    } else if c == LOWER_E {
        ESCAPE
    } else if c == LOWER_N {
        LINE_FEED
    } else if c == LOWER_R {
        CARRIAGE_RETURN
    } else if c == LOWER_T {
        TAB
    } else if c == DIGIT_0 {
        NUL
    } else {
        c
    }
}

/// The byte that the escape letter `c` stands for; any other byte stands for itself.
pub fn unescape(c: u8) -> (e: u8)
    ensures
        e == spec_unescape(c),
{
    if c == LOWER_A {
        BELL
    } else if c == LOWER_B {
        BACKSPACE
    } else if c == LOWER_V {
        VERTICAL_TAB
    } else if c == LOWER_F {
        FORM_FEED
    } else if c == LOWER_E {
        ESCAPE
    } else if c == LOWER_N {
        LINE_FEED
    } else if c == LOWER_R {
        CARRIAGE_RETURN
    } else if c == LOWER_T {
        TAB
    } else if c == DIGIT_0 {
        NUL
    } else {
        c
    }
}

/// Whether `c` is one of the 32 ASCII control characters below the space.
pub open spec fn spec_is_control_ascii(c: u8) -> bool {
    c <= 31
}

/// Whether `c` is one of the 32 ASCII control characters below the space.
#[inline]
pub fn is_control_ascii(c: u8) -> (r: bool)
    ensures
        r == spec_is_control_ascii(c),
{
    c <= 31
}

/// The value of the hexadecimal digit `c`, or `0xff` where `c` is no such digit.
pub open spec fn spec_hex_char_to_digit(c: u8) -> u8 {
    if UPPER_A <= c <= UPPER_F {
        (c - UPPER_A + 10) as u8
    } else if LOWER_A <= c <= LOWER_F {
        (c - LOWER_A + 10) as u8
    } else if DIGIT_0 <= c <= DIGIT_9 {
        (c - DIGIT_0) as u8
    } else {
        0xff
    }
}

/// The value of the hexadecimal digit `c`, or `0xff` where `c` is no such digit.
#[inline]
pub fn hex_char_to_digit(c: u8) -> (d: u8)
    ensures
        d == spec_hex_char_to_digit(c),
        d < 16 || d == 0xff,
{
    if UPPER_A <= c && c <= UPPER_F {
        c - UPPER_A + 10
    } else if LOWER_A <= c && c <= LOWER_F {
        c - LOWER_A + 10
    } else if DIGIT_0 <= c && c <= DIGIT_9 {
        c - DIGIT_0
    } else {
        0xff
    }
}

/// The byte written as the two hexadecimal digits `high` and `low`. A byte that
/// is no digit counts as `0xff`, and the sum is taken modulo 256.
pub open spec fn spec_hex_byte(high: u8, low: u8) -> u8 {
    ((spec_hex_char_to_digit(high) * 16 + spec_hex_char_to_digit(low)) % 256) as u8
}

/// The byte written as the two hexadecimal digits `high` and `low`.
pub fn hex_byte(high: u8, low: u8) -> (b: u8)
    ensures
        b == spec_hex_byte(high, low),
{
    let h: u8 = hex_char_to_digit(high);
    let l: u8 = hex_char_to_digit(low);
    h.wrapping_mul(0x10).wrapping_add(l)
}

/// What the escape `\\c` inside a quoted text stands for: the byte that the
/// letter names, or the backslash and `c` unchanged where it names none.
pub open spec fn quoted_escape(c: u8) -> Seq<u8> {
    if c == LOWER_N {
        seq![LINE_FEED]
    } else if c == LOWER_T {
        seq![TAB]
    } else if c == LOWER_R {
        seq![CARRIAGE_RETURN]
    } else if c == DIGIT_0 {
        seq![NUL]
    } else if c == SINGLE_QUOTE || c == BACKSLASH || c == DOUBLE_QUOTE {
        seq![c]
    } else {
        seq![BACKSLASH, c]
    }
}

/// Reading a quoted text from behind its opening quote. Plain bytes are
/// copied, an escape is replaced by what it stands for, and the first
/// unescaped `quota` ends the text and is taken too. Input that ends before
/// that is an error.
pub open spec fn scan_quoted_body(s: Seq<u8>, quota: u8) -> Scan
    decreases s.len(),
{
    if s.len() == 0 {
        Scan::stop(Err(ReadError::UnterminatedQuote(quota)))
    } else if s[0] == quota {
        Scan::stop(Ok(())).after(1, Seq::empty())
    } else if s[0] != BACKSLASH {
        scan_quoted_body(s.skip(1), quota).after(1, seq![s[0]])
    } else if s.len() == 1 {
        Scan::stop(Err(ReadError::UnterminatedEscape)).after(1, Seq::empty())
    } else {
        scan_quoted_body(s.skip(2), quota).after(2, quoted_escape(s[1]))
    }
}

/// Reading a quoted text: the input has to start with `quota`, and the text
/// runs from there to the closing `quota`.
pub open spec fn scan_quoted(s: Seq<u8>, quota: u8) -> Scan {
    if s.len() > 0 && s[0] == quota {
        scan_quoted_body(s.skip(1), quota).after(1, Seq::empty())
    } else {
        Scan::stop(Err(ReadError::ExpectedByte(quota)))
    }
}

/// What the escape `\\c` inside an unquoted text stands for, where `c` is not
/// the `x` of a hexadecimal escape. A quote, a backslash, a slash or a
/// backtick stands for itself and `N` for nothing. Any other byte is
/// unescaped; unless that gives a control character, the backslash stays.
pub open spec fn escaped_text(c: u8) -> Seq<u8> {
    if c == SINGLE_QUOTE || c == DOUBLE_QUOTE || c == BACKSLASH || c == SLASH || c == BACKTICK {
        seq![c]
    } else if c == UPPER_N {
        Seq::empty()
    } else if spec_is_control_ascii(spec_unescape(c)) {
        seq![spec_unescape(c)]
    } else {
        seq![BACKSLASH, spec_unescape(c)]
    }
}

/// Reading an unquoted text. It runs to the first unescaped tab or line feed,
/// which is left in the input, or to the end of the input. `\\x` takes the two
/// bytes after it as hexadecimal digits; input that ends inside an escape is
/// an error, and a cut hexadecimal escape takes the rest of the input with it.
pub open spec fn scan_escaped(s: Seq<u8>) -> Scan
    decreases s.len(),
{
    if s.len() == 0 || s[0] == TAB || s[0] == LINE_FEED {
        Scan::stop(Ok(()))
    } else if s[0] != BACKSLASH {
        scan_escaped(s.skip(1)).after(1, seq![s[0]])
    } else if s.len() == 1 {
        Scan::stop(Err(ReadError::UnexpectedEof)).after(1, Seq::empty())
    } else if s[1] != LOWER_X {
        scan_escaped(s.skip(2)).after(2, escaped_text(s[1]))
    } else if s.len() < 4 {
        Scan::stop(Err(ReadError::UnexpectedEof)).after(s.len(), Seq::empty())
    } else {
        scan_escaped(s.skip(4)).after(4, seq![spec_hex_byte(s[2], s[3])])
    }
}

/// Reading string text from a byte source into a buffer.
pub trait BufferReadStringExt {
    /// The bytes of the source that have not been read yet.
    spec fn unread(&self) -> Seq<u8>;

    /// Reads a text enclosed in `quota` and appends its content to `buf`.
    fn read_quoted_text(&mut self, buf: &mut Vec<u8>, quota: u8) -> (r: Result<(), ReadError>)
        ensures
            r == scan_quoted(old(self).unread(), quota).outcome,
            final(buf)@ == old(buf)@ + scan_quoted(old(self).unread(), quota).text,
            final(self).unread() == old(self).unread().skip(
                scan_quoted(old(self).unread(), quota).consumed as int,
            ),
    ;

    /// Reads an unquoted text with backslash escapes and appends its content to `buf`.
    fn read_escaped_string_text(&mut self, buf: &mut Vec<u8>) -> (r: Result<(), ReadError>)
        ensures
            r == scan_escaped(old(self).unread()).outcome,
            final(buf)@ == old(buf)@ + scan_escaped(old(self).unread()).text,
            final(self).unread() == old(self).unread().skip(
                scan_escaped(old(self).unread()).consumed as int,
            ),
    ;
}

/// Appends to `buf` what the escape `\\c` of a quoted text stands for.
fn push_quoted_escape(buf: &mut Vec<u8>, c: u8)
    ensures
        final(buf)@ == old(buf)@ + quoted_escape(c),
{
    if c == LOWER_N {
        buf.push(LINE_FEED);
    } else if c == LOWER_T {
        buf.push(TAB);
    } else if c == LOWER_R {
        buf.push(CARRIAGE_RETURN);
    } else if c == DIGIT_0 {
        buf.push(NUL);
    } else if c == SINGLE_QUOTE || c == BACKSLASH || c == DOUBLE_QUOTE {
        buf.push(c);
    } else {
        buf.push(BACKSLASH);
        buf.push(c);
    }
    assert(buf@ =~= old(buf)@ + quoted_escape(c));
}

/// Appends to `buf` what the escape `\\c` of an unquoted text stands for.
fn push_escaped_text(buf: &mut Vec<u8>, c: u8)
    ensures
        final(buf)@ == old(buf)@ + escaped_text(c),
{
    if c == SINGLE_QUOTE || c == DOUBLE_QUOTE || c == BACKSLASH || c == SLASH || c == BACKTICK {
        buf.push(c);
    } else if c == UPPER_N {
    } else {
        let e: u8 = unescape(c);
        if !is_control_ascii(e) {
            buf.push(BACKSLASH);
        }
        buf.push(e);
    }
    assert(buf@ =~= old(buf)@ + escaped_text(c));
}

impl BufferReadStringExt for Cursor {
    open spec fn unread(&self) -> Seq<u8> {
        self.remaining()
    }

    fn read_quoted_text(&mut self, buf: &mut Vec<u8>, quota: u8) -> (r: Result<(), ReadError>) {
        let ghost input = self.remaining();
        let ghost before = buf@;
        if !self.ignore_byte(quota) {
            assert(buf@ =~= before + Seq::<u8>::empty());
            assert(input.skip(0) =~= input);
            return Err(ReadError::ExpectedByte(quota));
        }
        let ghost body = input.skip(1);
        let ghost whole = scan_quoted_body(body, quota);
        let ghost taken: nat = 0;
        assert(body.skip(0) =~= body);
        assert(buf@ =~= before + Seq::<u8>::empty());
        loop
            invariant
                taken <= body.len(),
                self.remaining() == body.skip(taken as int),
                whole == scan_quoted_body(body, quota),
                whole.consumed == taken + scan_quoted_body(self.remaining(), quota).consumed,
                before + whole.text == buf@ + scan_quoted_body(self.remaining(), quota).text,
                whole.outcome == scan_quoted_body(self.remaining(), quota).outcome,
                body == input.skip(1),
                input.len() > 0,
                input[0] == quota,
                before == old(buf)@,
                input == old(self).remaining(),
            decreases body.len() - taken,
        {
            let ghost rest = self.remaining();
            let ghost text = buf@;
            match self.peek(0) {
                None => {
                    assert(buf@ =~= before + whole.text);
                    assert(self.remaining() =~= input.skip(1 + whole.consumed as int));
                    return Err(ReadError::UnterminatedQuote(quota));
                },
                Some(c) => {
                    if c == quota {
                        self.consume(1);
                        assert(buf@ =~= before + whole.text);
                        assert(self.remaining() =~= input.skip(1 + whole.consumed as int));
                        return Ok(());
                    } else if c != BACKSLASH {
                        self.consume(1);
                        buf.push(c);
                        proof {
                            taken = taken + 1;
                            let next = scan_quoted_body(rest.skip(1), quota);
                            assert(self.remaining() =~= body.skip(taken as int));
                            assert(buf@ + next.text =~= text + (seq![c] + next.text));
                        }
                    } else {
                        match self.peek(1) {
                            None => {
                                self.consume(1);
                                assert(buf@ =~= before + whole.text);
                                assert(self.remaining() =~= input.skip(1 + whole.consumed as int));
                                return Err(ReadError::UnterminatedEscape);
                            },
                            Some(e) => {
                                self.consume(2);
                                push_quoted_escape(buf, e);
                                proof {
                                    taken = taken + 2;
                                    let next = scan_quoted_body(rest.skip(2), quota);
                                    assert(self.remaining() =~= body.skip(taken as int));
                                    assert(buf@ + next.text =~= text + (quoted_escape(e)
                                        + next.text));
                                }
                            },
                        }
                    }
                },
            }
        }
    }

    fn read_escaped_string_text(&mut self, buf: &mut Vec<u8>) -> (r: Result<(), ReadError>) {
        let ghost input = self.remaining();
        let ghost before = buf@;
        let ghost whole = scan_escaped(input);
        let ghost taken: nat = 0;
        assert(input.skip(0) =~= input);
        assert(buf@ =~= before + Seq::<u8>::empty());
        loop
            invariant
                taken <= input.len(),
                self.remaining() == input.skip(taken as int),
                whole == scan_escaped(input),
                whole.consumed == taken + scan_escaped(self.remaining()).consumed,
                before + whole.text == buf@ + scan_escaped(self.remaining()).text,
                whole.outcome == scan_escaped(self.remaining()).outcome,
                before == old(buf)@,
                input == old(self).remaining(),
            decreases input.len() - taken,
        {
            let ghost rest = self.remaining();
            let ghost text = buf@;
            let c: u8 = match self.peek(0) {
                None => {
                    assert(buf@ =~= before + whole.text);
                    return Ok(());
                },
                Some(c) => c,
            };
            if c == TAB || c == LINE_FEED {
                assert(buf@ =~= before + whole.text);
                return Ok(());
            } else if c != BACKSLASH {
                self.consume(1);
                buf.push(c);
                proof {
                    taken = taken + 1;
                    let next = scan_escaped(rest.skip(1));
                    assert(self.remaining() =~= input.skip(taken as int));
                    assert(buf@ + next.text =~= text + (seq![c] + next.text));
                }
            } else {
                let e: u8 = match self.peek(1) {
                    None => {
                        self.consume(1);
                        assert(buf@ =~= before + whole.text);
                        assert(self.remaining() =~= input.skip(whole.consumed as int));
                        return Err(ReadError::UnexpectedEof);
                    },
                    Some(e) => e,
                };
                if e != LOWER_X {
                    self.consume(2);
                    push_escaped_text(buf, e);
                    proof {
                        taken = taken + 2;
                        let next = scan_escaped(rest.skip(2));
                        assert(self.remaining() =~= input.skip(taken as int));
                        assert(buf@ + next.text =~= text + (escaped_text(e) + next.text));
                    }
                } else {
                    let n: usize = self.remaining_len();
                    if n < 4 {
                        self.consume(n);
                        assert(buf@ =~= before + whole.text);
                        assert(self.remaining() =~= input.skip(whole.consumed as int));
                        return Err(ReadError::UnexpectedEof);
                    }
                    let high: u8 = self.peek(2).unwrap();
                    let low: u8 = self.peek(3).unwrap();
                    self.consume(4);
                    buf.push(hex_byte(high, low));
                    proof {
                        taken = taken + 4;
                        let next = scan_escaped(rest.skip(4));
                        assert(self.remaining() =~= input.skip(taken as int));
                        assert(buf@ + next.text =~= text + (seq![spec_hex_byte(high, low)]
                            + next.text));
                    }
                }
            }
        }
    }
}

/// Reading a quoted text behind its opening quote takes no more bytes than
/// the input has and appends no more bytes than it takes.
pub proof fn lemma_quoted_body_stays_within_input(s: Seq<u8>, quota: u8)
    ensures
        scan_quoted_body(s, quota).consumed <= s.len(),
        scan_quoted_body(s, quota).text.len() <= scan_quoted_body(s, quota).consumed,
    decreases s.len(),
{
    if s.len() > 0 && s[0] != quota {
        if s[0] != BACKSLASH {
            lemma_quoted_body_stays_within_input(s.skip(1), quota);
        } else if s.len() > 1 {
            lemma_quoted_body_stays_within_input(s.skip(2), quota);
        }
    }
}

/// Reading a quoted text takes no more bytes than the input has and appends
/// no more bytes than it takes; where it succeeds it has taken both quotes.
pub proof fn lemma_quoted_stays_within_input(s: Seq<u8>, quota: u8)
    ensures
        scan_quoted(s, quota).consumed <= s.len(),
        scan_quoted(s, quota).text.len() <= scan_quoted(s, quota).consumed,
        scan_quoted(s, quota).outcome is Ok ==> scan_quoted(s, quota).text.len() + 2
            <= scan_quoted(s, quota).consumed,
{
    if s.len() > 0 && s[0] == quota {
        lemma_quoted_body_stays_within_input(s.skip(1), quota);
        lemma_quoted_body_keeps_the_quote_out(s.skip(1), quota);
    }
}

/// A quoted text that was read to its end is shorter than what was taken
/// for it: the closing quote is taken and not appended.
proof fn lemma_quoted_body_keeps_the_quote_out(s: Seq<u8>, quota: u8)
    ensures
        scan_quoted_body(s, quota).outcome is Ok ==> scan_quoted_body(s, quota).text.len() + 1
            <= scan_quoted_body(s, quota).consumed,
    decreases s.len(),
{
    if s.len() > 0 && s[0] != quota {
        if s[0] != BACKSLASH {
            lemma_quoted_body_keeps_the_quote_out(s.skip(1), quota);
        } else if s.len() > 1 {
            lemma_quoted_body_keeps_the_quote_out(s.skip(2), quota);
        }
    }
}

/// Reading an unquoted text takes no more bytes than the input has and
/// appends no more bytes than it takes.
pub proof fn lemma_escaped_stays_within_input(s: Seq<u8>)
    ensures
        scan_escaped(s).consumed <= s.len(),
        scan_escaped(s).text.len() <= scan_escaped(s).consumed,
    decreases s.len(),
{
    if s.len() > 0 && s[0] != TAB && s[0] != LINE_FEED {
        if s[0] != BACKSLASH {
            lemma_escaped_stays_within_input(s.skip(1));
        } else if s.len() > 1 {
            if s[1] != LOWER_X {
                lemma_escaped_stays_within_input(s.skip(2));
            } else if s.len() >= 4 {
                lemma_escaped_stays_within_input(s.skip(4));
            }
        }
    }
}

/// An unquoted text without a backslash is copied as it stands, up to its
/// first tab or line feed.
pub proof fn lemma_plain_text_is_copied(s: Seq<u8>, end: int)
    requires
        0 <= end <= s.len(),
        forall|i: int| 0 <= i < end ==> s[i] != BACKSLASH && s[i] != TAB && s[i] != LINE_FEED,
        end < s.len() ==> s[end] == TAB || s[end] == LINE_FEED,
    ensures
        scan_escaped(s).outcome is Ok,
        scan_escaped(s).consumed == end,
        scan_escaped(s).text == s.take(end),
    decreases end,
{
    if end == 0 {
        assert(scan_escaped(s).text =~= s.take(0));
    } else {
        let rest = s.skip(1);
        assert forall|i: int| 0 <= i < end - 1 implies rest[i] != BACKSLASH && rest[i] != TAB
            && rest[i] != LINE_FEED by {
            assert(rest[i] == s[i + 1]);
        }
        lemma_plain_text_is_copied(rest, end - 1);
        assert(seq![s[0]] + rest.take(end - 1) =~= s.take(end));
    }
}

} // verus!
