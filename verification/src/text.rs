//! Character classes and string helpers that the lexers share.

use crate::syntax::peek::PeekWithNext;
use vstd::prelude::*;
use vstd::utf8::encode_utf8;

verus! {

/// Whether `char::is_alphabetic` holds of `c`: the Unicode property
/// `Alphabetic`.
pub uninterp spec fn alphabetic(c: char) -> bool;

/// Whether `char::is_alphanumeric` holds of `c`: the Unicode property
/// `Alphabetic` or one of the numeric general categories.
pub uninterp spec fn alphanumeric(c: char) -> bool;

/// Whether `char::is_whitespace` holds of `c`: the Unicode property
/// `White_Space`.
pub uninterp spec fn whitespace(c: char) -> bool;

/// `char::is_alphabetic`. The Unicode tables decide; the contract only names
/// the answer.
#[verifier::external_body]
pub(crate) fn is_alphabetic(c: char) -> (r: bool)
    ensures
        r == alphabetic(c),
{
    c.is_alphabetic()
}

/// `char::is_alphanumeric`. The Unicode tables decide; the contract only
/// names the answer.
#[verifier::external_body]
pub(crate) fn is_alphanumeric(c: char) -> (r: bool)
    ensures
        r == alphanumeric(c),
{
    c.is_alphanumeric()
}

/// `char::is_whitespace`. The Unicode tables decide; the contract only names
/// the answer.
#[verifier::external_body]
pub(crate) fn is_whitespace(c: char) -> (r: bool)
    ensures
        r == whitespace(c),
{
    c.is_whitespace()
}

/// What the Unicode tables say of one character: the answers of
/// `char::is_alphabetic`, `char::is_alphanumeric` and `char::is_whitespace`.
/// The lexers decide by these answers and never ask the tables themselves.
#[derive(Debug, Clone, Copy, PartialEq, Eq, Structural)]
pub struct CharInfo {
    pub alphabetic: bool,
    pub alphanumeric: bool,
    pub whitespace: bool,
}

/// The answers for `c`.
pub open spec fn info_of(c: char) -> CharInfo {
    CharInfo { alphabetic: alphabetic(c), alphanumeric: alphanumeric(c), whitespace: whitespace(c) }
}

/// The answers for each character of `s`.
pub open spec fn infos(s: Seq<char>) -> Seq<CharInfo> {
    Seq::new(s.len(), |i: int| info_of(s[i]))
}

/// The answers `k` made to fit a text of `n` characters: a character for
/// which `k` holds no answer belongs to none of the three classes, and what
/// `k` holds beyond the text is left out.
pub open spec fn fitted(k: Seq<CharInfo>, n: nat) -> Seq<CharInfo> {
    Seq::new(
        n,
        |i: int|
            if i < k.len() {
                k[i]
            } else {
                CharInfo { alphabetic: false, alphanumeric: false, whitespace: false }
            },
    )
}

/// Asks the Unicode tables about `c`.
pub fn classify(c: char) -> (r: CharInfo)
    ensures
        r == info_of(c),
{
    CharInfo {
        alphabetic: is_alphabetic(c),
        alphanumeric: is_alphanumeric(c),
        whitespace: is_whitespace(c),
    }
}

/// Asks the Unicode tables about each character of `source`.
pub fn classify_all(source: &str) -> (r: Vec<CharInfo>)
    ensures
        r@ == infos(source@),
{
    broadcast use vstd::string::group_string_axioms;

    let mut kinds: Vec<CharInfo> = Vec::new();
    for c in it: source.chars()
        invariant
            it.seq() == source@,
            kinds@.len() == it.index(),
            kinds@ =~= infos(source@).take(it.index() as int),
    {
        kinds.push(classify(c));
    }
    proof {
        assert(kinds@ =~= infos(source@));
    }
    kinds
}

/// A decimal digit, `'0'` to `'9'`.
pub open spec fn digit(c: char) -> bool {
    '0' <= c && c <= '9'
}

/// Whether `c` is a decimal digit.
pub fn is_digit(c: char) -> (r: bool)
    ensures
        r == digit(c),
{
    '0' <= c && c <= '9'
}

/// Whether two strings hold the same characters.
pub fn str_eq(a: &str, b: &str) -> (r: bool)
    ensures
        r == (a@ == b@),
{
    let x = a.as_bytes();
    let y = b.as_bytes();
    proof {
        vstd::utf8::encode_utf8_decode_utf8(a@);
        vstd::utf8::encode_utf8_decode_utf8(b@);
    }
    if x.len() != y.len() {
        return false;
    }
    let mut i: usize = 0;
    while i < x.len()
        invariant
            i <= x.len(),
            x.len() == y.len(),
            x@ == encode_utf8(a@),
            y@ == encode_utf8(b@),
            forall|j: int| 0 <= j < i ==> x@[j] == y@[j],
        decreases x.len() - i,
    {
        if x[i] != y[i] {
            return false;
        }
        i += 1;
    }
    proof {
        assert(x@ =~= y@);
    }
    true
}

/// Where the text between the offsets `start` and `end` ends once the
/// whitespace at its end is taken off. `k` holds the answers of the Unicode
/// tables for each character of the text.
pub open spec fn trimmed(k: Seq<CharInfo>, start: int, end: int) -> int
    decreases end - start,
{
    if start < end && k[end - 1].whitespace {
        trimmed(k, start, end - 1)
    } else {
        end
    }
}

/// What is left is no longer, and does not end in whitespace.
pub proof fn lemma_trimmed(k: Seq<CharInfo>, start: int, end: int)
    requires
        start <= end,
    ensures
        start <= trimmed(k, start, end) <= end,
        start < trimmed(k, start, end) ==> !k[trimmed(k, start, end) - 1].whitespace,
    decreases end - start,
{
    if start < end && k[end - 1].whitespace {
        lemma_trimmed(k, start, end - 1);
    }
}

/// `s` without the characters equal to `c` at its end.
pub open spec fn trim_end_char(s: Seq<char>, c: char) -> Seq<char>
    decreases s.len(),
{
    if s.len() > 0 && s.last() == c {
        trim_end_char(s.drop_last(), c)
    } else {
        s
    }
}

/// `s` without the characters equal to `c` at its start.
pub open spec fn trim_start_char(s: Seq<char>, c: char) -> Seq<char>
    decreases s.len(),
{
    if s.len() > 0 && s.first() == c {
        trim_start_char(s.drop_first(), c)
    } else {
        s
    }
}

/// `s` without the characters equal to `c` at either end.
pub open spec fn trim_char(s: Seq<char>, c: char) -> Seq<char> {
    trim_end_char(trim_start_char(s, c), c)
}

/// A class of characters that a lexer skips or collects.
#[derive(Debug, Clone, Copy, PartialEq, Eq, Structural)]
pub enum CharClass {
    /// What the Unicode tables call whitespace.
    Whitespace,
    /// A space or a tab.
    Blank,
    /// What the Unicode tables call a letter or a number.
    Alphanumeric,
    /// A decimal digit.
    Digit,
    /// Every character but the given one.
    Not(char),
}

impl CharClass {
    /// Whether `c` belongs to the class, where the Unicode tables say `k`
    /// of it.
    pub open spec fn holds(self, c: char, k: CharInfo) -> bool {
        match self {
            CharClass::Whitespace => k.whitespace,
            CharClass::Blank => c == ' ' || c == '\t',
            CharClass::Alphanumeric => k.alphanumeric,
            CharClass::Digit => digit(c),
            CharClass::Not(x) => c != x,
        }
    }

    /// Whether `c` belongs to the class, where the Unicode tables say `k`
    /// of it.
    pub fn test(self, c: char, k: CharInfo) -> (r: bool)
        ensures
            r == self.holds(c, k),
    {
        match self {
            CharClass::Whitespace => k.whitespace,
            CharClass::Blank => c == ' ' || c == '\t',
            CharClass::Alphanumeric => k.alphanumeric,
            CharClass::Digit => is_digit(c),
            CharClass::Not(x) => c != x,
        }
    }
}

/// The first offset from `from` on at which `s` holds a character outside
/// `class`, and the length of `s` where it holds none. `k` holds the
/// answers of the Unicode tables for each character of `s`.
pub open spec fn scan(s: Seq<char>, k: Seq<CharInfo>, class: CharClass, from: int) -> int
    decreases s.len() - from,
{
    if 0 <= from < s.len() && class.holds(s[from], k[from]) {
        scan(s, k, class, from + 1)
    } else {
        from
    }
}

/// The line that a lexer has reached when it has consumed the first `pos`
/// characters of `s`: one more than the newlines among them. The count
/// stops at the largest number that fits.
pub open spec fn line_at(s: Seq<char>, pos: int) -> usize
    decreases pos,
{
    if pos <= 0 || pos > s.len() {
        1
    } else {
        let before = line_at(s, pos - 1);
        if s[pos - 1] == '\n' && before < usize::MAX {
            (before + 1) as usize
        } else {
            before
        }
    }
}

/// Where `scan` stops: at or behind `from`, inside `s`, at a character
/// outside the class or at the end; and all that it passes is in the class.
pub proof fn lemma_scan(s: Seq<char>, k: Seq<CharInfo>, class: CharClass, from: int)
    requires
        0 <= from <= s.len(),
    ensures
        from <= scan(s, k, class, from) <= s.len(),
        scan(s, k, class, from) < s.len() ==> !class.holds(
            s[scan(s, k, class, from)],
            k[scan(s, k, class, from)],
        ),
        forall|i: int| from <= i < scan(s, k, class, from) ==> class.holds(#[trigger] s[i], k[i]),
    decreases s.len() - from,
{
    if from < s.len() && class.holds(s[from], k[from]) {
        lemma_scan(s, k, class, from + 1);
    }
}

/// The characters of `s`, each with its offset.
pub open spec fn indexed(s: Seq<char>) -> Seq<(usize, char)> {
    Seq::new(s.len(), |i: int| (i as usize, s[i]))
}

/// A reading position in a source text, and the line that it is on. With
/// the text it holds, for each character, what the Unicode tables say of it.
pub struct Cursor<'a> {
    pub source: &'a str,
    pub kinds: Vec<CharInfo>,
    pub chars: PeekWithNext<(usize, char)>,
    pub line: usize,
}

impl<'a> Cursor<'a> {
    /// How many characters have been consumed.
    pub open spec fn pos(&self) -> int {
        self.chars.position as int
    }

    /// The cursor stands inside its source, holds the source's characters
    /// and an answer of the tables for each, and knows its line.
    pub open spec fn wf(&self) -> bool {
        &&& self.chars.wf()
        &&& self.chars.items@ == indexed(self.source@)
        &&& self.kinds@.len() == self.source@.len()
        &&& self.line == line_at(self.source@, self.pos())
    }

    /// A cursor at the start of `source`, on line 1, with what the Unicode
    /// tables say of its characters.
    pub fn new(source: &'a str) -> (c: Cursor<'a>)
        ensures
            c.wf(),
            c.source@ == source@,
            c.kinds@ == infos(source@),
            c.pos() == 0,
    {
        let kinds = classify_all(source);
        proof {
            assert(fitted(kinds@, source@.len()) =~= infos(source@));
        }
        Cursor::classified(source, kinds)
    }

    /// A cursor at the start of `source`, on line 1, where `kinds` holds
    /// for each character of `source` what the tables say of it. A
    /// character without an answer is taken to belong to none of the three
    /// classes.
    pub fn classified(source: &'a str, kinds: Vec<CharInfo>) -> (c: Cursor<'a>)
        ensures
            c.wf(),
            c.source@ == source@,
            c.kinds@ == fitted(kinds@, source@.len()),
            c.pos() == 0,
    {
        broadcast use vstd::string::group_string_axioms;

        let mut items: Vec<(usize, char)> = Vec::new();
        let mut fit: Vec<CharInfo> = Vec::new();
        for c in it: source.chars()
            invariant
                it.seq() == source@,
                items@.len() == it.index(),
                fit@.len() == it.index(),
                items@ =~= indexed(source@).take(it.index() as int),
                fit@ =~= fitted(kinds@, source@.len()).take(it.index() as int),
        {
            let index = items.len();
            let kind = if index < kinds.len() {
                kinds[index]
            } else {
                CharInfo { alphabetic: false, alphanumeric: false, whitespace: false }
            };
            fit.push(kind);
            items.push((index, c));
        }
        proof {
            assert(items@ =~= indexed(source@));
            assert(fit@ =~= fitted(kinds@, source@.len()));
        }
        Cursor { source, kinds: fit, chars: PeekWithNext::new(items), line: 1 }
    }

    /// Whether all of the source is consumed.
    pub fn is_at_end(&self) -> (b: bool)
        requires
            self.wf(),
        ensures
            b == (self.pos() >= self.source@.len()),
    {
        self.chars.peek().is_none()
    }

    /// The next character, if any.
    pub fn peek(&self) -> (r: Option<char>)
        requires
            self.wf(),
        ensures
            r == if self.pos() < self.source@.len() {
                Some(self.source@[self.pos()])
            } else {
                None
            },
    {
        match self.chars.peek() {
            Some(item) => Some(item.1),
            None => None,
        }
    }

    /// The character after the next, if any.
    pub fn peek_next(&self) -> (r: Option<char>)
        requires
            self.wf(),
        ensures
            r == if self.pos() + 1 < self.source@.len() {
                Some(self.source@[self.pos() + 1])
            } else {
                None
            },
    {
        match self.chars.peek_next() {
            Some(item) => Some(item.1),
            None => None,
        }
    }

    /// Whether the next character is `c`. At the end of the source there is
    /// no next character, and the answer is no.
    pub fn match_next(&self, c: char) -> (b: bool)
        requires
            self.wf(),
        ensures
            b == (self.pos() < self.source@.len() && self.source@[self.pos()] == c),
    {
        match self.peek() {
            Some(next) => next == c,
            None => false,
        }
    }

    /// Consumes the next character, if any, and returns it with its offset.
    /// A newline starts the next line.
    pub fn advance(&mut self) -> (r: Option<(usize, char)>)
        requires
            old(self).wf(),
        ensures
            final(self).wf(),
            final(self).source == old(self).source,
            final(self).kinds == old(self).kinds,
            match r {
                Some((at, c)) => at == old(self).pos() && at < old(self).source@.len() && c
                    == old(self).source@[at as int] && final(self).pos() == at + 1,
                None => old(self).pos() >= old(self).source@.len() && final(self).pos() == old(
                    self,
                ).pos(),
            },
    {
        match self.chars.next() {
            Some((current, c)) => {
                if c == '\n' && self.line < usize::MAX {
                    self.line += 1;
                }
                Some((current, c))
            },
            None => None,
        }
    }

    /// Consumes characters as long as they belong to `class`, and returns
    /// their number.
    pub fn advance_while(&mut self, class: CharClass) -> (count: usize)
        requires
            old(self).wf(),
        ensures
            final(self).wf(),
            final(self).source == old(self).source,
            final(self).kinds == old(self).kinds,
            final(self).pos() == scan(old(self).source@, old(self).kinds@, class, old(self).pos()),
            count == final(self).pos() - old(self).pos(),
    {
        let mut count: usize = 0;
        loop
            invariant
                self.wf(),
                self.source == old(self).source,
                self.kinds == old(self).kinds,
                self.pos() == old(self).pos() + count,
                scan(self.source@, self.kinds@, class, self.pos()) == scan(
                    old(self).source@,
                    old(self).kinds@,
                    class,
                    old(self).pos(),
                ),
            ensures
                self.pos() == scan(old(self).source@, old(self).kinds@, class, old(self).pos()),
            decreases self.source@.len() - self.pos(),
        {
            match self.peek() {
                Some(c) => {
                    if class.test(c, self.kinds[self.chars.position]) {
                        self.advance();
                        count += 1;
                    } else {
                        break ;
                    }
                },
                None => {
                    break ;
                },
            }
        }
        count
    }

    /// Where the text from offset `start` to the cursor ends once the
    /// whitespace at its end is taken off.
    pub fn trimmed_end(&self, start: usize) -> (end: usize)
        requires
            self.wf(),
            start <= self.pos(),
        ensures
            start <= end <= self.pos(),
            end == trimmed(self.kinds@, start as int, self.pos()),
    {
        let mut end: usize = self.chars.position;
        while end > start && self.kinds[end - 1].whitespace
            invariant
                self.wf(),
                start <= end <= self.pos(),
                trimmed(self.kinds@, start as int, self.pos()) == trimmed(
                    self.kinds@,
                    start as int,
                    end as int,
                ),
            decreases end,
        {
            end -= 1;
        }
        end
    }

    /// The text from offset `start` to the cursor, without the whitespace
    /// at its end.
    pub fn token_contents(&self, start: usize) -> (text: &'a str)
        requires
            self.wf(),
            start <= self.pos(),
        ensures
            text@ == self.source@.subrange(
                start as int,
                trimmed(self.kinds@, start as int, self.pos()),
            ),
    {
        let end = self.trimmed_end(start);
        self.source.substring_char(start, end)
    }

    /// The text from offset `start` to the cursor, without the whitespace
    /// at its end and then without the characters `c` at either end.
    pub fn token_contents_without(&self, start: usize, c: char) -> (text: &'a str)
        requires
            self.wf(),
            start <= self.pos(),
        ensures
            text@ == trim_char(
                self.source@.subrange(start as int, trimmed(self.kinds@, start as int, self.pos())),
                c,
            ),
    {
        let end = self.trimmed_end(start);
        let ghost whole = self.source@.subrange(start as int, end as int);
        let mut from: usize = start;
        while from < end && self.chars.items[from].1 == c
            invariant
                self.wf(),
                start <= from <= end <= self.pos(),
                trim_start_char(whole, c) == trim_start_char(
                    self.source@.subrange(from as int, end as int),
                    c,
                ),
            decreases end - from,
        {
            proof {
                let rest = self.source@.subrange(from as int, end as int);
                assert(rest.first() == self.source@[from as int]);
                assert(rest.drop_first() =~= self.source@.subrange(from + 1, end as int));
            }
            from += 1;
        }
        proof {
            let rest = self.source@.subrange(from as int, end as int);
            if from < end {
                assert(rest.first() == self.source@[from as int]);
            }
            assert(trim_start_char(whole, c) == rest);
        }
        let ghost middle = self.source@.subrange(from as int, end as int);
        let mut to: usize = end;
        while to > from && self.chars.items[to - 1].1 == c
            invariant
                self.wf(),
                from <= to <= end <= self.pos(),
                trim_end_char(middle, c) == trim_end_char(
                    self.source@.subrange(from as int, to as int),
                    c,
                ),
            decreases to,
        {
            proof {
                let rest = self.source@.subrange(from as int, to as int);
                assert(rest.last() == self.source@[to - 1]);
                assert(rest.drop_last() =~= self.source@.subrange(from as int, to - 1));
            }
            to -= 1;
        }
        proof {
            let rest = self.source@.subrange(from as int, to as int);
            if to > from {
                assert(rest.last() == self.source@[to - 1]);
            }
        }
        self.source.substring_char(from, to)
    }
}

} // verus!
