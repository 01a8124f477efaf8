//! The scanner as an abstract state machine: the state a scan carries, what one
//! step of the driving loop does to it, and what a whole scan produces.
use crate::lexer::chars::{alphabetic, numeric, white_space};
use crate::lexer::token::{classify, special, TokenView};
use vstd::prelude::*;

verus! {

/// The phase of a scan: which construct the pending lexeme belongs to.
pub enum Phase {
    Start,
    NumericEval,
    StringEval,
    CommentEval,
    MultiLnStringEval,
    MultiLnCommentEval,
    CharEval,
    MaybeRegexEval,
    RegexEval,
    KeywordEval,
    SpecialEval,
    Error(Seq<char>),
    End,
}

/// The abstract state of a scan.
pub struct ScanView {
    pub phase: Phase,
    /// The tokens emitted so far, in order.
    pub tokens: Seq<TokenView>,
    pub input: Seq<char>,
    /// How many characters of the input have been consumed.
    pub index: nat,
    /// The line of the next token, counted from 0.
    pub line: nat,
    /// How many characters of the current line have been consumed.
    pub column: nat,
    /// The pending lexeme.
    pub buffer: Seq<char>,
    /// The character consumed before `curr`.
    pub last: Option<char>,
    /// The character consumed last.
    pub curr: Option<char>,
    /// Whether the pattern table is available to the classifier.
    pub ready: bool,
    /// The diagnostic of the structural error that halted the scan, if any.
    pub failure: Option<Seq<char>>,
}

/// The state of a fresh scan of `input`.
pub open spec fn initial(input: Seq<char>, ready: bool) -> ScanView {
    ScanView {
        phase: Phase::Start,
        tokens: Seq::empty(),
        input,
        index: 0,
        line: 0,
        column: 0,
        buffer: Seq::empty(),
        last: None,
        curr: None,
        ready,
        failure: None,
    }
}

/// The diagnostic for a lexeme that cannot be continued.
pub open spec fn issue(lexeme: Seq<char>) -> Seq<char> {
    "issue lexing "@ + lexeme
}

impl ScanView {
    /// Bounds and the shape of the pending lexeme in each phase.
    pub open spec fn wf(self) -> bool {
        &&& self.index <= self.input.len()
        &&& self.line <= self.index
        &&& self.column <= self.index
        &&& (self.phase is Start || self.phase is End) ==> self.buffer.len() == 0
        &&& self.phase is SpecialEval ==> self.buffer.len() == 1 && special(self.buffer[0])
        &&& self.curr is Some ==> 1 <= self.column
        &&& (self.phase !is Error && self.buffer.len() > 0) ==> self.curr == Some(
            self.buffer.last(),
        )
    }

    /// The next character, if any, without consuming it.
    pub open spec fn peek(self) -> Option<char> {
        if self.index < self.input.len() {
            Some(self.input[self.index as int])
        } else {
            None
        }
    }

    /// Consumes the next character. A character after a newline starts a new line.
    pub open spec fn advance(self) -> ScanView {
        let newline = self.curr == Some('\n');
        ScanView {
            index: self.index + 1,
            last: self.curr,
            curr: Some(self.input[self.index as int]),
            line: if newline { self.line + 1 } else { self.line },
            column: if newline { 1 } else { self.column + 1 },
            ..self
        }
    }

    pub open spec fn append(self, c: char) -> ScanView {
        ScanView { buffer: self.buffer.push(c), ..self }
    }

    pub open spec fn go(self, phase: Phase) -> ScanView {
        ScanView { phase, ..self }
    }

    /// Emits the pending lexeme, when there is one and the classifier knows it,
    /// as a token at `end` minus its length (never below zero); the buffer is
    /// cleared either way.
    pub open spec fn flush_at(self, end: nat) -> ScanView {
        if self.buffer.len() == 0 {
            self
        } else {
            let tokens = match classify(self.ready, self.buffer) {
                Some(k) => self.tokens.push(
                    TokenView {
                        kind: Some(k),
                        lexeme: self.buffer,
                        line: self.line,
                        column: if end >= self.buffer.len() {
                            (end - self.buffer.len()) as nat
                        } else {
                            0
                        },
                    },
                ),
                None => self.tokens,
            };
            ScanView { tokens, buffer: Seq::empty(), ..self }
        }
    }

    /// Flushes a lexeme that ends with the character consumed last.
    pub open spec fn flush(self) -> ScanView {
        self.flush_at(self.column)
    }

    /// Flushes a lexeme that ends before the character consumed last.
    pub open spec fn flush_before(self) -> ScanView {
        self.flush_at((self.column - 1) as nat)
    }

    pub open spec fn start_step(self) -> ScanView {
        match self.peek() {
            None => self.go(Phase::End),
            Some(c) => self.advance().start_char(c),
        }
    }

    /// The characters that open a construct of their own.
    pub open spec fn start_char(self, c: char) -> ScanView {
        if c == 'r' {
            self.append(c).go(Phase::MaybeRegexEval)
        } else if c == '"' {
            self.append(c).go(Phase::StringEval)
        } else if c == '#' {
            self.append(c).go(Phase::CommentEval)
        } else if c == '\'' {
            self.append(c).go(Phase::CharEval)
        } else {
            self.start_general(c)
        }
    }

    /// The other characters, by class.
    pub open spec fn start_general(self, c: char) -> ScanView {
        if white_space(c) {
            self.flush().go(Phase::Start)
        } else if alphabetic(c) || c == '_' {
            self.append(c).go(Phase::KeywordEval)
        } else if numeric(c) {
            self.append(c).go(Phase::NumericEval)
        } else if special(c) {
            self.append(c).go(Phase::SpecialEval)
        } else {
            self.go(Phase::Error("could not determine case"@))
        }
    }

    pub open spec fn comment_step(self) -> ScanView {
        match self.peek() {
            None => self.flush().go(Phase::Start),
            Some(c) => {
                let t = self.advance().append(c);
                if c == '\n' {
                    t.flush().go(Phase::Start)
                } else {
                    t.go(Phase::CommentEval)
                }
            },
        }
    }

    /// A delimiter after a backslash continues the literal; otherwise it closes
    /// it. Only the one character before the delimiter is looked at, so a
    /// delimiter after an escaped backslash continues the literal too.
    pub open spec fn close_or_continue(self, c: char, stay: Phase) -> ScanView {
        if self.last == Some('\\') {
            self.append(c).go(stay)
        } else {
            self.append(c).flush().go(Phase::Start)
        }
    }

    /// A string, char or regex literal, closed by `delim` unless a backslash
    /// precedes it; a newline inside it is an error.
    pub open spec fn literal_step(self, delim: char, stay: Phase, message: Seq<char>) -> ScanView {
        match self.peek() {
            None => self.flush().go(Phase::Start),
            Some(c) => {
                let t = self.advance();
                if c == delim {
                    t.close_or_continue(c, stay)
                } else if c == '\n' {
                    t.go(Phase::Error(message))
                } else {
                    t.append(c).go(stay)
                }
            },
        }
    }

    pub open spec fn keyword_step(self) -> ScanView {
        match self.peek() {
            None => self.flush().go(Phase::Start),
            Some(c) => {
                let t = self.advance();
                if alphabetic(c) || numeric(c) || c == '_' {
                    t.append(c).go(Phase::KeywordEval)
                } else if special(c) {
                    t.flush_before().append(c).go(Phase::SpecialEval)
                } else if white_space(c) {
                    t.flush_before().go(Phase::Start)
                } else {
                    t.append(c).go(Phase::Error(issue(t.buffer.push(c))))
                }
            },
        }
    }

    pub open spec fn maybe_regex_step(self) -> ScanView {
        match self.peek() {
            None => self.flush().go(Phase::Start),
            Some(c) => {
                let t = self.advance();
                if white_space(c) {
                    t.flush_before().go(Phase::Start)
                } else if c == '"' {
                    t.append(c).go(Phase::RegexEval)
                } else {
                    t.append(c).go(Phase::KeywordEval)
                }
            },
        }
    }

    /// Only digits, `.` and whitespace may follow a digit: a numeral directly
    /// followed by punctuation, as in `5;`, halts the scan with an error.
    pub open spec fn numeric_step(self) -> ScanView {
        match self.peek() {
            None => self.flush().go(Phase::Start),
            Some(c) => {
                let t = self.advance();
                if numeric(c) || c == '.' {
                    t.append(c).go(Phase::NumericEval)
                } else if white_space(c) {
                    t.flush_before().go(Phase::Start)
                } else {
                    t.append(c).go(Phase::Error(issue(t.buffer.push(c))))
                }
            },
        }
    }

    /// Joins the pending punctuation character with the next one when the pair
    /// classifies; otherwise emits both alone, an unclassified one as an error token.
    pub open spec fn special_step(self) -> ScanView {
        match self.peek() {
            Some(c) if special(c) => {
                let t = self.advance();
                let combined = t.buffer.push(c);
                let tokens = match classify(t.ready, combined) {
                    Some(k) => t.tokens.push(
                        TokenView {
                            kind: Some(k),
                            lexeme: combined,
                            line: t.line,
                            column: (t.column - 2) as nat,
                        },
                    ),
                    None => t.tokens.push(
                        TokenView {
                            kind: classify(t.ready, t.buffer),
                            lexeme: t.buffer,
                            line: t.line,
                            column: (t.column - 2) as nat,
                        },
                    ).push(
                        TokenView {
                            kind: classify(t.ready, seq![c]),
                            lexeme: seq![c],
                            line: t.line,
                            column: (t.column - 1) as nat,
                        },
                    ),
                };
                ScanView { tokens, buffer: Seq::empty(), phase: Phase::Start, ..t }
            },
            _ => self.flush().go(Phase::Start),
        }
    }

    /// One step of the driving loop.
    pub open spec fn step(self) -> ScanView {
        match self.phase {
            Phase::Start => self.start_step(),
            Phase::KeywordEval => self.keyword_step(),
            Phase::CommentEval => self.comment_step(),
            Phase::StringEval => self.literal_step(
                '"',
                Phase::StringEval,
                "found newline in possible string"@,
            ),
            Phase::CharEval => self.literal_step(
                '\'',
                Phase::CharEval,
                "found newline in possible char"@,
            ),
            Phase::RegexEval => self.literal_step(
                '"',
                Phase::RegexEval,
                "regex eval has seen a new line in regex expression"@,
            ),
            Phase::MaybeRegexEval => self.maybe_regex_step(),
            Phase::NumericEval => self.numeric_step(),
            Phase::SpecialEval => self.special_step(),
            Phase::MultiLnStringEval => self.go(
                Phase::Error("multi-line strings are not supported"@),
            ),
            Phase::MultiLnCommentEval => self.go(
                Phase::Error("multi-line comments are not supported"@),
            ),
            Phase::Error(m) => ScanView {
                phase: Phase::End,
                buffer: Seq::empty(),
                failure: Some(m),
                ..self
            },
            Phase::End => self,
        }
    }

    /// Ranks the phases so that every step that consumes nothing lowers the rank.
    pub open spec fn rank(self) -> nat {
        match self.phase {
            Phase::End => 0,
            Phase::Start => 1,
            Phase::Error(_) => 1,
            _ => 2,
        }
    }

    /// Decreases with every step of an unfinished scan.
    pub open spec fn measure(self) -> nat {
        3 * (self.input.len() - self.index) as nat + self.rank()
    }
}

/// A step keeps the scan state well formed, and each step of an unfinished
/// scan lowers its measure.
pub proof fn lemma_step_wf(s: ScanView)
    requires
        s.wf(),
    ensures
        s.step().wf(),
        s.phase !is End ==> s.step().measure() < s.measure(),
{
    match s.phase {
        Phase::Start => assert(s.start_step().wf()),
        Phase::KeywordEval => assert(s.keyword_step().wf()),
        Phase::CommentEval => assert(s.comment_step().wf()),
        Phase::StringEval => {},
        Phase::CharEval => {},
        Phase::RegexEval => {},
        Phase::MaybeRegexEval => assert(s.maybe_regex_step().wf()),
        Phase::NumericEval => assert(s.numeric_step().wf()),
        Phase::SpecialEval => assert(s.special_step().wf()),
        _ => {},
    }
}

/// The state in which a scan ends: the driving loop steps until `End`.
pub open spec fn run(s: ScanView) -> ScanView
    decreases s.measure(),
{
    if s.phase is End || s.index > s.input.len() {
        s
    } else {
        run(s.step())
    }
}

} // verus!
