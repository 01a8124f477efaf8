//! The scanner: a state machine over the input characters that buffers each
//! lexeme, classifies it when it is complete and appends the resulting token.
use crate::lexer::chars::{
    is_alphabetic, is_alphanumeric, is_numeric, is_whitespace, push_char,
};
use crate::lexer::model::{initial, issue, lemma_step_wf, run, Phase, ScanView};
use crate::lexer::token::{
    build_complex_dictionary, build_simple_dictionary, classify, exact_table, is_special_char,
    kind_of, lemma_classify_plain, pattern_sources, regex_set_compiles, token_views, ComplexDict,
    Kind, SimpleDict, Token, TokenView,
};
use vstd::prelude::*;
use vstd::string::{StrSliceExecFns, StringExecFns};

verus! {

/// The phase of the scanner; an error carries its diagnostic.
enum LexerState {
    Start,
    NumericEval,
    StringEval,
    CommentEval,
    MultiLnStringEval,
    MultiLnCommentEval,
    CharEval,
    MaybeRegexEval,
    RegexEval,
    KeywordEval,
    SpecialEval,
    Error(String),
    End,
}

impl View for LexerState {
    type V = Phase;

    closed spec fn view(&self) -> Phase {
        match self {
            LexerState::Start => Phase::Start,
            LexerState::NumericEval => Phase::NumericEval,
            LexerState::StringEval => Phase::StringEval,
            LexerState::CommentEval => Phase::CommentEval,
            LexerState::MultiLnStringEval => Phase::MultiLnStringEval,
            LexerState::MultiLnCommentEval => Phase::MultiLnCommentEval,
            LexerState::CharEval => Phase::CharEval,
            LexerState::MaybeRegexEval => Phase::MaybeRegexEval,
            LexerState::RegexEval => Phase::RegexEval,
            LexerState::KeywordEval => Phase::KeywordEval,
            LexerState::SpecialEval => Phase::SpecialEval,
            LexerState::Error(m) => Phase::Error(m@),
            LexerState::End => Phase::End,
        }
    }
}

/// A scanner over one input. `tokens` holds what it has produced so far.
pub struct Lexer {
    state: LexerState,
    pub tokens: Vec<Token>,
    input: Vec<char>,
    index: usize,
    line_number: usize,
    line_position: usize,
    complex_dict: ComplexDict,
    simple_dict: SimpleDict,
    buffer: String,
    last: Option<char>,
    curr: Option<char>,
    failure: Option<String>,
}

impl View for Lexer {
    type V = ScanView;

    closed spec fn view(&self) -> ScanView {
        ScanView {
            phase: self.state@,
            tokens: token_views(self.tokens@),
            input: self.input@,
            index: self.index as nat,
            line: self.line_number as nat,
            column: self.line_position as nat,
            buffer: self.buffer@,
            last: self.last,
            curr: self.curr,
            ready: self.complex_dict.ready(),
            failure: match self.failure {
                Some(m) => Some(m@),
                None => None,
            },
        }
    }
}

/// A token for a lexeme met while joining punctuation: an unclassified one
/// becomes an error token carrying its diagnostic.
fn special_token(t_kind: Option<Kind>, payload: String, ln: usize, pos: usize) -> (r: Token)
    requires
        t_kind matches Some(k) ==> k !is Error,
    ensures
        r@ == (TokenView { kind: t_kind, lexeme: payload@, line: ln as nat, column: pos as nat }),
        r.labelled(),
{
    match t_kind {
        None => {
            let mut message = "could not determine kind of ".to_string();
            message.append(payload.as_str());
            Token::new(Kind::Error(message), payload, ln, pos)
        },
        Some(kind) => Token::new(kind, payload, ln, pos),
    }
}

impl Lexer {
    /// The tables are the library's, and every error token carries its diagnostic.
    closed spec fn inv(&self) -> bool {
        &&& self.simple_dict@ == exact_table()
        &&& self.complex_dict.wf()
        &&& forall|i: int| 0 <= i < self.tokens@.len() ==> (#[trigger] self.tokens@[i]).labelled()
    }

    /// Well formed: what `new` establishes and every method keeps.
    pub closed spec fn wf(&self) -> bool {
        self.inv() && self@.wf()
    }

    /// A scanner at the start of `buff`, with no tokens.
    pub fn new(buff: Vec<char>) -> (r: Lexer)
        ensures
            r.wf(),
            r@ == initial(buff@, regex_set_compiles(pattern_sources())),
    {
        let r = Lexer {
            state: LexerState::Start,
            tokens: Vec::new(),
            input: buff,
            index: 0,
            line_number: 0,
            line_position: 0,
            complex_dict: build_complex_dictionary(),
            simple_dict: build_simple_dictionary(),
            buffer: String::new(),
            last: None,
            curr: None,
            failure: None,
        };
        assert(token_views(r.tokens@) =~= Seq::empty());
        r
    }

    /// The next character, without consuming it.
    fn peek(&self) -> (r: Option<char>)
        requires
            self@.wf(),
        ensures
            r == self@.peek(),
    {
        if self.index < self.input.len() {
            Some(self.input[self.index])
        } else {
            None
        }
    }

    /// Whether the character before the current one is a backslash.
    fn is_escaped(&self) -> (r: bool)
        ensures
            r == (self@.last == Some('\\')),
    {
        match self.last {
            Some(c) => c == '\\',
            None => false,
        }
    }

    /// Consumes the next character, keeping the line and column counts.
    fn get(&mut self) -> (r: Option<char>)
        requires
            old(self)@.wf(),
        ensures
            r == old(self)@.peek(),
            r is Some ==> final(self)@ == old(self)@.advance(),
            r is None ==> final(self)@ == old(self)@,
            final(self).inv() == old(self).inv(),
    {
        if self.index < self.input.len() {
            let ret = self.input[self.index];
            self.index = self.index + 1;
            self.last = self.curr;
            self.curr = Some(ret);
            if self.last == Some('\n') {
                self.line_number = self.line_number + 1;
                self.line_position = 0;
            }
            self.line_position = self.line_position + 1;
            Some(ret)
        } else {
            None
        }
    }

    /// The category of `s`, by the scanner's tables.
    fn classify_text(&self, s: &String) -> (r: Option<Kind>)
        requires
            self.inv(),
        ensures
            r == classify(self@.ready, s@),
            r matches Some(k) ==> k !is Error,
    {
        proof {
            lemma_classify_plain(self@.ready, s@);
        }
        kind_of(&self.complex_dict, &self.simple_dict, s)
    }

    /// Appends a token for the pending lexeme when the classifier knows it.
    fn handle_buffer(&mut self, end: usize)
        requires
            old(self).inv(),
            old(self)@.buffer.len() > 0,
        ensures
            final(self).inv(),
            final(self)@ == (ScanView {
                buffer: old(self)@.buffer,
                ..old(self)@.flush_at(end as nat)
            }),
    {
        if let Some(t_kind) = self.classify_text(&self.buffer) {
            let n = self.buffer.as_str().unicode_len();
            let pos = if end >= n {
                end - n
            } else {
                0
            };
            let t_token = Token::new(t_kind, self.buffer.clone(), self.line_number, pos);
            let ghost before = self.tokens@;
            self.tokens.push(t_token);
            proof {
                assert(token_views(self.tokens@) =~= token_views(before).push(t_token@));
            }
        }
    }

    /// Flushes the pending lexeme as ending at `end`.
    fn flush_at(&mut self, end: usize)
        requires
            old(self).inv(),
        ensures
            final(self).inv(),
            final(self)@ == old(self)@.flush_at(end as nat),
    {
        if self.buffer.as_str().unicode_len() > 0 {
            self.handle_buffer(end);
        } else {
            assert(self.buffer@ =~= Seq::empty());
        }
        self.buffer = String::new();
    }

    /// Flushes a lexeme that ends with the character consumed last.
    fn flush_buffer(&mut self)
        requires
            old(self).inv(),
        ensures
            final(self).inv(),
            final(self)@ == old(self)@.flush(),
    {
        let end = self.line_position;
        self.flush_at(end);
    }

    /// Flushes a lexeme that ends before the character consumed last.
    fn flush_buffer_no_append(&mut self)
        requires
            old(self).inv(),
            old(self)@.column >= 1,
        ensures
            final(self).inv(),
            final(self)@ == old(self)@.flush_before(),
    {
        let end = self.line_position - 1;
        self.flush_at(end);
    }

    fn push(&mut self, c: char)
        ensures
            final(self)@ == old(self)@.append(c),
            final(self).inv() == old(self).inv(),
    {
        push_char(&mut self.buffer, c);
    }

    fn handle_start_state(&mut self) -> (r: LexerState)
        requires
            old(self).inv(),
            old(self)@.wf(),
        ensures
            final(self).inv(),
            final(self)@.go(r@) == old(self)@.start_step(),
    {
        match self.get() {
            Some(c) => self.handle_start_state_simple_case(c),
            None => LexerState::End,
        }
    }

    fn handle_start_state_simple_case(&mut self, x: char) -> (r: LexerState)
        requires
            old(self).inv(),
        ensures
            final(self).inv(),
            final(self)@.go(r@) == old(self)@.start_char(x),
    {
        match x {
            'r' => {
                self.push(x);
                LexerState::MaybeRegexEval
            },
            '"' => {
                self.push(x);
                LexerState::StringEval
            },
            '#' => {
                self.push(x);
                LexerState::CommentEval
            },
            '\'' => {
                self.push(x);
                LexerState::CharEval
            },
            _ => self.handle_general_complex_case(x),
        }
    }

    fn handle_general_complex_case(&mut self, x: char) -> (r: LexerState)
        requires
            old(self).inv(),
        ensures
            final(self).inv(),
            final(self)@.go(r@) == old(self)@.start_general(x),
    {
        if is_whitespace(x) {
            self.flush_buffer();
            LexerState::Start
        } else if is_alphabetic(x) || x == '_' {
            self.push(x);
            LexerState::KeywordEval
        } else if is_numeric(x) {
            self.push(x);
            LexerState::NumericEval
        } else if is_special_char(x) {
            self.push(x);
            LexerState::SpecialEval
        } else {
            LexerState::Error("could not determine case".to_string())
        }
    }

    fn handle_comment_eval(&mut self) -> (r: LexerState)
        requires
            old(self).inv(),
            old(self)@.wf(),
        ensures
            final(self).inv(),
            final(self)@.go(r@) == old(self)@.comment_step(),
    {
        match self.get() {
            Some(c) => {
                self.push(c);
                if c == '\n' {
                    self.flush_buffer();
                    LexerState::Start
                } else {
                    LexerState::CommentEval
                }
            },
            None => {
                self.flush_buffer();
                LexerState::Start
            },
        }
    }

    /// A delimiter after a backslash continues the literal; otherwise it closes it.
    fn handle_escaped_delim(
        &mut self,
        x: char,
        escaped_state: LexerState,
        non_escaped_state: LexerState,
    ) -> (r: LexerState)
        requires
            old(self).inv(),
        ensures
            final(self).inv(),
            old(self)@.last == Some('\\') ==> final(self)@.go(r@) == old(self)@.append(x).go(
                escaped_state@,
            ),
            old(self)@.last != Some('\\') ==> final(self)@.go(r@) == old(self)@.append(
                x,
            ).flush().go(non_escaped_state@),
    {
        if self.is_escaped() {
            self.push(x);
            escaped_state
        } else {
            self.push(x);
            self.flush_buffer();
            non_escaped_state
        }
    }

    fn handle_string_eval(&mut self) -> (r: LexerState)
        requires
            old(self).inv(),
            old(self)@.wf(),
            old(self)@.phase is StringEval,
        ensures
            final(self).inv(),
            final(self)@.go(r@) == old(self)@.step(),
            old(self)@.peek() == Some('\n') ==> r@ is Error && final(self)@.tokens
                == old(self)@.tokens,
    {
        match self.get() {
            Some(c) => {
                if c == '"' {
                    self.handle_escaped_delim(c, LexerState::StringEval, LexerState::Start)
                } else if c == '\n' {
                    LexerState::Error("found newline in possible string".to_string())
                } else {
                    self.push(c);
                    LexerState::StringEval
                }
            },
            None => {
                self.flush_buffer();
                LexerState::Start
            },
        }
    }

    fn handle_char_eval(&mut self) -> (r: LexerState)
        requires
            old(self).inv(),
            old(self)@.wf(),
            old(self)@.phase is CharEval,
        ensures
            final(self).inv(),
            final(self)@.go(r@) == old(self)@.step(),
            old(self)@.peek() == Some('\n') ==> r@ is Error && final(self)@.tokens
                == old(self)@.tokens,
    {
        match self.get() {
            Some(c) => {
                if c == '\'' {
                    self.handle_escaped_delim(c, LexerState::CharEval, LexerState::Start)
                } else if c == '\n' {
                    LexerState::Error("found newline in possible char".to_string())
                } else {
                    self.push(c);
                    LexerState::CharEval
                }
            },
            None => {
                self.flush_buffer();
                LexerState::Start
            },
        }
    }

    fn handle_regex_eval(&mut self) -> (r: LexerState)
        requires
            old(self).inv(),
            old(self)@.wf(),
            old(self)@.phase is RegexEval,
        ensures
            final(self).inv(),
            final(self)@.go(r@) == old(self)@.step(),
            old(self)@.peek() == Some('\n') ==> r@ is Error && final(self)@.tokens
                == old(self)@.tokens,
    {
        match self.get() {
            Some(c) => {
                if c == '"' {
                    self.handle_escaped_delim(c, LexerState::RegexEval, LexerState::Start)
                } else if c == '\n' {
                    LexerState::Error(
                        "regex eval has seen a new line in regex expression".to_string(),
                    )
                } else {
                    self.push(c);
                    LexerState::RegexEval
                }
            },
            None => {
                self.flush_buffer();
                LexerState::Start
            },
        }
    }

    fn handle_multilnstring_eval(&self) -> (r: LexerState)
        ensures
            r@ == Phase::Error("multi-line strings are not supported"@),
    {
        LexerState::Error("multi-line strings are not supported".to_string())
    }

    fn handle_multilncomment_eval(&self) -> (r: LexerState)
        ensures
            r@ == Phase::Error("multi-line comments are not supported"@),
    {
        LexerState::Error("multi-line comments are not supported".to_string())
    }

    /// The diagnostic for the pending lexeme.
    fn issue_message(&self) -> (r: String)
        ensures
            r@ == issue(self@.buffer),
    {
        let mut message = "issue lexing ".to_string();
        message.append(self.buffer.as_str());
        message
    }

    fn handle_keyword_eval(&mut self) -> (r: LexerState)
        requires
            old(self).inv(),
            old(self)@.wf(),
        ensures
            final(self).inv(),
            final(self)@.go(r@) == old(self)@.keyword_step(),
    {
        match self.get() {
            Some(c) => {
                if is_alphanumeric(c) || c == '_' {
                    self.push(c);
                    LexerState::KeywordEval
                } else if is_special_char(c) {
                    self.flush_buffer_no_append();
                    self.push(c);
                    LexerState::SpecialEval
                } else if is_whitespace(c) {
                    self.flush_buffer_no_append();
                    LexerState::Start
                } else {
                    self.push(c);
                    LexerState::Error(self.issue_message())
                }
            },
            None => {
                self.flush_buffer();
                LexerState::Start
            },
        }
    }

    fn handle_maybe_regex(&mut self) -> (r: LexerState)
        requires
            old(self).inv(),
            old(self)@.wf(),
        ensures
            final(self).inv(),
            final(self)@.go(r@) == old(self)@.maybe_regex_step(),
    {
        match self.get() {
            Some(c) => {
                if is_whitespace(c) {
                    self.flush_buffer_no_append();
                    LexerState::Start
                } else if c == '"' {
                    self.push(c);
                    LexerState::RegexEval
                } else {
                    self.push(c);
                    LexerState::KeywordEval
                }
            },
            None => {
                self.flush_buffer();
                LexerState::Start
            },
        }
    }

    /// Only digits, `.` and whitespace may follow a digit; anything else, as
    /// in `5;`, is an error.
    fn handle_numeric_eval(&mut self) -> (r: LexerState)
        requires
            old(self).inv(),
            old(self)@.wf(),
        ensures
            final(self).inv(),
            final(self)@.go(r@) == old(self)@.numeric_step(),
    {
        match self.get() {
            Some(c) => {
                if is_numeric(c) || c == '.' {
                    self.push(c);
                    LexerState::NumericEval
                } else if is_whitespace(c) {
                    self.flush_buffer_no_append();
                    LexerState::Start
                } else {
                    self.push(c);
                    LexerState::Error(self.issue_message())
                }
            },
            None => {
                self.flush_buffer();
                LexerState::Start
            },
        }
    }

    /// Joins the pending punctuation character with the next one when the pair
    /// classifies; otherwise emits both alone.
    fn handle_special_eval(&mut self) -> (r: LexerState)
        requires
            old(self).inv(),
            old(self)@.wf(),
            old(self)@.phase is SpecialEval,
        ensures
            final(self).inv(),
            final(self)@.go(r@) == old(self)@.special_step(),
    {
        let next_is_special = match self.peek() {
            None => false,
            Some(c) => is_special_char(c),
        };
        if !next_is_special {
            self.flush_buffer();
            return LexerState::Start;
        }
        let current_kind = self.classify_text(&self.buffer);
        let mut combined = self.buffer.clone();
        match self.get() {
            Some(c) => {
                let ln = self.line_number;
                let pos = self.line_position - 1;
                push_char(&mut combined, c);
                let combined_kind = self.classify_text(&combined);
                let ghost before = self.tokens@;
                match combined_kind {
                    Some(kind) => {
                        let tok = Token::new(kind, combined, ln, pos - 1);
                        self.tokens.push(tok);
                        proof {
                            assert(token_views(self.tokens@) =~= token_views(before).push(tok@));
                        }
                    },
                    None => {
                        let tok = special_token(current_kind, self.buffer.clone(), ln, pos - 1);
                        self.tokens.push(tok);
                        let mut single = String::new();
                        push_char(&mut single, c);
                        let next_kind = self.classify_text(&single);
                        let tok2 = special_token(next_kind, single, ln, pos);
                        self.tokens.push(tok2);
                        proof {
                            assert(single@ =~= seq![c]);
                            assert(token_views(self.tokens@) =~= token_views(before).push(
                                tok@,
                            ).push(tok2@));
                        }
                    },
                }
                self.buffer = String::new();
                LexerState::Start
            },
            None => {
                self.flush_buffer();
                LexerState::Start
            },
        }
    }

    /// Runs the handler of the current phase.
    fn handle_state(&mut self) -> (r: LexerState)
        requires
            old(self).inv(),
            old(self)@.wf(),
        ensures
            final(self).inv(),
            final(self)@.go(r@) == old(self)@.step(),
    {
        match &self.state {
            LexerState::Start => self.handle_start_state(),
            LexerState::KeywordEval => self.handle_keyword_eval(),
            LexerState::CommentEval => self.handle_comment_eval(),
            LexerState::StringEval => self.handle_string_eval(),
            LexerState::MultiLnStringEval => self.handle_multilnstring_eval(),
            LexerState::MultiLnCommentEval => self.handle_multilncomment_eval(),
            LexerState::CharEval => self.handle_char_eval(),
            LexerState::MaybeRegexEval => self.handle_maybe_regex(),
            LexerState::RegexEval => self.handle_regex_eval(),
            LexerState::NumericEval => self.handle_numeric_eval(),
            LexerState::SpecialEval => self.handle_special_eval(),
            LexerState::End => LexerState::End,
            LexerState::Error(msg) => {
                let message = msg.clone();
                self.failure = Some(message);
                self.buffer = String::new();
                LexerState::End
            },
        }
    }

    fn is_done(&self) -> (r: bool)
        ensures
            r == (self@.phase is End),
    {
        match self.state {
            LexerState::End => true,
            _ => false,
        }
    }

    /// Drives the state machine until the scan ends, at the end of the input or
    /// at a structural error; the tokens produced before an error stay.
    pub fn lex(&mut self)
        requires
            old(self).wf(),
        ensures
            final(self).wf(),
            final(self)@ == run(old(self)@),
    {
        while !self.is_done()
            invariant
                self.wf(),
                run(self@) == run(old(self)@),
            decreases self@.measure(),
        {
            proof {
                lemma_step_wf(self@);
            }
            let new_state = self.handle_state();
            self.state = new_state;
        }
    }

    /// Starts the scanner over on `buff`. The tokens of the previous input are
    /// discarded, as are its pending lexeme and any error.
    pub fn reset(&mut self, buff: Vec<char>)
        requires
            old(self).wf(),
        ensures
            final(self).wf(),
            final(self)@ == initial(buff@, old(self)@.ready),
    {
        self.state = LexerState::Start;
        self.input = buff;
        self.index = 0;
        self.line_position = 0;
        self.line_number = 0;
        self.tokens = Vec::new();
        self.buffer = String::new();
        self.last = None;
        self.curr = None;
        self.failure = None;
        assert(token_views(self.tokens@) =~= Seq::empty());
    }

    /// The tokens produced so far, in order.
    pub fn tokens(&self) -> (r: &Vec<Token>)
        ensures
            token_views(r@) == self@.tokens,
    {
        &self.tokens
    }

    /// The diagnostic of the structural error that halted the scan, if any.
    pub fn failure(&self) -> (r: Option<String>)
        ensures
            r matches Some(m) ==> self@.failure == Some(m@),
            r is None ==> self@.failure is None,
    {
        match &self.failure {
            Some(m) => Some(m.clone()),
            None => None,
        }
    }
}

} // verus!
