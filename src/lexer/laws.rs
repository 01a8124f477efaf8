//! Laws of the scanner, proved over the abstract scan model: what a whole scan
//! produces for classes of inputs, and what it never does.
use crate::lexer::chars::{ascii_digit, ascii_letter, white_space};
use crate::lexer::model::{initial, lemma_step_wf, run, Phase, ScanView};
use crate::lexer::token::{
    classify, exact_table, lemma_lookup_found, lookup, pattern_kind, special, Kind, TokenView,
};
use vstd::prelude::*;

verus! {

/// A step only appends tokens: the tokens already emitted stay as they are.
proof fn lemma_step_extends(s: ScanView)
    requires
        s.wf(),
    ensures
        s.tokens.len() <= s.step().tokens.len(),
        s.step().tokens.take(s.tokens.len() as int) == s.tokens,
{
    assert(s.tokens.take(s.tokens.len() as int) =~= s.tokens);
    assert(s.advance().tokens == s.tokens);
    assert(s.step().tokens.take(s.tokens.len() as int) =~= s.tokens);
}

/// Tokens once emitted are never changed or removed: every token of a state
/// is, at the same place, a token of the state in which the scan ends.
pub proof fn lemma_run_extends(s: ScanView)
    requires
        s.wf(),
    ensures
        s.tokens.len() <= run(s).tokens.len(),
        run(s).tokens.take(s.tokens.len() as int) == s.tokens,
    decreases s.measure(),
{
    if s.phase is End {
        assert(s.tokens.take(s.tokens.len() as int) =~= s.tokens);
    } else {
        lemma_step_wf(s);
        lemma_step_extends(s);
        lemma_run_extends(s.step());
        assert(run(s).tokens.take(s.tokens.len() as int) =~= s.tokens);
    }
}

/// Input made only of whitespace scans to no tokens and no error.
pub proof fn lemma_whitespace_only(input: Seq<char>, ready: bool)
    requires
        forall|i: int| 0 <= i < input.len() ==> white_space(#[trigger] input[i]),
    ensures
        run(initial(input, ready)).tokens.len() == 0,
        run(initial(input, ready)).failure is None,
{
    lemma_blank_rest(initial(input, ready));
}

proof fn lemma_blank_rest(s: ScanView)
    requires
        s.wf(),
        s.phase is Start,
        s.tokens.len() == 0,
        s.failure is None,
        forall|i: int| s.index <= i < s.input.len() ==> white_space(#[trigger] s.input[i]),
    ensures
        run(s).tokens.len() == 0,
        run(s).failure is None,
    decreases s.input.len() - s.index,
{
    if s.index < s.input.len() {
        let c = s.input[s.index as int];
        assert(c != 'r' && c != '"' && c != '#' && c != '\'');
        let t = s.step();
        assert(t == s.advance().go(Phase::Start));
        lemma_step_wf(s);
        lemma_blank_rest(t);
    } else {
        assert(run(s.step()) == s.step());
    }
}

/// A newline inside an open string or char literal halts the scan with an
/// error: no token is emitted for the literal, and the tokens emitted before
/// it stay as they are.
pub proof fn lemma_newline_in_literal(s: ScanView)
    requires
        s.wf(),
        s.phase is StringEval || s.phase is CharEval,
        s.index < s.input.len(),
        s.input[s.index as int] == '\n',
    ensures
        run(s).phase is End,
        run(s).failure is Some,
        run(s).tokens == s.tokens,
{
    let t = s.step();
    assert(t.phase is Error);
    assert(t.tokens == s.tokens);
    lemma_step_wf(s);
    let u = t.step();
    assert(u.phase is End);
    assert(run(t) == run(u));
}

/// What a scan of `w` produces when `w` is one lexeme: one token, at line 0
/// and column 0, when the classifier knows `w`; none otherwise.
pub open spec fn single(ready: bool, w: Seq<char>) -> Seq<TokenView> {
    match classify(ready, w) {
        Some(k) => seq![TokenView { kind: Some(k), lexeme: w, line: 0, column: 0 }],
        None => seq![],
    }
}

/// A construct still open when the input ends is flushed as one lexeme.
proof fn lemma_finish(s: ScanView)
    requires
        s.wf(),
        s.index == s.input.len(),
        s.phase is KeywordEval || s.phase is MaybeRegexEval || s.phase is CommentEval
            || s.phase is StringEval || s.phase is NumericEval || s.phase is SpecialEval,
        s.buffer.len() >= 1,
        s.tokens.len() == 0,
        s.line == 0,
        s.column == s.buffer.len(),
        s.failure is None,
    ensures
        run(s).tokens == single(s.ready, s.buffer),
        run(s).failure is None,
{
    let t = s.step();
    assert(t == s.flush().go(Phase::Start));
    assert(t.tokens =~= single(s.ready, s.buffer));
    lemma_step_wf(s);
    let u = t.step();
    assert(u.phase is End);
    assert(run(t) == run(u));
}

/// A character that may continue a word.
pub open spec fn word_char(c: char) -> bool {
    ascii_letter(c) || ascii_digit(c)
}

/// The rest of a word, from a state in the middle of it.
proof fn lemma_word_rest(s: ScanView)
    requires
        s.wf(),
        s.phase is KeywordEval,
        1 <= s.index <= s.input.len(),
        s.buffer == s.input.take(s.index as int),
        s.tokens.len() == 0,
        s.line == 0,
        s.column == s.index,
        s.curr == Some(s.input[s.index - 1]),
        s.failure is None,
        forall|i: int| 0 <= i < s.input.len() ==> word_char(#[trigger] s.input[i]),
    ensures
        run(s).tokens == single(s.ready, s.input),
        run(s).failure is None,
    decreases s.input.len() - s.index,
{
    if s.index == s.input.len() {
        assert(s.buffer =~= s.input);
        lemma_finish(s);
    } else {
        let c = s.input[s.index as int];
        assert(word_char(c));
        assert(s.curr != Some('\n'));
        let t = s.step();
        assert(t == s.advance().append(c).go(Phase::KeywordEval));
        assert(t.buffer =~= s.input.take(t.index as int));
        lemma_step_wf(s);
        lemma_word_rest(t);
    }
}

/// A word of ASCII letters and digits that starts with a letter scans as one lexeme.
proof fn lemma_word_alone(w: Seq<char>, ready: bool)
    requires
        w.len() >= 1,
        ascii_letter(w[0]),
        forall|i: int| 0 <= i < w.len() ==> word_char(#[trigger] w[i]),
    ensures
        run(initial(w, ready)).tokens == single(ready, w),
        run(initial(w, ready)).failure is None,
{
    let s = initial(w, ready);
    let c = w[0];
    let t = s.step();
    lemma_step_wf(s);
    assert(t.buffer =~= w.take(1));
    if c == 'r' {
        assert(t.phase is MaybeRegexEval);
        if w.len() == 1 {
            assert(t.buffer =~= w);
            lemma_finish(t);
        } else {
            let d = w[1];
            assert(word_char(d));
            let u = t.step();
            assert(u == t.advance().append(d).go(Phase::KeywordEval));
            assert(u.buffer =~= w.take(2));
            lemma_step_wf(t);
            lemma_word_rest(u);
        }
    } else {
        assert(t.phase is KeywordEval);
        lemma_word_rest(t);
    }
}

/// A lexeme of one character that opens a construct on its own scans as one lexeme.
proof fn lemma_char_alone(c: char, ready: bool)
    requires
        special(c) || c == '#' || c == '"',
    ensures
        run(initial(seq![c], ready)).tokens == single(ready, seq![c]),
        run(initial(seq![c], ready)).failure is None,
{
    let s = initial(seq![c], ready);
    let t = s.step();
    lemma_step_wf(s);
    assert(t.buffer =~= seq![c]);
    lemma_finish(t);
}

/// An entry's key is found in the table.
proof fn lemma_lookup_present(table: Seq<(Seq<char>, Kind)>, i: int)
    requires
        0 <= i < table.len(),
    ensures
        lookup(table, table[i].0) is Some,
    decreases i,
{
    if i > 0 && table[0].0 != table[i].0 {
        lemma_lookup_present(table.drop_first(), i - 1);
    }
}

/// What a scan of a key of the exact table, alone, produces.
pub open spec fn key_alone(key: Seq<char>, ready: bool) -> bool {
    &&& lookup(exact_table(), key) is Some
    &&& run(initial(key, ready)).tokens == seq![
        TokenView { kind: lookup(exact_table(), key), lexeme: key, line: 0, column: 0 },
    ]
    &&& run(initial(key, ready)).failure is None
}

/// The shorter keys of the exact table, scanned alone.
proof fn lemma_shorter_keys(i: int, ready: bool)
    requires
        0 <= i < 20,
    ensures
        key_alone(exact_table()[i].0, ready),
{
    lemma_lookup_present(exact_table(), i);
    let key = exact_table()[i].0;
    if i == 0 {
        reveal_strlit("!");
        assert(key =~= seq!['!']);
        lemma_char_alone('!', ready);
    } else if i == 1 {
        reveal_strlit("\"");
        assert(key =~= seq!['"']);
        lemma_char_alone('"', ready);
    } else if i == 2 {
        reveal_strlit("#");
        assert(key =~= seq!['#']);
        lemma_char_alone('#', ready);
    } else if i == 3 {
        reveal_strlit("&");
        assert(key =~= seq!['&']);
        lemma_char_alone('&', ready);
    } else if i == 4 {
        reveal_strlit("(");
        assert(key =~= seq!['(']);
        lemma_char_alone('(', ready);
    } else if i == 5 {
        reveal_strlit(")");
        assert(key =~= seq![')']);
        lemma_char_alone(')', ready);
    } else if i == 6 {
        reveal_strlit("*");
        assert(key =~= seq!['*']);
        lemma_char_alone('*', ready);
    } else if i == 7 {
        reveal_strlit("+");
        assert(key =~= seq!['+']);
        lemma_char_alone('+', ready);
    } else if i == 8 {
        reveal_strlit(",");
        assert(key =~= seq![',']);
        lemma_char_alone(',', ready);
    } else if i == 9 {
        reveal_strlit("-");
        assert(key =~= seq!['-']);
        lemma_char_alone('-', ready);
    } else if i == 10 {
        reveal_strlit(".");
        assert(key =~= seq!['.']);
        lemma_char_alone('.', ready);
    } else if i == 11 {
        reveal_strlit("/");
        assert(key =~= seq!['/']);
        lemma_char_alone('/', ready);
    } else if i == 12 {
        reveal_strlit(":");
        assert(key =~= seq![':']);
        lemma_char_alone(':', ready);
    } else if i == 13 {
        reveal_strlit(";");
        assert(key =~= seq![';']);
        lemma_char_alone(';', ready);
    } else if i == 14 {
        reveal_strlit("<");
        assert(key =~= seq!['<']);
        lemma_char_alone('<', ready);
    } else if i == 15 {
        reveal_strlit("=");
        assert(key =~= seq!['=']);
        lemma_char_alone('=', ready);
    } else if i == 16 {
        reveal_strlit(">");
        assert(key =~= seq!['>']);
        lemma_char_alone('>', ready);
    } else if i == 17 {
        reveal_strlit("?");
        assert(key =~= seq!['?']);
        lemma_char_alone('?', ready);
    } else if i == 18 {
        reveal_strlit("[");
        assert(key =~= seq!['[']);
        lemma_char_alone('[', ready);
    } else if i == 19 {
        reveal_strlit("]");
        assert(key =~= seq![']']);
        lemma_char_alone(']', ready);
    }
}

/// The keys of middle length of the exact table, scanned alone.
proof fn lemma_middle_keys(i: int, ready: bool)
    requires
        20 <= i < 40,
    ensures
        key_alone(exact_table()[i].0, ready),
{
    lemma_lookup_present(exact_table(), i);
    let key = exact_table()[i].0;
    if i == 20 {
        reveal_strlit("{");
        assert(key =~= seq!['{']);
        lemma_char_alone('{', ready);
    } else if i == 21 {
        reveal_strlit("|");
        assert(key =~= seq!['|']);
        lemma_char_alone('|', ready);
    } else if i == 22 {
        reveal_strlit("}");
        assert(key =~= seq!['}']);
        lemma_char_alone('}', ready);
    } else if i == 23 {
        reveal_strlit("do");
        lemma_word_alone(key, ready);
    } else if i == 24 {
        reveal_strlit("fn");
        lemma_word_alone(key, ready);
    } else if i == 25 {
        reveal_strlit("i8");
        lemma_word_alone(key, ready);
    } else if i == 26 {
        reveal_strlit("if");
        lemma_word_alone(key, ready);
    } else if i == 27 {
        reveal_strlit("u8");
        lemma_word_alone(key, ready);
    } else if i == 28 {
        reveal_strlit("def");
        lemma_word_alone(key, ready);
    } else if i == 29 {
        reveal_strlit("end");
        lemma_word_alone(key, ready);
    } else if i == 30 {
        reveal_strlit("for");
        lemma_word_alone(key, ready);
    } else if i == 31 {
        reveal_strlit("i16");
        lemma_word_alone(key, ready);
    } else if i == 32 {
        reveal_strlit("i32");
        lemma_word_alone(key, ready);
    } else if i == 33 {
        reveal_strlit("i64");
        lemma_word_alone(key, ready);
    } else if i == 34 {
        reveal_strlit("mut");
        lemma_word_alone(key, ready);
    } else if i == 35 {
        reveal_strlit("u16");
        lemma_word_alone(key, ready);
    } else if i == 36 {
        reveal_strlit("u32");
        lemma_word_alone(key, ready);
    } else if i == 37 {
        reveal_strlit("u64");
        lemma_word_alone(key, ready);
    } else if i == 38 {
        reveal_strlit("char");
        lemma_word_alone(key, ready);
    } else if i == 39 {
        reveal_strlit("else");
        lemma_word_alone(key, ready);
    }
}

/// The longer keys of the exact table, scanned alone.
proof fn lemma_longer_keys(i: int, ready: bool)
    requires
        40 <= i < 59,
    ensures
        key_alone(exact_table()[i].0, ready),
{
    lemma_lookup_present(exact_table(), i);
    let key = exact_table()[i].0;
    if i == 40 {
        reveal_strlit("i128");
        lemma_word_alone(key, ready);
    } else if i == 41 {
        reveal_strlit("null");
        lemma_word_alone(key, ready);
    } else if i == 42 {
        reveal_strlit("true");
        lemma_word_alone(key, ready);
    } else if i == 43 {
        reveal_strlit("type");
        lemma_word_alone(key, ready);
    } else if i == 44 {
        reveal_strlit("u128");
        lemma_word_alone(key, ready);
    } else if i == 45 {
        reveal_strlit("false");
        lemma_word_alone(key, ready);
    } else if i == 46 {
        reveal_strlit("float");
        lemma_word_alone(key, ready);
    } else if i == 47 {
        reveal_strlit("isize");
        lemma_word_alone(key, ready);
    } else if i == 48 {
        reveal_strlit("match");
        lemma_word_alone(key, ready);
    } else if i == 49 {
        reveal_strlit("usize");
        lemma_word_alone(key, ready);
    } else if i == 50 {
        reveal_strlit("while");
        lemma_word_alone(key, ready);
    } else if i == 51 {
        reveal_strlit("double");
        lemma_word_alone(key, ready);
    } else if i == 52 {
        reveal_strlit("public");
        lemma_word_alone(key, ready);
    } else if i == 53 {
        reveal_strlit("return");
        lemma_word_alone(key, ready);
    } else if i == 54 {
        reveal_strlit("static");
        lemma_word_alone(key, ready);
    } else if i == 55 {
        reveal_strlit("string");
        lemma_word_alone(key, ready);
    } else if i == 56 {
        reveal_strlit("boolean");
        lemma_word_alone(key, ready);
    } else if i == 57 {
        reveal_strlit("defimpl");
        lemma_word_alone(key, ready);
    } else if i == 58 {
        reveal_strlit("defstruct");
        lemma_word_alone(key, ready);
    }
}

/// Any key of the exact table, scanned alone, yields exactly one token: its
/// lexeme is the key and its category is the one the table gives the key.
pub proof fn lemma_exact_key_alone(i: int, ready: bool)
    requires
        0 <= i < exact_table().len(),
    ensures
        key_alone(exact_table()[i].0, ready),
{
    if i < 20 {
        lemma_shorter_keys(i, ready);
    } else if i < 40 {
        lemma_middle_keys(i, ready);
    } else {
        lemma_longer_keys(i, ready);
    }
}

/// No key of the exact table starts with a digit.
proof fn lemma_keys_not_numerals()
    ensures
        forall|i: int|
            0 <= i < exact_table().len() ==> (#[trigger] exact_table()[i]).0.len() >= 1
                && !ascii_digit(exact_table()[i].0[0]),
{
    assert forall|i: int| 0 <= i < exact_table().len() implies (#[trigger] exact_table()[i]).0.len()
        >= 1 && !ascii_digit(exact_table()[i].0[0]) by {
        if i == 0 {
            reveal_strlit("!");
        } else if i == 1 {
            reveal_strlit("\"");
        } else if i == 2 {
            reveal_strlit("#");
        } else if i == 3 {
            reveal_strlit("&");
        } else if i == 4 {
            reveal_strlit("(");
        } else if i == 5 {
            reveal_strlit(")");
        } else if i == 6 {
            reveal_strlit("*");
        } else if i == 7 {
            reveal_strlit("+");
        } else if i == 8 {
            reveal_strlit(",");
        } else if i == 9 {
            reveal_strlit("-");
        } else if i == 10 {
            reveal_strlit(".");
        } else if i == 11 {
            reveal_strlit("/");
        } else if i == 12 {
            reveal_strlit(":");
        } else if i == 13 {
            reveal_strlit(";");
        } else if i == 14 {
            reveal_strlit("<");
        } else if i == 15 {
            reveal_strlit("=");
        } else if i == 16 {
            reveal_strlit(">");
        } else if i == 17 {
            reveal_strlit("?");
        } else if i == 18 {
            reveal_strlit("[");
        } else if i == 19 {
            reveal_strlit("]");
        } else if i == 20 {
            reveal_strlit("{");
        } else if i == 21 {
            reveal_strlit("|");
        } else if i == 22 {
            reveal_strlit("}");
        } else if i == 23 {
            reveal_strlit("do");
        } else if i == 24 {
            reveal_strlit("fn");
        } else if i == 25 {
            reveal_strlit("i8");
        } else if i == 26 {
            reveal_strlit("if");
        } else if i == 27 {
            reveal_strlit("u8");
        } else if i == 28 {
            reveal_strlit("def");
        } else if i == 29 {
            reveal_strlit("end");
        } else if i == 30 {
            reveal_strlit("for");
        } else if i == 31 {
            reveal_strlit("i16");
        } else if i == 32 {
            reveal_strlit("i32");
        } else if i == 33 {
            reveal_strlit("i64");
        } else if i == 34 {
            reveal_strlit("mut");
        } else if i == 35 {
            reveal_strlit("u16");
        } else if i == 36 {
            reveal_strlit("u32");
        } else if i == 37 {
            reveal_strlit("u64");
        } else if i == 38 {
            reveal_strlit("char");
        } else if i == 39 {
            reveal_strlit("else");
        } else if i == 40 {
            reveal_strlit("i128");
        } else if i == 41 {
            reveal_strlit("null");
        } else if i == 42 {
            reveal_strlit("true");
        } else if i == 43 {
            reveal_strlit("type");
        } else if i == 44 {
            reveal_strlit("u128");
        } else if i == 45 {
            reveal_strlit("false");
        } else if i == 46 {
            reveal_strlit("float");
        } else if i == 47 {
            reveal_strlit("isize");
        } else if i == 48 {
            reveal_strlit("match");
        } else if i == 49 {
            reveal_strlit("usize");
        } else if i == 50 {
            reveal_strlit("while");
        } else if i == 51 {
            reveal_strlit("double");
        } else if i == 52 {
            reveal_strlit("public");
        } else if i == 53 {
            reveal_strlit("return");
        } else if i == 54 {
            reveal_strlit("static");
        } else if i == 55 {
            reveal_strlit("string");
        } else if i == 56 {
            reveal_strlit("boolean");
        } else if i == 57 {
            reveal_strlit("defimpl");
        } else if i == 58 {
            reveal_strlit("defstruct");
        }
    }
}

/// A character that may continue a numeral.
pub open spec fn numeral_char(c: char) -> bool {
    ascii_digit(c) || c == '.'
}

/// The rest of a numeral, from a state in the middle of it.
proof fn lemma_numeral_rest(s: ScanView)
    requires
        s.wf(),
        s.phase is NumericEval,
        1 <= s.index <= s.input.len(),
        s.buffer == s.input.take(s.index as int),
        s.tokens.len() == 0,
        s.line == 0,
        s.column == s.index,
        s.curr == Some(s.input[s.index - 1]),
        s.failure is None,
        forall|i: int| 0 <= i < s.input.len() ==> numeral_char(#[trigger] s.input[i]),
    ensures
        run(s).tokens == single(s.ready, s.input),
        run(s).failure is None,
    decreases s.input.len() - s.index,
{
    if s.index == s.input.len() {
        assert(s.buffer =~= s.input);
        lemma_finish(s);
    } else {
        let c = s.input[s.index as int];
        assert(numeral_char(c));
        assert(s.curr != Some('\n'));
        let t = s.step();
        assert(t == s.advance().append(c).go(Phase::NumericEval));
        assert(t.buffer =~= s.input.take(t.index as int));
        lemma_step_wf(s);
        lemma_numeral_rest(t);
    }
}

/// An integer literal: ASCII digits only.
pub open spec fn integer_literal(d: Seq<char>) -> bool {
    d.len() >= 1 && forall|i: int| 0 <= i < d.len() ==> ascii_digit(#[trigger] d[i])
}

/// A literal with exactly one decimal point, with digits on both sides of it.
pub open spec fn decimal_literal(d: Seq<char>) -> bool {
    exists|p: int|
        1 <= p < d.len() - 1 && #[trigger] d[p] == '.' && forall|i: int|
            0 <= i < d.len() && i != p ==> ascii_digit(#[trigger] d[i])
}

/// A numeral scanned alone is one lexeme, classified by the pattern table
/// alone (no key of the exact table is a numeral): an integer literal, or a
/// literal with one decimal point, yields exactly one token whose lexeme is the
/// whole input, with the category of the first pattern that matches it, and
/// no token only when no pattern matches.
pub proof fn lemma_numeral_one_lexeme(d: Seq<char>, ready: bool)
    requires
        integer_literal(d) || decimal_literal(d),
    ensures
        run(initial(d, ready)).tokens == match pattern_kind(ready, d) {
            Some(k) => seq![TokenView { kind: Some(k), lexeme: d, line: 0, column: 0 }],
            None => seq![],
        },
        run(initial(d, ready)).failure is None,
{
    assert(d.len() >= 1 && ascii_digit(d[0]) && forall|i: int|
        0 <= i < d.len() ==> numeral_char(#[trigger] d[i]));
    lemma_keys_not_numerals();
    lemma_lookup_found(exact_table(), d);
    assert(lookup(exact_table(), d) is None);
    let s = initial(d, ready);
    let t = s.step();
    lemma_step_wf(s);
    assert(t.phase is NumericEval);
    assert(t.buffer =~= d.take(1));
    lemma_numeral_rest(t);
}

} // verus!
