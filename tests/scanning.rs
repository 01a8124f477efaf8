use rot::lexer::token::is_special_char;
use rot::lexer::lexer::Lexer;
use rot::lexer::token::{
    build_complex_dictionary, build_simple_dictionary, find_kind, Kind, Token,
};

fn scan(text: &str) -> Lexer {
    let mut lex = Lexer::new(text.chars().collect());
    lex.lex();
    lex
}

fn kinds(lex: &Lexer) -> Vec<Kind> {
    lex.tokens.iter().map(|t| t.kind.clone()).collect()
}

fn lexemes(lex: &Lexer) -> Vec<String> {
    lex.tokens.iter().map(|t| t.lexeme.clone()).collect()
}

fn assert_single(text: &str, kind: Kind) {
    let lex = scan(text);
    assert_eq!(lex.tokens.len(), 1, "tokens of {:?}", text);
    assert_eq!(lex.tokens[0].kind, kind);
    assert_eq!(lex.tokens[0].lexeme, text);
    assert_eq!(lex.failure(), None);
}

#[test]
fn whitespace_only_yields_nothing() {
    for text in ["", " ", "   \t\n  \r\n", "\n\n\n"] {
        let lex = scan(text);
        assert!(lex.tokens.is_empty());
        assert_eq!(lex.failure(), None);
    }
}

#[test]
fn exact_keys_alone() {
    assert_single("def", Kind::Def);
    assert_single("while", Kind::While);
    assert_single("u8", Kind::U8);
    assert_single("(", Kind::LeftParen);
    assert_single("return", Kind::Return);
    assert_single("i128", Kind::I128);
    assert_single("#", Kind::Hash);
    assert_single("\"", Kind::DoubleQuote);
    assert_single(";", Kind::Semicolon);
}

#[test]
fn numerals_alone() {
    assert_single("7", Kind::IntLiteral);
    assert_single("30278420199", Kind::IntLiteral);
    assert_single("0.5", Kind::DoubleLiteral);
}

#[test]
fn escaped_quote_stays_in_string() {
    assert_single("\"a\\\"b\"", Kind::StringLiteral);
}

#[test]
fn elvis_is_one_token() {
    let lex = scan("?:");
    assert_eq!(kinds(&lex), vec![Kind::Elvis]);
    assert_eq!(lex.tokens[0].line_position, 0);
}

#[test]
fn combined_operators() {
    assert_single("==", Kind::IsEqual);
    assert_single("!=", Kind::NotEqual);
    assert_single("<=", Kind::LessThanOrEqual);
    assert_single("&&", Kind::LogicalAnd);
    assert_single("||", Kind::LogicalOr);
    assert_single("->", Kind::Arrow);
}

#[test]
fn comment_spans_to_newline() {
    assert_single("# a comment\n", Kind::Comment);
}

#[test]
fn newline_in_string_halts() {
    let lex = scan("def \"ab\ncd\" end");
    assert_eq!(kinds(&lex), vec![Kind::Def]);
    assert_eq!(lex.failure(), Some("found newline in possible string".to_string()));
}

#[test]
fn newline_in_char_halts() {
    let lex = scan("x 'a\n'");
    assert_eq!(kinds(&lex), vec![Kind::Identifier]);
    assert_eq!(lex.failure(), Some("found newline in possible char".to_string()));
}

#[test]
fn newline_in_regex_halts() {
    let lex = scan("r\"a\nb\"");
    assert!(lex.tokens.is_empty());
    assert_eq!(
        lex.failure(),
        Some("regex eval has seen a new line in regex expression".to_string())
    );
}

#[test]
fn statement_with_spaced_semicolon() {
    let lex = scan("def x = 5 ;\n");
    assert_eq!(
        kinds(&lex),
        vec![Kind::Def, Kind::Identifier, Kind::Equal, Kind::IntLiteral, Kind::Semicolon]
    );
    assert_eq!(lexemes(&lex), vec!["def", "x", "=", "5", ";"]);
    assert_eq!(lex.failure(), None);
}

#[test]
fn numeral_followed_by_punctuation_halts() {
    let lex = scan("def x = 5;\n");
    assert_eq!(kinds(&lex), vec![Kind::Def, Kind::Identifier, Kind::Equal]);
    assert_eq!(lex.failure(), Some("issue lexing 5;".to_string()));
}

#[test]
fn regex_literal_alone() {
    assert_single("r\"ab*\"", Kind::RegexLiteral);
}

#[test]
fn identifier_starting_with_r() {
    assert_single("rest", Kind::Identifier);
    assert_single("r", Kind::Identifier);
    let lex = scan("r x");
    assert_eq!(lexemes(&lex), vec!["r", "x"]);
}

#[test]
fn unknown_character_halts() {
    let lex = scan("a @ b");
    assert_eq!(kinds(&lex), vec![Kind::Identifier]);
    assert_eq!(lex.failure(), Some("could not determine case".to_string()));
}

#[test]
fn keyword_with_bad_character_halts() {
    let lex = scan("ab$");
    assert!(lex.tokens.is_empty());
    assert_eq!(lex.failure(), Some("issue lexing ab$".to_string()));
}

#[test]
fn unclassified_punctuation_becomes_error_token() {
    let lex = scan("\\(");
    assert_eq!(lex.tokens.len(), 2);
    assert_eq!(
        lex.tokens[0].kind,
        Kind::Error("could not determine kind of \\".to_string())
    );
    assert_eq!(lex.tokens[0].lexeme, "\\");
    assert_eq!(lex.tokens[0].line_position, 0);
    assert_eq!(lex.tokens[1].kind, Kind::LeftParen);
    assert_eq!(lex.tokens[1].line_position, 1);
}

#[test]
fn unclassified_lexeme_is_dropped() {
    let lex = scan("'");
    assert!(lex.tokens.is_empty());
    assert_eq!(lex.failure(), None);
}

#[test]
fn punctuation_pair_that_does_not_combine() {
    let lex = scan("()");
    assert_eq!(kinds(&lex), vec![Kind::LeftParen, Kind::RightParen]);
    assert_eq!(lex.tokens[0].line_position, 0);
    assert_eq!(lex.tokens[1].line_position, 1);
}

#[test]
fn keyword_then_punctuation() {
    let lex = scan("f(x)");
    assert_eq!(
        kinds(&lex),
        vec![Kind::Identifier, Kind::LeftParen, Kind::Identifier, Kind::RightParen]
    );
    let cols: Vec<usize> = lex.tokens.iter().map(|t| t.line_position).collect();
    assert_eq!(cols, vec![0, 1, 2, 3]);
}

#[test]
fn word_then_punctuation_columns() {
    let lex = scan("f(");
    assert_eq!(kinds(&lex), vec![Kind::Identifier, Kind::LeftParen]);
    assert_eq!(lex.tokens[0].line_position, 0);
    assert_eq!(lex.tokens[1].line_position, 1);
    let lex = scan("  abc;");
    assert_eq!(lexemes(&lex), vec!["abc", ";"]);
    assert_eq!(lex.tokens[0].line_position, 2);
    assert_eq!(lex.tokens[1].line_position, 5);
}

#[test]
fn positions_point_at_first_character() {
    let lex = scan("ab cd\n  efg");
    let pos: Vec<(usize, usize)> =
        lex.tokens.iter().map(|t| (t.line_number, t.line_position)).collect();
    assert_eq!(pos, vec![(0, 0), (0, 3), (1, 2)]);
}

#[test]
fn comment_keeps_its_line() {
    let lex = scan("# c\nx");
    assert_eq!(kinds(&lex), vec![Kind::Comment, Kind::Identifier]);
    assert_eq!(lex.tokens[0].line_number, 0);
    assert_eq!(lex.tokens[1].line_number, 1);
    assert_eq!(lex.tokens[1].line_position, 0);
}

#[test]
fn open_string_at_end_is_flushed() {
    // flushed, but no rule matches the unclosed literal, so it is dropped
    let lex = scan("\"abc");
    assert!(lex.tokens.is_empty());
    assert_eq!(lex.failure(), None);
}

#[test]
fn string_then_identifier() {
    let lex = scan("\"x\" y");
    assert_eq!(kinds(&lex), vec![Kind::StringLiteral, Kind::Identifier]);
    assert_eq!(lex.tokens[1].line_position, 4);
}

#[test]
fn double_backslash_before_quote_still_escapes() {
    let text = "\"a\\\\\" b";
    // the closing quote counts as escaped, so the literal runs to the end of
    // the input, where no rule matches it
    let lex = scan(text);
    assert!(lex.tokens.is_empty());
    assert_eq!(lex.failure(), None);
    let text = "\"a\\\\\"";
    let lex = scan(text);
    assert_eq!(lexemes(&lex), vec![text]);
    assert_eq!(kinds(&lex), vec![Kind::StringLiteral]);
}

#[test]
fn char_literal() {
    assert_single("'a'", Kind::CharLiteral);
}

#[test]
fn tokens_accessor_matches_field() {
    let lex = scan("a b");
    assert_eq!(lex.tokens(), &lex.tokens);
    assert_eq!(lex.tokens().len(), 2);
}

#[test]
fn reset_starts_over() {
    let mut lex = scan("def x");
    assert_eq!(lex.tokens.len(), 2);
    lex.reset("while".chars().collect());
    assert!(lex.tokens.is_empty());
    lex.lex();
    assert_eq!(kinds(&lex), vec![Kind::While]);
}

#[test]
fn reset_clears_error() {
    let mut lex = scan("@");
    assert!(lex.failure().is_some());
    lex.reset("do".chars().collect());
    lex.lex();
    assert_eq!(lex.failure(), None);
    assert_eq!(kinds(&lex), vec![Kind::Do]);
}

#[test]
fn classifier_exact_before_patterns() {
    let c = build_complex_dictionary();
    let s = build_simple_dictionary();
    assert_eq!(find_kind(c, s, "while".to_string()), Some(Kind::While));
}

#[test]
fn classifier_patterns_in_order() {
    let k = |t: &str| {
        find_kind(build_complex_dictionary(), build_simple_dictionary(), t.to_string())
    };
    assert_eq!(k("123"), Some(Kind::IntLiteral));
    assert_eq!(k("1.5"), Some(Kind::DoubleLiteral));
    assert_eq!(k("abc_1"), Some(Kind::Identifier));
    assert_eq!(k("\"q\""), Some(Kind::StringLiteral));
    assert_eq!(k("  "), Some(Kind::WhiteSpace));
    assert_eq!(k("+="), Some(Kind::Decrement));
    assert_eq!(k("-="), Some(Kind::Increment));
    assert_eq!(k("@"), None);
    assert_eq!(k("a@b"), None);
    assert_eq!(k("r(x"), None);
    assert_eq!(k("\"abc"), None);
    assert_eq!(k(""), None);
}

#[test]
fn special_characters() {
    for c in "!*)(][}{\\|:?/,.;-+<>&=".chars() {
        assert!(is_special_char(c), "{:?}", c);
    }
    for c in "#\"'_ a0@$".chars() {
        assert!(!is_special_char(c), "{:?}", c);
    }
}

#[test]
fn token_new_keeps_fields() {
    let t = Token::new(Kind::Dot, ".".to_string(), 3, 4);
    assert_eq!(t.kind, Kind::Dot);
    assert_eq!(t.lexeme, ".");
    assert_eq!(t.line_number, 3);
    assert_eq!(t.line_position, 4);
    assert_eq!(t.clone(), t);
}

#[test]
fn non_ascii_words_match_no_rule() {
    let lex = scan("école");
    assert!(lex.tokens.is_empty());
    assert_eq!(lex.failure(), None);
    let lex = scan("é");
    assert!(lex.tokens.is_empty());
    assert_eq!(lex.failure(), None);
}
