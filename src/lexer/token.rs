//! Tokens, their categories, and the two-tier classifier: an exact table of
//! fixed lexemes, then an ordered table of patterns matched by a regex set.
use regex::RegexSet;
use vstd::prelude::*;

verus! {

/// The category of a token.
#[derive(PartialEq, Eq, Hash, Debug)]
pub enum Kind {
    // keywords
    Identifier,
    Do,
    End,
    DefStruct,
    Def,
    DefImpl,
    Static,
    Type,
    Return,
    Public,
    Mutable,
    Fn,
    Match,
    Else,
    If,
    For,
    While,

    // type names and values
    I8,
    U8,
    I16,
    U16,
    I32,
    U32,
    I64,
    U64,
    I128,
    U128,
    ISize,
    USize,
    Double,
    Float,
    False,
    True,
    String,
    Null,
    Bool,
    Char,

    // punctuation and single-character operators
    LeftParen,
    RightParen,
    LeftBracket,
    RightBracket,
    LeftCurly,
    RightCurly,
    LessThan,
    GreaterThan,
    Equal,
    Plus,
    Minus,
    Asterisk,
    Slash,
    Hash,
    Dot,
    Comma,
    Colon,
    Semicolon,
    SingleQuote,
    DoubleQuote,
    Comment,
    Pipe,
    Question,
    Exclaim,
    Ampersand,
    WhiteSpace,

    // two-character operators
    LessThanOrEqual,
    GreaterThanOrEqual,
    IsEqual,
    NotEqual,
    LogicalAnd,
    LogicalOr,
    Increment,
    Decrement,
    Elvis,
    Arrow,

    // literal shapes
    IntLiteral,
    DoubleLiteral,
    StringLiteral,
    CharLiteral,
    MultiLnStringLiteral,
    RegexLiteral,
    /// A lexeme that no rule classifies, with a diagnostic.
    Error(String),
}

impl Clone for Kind {
    fn clone(&self) -> (r: Kind)
        ensures
            r == *self,
    {
        match self {
            Kind::Identifier => Kind::Identifier,
            Kind::Do => Kind::Do,
            Kind::End => Kind::End,
            Kind::DefStruct => Kind::DefStruct,
            Kind::Def => Kind::Def,
            Kind::DefImpl => Kind::DefImpl,
            Kind::Static => Kind::Static,
            Kind::Type => Kind::Type,
            Kind::Return => Kind::Return,
            Kind::Public => Kind::Public,
            Kind::Mutable => Kind::Mutable,
            Kind::Fn => Kind::Fn,
            Kind::Match => Kind::Match,
            Kind::Else => Kind::Else,
            Kind::If => Kind::If,
            Kind::For => Kind::For,
            Kind::While => Kind::While,
            Kind::I8 => Kind::I8,
            Kind::U8 => Kind::U8,
            Kind::I16 => Kind::I16,
            Kind::U16 => Kind::U16,
            Kind::I32 => Kind::I32,
            Kind::U32 => Kind::U32,
            Kind::I64 => Kind::I64,
            Kind::U64 => Kind::U64,
            Kind::I128 => Kind::I128,
            Kind::U128 => Kind::U128,
            Kind::ISize => Kind::ISize,
            Kind::USize => Kind::USize,
            Kind::Double => Kind::Double,
            Kind::Float => Kind::Float,
            Kind::False => Kind::False,
            Kind::True => Kind::True,
            Kind::String => Kind::String,
            Kind::Null => Kind::Null,
            Kind::Bool => Kind::Bool,
            Kind::Char => Kind::Char,
            Kind::LeftParen => Kind::LeftParen,
            Kind::RightParen => Kind::RightParen,
            Kind::LeftBracket => Kind::LeftBracket,
            Kind::RightBracket => Kind::RightBracket,
            Kind::LeftCurly => Kind::LeftCurly,
            Kind::RightCurly => Kind::RightCurly,
            Kind::LessThan => Kind::LessThan,
            Kind::GreaterThan => Kind::GreaterThan,
            Kind::Equal => Kind::Equal,
            Kind::Plus => Kind::Plus,
            Kind::Minus => Kind::Minus,
            Kind::Asterisk => Kind::Asterisk,
            Kind::Slash => Kind::Slash,
            Kind::Hash => Kind::Hash,
            Kind::Dot => Kind::Dot,
            Kind::Comma => Kind::Comma,
            Kind::Colon => Kind::Colon,
            Kind::Semicolon => Kind::Semicolon,
            Kind::SingleQuote => Kind::SingleQuote,
            Kind::DoubleQuote => Kind::DoubleQuote,
            Kind::Comment => Kind::Comment,
            Kind::Pipe => Kind::Pipe,
            Kind::Question => Kind::Question,
            Kind::Exclaim => Kind::Exclaim,
            Kind::Ampersand => Kind::Ampersand,
            Kind::WhiteSpace => Kind::WhiteSpace,
            Kind::LessThanOrEqual => Kind::LessThanOrEqual,
            Kind::GreaterThanOrEqual => Kind::GreaterThanOrEqual,
            Kind::IsEqual => Kind::IsEqual,
            Kind::NotEqual => Kind::NotEqual,
            Kind::LogicalAnd => Kind::LogicalAnd,
            Kind::LogicalOr => Kind::LogicalOr,
            Kind::Increment => Kind::Increment,
            Kind::Decrement => Kind::Decrement,
            Kind::Elvis => Kind::Elvis,
            Kind::Arrow => Kind::Arrow,
            Kind::IntLiteral => Kind::IntLiteral,
            Kind::DoubleLiteral => Kind::DoubleLiteral,
            Kind::StringLiteral => Kind::StringLiteral,
            Kind::CharLiteral => Kind::CharLiteral,
            Kind::MultiLnStringLiteral => Kind::MultiLnStringLiteral,
            Kind::RegexLiteral => Kind::RegexLiteral,
            Kind::Error(m) => Kind::Error(m.clone()),
        }
    }
}

/// The text of the diagnostic carried by a token whose lexeme no rule classifies.
pub open spec fn diagnostic(lexeme: Seq<char>) -> Seq<char> {
    "could not determine kind of "@ + lexeme
}

/// A token's abstract value. `kind` is `None` for a token that carries an
/// unclassified lexeme and its diagnostic.
pub struct TokenView {
    pub kind: Option<Kind>,
    pub lexeme: Seq<char>,
    pub line: nat,
    pub column: nat,
}

/// A lexeme with its category and the line and column of its first character.
#[derive(PartialEq, Debug)]
pub struct Token {
    pub kind: Kind,
    pub lexeme: String,
    pub line_number: usize,
    pub line_position: usize,
}

impl View for Token {
    type V = TokenView;

    open spec fn view(&self) -> TokenView {
        TokenView {
            kind: match self.kind {
                Kind::Error(_) => None,
                _ => Some(self.kind),
            },
            lexeme: self.lexeme@,
            line: self.line_number as nat,
            column: self.line_position as nat,
        }
    }
}

impl Token {
    /// An error-kind token carries the diagnostic for its own lexeme.
    pub open spec fn labelled(&self) -> bool {
        self.kind matches Kind::Error(m) ==> m@ == diagnostic(self.lexeme@)
    }

    /// A token of category `kind_t` for the lexeme `text`, whose first
    /// character stands at line `line_num` and column `line_pos`.
    pub fn new(kind_t: Kind, text: String, line_num: usize, line_pos: usize) -> (r: Token)
        ensures
            r == (Token {
                kind: kind_t,
                lexeme: text,
                line_number: line_num,
                line_position: line_pos,
            }),
    {
        Token { kind: kind_t, lexeme: text, line_number: line_num, line_position: line_pos }
    }
}

impl Clone for Token {
    fn clone(&self) -> (r: Token)
        ensures
            r == *self,
    {
        Token {
            kind: self.kind.clone(),
            lexeme: self.lexeme.clone(),
            line_number: self.line_number,
            line_position: self.line_position,
        }
    }
}

/// The views of a sequence of tokens.
pub open spec fn token_views(s: Seq<Token>) -> Seq<TokenView> {
    s.map_values(|t: Token| t@)
}

/// The punctuation and operator characters that may open or extend an operator.
pub open spec fn special(c: char) -> bool {
    c == '!' || c == '*' || c == ')' || c == '(' || c == ']' || c == '[' || c == '}' || c == '{'
        || c == '\\' || c == '|' || c == ':' || c == '?' || c == '/' || c == ',' || c == '.'
        || c == ';' || c == '-' || c == '+' || c == '<' || c == '>' || c == '&' || c == '='
}

/// Whether `x` is one of the punctuation and operator characters
/// `! * ) ( ] [ } { \ | : ? / , . ; - + < > & =`.
pub fn is_special_char(x: char) -> (r: bool)
    ensures
        r == special(x),
{
    match x {
        '!' | '*' | ')' | '(' | ']' | '[' | '}' | '{' | '\\' | '|' | ':' | '?' | '/' | ',' | '.'
        | ';' | '-' | '+' | '<' | '>' | '&' | '=' => true,
        _ => false,
    }
}

/// The exact table: fixed lexemes and their categories, ordered by `key_code`.
pub open spec fn exact_table() -> Seq<(Seq<char>, Kind)> {
    seq![
        ("!"@, Kind::Exclaim),
        ("\""@, Kind::DoubleQuote),
        ("#"@, Kind::Hash),
        ("&"@, Kind::Ampersand),
        ("("@, Kind::LeftParen),
        (")"@, Kind::RightParen),
        ("*"@, Kind::Asterisk),
        ("+"@, Kind::Plus),
        (","@, Kind::Comma),
        ("-"@, Kind::Minus),
        ("."@, Kind::Dot),
        ("/"@, Kind::Slash),
        (":"@, Kind::Colon),
        (";"@, Kind::Semicolon),
        ("<"@, Kind::LessThan),
        ("="@, Kind::Equal),
        (">"@, Kind::GreaterThan),
        ("?"@, Kind::Question),
        ("["@, Kind::LeftBracket),
        ("]"@, Kind::RightBracket),
        ("{"@, Kind::LeftCurly),
        ("|"@, Kind::Pipe),
        ("}"@, Kind::RightCurly),
        ("do"@, Kind::Do),
        ("fn"@, Kind::Fn),
        ("i8"@, Kind::I8),
        ("if"@, Kind::If),
        ("u8"@, Kind::U8),
        ("def"@, Kind::Def),
        ("end"@, Kind::End),
        ("for"@, Kind::For),
        ("i16"@, Kind::I16),
        ("i32"@, Kind::I32),
        ("i64"@, Kind::I64),
        ("mut"@, Kind::Mutable),
        ("u16"@, Kind::U16),
        ("u32"@, Kind::U32),
        ("u64"@, Kind::U64),
        ("char"@, Kind::Char),
        ("else"@, Kind::Else),
        ("i128"@, Kind::I128),
        ("null"@, Kind::Null),
        ("true"@, Kind::True),
        ("type"@, Kind::Type),
        ("u128"@, Kind::U128),
        ("false"@, Kind::False),
        ("float"@, Kind::Float),
        ("isize"@, Kind::ISize),
        ("match"@, Kind::Match),
        ("usize"@, Kind::USize),
        ("while"@, Kind::While),
        ("double"@, Kind::Double),
        ("public"@, Kind::Public),
        ("return"@, Kind::Return),
        ("static"@, Kind::Static),
        ("string"@, Kind::String),
        ("boolean"@, Kind::Bool),
        ("defimpl"@, Kind::DefImpl),
        ("defstruct"@, Kind::DefStruct),
    ]
}

/// No key stands twice in a table.
pub open spec fn keys_distinct(table: Seq<(Seq<char>, Kind)>) -> bool {
    forall|i: int, j: int| 0 <= i < j < table.len() ==> table[i].0 != table[j].0
}

/// A number that tells the keys of the exact table apart: built from the
/// length and the first, second and last characters.
pub open spec fn key_code(s: Seq<char>) -> int {
    let first: int = if s.len() > 0 { s[0] as u32 as int } else { 0 };
    let second: int = if s.len() > 1 { s[1] as u32 as int } else { 0 };
    let last_char: int = if s.len() > 0 { s[s.len() - 1] as u32 as int } else { 0 };
    ((s.len() * 0x110000 + first) * 0x110000 + second) * 0x110000 + last_char
}

/// The key codes rise from entry `i` on.
pub open spec fn codes_rise_from(table: Seq<(Seq<char>, Kind)>, i: int) -> bool
    decreases table.len() - i,
{
    if i < 0 || i + 1 >= table.len() {
        true
    } else {
        key_code(table[i].0) < key_code(table[i + 1].0) && codes_rise_from(table, i + 1)
    }
}

proof fn lemma_codes_rise_at(table: Seq<(Seq<char>, Kind)>, i: int, k: int)
    requires
        0 <= i <= k,
        k + 1 < table.len(),
        codes_rise_from(table, i),
    ensures
        key_code(table[k].0) < key_code(table[k + 1].0),
    decreases k - i,
{
    if i < k {
        lemma_codes_rise_at(table, i + 1, k);
    }
}

proof fn lemma_codes_rise_between(table: Seq<(Seq<char>, Kind)>, i: int, j: int)
    requires
        0 <= i < j < table.len(),
        codes_rise_from(table, 0),
    ensures
        key_code(table[i].0) < key_code(table[j].0),
    decreases j - i,
{
    lemma_codes_rise_at(table, 0, j - 1);
    if i < j - 1 {
        lemma_codes_rise_between(table, i, j - 1);
    }
}

/// The keys of the exact table are distinct: their codes rise along the table.
pub proof fn lemma_exact_keys_distinct()
    ensures
        keys_distinct(exact_table()),
{
    reveal_strlit("!");
    reveal_strlit("\"");
    reveal_strlit("#");
    reveal_strlit("&");
    reveal_strlit("(");
    reveal_strlit(")");
    reveal_strlit("*");
    reveal_strlit("+");
    reveal_strlit(",");
    reveal_strlit("-");
    reveal_strlit(".");
    reveal_strlit("/");
    reveal_strlit(":");
    reveal_strlit(";");
    reveal_strlit("<");
    reveal_strlit("=");
    reveal_strlit(">");
    reveal_strlit("?");
    reveal_strlit("[");
    reveal_strlit("]");
    reveal_strlit("{");
    reveal_strlit("|");
    reveal_strlit("}");
    reveal_strlit("do");
    reveal_strlit("fn");
    reveal_strlit("i8");
    reveal_strlit("if");
    reveal_strlit("u8");
    reveal_strlit("def");
    reveal_strlit("end");
    reveal_strlit("for");
    reveal_strlit("i16");
    reveal_strlit("i32");
    reveal_strlit("i64");
    reveal_strlit("mut");
    reveal_strlit("u16");
    reveal_strlit("u32");
    reveal_strlit("u64");
    reveal_strlit("char");
    reveal_strlit("else");
    reveal_strlit("i128");
    reveal_strlit("null");
    reveal_strlit("true");
    reveal_strlit("type");
    reveal_strlit("u128");
    reveal_strlit("false");
    reveal_strlit("float");
    reveal_strlit("isize");
    reveal_strlit("match");
    reveal_strlit("usize");
    reveal_strlit("while");
    reveal_strlit("double");
    reveal_strlit("public");
    reveal_strlit("return");
    reveal_strlit("static");
    reveal_strlit("string");
    reveal_strlit("boolean");
    reveal_strlit("defimpl");
    reveal_strlit("defstruct");
    reveal_with_fuel(codes_rise_from, 60);
    assert(codes_rise_from(exact_table(), 0));
    assert forall|i: int, j: int| 0 <= i < j < exact_table().len() implies exact_table()[i].0
        != exact_table()[j].0 by {
        lemma_codes_rise_between(exact_table(), i, j);
    }
}

/// The ordered pattern table: a pattern and the category it gives. An earlier
/// rule wins over a later one.
pub open spec fn pattern_table() -> Seq<(Seq<char>, Kind)> {
    seq![
        (r"^[ \t\r\f]+$"@, Kind::WhiteSpace),
        (r"^#.*\n$"@, Kind::Comment),
        (r#"^""".*"""$\r\n"#@, Kind::MultiLnStringLiteral),
        (r"^[0-9]+$"@, Kind::IntLiteral),
        (r#"^".*"$"#@, Kind::StringLiteral),
        (r#"^'.*'$"#@, Kind::CharLiteral),
        (r#"^r".*"$"#@, Kind::RegexLiteral),
        (r"^[0-9]+(\.[0-9]+)?$"@, Kind::DoubleLiteral),
        (r"^\?:$"@, Kind::Elvis),
        (r"^\|\|$"@, Kind::LogicalOr),
        (r"^&&$"@, Kind::LogicalAnd),
        (r"^==$"@, Kind::IsEqual),
        (r"^!=$"@, Kind::NotEqual),
        (r"^-=$"@, Kind::Increment),
        (r"^\+=$"@, Kind::Decrement),
        (r"^<=$"@, Kind::LessThanOrEqual),
        (r"^\+=$"@, Kind::GreaterThanOrEqual),
        (r"^\->$"@, Kind::Arrow),
        (r"^[a-zA-Z_][a-zA-Z0-9_]*$"@, Kind::Identifier),
    ]
}

/// The patterns of the pattern table, in order.
pub open spec fn pattern_sources() -> Seq<Seq<char>> {
    pattern_table().map_values(|e: (Seq<char>, Kind)| e.0)
}

/// The categories of the pattern table, in order.
pub open spec fn pattern_kinds() -> Seq<Kind> {
    pattern_table().map_values(|e: (Seq<char>, Kind)| e.1)
}

/// The category of the first entry of `table` whose key is `key`.
pub open spec fn lookup(table: Seq<(Seq<char>, Kind)>, key: Seq<char>) -> Option<Kind>
    decreases table.len(),
{
    if table.len() == 0 {
        None
    } else if table[0].0 == key {
        Some(table[0].1)
    } else {
        lookup(table.drop_first(), key)
    }
}

/// The views of a sequence of strings.
pub open spec fn string_views(s: Seq<String>) -> Seq<Seq<char>> {
    s.map_values(|p: String| p@)
}

/// The views of a sequence of table entries.
pub open spec fn entry_views(s: Seq<(String, Kind)>) -> Seq<(Seq<char>, Kind)> {
    s.map_values(|e: (String, Kind)| (e.0@, e.1))
}

#[verifier::external_type_specification]
#[verifier::external_body]
pub struct ExRegexSet(regex::RegexSet);

#[verifier::external_type_specification]
#[verifier::external_body]
pub struct ExRegexError(regex::Error);

/// A regex set compiled by `RegexSet::new` from a list of patterns, with the
/// default options. The field is private: only `compile_set` builds one, so
/// what a set matches depends on its patterns alone.
pub struct PatternSet {
    set: RegexSet,
}

/// The patterns that a pattern set was compiled from, in order.
pub uninterp spec fn regex_set_patterns(set: PatternSet) -> Seq<Seq<char>>;

/// The indices of the patterns that match somewhere in `haystack`, for a set
/// compiled from `patterns` with the default options.
pub uninterp spec fn matching_patterns(patterns: Seq<Seq<char>>, haystack: Seq<char>) -> Seq<usize>;

/// Whether a list of patterns compiles into a regex set.
pub uninterp spec fn regex_set_compiles(patterns: Seq<Seq<char>>) -> bool;

/// Relies on `regex::RegexSet::new`: whether it succeeds depends on the patterns
/// alone, and on success the set holds the given patterns in the given order
/// (as `RegexSet::patterns` reports them).
#[verifier::external_body]
fn compile_set(patterns: &Vec<String>) -> (r: Result<PatternSet, regex::Error>)
    ensures
        r is Ok <==> regex_set_compiles(string_views(patterns@)),
        r matches Ok(set) ==> regex_set_patterns(set) == string_views(patterns@),
{
    match RegexSet::new(patterns) {
        Ok(set) => Ok(PatternSet { set }),
        Err(e) => Err(e),
    }
}

/// Relies on `regex::RegexSet::matches`: the indices of the patterns that match
/// somewhere in the haystack, in ascending order, each below the number of patterns.
#[verifier::external_body]
fn set_matches(set: &PatternSet, haystack: &str) -> (r: Vec<usize>)
    ensures
        r@ == matching_patterns(regex_set_patterns(*set), haystack@),
        forall|i: int| 0 <= i < r@.len() ==> (r@[i] as int) < regex_set_patterns(*set).len(),
        forall|i: int, j: int| 0 <= i < j < r@.len() ==> r@[i] < r@[j],
{
    set.set.matches(haystack).into_iter().collect()
}

/// The exact table, held as an ordered list of entries.
pub struct SimpleDict {
    pub entries: Vec<(String, Kind)>,
}

impl View for SimpleDict {
    type V = Seq<(Seq<char>, Kind)>;

    open spec fn view(&self) -> Seq<(Seq<char>, Kind)> {
        entry_views(self.entries@)
    }
}

/// The pattern table: the category of each pattern by index, and the compiled
/// set of patterns (absent when the patterns could not be compiled).
pub struct ComplexDict {
    pub kinds: Vec<Kind>,
    pub set: Option<PatternSet>,
}

impl ComplexDict {
    /// Whether the patterns were compiled.
    pub open spec fn ready(&self) -> bool {
        self.set is Some
    }

    /// The category of the first pattern that matches `s`, if any.
    pub open spec fn first_kind(&self, s: Seq<char>) -> Option<Kind> {
        match self.set {
            None => None,
            Some(set) => {
                let hits = matching_patterns(regex_set_patterns(set), s);
                if hits.len() > 0 && (hits[0] as int) < self.kinds@.len() {
                    Some(self.kinds@[hits[0] as int])
                } else {
                    None
                }
            },
        }
    }

    /// Built from the pattern table.
    pub open spec fn wf(&self) -> bool {
        &&& self.kinds@ == pattern_kinds()
        &&& self.set matches Some(set) ==> regex_set_patterns(set) == pattern_sources()
    }
}

/// The category that the pattern table gives `s`, when its patterns are compiled.
pub open spec fn pattern_kind(ready: bool, s: Seq<char>) -> Option<Kind> {
    let hits = matching_patterns(pattern_sources(), s);
    if ready && hits.len() > 0 && (hits[0] as int) < pattern_kinds().len() {
        Some(pattern_kinds()[hits[0] as int])
    } else {
        None
    }
}

/// A found entry of a table is one of its entries.
pub proof fn lemma_lookup_found(table: Seq<(Seq<char>, Kind)>, key: Seq<char>)
    ensures
        lookup(table, key) matches Some(k) ==> exists|i: int|
            0 <= i < table.len() && table[i].0 == key && #[trigger] table[i].1 == k,
    decreases table.len(),
{
    if table.len() > 0 && table[0].0 != key {
        lemma_lookup_found(table.drop_first(), key);
        if let Some(k) = lookup(table.drop_first(), key) {
            let i = choose|i: int|
                0 <= i < table.drop_first().len() && table.drop_first()[i].0 == key
                    && #[trigger] table.drop_first()[i].1 == k;
            assert(table[i + 1].1 == k);
        }
    }
}

/// The classifier never gives the error category.
pub proof fn lemma_classify_plain(ready: bool, s: Seq<char>)
    ensures
        classify(ready, s) matches Some(k) ==> k !is Error,
{
    lemma_lookup_found(exact_table(), s);
    assert forall|i: int| 0 <= i < exact_table().len() implies #[trigger] exact_table()[i].1
        !is Error by {}
    assert forall|i: int| 0 <= i < pattern_kinds().len() implies #[trigger] pattern_kinds()[i]
        !is Error by {}
}

/// Two-tier classification: an exact entry wins; otherwise the first matching pattern.
pub open spec fn classify(ready: bool, s: Seq<char>) -> Option<Kind> {
    match lookup(exact_table(), s) {
        Some(k) => Some(k),
        None => pattern_kind(ready, s),
    }
}

/// An exact-table entry.
fn entry(key: &str, kind: Kind) -> (r: (String, Kind))
    ensures
        r.0@ == key@,
        r.1 == kind,
{
    (key.to_string(), kind)
}

/// Builds the exact table.
pub fn build_simple_dictionary() -> (r: SimpleDict)
    ensures
        r@ == exact_table(),
        keys_distinct(r@),
{
    proof {
        lemma_exact_keys_distinct();
    }
    let entries = vec![
        entry("!", Kind::Exclaim),
        entry("\"", Kind::DoubleQuote),
        entry("#", Kind::Hash),
        entry("&", Kind::Ampersand),
        entry("(", Kind::LeftParen),
        entry(")", Kind::RightParen),
        entry("*", Kind::Asterisk),
        entry("+", Kind::Plus),
        entry(",", Kind::Comma),
        entry("-", Kind::Minus),
        entry(".", Kind::Dot),
        entry("/", Kind::Slash),
        entry(":", Kind::Colon),
        entry(";", Kind::Semicolon),
        entry("<", Kind::LessThan),
        entry("=", Kind::Equal),
        entry(">", Kind::GreaterThan),
        entry("?", Kind::Question),
        entry("[", Kind::LeftBracket),
        entry("]", Kind::RightBracket),
        entry("{", Kind::LeftCurly),
        entry("|", Kind::Pipe),
        entry("}", Kind::RightCurly),
        entry("do", Kind::Do),
        entry("fn", Kind::Fn),
        entry("i8", Kind::I8),
        entry("if", Kind::If),
        entry("u8", Kind::U8),
        entry("def", Kind::Def),
        entry("end", Kind::End),
        entry("for", Kind::For),
        entry("i16", Kind::I16),
        entry("i32", Kind::I32),
        entry("i64", Kind::I64),
        entry("mut", Kind::Mutable),
        entry("u16", Kind::U16),
        entry("u32", Kind::U32),
        entry("u64", Kind::U64),
        entry("char", Kind::Char),
        entry("else", Kind::Else),
        entry("i128", Kind::I128),
        entry("null", Kind::Null),
        entry("true", Kind::True),
        entry("type", Kind::Type),
        entry("u128", Kind::U128),
        entry("false", Kind::False),
        entry("float", Kind::Float),
        entry("isize", Kind::ISize),
        entry("match", Kind::Match),
        entry("usize", Kind::USize),
        entry("while", Kind::While),
        entry("double", Kind::Double),
        entry("public", Kind::Public),
        entry("return", Kind::Return),
        entry("static", Kind::Static),
        entry("string", Kind::String),
        entry("boolean", Kind::Bool),
        entry("defimpl", Kind::DefImpl),
        entry("defstruct", Kind::DefStruct),
    ];
    let r = SimpleDict { entries };
    assert(r@ =~= exact_table());
    r
}

/// Builds the pattern table and compiles its patterns into one regex set.
pub fn build_complex_dictionary() -> (r: ComplexDict)
    ensures
        r.wf(),
        r.ready() == regex_set_compiles(pattern_sources()),
{
    let links = vec![
        entry(r"^[ \t\r\f]+$", Kind::WhiteSpace),
        entry(r"^#.*\n$", Kind::Comment),
        entry(r#"^""".*"""$\r\n"#, Kind::MultiLnStringLiteral),
        entry(r"^[0-9]+$", Kind::IntLiteral),
        entry(r#"^".*"$"#, Kind::StringLiteral),
        entry(r#"^'.*'$"#, Kind::CharLiteral),
        entry(r#"^r".*"$"#, Kind::RegexLiteral),
        entry(r"^[0-9]+(\.[0-9]+)?$", Kind::DoubleLiteral),
        entry(r"^\?:$", Kind::Elvis),
        entry(r"^\|\|$", Kind::LogicalOr),
        entry(r"^&&$", Kind::LogicalAnd),
        entry(r"^==$", Kind::IsEqual),
        entry(r"^!=$", Kind::NotEqual),
        entry(r"^-=$", Kind::Increment),
        entry(r"^\+=$", Kind::Decrement),
        entry(r"^<=$", Kind::LessThanOrEqual),
        entry(r"^\+=$", Kind::GreaterThanOrEqual),
        entry(r"^\->$", Kind::Arrow),
        entry(r"^[a-zA-Z_][a-zA-Z0-9_]*$", Kind::Identifier),
    ];
    let mut kinds: Vec<Kind> = Vec::new();
    let mut patterns: Vec<String> = Vec::new();
    let mut i: usize = 0;
    while i < links.len()
        invariant
            i <= links.len(),
            entry_views(links@) == pattern_table(),
            links@.len() == pattern_table().len(),
            patterns@.len() == i,
            kinds@ == pattern_kinds().take(i as int),
            string_views(patterns@) == pattern_sources().take(i as int),
        decreases links.len() - i,
    {
        let ghost before = patterns@;
        kinds.push(links[i].1.clone());
        patterns.push(links[i].0.clone());
        proof {
            assert forall|j: int| 0 <= j < i implies patterns@[j]@ == pattern_sources()[j] by {
                assert(string_views(before)[j] == pattern_sources().take(i as int)[j]);
            }
            assert(entry_views(links@)[i as int] == pattern_table()[i as int]);
            assert(kinds@ =~= pattern_kinds().take(i + 1));
            assert(string_views(patterns@) =~= pattern_sources().take(i + 1));
        }
        i += 1;
    }
    proof {
        assert(kinds@ =~= pattern_kinds());
        assert(string_views(patterns@) =~= pattern_sources());
    }
    let set = match compile_set(&patterns) {
        Ok(set) => Some(set),
        Err(_) => None,
    };
    ComplexDict { kinds, set }
}

/// Exact-table lookup.
fn simple_eval_kind(dict: &SimpleDict, input: &String) -> (r: Option<Kind>)
    ensures
        r == lookup(dict@, input@),
{
    let mut i: usize = 0;
    assert(dict@.skip(0) =~= dict@);
    while i < dict.entries.len()
        invariant
            i <= dict.entries.len(),
            lookup(dict@, input@) == lookup(dict@.skip(i as int), input@),
        decreases dict.entries.len() - i,
    {
        assert(dict@.skip(i as int)[0] == dict@[i as int]);
        if dict.entries[i].0 == *input {
            return Some(dict.entries[i].1.clone());
        }
        assert(dict@.skip(i as int).drop_first() =~= dict@.skip(i + 1));
        i += 1;
    }
    None
}

/// Pattern-table classification: the category of the first pattern that matches.
fn complex_eval_kind(dict: &ComplexDict, input: &String) -> (r: Option<Kind>)
    ensures
        r == dict.first_kind(input@),
{
    match &dict.set {
        None => None,
        Some(set) => {
            let hits = set_matches(set, input.as_str());
            if hits.len() == 0 {
                None
            } else {
                let first = hits[0];
                if first < dict.kinds.len() {
                    Some(dict.kinds[first].clone())
                } else {
                    None
                }
            }
        },
    }
}

/// Classifies a lexeme: the exact table first, then the pattern table.
pub fn find_kind(
    complex_dict: ComplexDict,
    simple_dictionary: SimpleDict,
    input: String,
) -> (r: Option<Kind>)
    ensures
        r == match lookup(simple_dictionary@, input@) {
            Some(k) => Some(k),
            None => complex_dict.first_kind(input@),
        },
{
    kind_of(&complex_dict, &simple_dictionary, &input)
}

/// Classifies a lexeme against tables held by reference.
pub(crate) fn kind_of(
    complex_dict: &ComplexDict,
    simple_dict: &SimpleDict,
    input: &String,
) -> (r: Option<Kind>)
    ensures
        r == match lookup(simple_dict@, input@) {
            Some(k) => Some(k),
            None => complex_dict.first_kind(input@),
        },
{
    match simple_eval_kind(simple_dict, input) {
        Some(k) => Some(k),
        None => complex_eval_kind(complex_dict, input),
    }
}

} // verus!
