use yuck_syntax::lexer::matcher::{
    grapheme_is_digit, peek_comment, peek_keyword, peek_literal_string, peek_operator_comparison,
    peek_operator_logical, peek_symbol, peek_token, peek_whitespace, PeekedToken,
};
use yuck_syntax::lexer::{
    grapheme_is_whitespace, is_segmentation_of, segment, Lexer, LexerResult, LexicalError, Tok,
};
use yuck_syntax::spanned::SourceSpan;

#[test]
fn trailing_whitespace() {
    let lexer = Lexer::new("()\n   ");

    assert_eq!(
        lexer.collect(),
        vec![
            Ok((0, Tok::DelimiterLeftParen, 1)),
            Ok((1, Tok::DelimiterRightParen, 2)),
        ]
    );
}

#[test]
fn empty_input_yields_nothing() {
    assert_eq!(segment(""), Vec::<(usize, &str)>::new());
    assert_eq!(Lexer::new("").collect(), Vec::<LexerResult>::new());
    assert_eq!(Lexer::new("").next(), None);
    assert_eq!(Lexer::new(" \t\r\n ").collect(), Vec::<LexerResult>::new());
}

#[test]
fn graphemes_carry_their_byte_offsets() {
    assert_eq!(
        segment("a\u{310}e\u{301}o\u{308}\u{332}\r\n"),
        vec![
            (0, "a\u{310}"),
            (3, "e\u{301}"),
            (6, "o\u{308}\u{332}"),
            (11, "\r\n")
        ]
    );
}

#[test]
fn graphemes_cover_the_text() {
    for raw in [
        "",
        "(defvar foo \"bar\")",
        "a\u{310}e\u{301}o\u{308}\u{332}\r\n",
        "\u{1F1F7}\u{1F1FA}\u{1F1F8}\u{1F1F9} x",
        "\u{65e5}\u{672c}\u{8a9e} 123",
    ] {
        let graphemes = segment(raw);
        assert!(is_segmentation_of(&graphemes, raw));
        let mut joined = String::new();
        let mut end = 0;
        for (offset, slice) in &graphemes {
            assert_eq!(*offset, end, "gap or overlap in '{}'", raw);
            assert!(!slice.is_empty());
            assert_eq!(&raw[*offset..*offset + slice.len()], *slice);
            joined.push_str(slice);
            end = offset + slice.len();
        }
        assert_eq!(end, raw.len());
        assert_eq!(joined, raw);
    }
}

#[test]
fn broken_segmentations_are_told_apart() {
    let raw = "ab\u{e9}";
    assert!(is_segmentation_of(&[(0, "a"), (1, "b"), (2, "\u{e9}")], raw));
    assert!(is_segmentation_of(&[(0, "ab"), (2, "\u{e9}")], raw));
    assert!(is_segmentation_of(&[], ""));

    assert!(!is_segmentation_of(&[], raw), "nothing covered");
    assert!(
        !is_segmentation_of(&[(0, "a"), (1, "b")], raw),
        "end not reached"
    );
    assert!(
        !is_segmentation_of(&[(1, "b"), (2, "\u{e9}")], raw),
        "start not covered"
    );
    assert!(
        !is_segmentation_of(&[(0, "a"), (2, "\u{e9}")], raw),
        "gap between graphemes"
    );
    assert!(
        !is_segmentation_of(&[(0, "ab"), (1, "b"), (2, "\u{e9}")], raw),
        "overlapping graphemes"
    );
    assert!(
        !is_segmentation_of(&[(0, "a"), (1, "x"), (2, "\u{e9}")], raw),
        "slice differs from the text"
    );
    assert!(
        !is_segmentation_of(&[(0, "a"), (1, ""), (1, "b"), (2, "\u{e9}")], raw),
        "empty grapheme"
    );
    assert!(
        !is_segmentation_of(&[(0, "a"), (1, "b"), (2, "\u{e9}x")], raw),
        "past the end"
    );
    assert!(!is_segmentation_of(&[(0, "a")], ""));
}

#[test]
fn tokens_and_skipped_whitespace_cover_the_text() {
    for raw in [
        "(defvar foo \"bar\")",
        "  (defpoll volume :interval \"1s\"\n\t\"scripts/getvol\")  \r\n",
        "a==b !=c<= d >=e<f>g||h&&!i",
        "1 + 22*3 / 4 % 5 - 6 ? true : false",
        "\u{65e5}\u{672c}\u{8a9e} [x, y] \"\u{1F1F7}\u{1F1FA}\" 9\u{301}",
    ] {
        let mut rebuilt = String::new();
        let mut end = 0;
        for item in Lexer::new(raw).collect() {
            let (from, _, to) = item.expect("no lexical error");
            assert!(end <= from && from < to && to <= raw.len());
            let skipped = &raw[end..from];
            assert!(skipped.chars().all(|c| c.is_whitespace()));
            rebuilt.push_str(skipped);
            rebuilt.push_str(&raw[from..to]);
            end = to;
        }
        let trailing = &raw[end..];
        assert!(trailing.chars().all(|c| c.is_whitespace()));
        rebuilt.push_str(trailing);
        assert_eq!(rebuilt, raw);
    }
}

#[test]
fn two_character_operators_are_one_token() {
    assert_eq!(
        Lexer::new("==").collect(),
        vec![Ok((0, Tok::OperatorComparisonEqual, 2))]
    );
    assert_eq!(
        Lexer::new(">").collect(),
        vec![Ok((0, Tok::OperatorComparisonGreaterThan, 1))]
    );
    assert_eq!(
        Lexer::new(">=").collect(),
        vec![Ok((0, Tok::OperatorComparisonGreaterThanOrEquals, 2))]
    );
    assert_eq!(
        Lexer::new("<= <").collect(),
        vec![
            Ok((0, Tok::OperatorComparisonLessThanOrEquals, 2)),
            Ok((3, Tok::OperatorComparisonLessThan, 4))
        ]
    );
    assert_eq!(
        Lexer::new("!= !").collect(),
        vec![
            Ok((0, Tok::OperatorComparisonNotEqual, 2)),
            Ok((3, Tok::OperatorLogicalNot, 4))
        ]
    );
    assert_eq!(
        Lexer::new("|| &&").collect(),
        vec![
            Ok((0, Tok::OperatorLogicalOr, 2)),
            Ok((3, Tok::OperatorLogicalAnd, 5))
        ]
    );
}

#[test]
fn operator_matchers_prefer_the_longer_match() {
    let raw = ">=>";
    let graphemes = segment(raw);
    assert_eq!(
        peek_operator_comparison(&graphemes, 0, raw),
        Some(Ok(PeekedToken::new(
            Tok::OperatorComparisonGreaterThanOrEquals,
            0,
            2,
            2
        )))
    );
    assert_eq!(
        peek_operator_comparison(&graphemes, 1, raw),
        None,
        "'=' alone is no comparison operator"
    );
    assert_eq!(
        peek_operator_comparison(&graphemes, 2, raw),
        Some(Ok(PeekedToken::new(
            Tok::OperatorComparisonGreaterThan,
            2,
            3,
            1
        )))
    );
    assert_eq!(peek_operator_comparison(&graphemes, 3, raw), None);
    assert_eq!(peek_operator_logical(&graphemes, 0, raw), None);

    let raw = "|&";
    let graphemes = segment(raw);
    assert_eq!(peek_operator_logical(&graphemes, 0, raw), None);
    assert_eq!(peek_operator_logical(&graphemes, 1, raw), None);
}

#[test]
fn keyword_needs_the_whole_word() {
    assert_eq!(
        Lexer::new("defvarx").collect(),
        vec![Ok((0, Tok::LiteralSymbol("defvarx"), 7))]
    );
    assert_eq!(
        Lexer::new("defvar").collect(),
        vec![Ok((0, Tok::KeywordDefVar, 6))]
    );
    assert_eq!(
        Lexer::new("Defvar").collect(),
        vec![Ok((0, Tok::LiteralSymbol("Defvar"), 6))]
    );

    let raw = "defvarx";
    let graphemes = segment(raw);
    assert_eq!(peek_keyword(&graphemes, 0, raw), None);
    assert_eq!(peek_keyword(&graphemes, 7, raw), None);
}

#[test]
fn delimiters_end_keywords_and_symbols() {
    assert_eq!(
        Lexer::new("(defvar foo)").collect(),
        vec![
            Ok((0, Tok::DelimiterLeftParen, 1)),
            Ok((1, Tok::KeywordDefVar, 7)),
            Ok((8, Tok::LiteralSymbol("foo"), 11)),
            Ok((11, Tok::DelimiterRightParen, 12)),
        ]
    );
    assert_eq!(
        Lexer::new("[a,true]").collect(),
        vec![
            Ok((0, Tok::DelimiterLeftBracket, 1)),
            Ok((1, Tok::LiteralSymbol("a"), 2)),
            Ok((2, Tok::DelimiterComma, 3)),
            Ok((3, Tok::KeywordTrue, 7)),
            Ok((7, Tok::DelimiterRightBracket, 8)),
        ]
    );
}

#[test]
fn symbols_take_any_character_but_whitespace_and_delimiters() {
    assert_eq!(
        Lexer::new("foo:bar?baz a+b\u{65e5}\u{672c}").collect(),
        vec![
            Ok((0, Tok::LiteralSymbol("foo:bar?baz"), 11)),
            Ok((12, Tok::LiteralSymbol("a+b\u{65e5}\u{672c}"), 21)),
        ]
    );
    assert_eq!(
        Lexer::new(":interval").collect(),
        vec![
            Ok((0, Tok::PunctuationColon, 1)),
            Ok((1, Tok::LiteralSymbol("interval"), 9)),
        ]
    );
    assert_eq!(
        Lexer::new("= ;x").collect(),
        vec![
            Ok((0, Tok::LiteralSymbol("="), 1)),
            Ok((2, Tok::LiteralSymbol(";x"), 4)),
        ]
    );
    assert_eq!(
        Lexer::new("x]y").collect(),
        vec![
            Ok((0, Tok::LiteralSymbol("x"), 1)),
            Ok((1, Tok::DelimiterRightBracket, 2)),
            Ok((2, Tok::LiteralSymbol("y"), 3)),
        ]
    );
}

#[test]
fn symbol_is_empty_at_a_boundary() {
    let raw = "a )";
    let graphemes = segment(raw);
    assert_eq!(
        peek_symbol(&graphemes, 1, raw),
        Some(Ok(PeekedToken::new(Tok::LiteralSymbol(""), 1, 1, 0)))
    );
    assert_eq!(
        peek_symbol(&graphemes, 2, raw),
        Some(Ok(PeekedToken::new(Tok::LiteralSymbol(""), 2, 2, 0)))
    );
    assert_eq!(peek_symbol(&graphemes, 3, raw), None);
    assert_eq!(peek_keyword(&graphemes, 2, raw), None);
}

#[test]
fn chain_follows_the_precedence() {
    let raw = "true ( : \"s\" 7 + < ! x";
    let graphemes = segment(raw);
    let expected = [
        (0, PeekedToken::new(Tok::KeywordTrue, 0, 4, 4)),
        (5, PeekedToken::new(Tok::DelimiterLeftParen, 5, 6, 1)),
        (7, PeekedToken::new(Tok::PunctuationColon, 7, 8, 1)),
        (9, PeekedToken::new(Tok::LiteralString("s"), 9, 12, 3)),
        (13, PeekedToken::new(Tok::LiteralNumber("7"), 13, 14, 1)),
        (15, PeekedToken::new(Tok::OperatorMathAddition, 15, 16, 1)),
        (17, PeekedToken::new(Tok::OperatorComparisonLessThan, 17, 18, 1)),
        (19, PeekedToken::new(Tok::OperatorLogicalNot, 19, 20, 1)),
        (21, PeekedToken::new(Tok::LiteralSymbol("x"), 21, 22, 1)),
    ];
    for (idx, token) in expected {
        assert_eq!(peek_token(&graphemes, idx, raw), Some(Ok(token)));
    }
    assert_eq!(peek_token(&graphemes, 22, raw), None);
}

#[test]
fn unterminated_string_ends_the_sequence() {
    let raw = "   \"unterminated";
    let error = LexicalError::UnterminatedLiteralString {
        src: raw,
        span: SourceSpan::new(3, 13),
    };

    let mut lexer = Lexer::new(raw);
    assert_eq!(lexer.next(), Some(Err(error.clone())));
    assert_eq!(lexer.next(), None);
    assert_eq!(lexer.next(), None);

    assert_eq!(Lexer::new(raw).collect(), vec![Err(error.clone())]);
    assert_eq!(error.span().offset, 3);
    assert_eq!(error.span().offset + error.span().length, raw.len());
    assert_eq!(error.src(), raw);
    assert_eq!(error.message(), "Unterminated string literal");
}

#[test]
fn tokens_before_an_error_are_kept() {
    assert_eq!(
        Lexer::new("(a \"b").collect(),
        vec![
            Ok((0, Tok::DelimiterLeftParen, 1)),
            Ok((1, Tok::LiteralSymbol("a"), 2)),
            Err(LexicalError::UnterminatedLiteralString {
                src: "(a \"b",
                span: SourceSpan::new(3, 2),
            }),
        ]
    );
}

#[test]
fn unterminated_span_is_in_bytes() {
    let raw = "\u{e9} \"abc";
    let graphemes = segment(raw);
    assert_eq!(
        peek_literal_string(&graphemes, 2, raw),
        Some(Err(LexicalError::UnterminatedLiteralString {
            src: raw,
            span: SourceSpan::new(3, 4),
        }))
    );
}

#[test]
fn string_literal_keeps_backslashes_and_spans_bytes() {
    let raw = "\"a\\\" \u{65e5}\"";
    let graphemes = segment(raw);
    assert_eq!(
        peek_literal_string(&graphemes, 0, raw),
        Some(Ok(PeekedToken::new(Tok::LiteralString("a\\"), 0, 4, 4)))
    );
    assert_eq!(peek_literal_string(&graphemes, 1, raw), None);

    let raw = "\"\u{65e5}\u{672c}\" x";
    let graphemes = segment(raw);
    assert_eq!(
        peek_literal_string(&graphemes, 0, raw),
        Some(Ok(PeekedToken::new(
            Tok::LiteralString("\u{65e5}\u{672c}"),
            0,
            8,
            4
        )))
    );
}

#[test]
fn cluster_of_several_scalars_is_no_digit() {
    assert_eq!(
        Lexer::new("1\u{301}").collect(),
        vec![Ok((0, Tok::LiteralSymbol("1\u{301}"), 3))]
    );
    assert_eq!(
        Lexer::new("12\u{301}").collect(),
        vec![
            Ok((0, Tok::LiteralNumber("1"), 1)),
            Ok((1, Tok::LiteralSymbol("2\u{301}"), 4))
        ]
    );
    assert!(grapheme_is_digit(&(0, "7")));
    assert!(!grapheme_is_digit(&(0, "7\u{301}")));
    assert!(!grapheme_is_digit(&(0, "\u{663}")));
    assert!(!grapheme_is_digit(&(0, "a")));
}

#[test]
fn numbers_stop_at_the_first_non_digit() {
    assert_eq!(
        Lexer::new("12ab 3.4 -5").collect(),
        vec![
            Ok((0, Tok::LiteralNumber("12"), 2)),
            Ok((2, Tok::LiteralSymbol("ab"), 4)),
            Ok((5, Tok::LiteralNumber("3"), 6)),
            Ok((6, Tok::LiteralSymbol(".4"), 8)),
            Ok((9, Tok::OperatorMathSubtraction, 10)),
            Ok((10, Tok::LiteralNumber("5"), 11)),
        ]
    );
}

#[test]
fn whitespace_graphemes() {
    assert!(grapheme_is_whitespace(&(0, " ")));
    assert!(grapheme_is_whitespace(&(0, "\r\n")));
    assert!(grapheme_is_whitespace(&(0, "\u{a0}")));
    assert!(grapheme_is_whitespace(&(0, "")));
    assert!(!grapheme_is_whitespace(&(0, "a")));
    assert!(!grapheme_is_whitespace(&(0, " \u{301}")));

    let raw = "ab";
    let graphemes = segment(raw);
    assert_eq!(peek_whitespace(&graphemes, 0, raw), 0);
    assert_eq!(peek_whitespace(&graphemes, 2, raw), 0);
}

#[test]
fn comment_ends_before_the_line_feed() {
    let raw = "; a\n; b\r\nc";
    let graphemes = segment(raw);
    assert_eq!(
        peek_comment(&graphemes, 0, raw),
        Some(Ok(PeekedToken::new(Tok::Comment(" a"), 0, 3, 3)))
    );
    assert_eq!(
        peek_comment(&graphemes, 4, raw),
        Some(Ok(PeekedToken::new(Tok::Comment(" b\r\nc"), 4, 10, 5)))
    );
    assert_eq!(peek_comment(&graphemes, 1, raw), None);
    assert_eq!(peek_comment(&graphemes, 9, raw), None);

    let raw = ";\n";
    let graphemes = segment(raw);
    assert_eq!(
        peek_comment(&graphemes, 0, raw),
        Some(Ok(PeekedToken::new(Tok::Comment(""), 0, 1, 1)))
    );
}

#[test]
fn unrecognized_token_carries_its_grapheme() {
    let raw = "a \u{65e5}";
    let error = LexicalError::UnrecognizedToken {
        src: raw,
        span: SourceSpan::new(2, 1),
        char: "\u{65e5}",
    };
    assert_eq!(error.src(), raw);
    assert_eq!(*error.span(), SourceSpan::from((2, 1)));
    assert_eq!(error.message(), "Unrecognized token");
}
