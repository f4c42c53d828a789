use token_nav::error::{Error, ErrorDetails};
use token_nav::parser::lexer::{Cursor, Lexer, LexerState, Part};
use token_nav::parser::token::Token;
use token_nav::parser::Parser;

fn ident(text: &str) -> Token {
    Token::Identifier(text.to_string())
}

fn parser_over(units: Vec<Token>) -> Parser {
    Parser::new(Lexer::new(units))
}

fn expect_err<T>(result: Result<T, Error>) -> Error {
    match result {
        Ok(_) => panic!("the call succeeded"),
        Err(error) => error,
    }
}

#[test]
fn skip_wsn_stops_at_the_identifier() {
    let mut parser = parser_over(vec![Token::Space, Token::Separator, ident("x"), Token::Eof]);
    parser.skip_wsn();
    assert_eq!(*parser.current_token(), ident("x"));
    assert_eq!(parser.current_position(), Cursor { index: 2, part: Part::Whole });
}

#[test]
fn skip_wsn_passes_mixed_blanks() {
    let mut parser = parser_over(vec![
        Token::Separator,
        Token::Space,
        Token::Space,
        Token::Separator,
        Token::Comma,
        Token::Space,
    ]);
    parser.skip_wsn();
    assert_eq!(*parser.current_token(), Token::Comma);
    assert_eq!(parser.current_position().index, 4);
}

#[test]
fn skip_wsn_twice_is_skip_wsn_once() {
    let mut parser = parser_over(vec![Token::Space, Token::Separator, ident("x"), Token::Space]);
    parser.skip_wsn();
    let after_one = parser.current_position();
    parser.skip_wsn();
    assert_eq!(parser.current_position(), after_one);
    assert_eq!(*parser.current_token(), ident("x"));
}

#[test]
fn skip_wsn_runs_to_the_end() {
    let mut parser = parser_over(vec![Token::Space, Token::Separator]);
    parser.skip_wsn();
    assert_eq!(*parser.current_token(), Token::Eof);
    assert_eq!(parser.current_position().index, 2);
}

#[test]
fn skip_ws_leaves_separators() {
    let mut parser = parser_over(vec![Token::Space, Token::Space, Token::Separator, ident("x")]);
    parser.skip_ws();
    assert_eq!(*parser.current_token(), Token::Separator);
    parser.skip_ws();
    assert_eq!(*parser.current_token(), Token::Separator);
    assert_eq!(parser.current_position().index, 2);
}

#[test]
fn skip_ws_on_another_token_stays() {
    let mut parser = parser_over(vec![Token::LParen, Token::Space]);
    parser.skip_ws();
    assert_eq!(*parser.current_token(), Token::LParen);
    assert_eq!(parser.current_position().index, 0);
}

#[test]
fn expect_sep_at_eof_consumes_nothing() {
    let mut parser = parser_over(vec![ident("x"), Token::Eof, Token::Comma]);
    assert_eq!(parser.consume_token(), ident("x"));
    let before = parser.current_position();
    assert!(parser.expect_sep().is_ok());
    assert_eq!(parser.current_position(), before);
    assert_eq!(*parser.current_token(), Token::Eof);
}

#[test]
fn expect_sep_past_the_last_unit_is_ok() {
    let mut parser = parser_over(vec![]);
    assert_eq!(*parser.current_token(), Token::Eof);
    assert!(parser.expect_sep().is_ok());
    assert_eq!(parser.current_position(), Cursor { index: 0, part: Part::Whole });
}

#[test]
fn expect_sep_consumes_the_separator_and_the_blanks_behind() {
    let mut parser = parser_over(vec![
        Token::Separator,
        Token::Space,
        Token::Separator,
        ident("y"),
    ]);
    assert!(parser.expect_sep().is_ok());
    assert_eq!(*parser.current_token(), ident("y"));
    assert_eq!(parser.current_position().index, 3);
}

#[test]
fn expect_sep_does_not_skip_blanks_in_front() {
    let mut parser = parser_over(vec![Token::Space, Token::Separator]);
    let error = expect_err(parser.expect_sep());
    assert_eq!(error.msg, "expected separator but got Space");
    assert_eq!(parser.current_position().index, 0);
}

#[test]
fn expect_sep_on_an_identifier_reports_the_current_position() {
    let mut parser = parser_over(vec![Token::Comma, ident("x"), Token::Separator]);
    parser.consume_token();
    let here = parser.current_position();
    let error = expect_err(parser.expect_sep());
    assert_eq!(error.location(), here);
    assert_eq!(error.location(), Cursor { index: 1, part: Part::Whole });
    assert_eq!(error.msg, "expected separator but got Identifier(\"x\")");
    match &error.details {
        ErrorDetails::TokenMismatch { location, expected, actual } => {
            assert_eq!(*location, here);
            assert_eq!(*expected, Token::Separator);
            assert_eq!(*actual, ident("x"));
        }
        other => panic!("unexpected details: {:?}", other),
    }
    assert!(error.source.is_none());
    assert_eq!(parser.current_position(), here);
    assert_eq!(*parser.current_token(), ident("x"));
}

#[test]
fn expect_rparen_on_comma_names_both_and_stays() {
    let mut parser = parser_over(vec![Token::Comma, Token::RParen]);
    let error = expect_err(parser.expect(Token::RParen));
    assert_eq!(error.msg, "expected RParen but got Comma");
    assert!(error.msg.contains("RParen"));
    assert!(error.msg.contains("Comma"));
    match &error.details {
        ErrorDetails::TokenMismatch { location, expected, actual } => {
            assert_eq!(*location, Cursor { index: 0, part: Part::Whole });
            assert_eq!(*expected, Token::RParen);
            assert_eq!(*actual, Token::Comma);
        }
        other => panic!("unexpected details: {:?}", other),
    }
    assert_eq!(*parser.current_token(), Token::Comma);
    assert_eq!(parser.current_position().index, 0);
}

#[test]
fn expect_consumes_the_required_token() {
    let mut parser = parser_over(vec![Token::LParen, ident("a"), Token::RParen]);
    assert_eq!(parser.expect(Token::LParen).ok(), Some(Token::LParen));
    assert_eq!(parser.expect(ident("a")).ok(), Some(ident("a")));
    assert_eq!(*parser.current_token(), Token::RParen);
    assert_eq!(parser.current_position().index, 2);
}

#[test]
fn expect_tells_identifiers_apart_by_their_text() {
    let mut parser = parser_over(vec![ident("a")]);
    let error = expect_err(parser.expect(ident("b")));
    assert_eq!(error.msg, "expected Identifier(\"b\") but got Identifier(\"a\")");
    assert_eq!(*parser.current_token(), ident("a"));
}

#[test]
fn expect_at_the_end_reports_eof() {
    let mut parser = parser_over(vec![Token::LParen]);
    parser.consume_token();
    let error = expect_err(parser.expect(Token::RParen));
    assert_eq!(error.msg, "expected RParen but got Eof");
    assert_eq!(error.location(), Cursor { index: 1, part: Part::Whole });
}

#[test]
fn expect_moves_as_a_guarded_consume_does() {
    let units = vec![Token::Comma, Token::RParen, Token::Space];
    for wanted in [Token::Comma, Token::RParen, Token::Eof] {
        let mut by_expect = parser_over(units.clone());
        let mut by_hand = parser_over(units.clone());
        let expected = by_expect.expect(wanted.clone());
        let matched = by_hand.current_token_is(wanted.clone());
        if matched {
            by_hand.consume_token();
        }
        assert_eq!(expected.is_ok(), matched);
        assert_eq!(by_expect.current_position(), by_hand.current_position());
        assert_eq!(by_expect.current_token(), by_hand.current_token());
    }
}

#[test]
fn consume_of_another_token_returns_false_and_stays() {
    let mut parser = parser_over(vec![Token::Comma, Token::RParen]);
    assert!(!parser.consume(Token::RParen));
    assert_eq!(*parser.current_token(), Token::Comma);
    assert_eq!(parser.current_position().index, 0);
    assert!(!parser.consume(ident("Comma")));
    assert_eq!(*parser.current_token(), Token::Comma);
}

#[test]
fn consume_of_the_current_token_returns_true_and_moves() {
    let mut parser = parser_over(vec![Token::Comma, Token::RParen]);
    assert!(parser.consume(Token::Comma));
    assert_eq!(*parser.current_token(), Token::RParen);
    assert!(parser.consume(Token::RParen));
    assert_eq!(*parser.current_token(), Token::Eof);
    assert!(parser.consume(Token::Eof));
    assert_eq!(parser.current_position().index, 2);
}

#[test]
fn current_token_is_compares_and_stays() {
    let mut parser = parser_over(vec![ident("x"), Token::Comma]);
    assert!(parser.current_token_is(ident("x")));
    assert!(!parser.current_token_is(ident("y")));
    assert!(!parser.current_token_is(Token::Comma));
    assert_eq!(parser.current_position().index, 0);
}

#[test]
fn consume_token_hands_back_each_token_in_turn() {
    let mut parser = parser_over(vec![Token::LessThan, Token::Space, ident("t")]);
    assert_eq!(parser.consume_token(), Token::LessThan);
    assert_eq!(parser.consume_token(), Token::Space);
    assert_eq!(parser.consume_token(), ident("t"));
    assert_eq!(parser.consume_token(), Token::Eof);
    assert_eq!(parser.consume_token(), Token::Eof);
    assert_eq!(parser.current_position().index, 3);
}

#[test]
fn consume_token_stays_at_an_eof_unit() {
    let mut parser = parser_over(vec![Token::Eof, Token::Comma]);
    assert_eq!(parser.consume_token(), Token::Eof);
    assert_eq!(*parser.current_token(), Token::Eof);
    assert_eq!(parser.current_position().index, 0);
    assert_eq!(parser.peek_next_token(), Token::Eof);
}

#[test]
fn peek_next_token_shows_the_next_token_and_stays() {
    let mut parser = parser_over(vec![Token::LParen, Token::Comma, Token::RParen]);
    assert_eq!(parser.peek_next_token(), Token::Comma);
    assert_eq!(parser.peek_next_token(), Token::Comma);
    assert_eq!(*parser.current_token(), Token::LParen);
    assert_eq!(parser.consume_token(), Token::LParen);
    assert_eq!(*parser.current_token(), Token::Comma);
    assert_eq!(parser.peek_next_token(), Token::RParen);
    parser.consume_token();
    assert_eq!(parser.peek_next_token(), Token::Eof);
}

#[test]
fn next_nonspace_token_looks_past_one_space() {
    let mut parser = parser_over(vec![Token::Space, ident("x"), Token::Comma]);
    assert_eq!(parser.next_nonspace_token(), ident("x"));
    assert_eq!(*parser.current_token(), Token::Space);
    assert_eq!(parser.current_position().index, 0);
}

#[test]
fn next_nonspace_token_is_the_current_token_where_it_is_no_space() {
    let mut parser = parser_over(vec![Token::Comma, ident("x")]);
    assert_eq!(parser.next_nonspace_token(), Token::Comma);
    assert_eq!(*parser.current_token(), Token::Comma);
}

#[test]
fn next_nonspace_token_does_not_pass_separators() {
    let mut parser = parser_over(vec![Token::Space, Token::Separator, ident("x")]);
    assert_eq!(parser.next_nonspace_token(), Token::Separator);
    parser.consume_token();
    assert_eq!(parser.next_nonspace_token(), Token::Separator);
    assert_eq!(*parser.current_token(), Token::Separator);
}

#[test]
fn next_nonspace_token_leaves_the_current_token() {
    let mut parser = parser_over(vec![Token::Space, Token::Space, Token::RShift]);
    let before = parser.current_token().clone();
    let here = parser.current_position();
    assert_eq!(parser.next_nonspace_token(), Token::Space);
    assert_eq!(*parser.current_token(), before);
    assert_eq!(parser.current_position(), here);
}

#[test]
fn rewind_restores_the_current_token() {
    let mut parser = parser_over(vec![ident("a"), Token::LessThan, ident("b"), Token::RShift]);
    parser.consume_token();
    let mark = parser.current_position();
    let at_mark = parser.current_token().clone();
    parser.consume_token();
    parser.set_lexer_gtgt_mode(true);
    parser.consume_token();
    parser.consume_token();
    parser.set_lexer_state(LexerState { rshift_is_gtgt: false });
    parser.consume_token();
    assert_eq!(*parser.current_token(), Token::Eof);
    parser.rewind_to(mark);
    assert_eq!(*parser.current_token(), at_mark);
    assert_eq!(*parser.current_token(), Token::LessThan);
    assert_eq!(parser.current_position(), mark);
    assert_eq!(parser.peek_next_token(), ident("b"));
}

#[test]
fn rewind_restores_a_token_read_in_another_mode() {
    let mut parser = parser_over(vec![Token::Comma, Token::RShift, Token::RParen]);
    parser.consume_token();
    let mark = parser.current_position();
    assert_eq!(*parser.current_token(), Token::RShift);
    parser.set_lexer_gtgt_mode(true);
    parser.consume_token();
    parser.rewind_to(mark);
    assert_eq!(*parser.current_token(), Token::RShift);
    assert_eq!(parser.consume_token(), Token::RShift);
    assert_eq!(*parser.current_token(), Token::RParen);
}

#[test]
fn rewind_to_the_second_half_of_a_split_symbol() {
    let mut parser = parser_over(vec![Token::Comma, Token::RShift, Token::RParen]);
    parser.set_lexer_gtgt_mode(true);
    parser.consume_token();
    assert_eq!(parser.current_position(), Cursor { index: 1, part: Part::First });
    parser.consume_token();
    let second = parser.current_position();
    assert_eq!(second, Cursor { index: 1, part: Part::Second });
    parser.consume_token();
    parser.set_lexer_gtgt_mode(false);
    parser.rewind_to(second);
    assert_eq!(*parser.current_token(), Token::GreaterThan);
    assert_eq!(parser.consume_token(), Token::GreaterThan);
    assert_eq!(*parser.current_token(), Token::RParen);
}

#[test]
fn gtgt_mode_splits_the_double_greater_than() {
    let mut parser = parser_over(vec![
        ident("Array"),
        Token::LessThan,
        ident("Array"),
        Token::LessThan,
        ident("Int"),
        Token::RShift,
        Token::Separator,
    ]);
    parser.set_lexer_gtgt_mode(true);
    for _ in 0..5 {
        parser.consume_token();
    }
    assert_eq!(parser.consume_token(), Token::GreaterThan);
    assert_eq!(parser.peek_next_token(), Token::Separator);
    assert_eq!(parser.consume_token(), Token::GreaterThan);
    assert_eq!(parser.consume_token(), Token::Separator);
    assert_eq!(*parser.current_token(), Token::Eof);
}

#[test]
fn normal_mode_keeps_the_double_greater_than() {
    let mut parser = parser_over(vec![ident("a"), Token::RShift, ident("b")]);
    parser.consume_token();
    assert_eq!(parser.consume_token(), Token::RShift);
    assert_eq!(parser.consume_token(), ident("b"));
}

#[test]
fn a_mode_switch_shows_from_the_next_token_on() {
    let mut parser = parser_over(vec![Token::RShift, Token::RShift, Token::RShift]);
    assert_eq!(*parser.current_token(), Token::RShift);
    parser.set_lexer_gtgt_mode(true);
    assert_eq!(*parser.current_token(), Token::RShift);
    assert_eq!(parser.peek_next_token(), Token::GreaterThan);
    assert_eq!(parser.consume_token(), Token::RShift);
    assert_eq!(parser.consume_token(), Token::GreaterThan);
    parser.set_lexer_state(LexerState { rshift_is_gtgt: false });
    assert_eq!(*parser.current_token(), Token::GreaterThan);
    assert_eq!(parser.peek_next_token(), Token::RShift);
    assert_eq!(parser.consume_token(), Token::GreaterThan);
    assert_eq!(parser.consume_token(), Token::RShift);
    assert_eq!(parser.consume_token(), Token::Eof);
}

#[test]
fn parseerror_carries_the_message_and_the_position() {
    let mut parser = parser_over(vec![Token::LParen, Token::Comma]);
    parser.consume_token();
    let error = parser.parseerror("malformed argument list");
    assert_eq!(error.msg, "malformed argument list");
    assert_eq!(error.location(), parser.current_position());
    assert_eq!(error.location(), Cursor { index: 1, part: Part::Whole });
    assert!(matches!(error.details, ErrorDetails::ParseError { .. }));
    assert!(error.source.is_none());
    assert_eq!(*parser.current_token(), Token::Comma);
}

#[test]
fn parseerror_takes_an_empty_message() {
    let parser = parser_over(vec![]);
    let error = parser.parseerror("");
    assert_eq!(error.msg, "");
    assert_eq!(error.location(), Cursor { index: 0, part: Part::Whole });
    let shown = format!("{:?}", error);
    assert!(shown.contains("ParseError"));
}

#[test]
fn the_mode_can_be_read_and_put_back() {
    let mut parser = parser_over(vec![Token::Comma, Token::RShift]);
    assert_eq!(parser.lexer.state(), LexerState { rshift_is_gtgt: false });
    let saved = parser.lexer.state();
    parser.set_lexer_gtgt_mode(true);
    assert_eq!(parser.lexer.state(), LexerState { rshift_is_gtgt: true });
    assert_eq!(parser.peek_next_token(), Token::GreaterThan);
    parser.set_lexer_state(saved);
    assert_eq!(parser.lexer.state(), saved);
    assert_eq!(parser.peek_next_token(), Token::RShift);
}

#[test]
fn lv_space_is_two_spaces_for_each_level() {
    let mut parser = parser_over(vec![]);
    assert_eq!(parser.lv, 0);
    assert_eq!(parser.lv_space(), "");
    parser.lv = 1;
    assert_eq!(parser.lv_space(), "  ");
    parser.lv = 3;
    assert_eq!(parser.lv_space(), "      ");
}

#[test]
fn debug_log_changes_nothing() {
    let mut parser = parser_over(vec![Token::Comma]);
    parser.lv = 2;
    parser.debug_log("parse_expr");
    assert_eq!(*parser.current_token(), Token::Comma);
    assert_eq!(parser.lv, 2);
}

#[test]
fn navigation_leaves_the_level_alone() {
    let mut parser = parser_over(vec![Token::Space, Token::Separator, Token::Comma]);
    parser.lv = 4;
    parser.skip_wsn();
    assert!(parser.consume(Token::Comma));
    assert!(parser.expect_sep().is_ok());
    assert!(parser.expect(Token::Comma).is_err());
    parser.rewind_to(Cursor { index: 0, part: Part::Whole });
    assert_eq!(parser.lv, 4);
    assert_eq!(*parser.current_token(), Token::Space);
}
