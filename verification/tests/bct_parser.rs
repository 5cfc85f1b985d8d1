use barracuda::parser::bct_parser::{BarracudaCodeTextParser, BctParseError, TokenMeaning};
use barracuda::program_code::ProgramCode;
use barracuda::ops::BarracudaOperators::FIXED;
use barracuda::ops::FixedBarracudaOperators::{ADD, PRINTFF, RCNX, NULL};
use barracuda::instructions::BarracudaInstructions::{GOTO, VALUE, OP};

fn read_values(tokens: &Vec<String>) -> Vec<Option<u64>> {
    tokens.iter().map(|t| t.parse::<f64>().ok().map(|v| v.to_bits())).collect()
}

fn parse_with(parser: &BarracudaCodeTextParser, text: &str) -> Result<ProgramCode, BctParseError> {
    let tokens = parser.tokenize(text);
    let values = read_values(&tokens);
    BarracudaCodeTextParser::assemble(&tokens, &values)
}

fn assert_same_code(expected: &ProgramCode, actual: &ProgramCode) {
    assert_eq!(expected.values, actual.values);
    assert_eq!(expected.operations, actual.operations);
    assert_eq!(expected.instructions, actual.instructions);
}

fn bits(values: &[f64]) -> Vec<u64> {
    values.iter().map(|v| v.to_bits()).collect()
}

#[test]
fn bct_parser_test_text_parser_basic() {
    let expected_program_code = ProgramCode::new(
        bits(&[0.0, 8.0, 4.5]),
        vec![FIXED(PRINTFF), FIXED(ADD)],
        vec![GOTO, VALUE, OP, OP, VALUE, VALUE],
    );
    let text = "4.5\n8\nADD\nPRINTFF\n0\nGOTO\n";
    let code = parse_with(&BarracudaCodeTextParser::new(), text).unwrap();
    assert_same_code(&expected_program_code, &code);
}

#[test]
fn test_text_parser_basic_with_variable_ops() {
    let expected_program_code = ProgramCode::new(
        vec![0.0f64.to_bits(), f64::from_be_bytes((32_i64).to_be_bytes()).to_bits(), 8.0f64.to_bits(), 4.5f64.to_bits()],
        vec![FIXED(RCNX), FIXED(ADD)],
        vec![GOTO, VALUE, OP, VALUE, OP, VALUE, VALUE],
    );
    let text = "4.5\n8\nADD\n1.6e-322\nRCNX\n0\nGOTO\n";
    let code = parse_with(&BarracudaCodeTextParser::new(), text).unwrap();
    assert_same_code(&expected_program_code, &code);
}

#[test]
fn bct_parser_test_text_parser_invalid_token() {
    let text = "4.5\n8\nADD\nPRINTER\n0\nGOTO\n";
    let result = parse_with(&BarracudaCodeTextParser::new(), text);
    match result {
        Err(BctParseError::UnknownToken(token)) => assert_eq!(token, "PRINTER"),
        Ok(_) => panic!("Testing Parser Error"),
    }
}

#[test]
fn bct_parser_test_text_parser_comma_delimited() {
    let expected_program_code = ProgramCode::new(
        bits(&[0.0, 8.0, 4.5]),
        vec![FIXED(PRINTFF), FIXED(ADD)],
        vec![GOTO, VALUE, OP, OP, VALUE, VALUE],
    );
    let text = "4.5,8,ADD,PRINTFF,0,GOTO";
    let parser = BarracudaCodeTextParser::new().using_delimiter(String::from(","));
    let code = parse_with(&parser, text).unwrap();
    assert_same_code(&expected_program_code, &code);
}

#[test]
fn bct_parser_test_text_parser_with_whitespace() {
    let expected_program_code = ProgramCode::new(
        bits(&[0.0, 8.0, 4.5]),
        vec![FIXED(PRINTFF), FIXED(ADD)],
        vec![GOTO, VALUE, OP, OP, VALUE, VALUE],
    );
    let text = "    4.5   \n   8  \n  ADD   \n\n\n\n     PRINTFF   \n  0   \n     GOTO\n";
    let code = parse_with(&BarracudaCodeTextParser::new(), text).unwrap();
    assert_same_code(&expected_program_code, &code);
}

#[test]
fn bct_parser_test_text_parser_with_comments() {
    let expected_program_code = ProgramCode::new(
        bits(&[0.0, 8.0, 4.5]),
        vec![FIXED(PRINTFF), FIXED(ADD)],
        vec![GOTO, VALUE, OP, OP, VALUE, VALUE],
    );
    let text = "# My wonderful program\n    4.5   \n   8  \n  ADD   \n\n\n\n     PRINTFF   \n  0   \n     GOTO\n";
    let code = parse_with(&BarracudaCodeTextParser::new(), text).unwrap();
    assert_same_code(&expected_program_code, &code);
}

#[test]
fn bct_parser_test_text_value_parsing_int() {
    let expected_program_code = ProgramCode::new(bits(&[4.0]), vec![], vec![VALUE]);
    let text = "4";
    let code = parse_with(&BarracudaCodeTextParser::new(), text).unwrap();
    assert_same_code(&expected_program_code, &code);
}

#[test]
fn bct_parser_test_text_value_parsing_float() {
    let expected_program_code = ProgramCode::new(bits(&[4.5]), vec![], vec![VALUE]);
    let text = "4.5";
    let code = parse_with(&BarracudaCodeTextParser::new(), text).unwrap();
    assert_same_code(&expected_program_code, &code);
}

#[test]
fn tokenize_splits_and_trims() {
    let tokens = BarracudaCodeTextParser::new().tokenize("  a \nb\n\n c");
    assert_eq!(tokens, vec!["a", "b", "", "c"]);
    let tokens = BarracudaCodeTextParser::new().using_delimiter(String::from("::")).tokenize("x::y:::z");
    assert_eq!(tokens, vec!["x", "y", ":z"]);
    let tokens = BarracudaCodeTextParser::new().using_delimiter(String::new()).tokenize("ab");
    assert_eq!(tokens, vec!["", "a", "b", ""]);
}

#[test]
fn token_meanings_in_priority_order() {
    assert_eq!(BarracudaCodeTextParser::classify_token("ADD", Some(1)), TokenMeaning::Operation(FIXED(ADD)));
    assert_eq!(BarracudaCodeTextParser::classify_token("GOTO", Some(7)), TokenMeaning::Value(7));
    assert_eq!(BarracudaCodeTextParser::classify_token("GOTO", None), TokenMeaning::Instruction(GOTO));
    assert_eq!(BarracudaCodeTextParser::classify_token("", None), TokenMeaning::Ignored);
    assert_eq!(BarracudaCodeTextParser::classify_token("# note", None), TokenMeaning::Ignored);
    assert_eq!(BarracudaCodeTextParser::classify_token("add", None), TokenMeaning::Unknown);
    assert_eq!(BarracudaCodeTextParser::parse_token_as_operation("NULL"), Some(FIXED(NULL)));
    assert_eq!(BarracudaCodeTextParser::parse_token_as_instruction("OP"), Some(OP));
    assert_eq!(BarracudaCodeTextParser::parse_token_as_instruction("NOPE"), None);
}

#[test]
fn read_tables_reverses_token_order() {
    let tokens = vec![String::from("1"), String::from("ADD"), String::from("GOTO")];
    let values = vec![Some(11u64), None, None];
    let (vs, os, is) = BarracudaCodeTextParser::read_tables(&tokens, &values).unwrap();
    assert_eq!(vs, vec![11]);
    assert_eq!(os, vec![FIXED(ADD)]);
    assert_eq!(is, vec![GOTO, OP, VALUE]);
}

#[test]
fn padding_fits_counts_aligned_instructions() {
    let instructions = vec![VALUE, OP, VALUE];
    assert!(ProgramCode::padding_fits(VALUE, &instructions, 2));
    assert!(!ProgramCode::padding_fits(VALUE, &instructions, 1));
    assert!(ProgramCode::padding_fits(VALUE, &instructions, 3));
}
