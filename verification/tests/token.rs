use rcc::token::Token;

#[test]
fn token_text_spelling() {
    assert_eq!(Token::Int.text(), "int");
    assert_eq!(Token::Return.text(), "return");
    assert_eq!(Token::If.text(), "if");
    assert_eq!(Token::Else.text(), "else");
    assert_eq!(Token::LitInteger(123).text(), "123");
    assert_eq!(Token::Identifier("hello".to_string()).text(), "hello");
    assert_eq!(Token::LeftShiftEquals.text(), "<<=");
    assert_eq!(Token::AndAnd.text(), "&&");
    assert_eq!(Token::Question.text(), "?");
    assert_eq!(Token::Semicolon.text(), ";");
}
