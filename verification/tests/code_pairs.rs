use dxf::code_pair::{CodePair, CodePairValue};
use dxf::code_pair_put_back::CodePairPutBack;
use dxf::double::Double;
use dxf::error::DxfError;
use dxf::reader::{next_pair, read_f64, read_f64s, read_i16, read_i32, read_optional_f64};

fn f(code: i32, value: f64) -> CodePair {
    CodePair::new_f64(code, Double::from_bits(value.to_bits()))
}

#[test]
fn source_hands_out_its_items_in_order() {
    let mut source = CodePairPutBack::from_code_pairs(vec![
        CodePair::new_i16(70, 1),
        CodePair::new_i32(90, 2),
    ]);
    assert_eq!(source.remaining(), 2);
    assert!(!source.is_holding_put_back());
    assert_eq!(source.next(), Some(Ok(CodePair::new_i16(70, 1))));
    assert_eq!(source.next(), Some(Ok(CodePair::new_i32(90, 2))));
    assert_eq!(source.next(), None);
    assert_eq!(source.next(), None);
    assert_eq!(source.remaining(), 0);
}

#[test]
fn pair_that_is_put_back_comes_next() {
    let mut source = CodePairPutBack::from_code_pairs(vec![
        CodePair::new_i16(70, 1),
        CodePair::new_i32(90, 2),
    ]);
    let first = source.next().unwrap();
    assert_eq!(source.remaining(), 1);
    source.put_back(first.clone());
    assert!(source.is_holding_put_back());
    assert_eq!(source.remaining(), 2);
    assert_eq!(source.next(), Some(first));
    assert!(!source.is_holding_put_back());
    assert_eq!(source.next(), Some(Ok(CodePair::new_i32(90, 2))));
}

#[test]
fn error_that_is_put_back_comes_next() {
    let mut source = CodePairPutBack::new(vec![Ok(CodePair::new_i16(70, 1))]);
    source.put_back(Err(DxfError::UnexpectedEndOfInput));
    assert_eq!(source.next(), Some(Err(DxfError::UnexpectedEndOfInput)));
    assert_eq!(source.next(), Some(Ok(CodePair::new_i16(70, 1))));
}

#[test]
fn pair_can_be_put_back_into_an_empty_source() {
    let mut source = CodePairPutBack::new(Vec::new());
    assert_eq!(source.next(), None);
    source.put_back(Ok(CodePair::new_bool(290, true)));
    assert_eq!(source.next(), Some(Ok(CodePair::new_bool(290, true))));
    assert_eq!(source.next(), None);
}

#[test]
fn values_are_taken_by_their_type_only() {
    let short = CodePair::new_i16(70, 7);
    assert_eq!(short.assert_i16(), Ok(7));
    assert_eq!(short.assert_i32(), Err(DxfError::MalformedValue));
    assert_eq!(short.assert_f64(), Err(DxfError::MalformedValue));
    assert_eq!(short.assert_bool(), Err(DxfError::MalformedValue));
    let integer = CodePair::new_i32(90, -7);
    assert_eq!(integer.assert_i32(), Ok(-7));
    assert_eq!(integer.assert_i16(), Err(DxfError::MalformedValue));
    let double = f(40, 2.5);
    assert_eq!(double.assert_f64(), Ok(Double::from_bits(2.5f64.to_bits())));
    assert_eq!(double.assert_f64().map(|v| f64::from_bits(v.to_bits())), Ok(2.5));
    assert_eq!(double.assert_i32(), Err(DxfError::MalformedValue));
    let flag = CodePair::new_bool(290, true);
    assert_eq!(flag.assert_bool(), Ok(true));
    assert_eq!(CodePair::new_bool(290, false).assert_bool(), Ok(false));
    assert_eq!(flag.assert_i16(), Err(DxfError::MalformedValue));
    let text = CodePair::new_string(1, String::from("SOLID"));
    assert_eq!(text.value, CodePairValue::Str(String::from("SOLID")));
    assert_eq!(text.assert_f64(), Err(DxfError::MalformedValue));
    assert_eq!(CodePair::new(5, CodePairValue::Integer(3)), CodePair::new_i32(5, 3));
}

#[test]
fn zero_is_the_number_with_no_bit_set() {
    assert_eq!(Double::zero(), Double::from_bits(0));
    assert_eq!(f64::from_bits(Double::zero().to_bits()), 0.0);
    assert_eq!(Double::from_bits(0x3FF0_0000_0000_0000).to_bits(), 1.0f64.to_bits());
}

#[test]
fn fields_are_read_one_after_the_other() {
    let mut source = CodePairPutBack::from_code_pairs(vec![
        CodePair::new_i16(70, 1),
        CodePair::new_i32(90, 2),
        f(40, 3.0),
        f(41, 4.0),
        f(42, 5.0),
        f(43, 6.0),
        CodePair::new_i16(71, 7),
    ]);
    assert_eq!(read_i16(&mut source), Ok(1));
    assert_eq!(read_i32(&mut source), Ok(2));
    assert_eq!(read_f64(&mut source).map(|v| f64::from_bits(v.to_bits())), Ok(3.0));
    assert_eq!(read_optional_f64(&mut source, 42), Ok(None));
    assert_eq!(source.remaining(), 4);
    assert_eq!(
        read_optional_f64(&mut source, 41).map(|v| v.map(|v| f64::from_bits(v.to_bits()))),
        Ok(Some(4.0))
    );
    assert_eq!(
        read_f64s(&mut source, 2),
        Ok(vec![Double::from_bits(5.0f64.to_bits()), Double::from_bits(6.0f64.to_bits())])
    );
    assert_eq!(read_f64s(&mut source, 1), Err(DxfError::MalformedValue));
    assert_eq!(next_pair(&mut source), Err(DxfError::UnexpectedEndOfInput));
}
