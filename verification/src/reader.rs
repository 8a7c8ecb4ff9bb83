//! Reading single fields from a source of code pairs.

use vstd::prelude::*;
use crate::code_pair::CodePair;
use crate::code_pair_put_back::CodePairPutBack;
use crate::double::Double;
use crate::error::{DxfError, DxfResult};
use crate::grammar::{
    decoded, f64_step, lemma_repeat_failed, repeat, result_view, take_coded_i32, take_f64,
    take_i16, take_i32, take_optional_f64, take_optional_flag, take_pair,
};

verus! {

/// Reads the next pair. The end of the input is reported as an error.
pub fn next_pair(parser: &mut CodePairPutBack) -> (r: DxfResult<CodePair>)
    ensures
        r == take_pair(old(parser)@).result,
        final(parser)@ == take_pair(old(parser)@).rest,
        !final(parser).has_put_back(),
{
    match parser.next() {
        Some(Ok(pair)) => Ok(pair),
        Some(Err(error)) => Err(error),
        None => Err(DxfError::UnexpectedEndOfInput),
    }
}

/// Reads a 16-bit integer field.
pub fn read_i16(parser: &mut CodePairPutBack) -> (r: DxfResult<i16>)
    ensures
        r == take_i16(old(parser)@).result,
        final(parser)@ == take_i16(old(parser)@).rest,
        !final(parser).has_put_back(),
{
    match next_pair(parser) {
        Ok(pair) => pair.assert_i16(),
        Err(error) => Err(error),
    }
}

/// Reads a 32-bit integer field.
pub fn read_i32(parser: &mut CodePairPutBack) -> (r: DxfResult<i32>)
    ensures
        r == take_i32(old(parser)@).result,
        final(parser)@ == take_i32(old(parser)@).rest,
        !final(parser).has_put_back(),
{
    match next_pair(parser) {
        Ok(pair) => pair.assert_i32(),
        Err(error) => Err(error),
    }
}

/// Reads a 32-bit integer field with the code `code`. A pair with another
/// code is put back and reported.
pub fn read_coded_i32(parser: &mut CodePairPutBack, code: i32) -> (r: DxfResult<i32>)
    ensures
        r == take_coded_i32(old(parser)@, code).result,
        final(parser)@ == take_coded_i32(old(parser)@, code).rest,
{
    match next_pair(parser) {
        Ok(pair) => {
            if pair.code == code {
                pair.assert_i32()
            } else {
                let found = pair.code;
                parser.put_back(Ok(pair));
                assert(parser@ =~= old(parser)@);
                Err(DxfError::UnexpectedCode(found, 0))
            }
        },
        Err(error) => Err(error),
    }
}

/// Reads a floating-point field.
pub fn read_f64(parser: &mut CodePairPutBack) -> (r: DxfResult<Double>)
    ensures
        r == take_f64(old(parser)@).result,
        final(parser)@ == take_f64(old(parser)@).rest,
        !final(parser).has_put_back(),
{
    match next_pair(parser) {
        Ok(pair) => pair.assert_f64(),
        Err(error) => Err(error),
    }
}

/// Reads a floating-point field with the code `code` if the next pair has
/// that code, and puts the pair back otherwise.
pub fn read_optional_f64(parser: &mut CodePairPutBack, code: i32) -> (r: DxfResult<Option<Double>>)
    ensures
        r == take_optional_f64(old(parser)@, code).result,
        final(parser)@ == take_optional_f64(old(parser)@, code).rest,
{
    match next_pair(parser) {
        Ok(pair) => {
            if pair.code == code {
                match pair.assert_f64() {
                    Ok(value) => Ok(Some(value)),
                    Err(error) => Err(error),
                }
            } else {
                parser.put_back(Ok(pair));
                assert(parser@ =~= old(parser)@);
                Ok(None)
            }
        },
        Err(error) => Err(error),
    }
}

/// Reads a flag with the code `code` if the next pair has that code, and
/// puts the pair back otherwise.
pub fn read_optional_flag(parser: &mut CodePairPutBack, code: i32) -> (r: DxfResult<Option<bool>>)
    ensures
        r == take_optional_flag(old(parser)@, code).result,
        final(parser)@ == take_optional_flag(old(parser)@, code).rest,
{
    match next_pair(parser) {
        Ok(pair) => {
            if pair.code == code {
                match pair.assert_i16() {
                    Ok(value) => Ok(Some(value != 0)),
                    Err(error) => Err(error),
                }
            } else {
                parser.put_back(Ok(pair));
                assert(parser@ =~= old(parser)@);
                Ok(None)
            }
        },
        Err(error) => Err(error),
    }
}

/// Reads `n` floating-point fields, one after the other.
pub fn read_f64s(parser: &mut CodePairPutBack, n: usize) -> (r: DxfResult<Vec<Double>>)
    ensures
        result_view(r) == repeat(f64_step(), old(parser)@, n as nat).result,
        final(parser)@ == repeat(f64_step(), old(parser)@, n as nat).rest,
        r matches Ok(values) ==> values@.len() == n,
{
    let mut values: Vec<Double> = Vec::new();
    let mut i: usize = 0;
    while i < n
        invariant
            i <= n,
            values@.len() == i,
            repeat(f64_step(), old(parser)@, i as nat) == decoded(values@, parser@),
        decreases n - i,
    {
        match read_f64(parser) {
            Ok(value) => {
                values.push(value);
            },
            Err(error) => {
                proof {
                    lemma_repeat_failed(f64_step(), old(parser)@, (i + 1) as nat, n as nat);
                }
                return Err(error);
            },
        }
        i += 1;
    }
    Ok(values)
}

} // verus!
