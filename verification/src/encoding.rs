//! Writing values as code pairs, stated over sequences, and what reading
//! makes of what was written.

use vstd::prelude::*;
use crate::code_pair::{CodePair, CodePairValue};
use crate::double::Double;
use crate::error::DxfError;
use crate::grammar::{as_input, decoded, f64_step, repeat, Decoded, Input};

verus! {

/// The pair that holds a 16-bit integer.
pub open spec fn i16_pair(code: i32, value: i16) -> CodePair {
    CodePair { code, value: CodePairValue::Short(value) }
}

/// The pair that holds a 32-bit integer.
pub open spec fn i32_pair(code: i32, value: i32) -> CodePair {
    CodePair { code, value: CodePairValue::Integer(value) }
}

/// The pair that holds a floating-point number.
pub open spec fn f64_pair(code: i32, value: Double) -> CodePair {
    CodePair { code, value: CodePairValue::Double(value) }
}

/// The pair that holds a flag as a 16-bit integer, 1 where it is set.
pub open spec fn flag_pair(code: i32, flag: bool) -> CodePair {
    i16_pair(code, if flag { 1i16 } else { 0i16 })
}

/// The pairs that hold `values`, in their order, the pair of `values[i]`
/// under the code `codes[i]`.
pub open spec fn f64_pairs(codes: Seq<i32>, values: Seq<Double>) -> Seq<CodePair> {
    Seq::new(values.len(), |i: int| f64_pair(codes[i], values[i]))
}

/// The pairs that hold `values`, in their order, each under the code `code`.
pub open spec fn f64_pairs_of(code: i32, values: Seq<Double>) -> Seq<CodePair> {
    f64_pairs(Seq::new(values.len(), |i: int| code), values)
}

/// The encodings of `items`, one behind the other.
pub open spec fn encode_each<T>(encode: spec_fn(T) -> Seq<CodePair>, items: Seq<T>) -> Seq<CodePair>
    decreases items.len(),
{
    if items.len() == 0 {
        Seq::empty()
    } else {
        encode_each(encode, items.drop_last()) + encode(items.last())
    }
}

/// Whether `step` reads `item` back from its encoding where `tail` follows
/// it in the input, if `follows` holds of `tail`; and whether `follows` then
/// holds of the input that begins with the encoding.
pub open spec fn reads_back<T>(
    step: spec_fn(Input) -> Decoded<T>,
    encode: spec_fn(T) -> Seq<CodePair>,
    follows: spec_fn(Input) -> bool,
    item: T,
    tail: Input,
) -> bool {
    follows(tail) ==> step(as_input(encode(item)) + tail) == decoded(item, tail) && follows(
        as_input(encode(item)) + tail,
    )
}

/// The input of two runs of pairs is the inputs of the two, one behind the
/// other.
pub proof fn lemma_as_input_add(a: Seq<CodePair>, b: Seq<CodePair>)
    ensures
        as_input(a + b) == as_input(a) + as_input(b),
{
    assert(as_input(a + b) =~= as_input(a) + as_input(b));
}

/// A run of steps reads back a list of items from their encodings, where
/// each step reads back its item.
pub proof fn lemma_repeat_reads_back<T>(
    step: spec_fn(Input) -> Decoded<T>,
    encode: spec_fn(T) -> Seq<CodePair>,
    follows: spec_fn(Input) -> bool,
    items: Seq<T>,
    rest: Input,
)
    requires
        forall|i: int, tail: Input|
            0 <= i < items.len() ==> #[trigger] reads_back(step, encode, follows, items[i], tail),
        follows(rest),
    ensures
        repeat(step, as_input(encode_each(encode, items)) + rest, items.len()) == decoded(
            items,
            rest,
        ),
        follows(as_input(encode_each(encode, items)) + rest),
    decreases items.len(),
{
    let input = as_input(encode_each(encode, items)) + rest;
    if items.len() == 0 {
        assert(input =~= rest);
        assert(items =~= Seq::empty());
    } else {
        let front = items.drop_last();
        let last = items.last();
        let tail = as_input(encode(last)) + rest;
        assert(reads_back(step, encode, follows, items[items.len() - 1], rest));
        assert forall|i: int, tail: Input| 0 <= i < front.len() implies #[trigger] reads_back(
            step,
            encode,
            follows,
            front[i],
            tail,
        ) by {
            assert(reads_back(step, encode, follows, items[i], tail));
        }
        lemma_repeat_reads_back(step, encode, follows, front, tail);
        lemma_as_input_add(encode_each(encode, front), encode(last));
        assert(input =~= as_input(encode_each(encode, front)) + tail);
        assert(front.push(last) =~= items);
    }
}

/// Reading as many floating-point fields as there are values gives the
/// values back from their pairs, whatever the codes.
pub proof fn lemma_f64s_read_back(codes: Seq<i32>, values: Seq<Double>, rest: Input)
    ensures
        repeat(f64_step(), as_input(f64_pairs(codes, values)) + rest, values.len()) == decoded(
            values,
            rest,
        ),
    decreases values.len(),
{
    let input = as_input(f64_pairs(codes, values)) + rest;
    if values.len() == 0 {
        assert(input =~= rest);
        assert(values =~= Seq::empty());
    } else {
        let n = values.len() - 1;
        let front = values.drop_last();
        let tail = seq![Ok::<CodePair, DxfError>(f64_pair(codes[n], values[n]))] + rest;
        lemma_f64s_read_back(codes, front, tail);
        assert(input =~= as_input(f64_pairs(codes, front)) + tail);
        assert(tail.skip(1) =~= rest);
        assert(front.push(values[n]) =~= values);
    }
}

} // verus!
