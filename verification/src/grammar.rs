//! What reading a stream of code pairs means, stated over sequences.
//!
//! The input is a sequence of items. A decoding step takes an input and
//! gives a value or an error, together with the input that it leaves.

use vstd::prelude::*;
use crate::code_pair::CodePair;
use crate::code_pair_put_back::Item;
use crate::double::Double;
use crate::error::{DxfError, DxfResult};

verus! {

/// The items that a source still has to hand out.
pub type Input = Seq<Item>;

/// The input that hands out `pairs`, none of them in error.
pub open spec fn as_input(pairs: Seq<CodePair>) -> Input {
    pairs.map_values(|pair: CodePair| Ok::<CodePair, DxfError>(pair))
}

/// What a decoding step comes to: its result, and the input left after it.
pub struct Decoded<T> {
    pub result: DxfResult<T>,
    pub rest: Input,
}

/// A step that succeeded with `value` and left `rest`.
pub open spec fn decoded<T>(value: T, rest: Input) -> Decoded<T> {
    Decoded { result: Ok(value), rest }
}

/// A step that failed with `error` and left `rest`.
pub open spec fn failed<T>(error: DxfError, rest: Input) -> Decoded<T> {
    Decoded { result: Err(error), rest }
}

impl<T> Decoded<T> {
    /// Goes on with `next` on the value and the input left, where the step
    /// succeeded; an error stays as it is.
    pub open spec fn and_then<U>(self, next: spec_fn(T, Input) -> Decoded<U>) -> Decoded<U> {
        match self.result {
            Ok(value) => next(value, self.rest),
            Err(error) => failed(error, self.rest),
        }
    }

    /// The same step with `f` applied to its value.
    pub open spec fn map<U>(self, f: spec_fn(T) -> U) -> Decoded<U> {
        match self.result {
            Ok(value) => decoded(f(value), self.rest),
            Err(error) => failed(error, self.rest),
        }
    }
}

/// What a result holds, its value taken by its view.
pub open spec fn result_view<T: View>(r: DxfResult<T>) -> DxfResult<T::V> {
    match r {
        Ok(value) => Ok(value@),
        Err(error) => Err(error),
    }
}

/// Reads one pair. The end of the input is an error; an item in error is
/// consumed and its error reported.
pub open spec fn take_pair(s: Input) -> Decoded<CodePair> {
    if s.len() == 0 {
        failed(DxfError::UnexpectedEndOfInput, s)
    } else {
        match s[0] {
            Ok(pair) => decoded(pair, s.skip(1)),
            Err(error) => failed(error, s.skip(1)),
        }
    }
}

/// Reads one pair and takes its value as a 16-bit integer.
pub open spec fn take_i16(s: Input) -> Decoded<i16> {
    let pair = take_pair(s);
    match pair.result {
        Ok(p) => Decoded { result: p.spec_i16(), rest: pair.rest },
        Err(error) => failed(error, pair.rest),
    }
}

/// Reads one pair and takes its value as a 32-bit integer.
pub open spec fn take_i32(s: Input) -> Decoded<i32> {
    let pair = take_pair(s);
    match pair.result {
        Ok(p) => Decoded { result: p.spec_i32(), rest: pair.rest },
        Err(error) => failed(error, pair.rest),
    }
}

/// Reads a 32-bit integer field that must be there: the next pair has the
/// code `code` and a 32-bit integer for its value. A pair with another code
/// is an error that names the code, and the pair stays in the input.
pub open spec fn take_coded_i32(s: Input, code: i32) -> Decoded<i32> {
    let pair = take_pair(s);
    match pair.result {
        Ok(p) => if p.code == code {
            Decoded { result: p.spec_i32(), rest: pair.rest }
        } else {
            failed(DxfError::UnexpectedCode(p.code, 0), s)
        },
        Err(error) => failed(error, pair.rest),
    }
}

/// Reads one pair and takes its value as a floating-point number.
pub open spec fn take_f64(s: Input) -> Decoded<Double> {
    let pair = take_pair(s);
    match pair.result {
        Ok(p) => Decoded { result: p.spec_f64(), rest: pair.rest },
        Err(error) => failed(error, pair.rest),
    }
}

/// The step that reads one floating-point field.
pub open spec fn f64_step() -> spec_fn(Input) -> Decoded<Double> {
    |s: Input| take_f64(s)
}

/// Reads a floating-point field that may be absent: the next pair is
/// consumed if it has the code `code`, and left in the input otherwise.
pub open spec fn take_optional_f64(s: Input, code: i32) -> Decoded<Option<Double>> {
    let pair = take_pair(s);
    match pair.result {
        Ok(p) => if p.code == code {
            match p.spec_f64() {
                Ok(value) => decoded(Some(value), pair.rest),
                Err(error) => failed(error, pair.rest),
            }
        } else {
            decoded(None, s)
        },
        Err(error) => failed(error, pair.rest),
    }
}

/// Reads a flag that may be absent: the next pair is consumed if it has the
/// code `code`, and left in the input otherwise. The flag is set where the
/// pair's 16-bit integer is not 0.
pub open spec fn take_optional_flag(s: Input, code: i32) -> Decoded<Option<bool>> {
    let pair = take_pair(s);
    match pair.result {
        Ok(p) => if p.code == code {
            match p.spec_i16() {
                Ok(value) => decoded(Some(value != 0), pair.rest),
                Err(error) => failed(error, pair.rest),
            }
        } else {
            decoded(None, s)
        },
        Err(error) => failed(error, pair.rest),
    }
}

/// The number of elements that a declared count asks for: none where it is
/// negative.
pub open spec fn count_of(declared: i32) -> nat {
    if declared > 0 {
        declared as nat
    } else {
        0
    }
}

/// Runs `step` `n` times, each time on the input that the time before left,
/// and collects the values. The first error ends the run.
pub open spec fn repeat<T>(step: spec_fn(Input) -> Decoded<T>, s: Input, n: nat) -> Decoded<Seq<T>>
    decreases n,
{
    if n == 0 {
        decoded(Seq::empty(), s)
    } else {
        let before = repeat(step, s, (n - 1) as nat);
        match before.result {
            Ok(values) => {
                let last = step(before.rest);
                match last.result {
                    Ok(value) => decoded(values.push(value), last.rest),
                    Err(error) => failed(error, last.rest),
                }
            },
            Err(error) => before,
        }
    }
}

/// The number of steps of a run of `n` that succeeded, counted from the first.
pub open spec fn repeat_completed<T>(step: spec_fn(Input) -> Decoded<T>, s: Input, n: nat) -> nat
    decreases n,
{
    if n == 0 {
        0
    } else if repeat(step, s, n).result is Ok {
        n
    } else {
        repeat_completed(step, s, (n - 1) as nat)
    }
}

/// A run that has failed stays as it is, however many more steps are asked for.
pub proof fn lemma_repeat_failed<T>(step: spec_fn(Input) -> Decoded<T>, s: Input, i: nat, n: nat)
    requires
        i <= n,
        repeat(step, s, i).result is Err,
    ensures
        repeat(step, s, n) == repeat(step, s, i),
    decreases n,
{
    if i < n {
        lemma_repeat_failed(step, s, i, (n - 1) as nat);
    }
}

/// A run that succeeded has collected one value for each step.
pub proof fn lemma_repeat_len<T>(step: spec_fn(Input) -> Decoded<T>, s: Input, n: nat)
    requires
        repeat(step, s, n).result is Ok,
    ensures
        repeat(step, s, n).result->Ok_0.len() == n,
    decreases n,
{
    if n > 0 {
        lemma_repeat_len(step, s, (n - 1) as nat);
    }
}

/// Where a run succeeds for `i` steps and then fails, or is no longer than
/// `i`, `i` steps of it succeeded.
pub proof fn lemma_repeat_completed<T>(
    step: spec_fn(Input) -> Decoded<T>,
    s: Input,
    i: nat,
    n: nat,
)
    requires
        i <= n,
        repeat(step, s, i).result is Ok,
        i == n || repeat(step, s, i + 1).result is Err,
    ensures
        repeat_completed(step, s, n) == i,
    decreases n,
{
    if i < n {
        lemma_repeat_failed(step, s, i + 1, n);
        lemma_repeat_completed(step, s, i, (n - 1) as nat);
    }
}

/// Whether `holds` is true of what `step` reads from `t`, if it reads
/// anything.
pub open spec fn step_yields<T>(
    step: spec_fn(Input) -> Decoded<T>,
    holds: spec_fn(T) -> bool,
    t: Input,
) -> bool {
    step(t).result is Ok ==> holds(step(t).result->Ok_0)
}

/// What holds of every value that a step can read holds of every value
/// that a run of it collected.
pub proof fn lemma_repeat_all<T>(
    step: spec_fn(Input) -> Decoded<T>,
    holds: spec_fn(T) -> bool,
    s: Input,
    n: nat,
)
    requires
        repeat(step, s, n).result is Ok,
        forall|t: Input| #[trigger] step_yields(step, holds, t),
    ensures
        repeat(step, s, n).result->Ok_0.len() == n,
        forall|i: int| 0 <= i < n ==> holds(#[trigger] repeat(step, s, n).result->Ok_0[i]),
    decreases n,
{
    if n > 0 {
        let before = repeat(step, s, (n - 1) as nat);
        lemma_repeat_all(step, holds, s, (n - 1) as nat);
        assert(step_yields(step, holds, before.rest));
    }
}

/// An item that is put back into a source is the item that the source
/// hands out next, and then the source is as it was before: with the item
/// in front of what was to come, as `put_back` leaves it, the first item is
/// that one, and what follows it is what was to come.
pub proof fn lemma_put_back_then_next(before: Input, item: Item)
    ensures
        (seq![item] + before).len() > 0,
        (seq![item] + before)[0] == item,
        (seq![item] + before).skip(1) == before,
        take_pair(seq![item] + before) == (match item {
            Ok(pair) => decoded(pair, before),
            Err(error) => failed(error, before),
        }),
{
    assert((seq![item] + before).skip(1) =~= before);
}

} // verus!
