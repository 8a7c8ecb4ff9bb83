//! A source of code pairs that lets its reader look one pair ahead.

use vstd::prelude::*;
use crate::code_pair::CodePair;
use crate::error::{DxfError, DxfResult};
use crate::grammar::as_input;

verus! {

/// What a source hands out: a pair, or the error that reading it gave.
pub type Item = DxfResult<CodePair>;

/// A sequence of code pairs, read from the front, into which the pair read
/// last can be put back.
pub struct CodePairPutBack {
    /// What is still to come, the next item last.
    pending: Vec<Item>,
    /// Whether the next item is one that was put back.
    holds_put_back: bool,
}

impl View for CodePairPutBack {
    type V = Seq<Item>;

    /// The items still to come, the next one first.
    closed spec fn view(&self) -> Seq<Item> {
        Seq::new(self.pending@.len(), |i: int| self.pending@[self.pending@.len() - 1 - i])
    }
}

impl CodePairPutBack {
    /// Whether an item was put back and not read again since.
    pub closed spec fn has_put_back(&self) -> bool {
        self.holds_put_back
    }

    /// A source that hands out `items` from first to last.
    pub fn new(items: Vec<Item>) -> (source: CodePairPutBack)
        ensures
            source@ == items@,
            !source.has_put_back(),
    {
        let ghost all = items@;
        let mut items = items;
        let mut pending: Vec<Item> = Vec::new();
        while items.len() > 0
            invariant
                items@.len() + pending@.len() == all.len(),
                forall|i: int| 0 <= i < items@.len() ==> items@[i] == all[i],
                forall|i: int| 0 <= i < pending@.len() ==> pending@[i] == all[all.len() - 1 - i],
            decreases items@.len(),
        {
            let item = items.pop().unwrap();
            pending.push(item);
        }
        let source = CodePairPutBack { pending, holds_put_back: false };
        assert(source@ =~= all);
        source
    }

    /// A source that hands out `pairs` from first to last, none of them in error.
    pub fn from_code_pairs(pairs: Vec<CodePair>) -> (source: CodePairPutBack)
        ensures
            source@ == as_input(pairs@),
            !source.has_put_back(),
    {
        let ghost all = pairs@;
        let mut pairs = pairs;
        let mut pending: Vec<Item> = Vec::new();
        while pairs.len() > 0
            invariant
                pairs@.len() + pending@.len() == all.len(),
                forall|i: int| 0 <= i < pairs@.len() ==> pairs@[i] == all[i],
                forall|i: int|
                    0 <= i < pending@.len() ==> pending@[i] == Ok::<CodePair, DxfError>(
                        all[all.len() - 1 - i],
                    ),
            decreases pairs@.len(),
        {
            let pair = pairs.pop().unwrap();
            pending.push(Ok(pair));
        }
        let source = CodePairPutBack { pending, holds_put_back: false };
        assert(source@ =~= as_input(all));
        source
    }

    /// The number of items still to come.
    pub fn remaining(&self) -> (n: usize)
        ensures
            n == self@.len(),
    {
        self.pending.len()
    }

    /// Whether an item was put back and not read again since.
    pub fn is_holding_put_back(&self) -> (held: bool)
        ensures
            held == self.has_put_back(),
    {
        self.holds_put_back
    }

    /// Hands out the next item, `None` where the input has ended.
    pub fn next(&mut self) -> (item: Option<Item>)
        ensures
            old(self)@.len() == 0 ==> item is None && final(self)@ == old(self)@,
            old(self)@.len() > 0 ==> item == Some(old(self)@[0]) && final(self)@ == old(self)@.skip(
                1,
            ),
            !final(self).has_put_back(),
    {
        self.holds_put_back = false;
        let item = self.pending.pop();
        assert(old(self)@.len() > 0 ==> self@ =~= old(self)@.skip(1));
        assert(old(self)@.len() == 0 ==> self@ =~= old(self)@);
        item
    }

    /// Puts back the item read last, so that `next` hands it out again.
    ///
    /// One item can be held: a second one may be put back only after `next`
    /// has been called again.
    pub fn put_back(&mut self, item: Item)
        requires
            !old(self).has_put_back(),
        ensures
            final(self)@ == seq![item] + old(self)@,
            final(self).has_put_back(),
    {
        self.pending.push(item);
        self.holds_put_back = true;
        assert(self@ =~= seq![item] + old(self)@);
    }
}

} // verus!
