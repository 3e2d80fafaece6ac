//! Peephole optimisation of an emitted word stream.
//!
//! The only rewrite is the removal of register moves whose source and
//! destination are the same register. Every other word is kept, in place.

use vstd::prelude::*;

verus! {

/// The opcode class of a word: its top four bits.
pub open spec fn opcode_class(word: u16) -> u16 {
    word >> 12
}

/// The destination-register field of a MOVE word: bits 11 to 8.
pub open spec fn move_dest_field(word: u16) -> u16 {
    (word >> 8) & 0xF
}

/// The source-register field of a MOVE word: bits 3 to 0.
pub open spec fn move_src_field(word: u16) -> u16 {
    word & 0xF
}

/// A word that moves a register onto itself. Bits 7 to 4 of a MOVE word
/// carry nothing and are not looked at.
pub open spec fn is_self_move(word: u16) -> bool {
    opcode_class(word) == 3 && move_dest_field(word) == move_src_field(word)
}

/// The optimised stream: the words of `words` that are no self-moves, in
/// the order in which they stand in `words`.
pub open spec fn optimized(words: Seq<u16>) -> Seq<u16>
    decreases words.len(),
{
    if words.len() == 0 {
        Seq::empty()
    } else if is_self_move(words.last()) {
        optimized(words.drop_last())
    } else {
        optimized(words.drop_last()).push(words.last())
    }
}

/// `picks` names, for each word of `kept`, the place in `words` that it was
/// taken from, and these places go strictly upwards.
pub open spec fn selects_in_order(picks: Seq<int>, words: Seq<u16>, kept: Seq<u16>) -> bool {
    &&& picks.len() == kept.len()
    &&& forall|k: int| 0 <= k < picks.len() ==> 0 <= #[trigger] picks[k] < words.len()
    &&& forall|k: int| 0 <= k < picks.len() ==> kept[k] == words[#[trigger] picks[k]]
    &&& forall|j: int, k: int|
        0 <= j < k < picks.len() ==> #[trigger] picks[j] < #[trigger] picks[k]
}

/// Tells whether `word` is a MOVE from a register onto itself.
pub fn self_move(word: u16) -> (found: bool)
    ensures
        found == is_self_move(word),
{
    (word >> 12) == 3 && ((word >> 8) & 0xF) == (word & 0xF)
}

/// Removes every self-move from `code` in one forward pass and keeps all
/// other words in their order.
pub fn optimize(code: Vec<u16>) -> (out: Vec<u16>)
    ensures
        out@ == optimized(code@),
        out@.len() <= code@.len(),
{
    let mut first_pass: Vec<u16> = Vec::with_capacity(code.len());
    let mut i: usize = 0;
    while i < code.len()
        invariant
            i <= code.len(),
            first_pass@ == optimized(code@.take(i as int)),
            first_pass@.len() <= i,
        decreases code.len() - i,
    {
        let line: u16 = code[i];
        proof {
            let upto = code@.take(i as int + 1);
            assert(upto.drop_last() == code@.take(i as int));
            assert(upto.last() == line);
        }
        if !self_move(line) {
            first_pass.push(line);
        }
        i = i + 1;
    }
    proof {
        assert(code@.take(code.len() as int) == code@);
    }
    first_pass
}

/// Optimising never makes a stream longer.
pub proof fn optimized_is_no_longer(words: Seq<u16>)
    ensures
        optimized(words).len() <= words.len(),
    decreases words.len(),
{
    if words.len() > 0 {
        optimized_is_no_longer(words.drop_last());
    }
}

/// The optimised stream holds no self-move.
pub proof fn optimized_has_no_self_move(words: Seq<u16>)
    ensures
        forall|k: int| 0 <= k < optimized(words).len() ==> !is_self_move(#[trigger] optimized(words)[k]),
    decreases words.len(),
{
    if words.len() > 0 {
        let shorter = optimized(words.drop_last());
        optimized_has_no_self_move(words.drop_last());
        assert forall|k: int| 0 <= k < optimized(words).len() implies !is_self_move(
            #[trigger] optimized(words)[k],
        ) by {
            if k < shorter.len() {
                assert(optimized(words)[k] == shorter[k]);
            }
        }
    }
}

/// A stream without self-moves is left as it is.
pub proof fn optimized_keeps_clean_stream(words: Seq<u16>)
    requires
        forall|k: int| 0 <= k < words.len() ==> !is_self_move(#[trigger] words[k]),
    ensures
        optimized(words) == words,
    decreases words.len(),
{
    if words.len() > 0 {
        optimized_keeps_clean_stream(words.drop_last());
        assert(words.drop_last().push(words.last()) == words);
    }
}

/// Optimising twice gives what optimising once gives.
pub proof fn optimized_is_idempotent(words: Seq<u16>)
    ensures
        optimized(optimized(words)) == optimized(words),
{
    optimized_has_no_self_move(words);
    optimized_keeps_clean_stream(optimized(words));
}

/// The words that survive stand in the order in which they stood before:
/// the optimised stream is the input with some places left out.
pub proof fn optimized_keeps_order(words: Seq<u16>) -> (picks: Seq<int>)
    ensures
        selects_in_order(picks, words, optimized(words)),
    decreases words.len(),
{
    if words.len() == 0 {
        Seq::empty()
    } else {
        let before = optimized_keeps_order(words.drop_last());
        if is_self_move(words.last()) {
            before
        } else {
            before.push(words.len() - 1)
        }
    }
}

/// A word of the input is dropped exactly when it is a self-move: the
/// number of surviving words and the number of self-moves add up to the
/// length of the input.
pub proof fn optimized_drops_only_self_moves(words: Seq<u16>)
    ensures
        optimized(words).len() + self_move_count(words) == words.len(),
    decreases words.len(),
{
    if words.len() > 0 {
        optimized_drops_only_self_moves(words.drop_last());
    }
}

/// How many words of `words` are self-moves.
pub open spec fn self_move_count(words: Seq<u16>) -> nat
    decreases words.len(),
{
    if words.len() == 0 {
        0
    } else if is_self_move(words.last()) {
        self_move_count(words.drop_last()) + 1
    } else {
        self_move_count(words.drop_last())
    }
}

} // verus!
