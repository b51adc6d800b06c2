//! Values of coils and discrete inputs: how written words become coil states,
//! and how states that were read become words.

use vstd::prelude::*;

verus! {

/// The state that a written value asks of a coil: off for 0, on for anything else.
pub open spec fn coil_state_of(value: u16) -> bool {
    value >= 1
}

/// The word that stands for the state of a coil or discrete input: 1 for on, 0 for off.
pub open spec fn coil_word_of(state: bool) -> u16 {
    if state {
        1
    } else {
        0
    }
}

/// The states that a sequence of written values asks for, one per value, in order.
pub open spec fn coil_states_of(values: Seq<u16>) -> Seq<bool> {
    Seq::new(values.len(), |i: int| coil_state_of(values[i]))
}

/// The words that stand for a sequence of states, one per state, in order.
pub open spec fn widened(bits: Seq<bool>) -> Seq<u16> {
    Seq::new(bits.len(), |i: int| coil_word_of(bits[i]))
}

/// Maps a written value to the coil state it asks for.
pub fn coil_state(value: u16) -> (state: bool)
    ensures
        state == coil_state_of(value),
{
    value >= 1
}

/// Widens one state to a word.
pub fn coil_word(state: bool) -> (word: u16)
    ensures
        word == coil_word_of(state),
{
    if state {
        1
    } else {
        0
    }
}

/// Maps each written value to the coil state it asks for.
pub fn coil_states(values: &Vec<u16>) -> (coils: Vec<bool>)
    ensures
        coils@ == coil_states_of(values@),
{
    let mut coils: Vec<bool> = Vec::new();
    let mut i: usize = 0;
    while i < values.len()
        invariant
            i <= values.len(),
            coils@ == coil_states_of(values@.take(i as int)),
        decreases values.len() - i,
    {
        coils.push(coil_state(values[i]));
        i += 1;
        assert(coils@ =~= coil_states_of(values@.take(i as int)));
    }
    assert(values@.take(i as int) =~= values@);
    coils
}

/// Widens each state to a word, so that bit sources read like register sources.
pub fn widen_bits(bits: &Vec<bool>) -> (words: Vec<u16>)
    ensures
        words@ == widened(bits@),
{
    let mut words: Vec<u16> = Vec::new();
    let mut i: usize = 0;
    while i < bits.len()
        invariant
            i <= bits.len(),
            words@ == widened(bits@.take(i as int)),
        decreases bits.len() - i,
    {
        words.push(coil_word(bits[i]));
        i += 1;
        assert(words@ =~= widened(bits@.take(i as int)));
    }
    assert(bits@.take(i as int) =~= bits@);
    words
}

} // verus!
