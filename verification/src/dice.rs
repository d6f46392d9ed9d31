//! A set of equal dice, rolled together.

use vstd::prelude::*;
use vstd::string::StringExecFns;
use crate::text::{
    decimal, lemma_decimal_has_only_digits, lemma_occurrences_concat, occurrences, push_decimal,
};

verus! {

/// `value` brought into the faces of a die with `max` faces: values below 1
/// become 1, values above `max` become `max`.
pub open spec fn clamp_face_spec(value: u8, max: u8) -> u8 {
    if value < 1 {
        1
    } else if value > max {
        max
    } else {
        value
    }
}

/// The arithmetic sum of the values of a roll.
pub open spec fn total(values: Seq<u8>) -> int
    decreases values.len(),
{
    if values.len() == 0 {
        0
    } else {
        total(values.drop_last()) + values.last()
    }
}

/// Every value of a roll shows a face of a die with `max` faces.
pub open spec fn faces_within(values: Seq<u8>, max: u8) -> bool {
    forall|i: int| 0 <= i < values.len() ==> 1 <= #[trigger] values[i] <= max
}

/// The values of a roll in draw order, in decimal, joined by `+`; the empty
/// roll gives the empty text.
pub open spec fn plus_joined(values: Seq<u8>) -> Seq<char>
    decreases values.len(),
{
    if values.len() == 0 {
        Seq::empty()
    } else if values.len() == 1 {
        decimal(values[0] as nat)
    } else {
        plus_joined(values.drop_last()) + seq!['+'] + decimal(values.last() as nat)
    }
}

/// How many `+` signs join `count` values: one between each two neighbours.
pub open spec fn separators(count: nat) -> nat {
    if count == 0 {
        0
    } else {
        (count - 1) as nat
    }
}

/// `face` is what is kept of some value that `generator` can return for a die
/// with `max` faces.
pub open spec fn clamped_output<F: FnMut(u8) -> u8>(generator: F, max: u8, face: u8) -> bool {
    exists|v: u8| call_ensures(generator, (max,), v) && face == clamp_face_spec(v, max)
}

/// Brings one generated value into the faces `1..=max` of a die.
pub fn clamp_face(value: u8, max: u8) -> (face: u8)
    requires
        max >= 1,
    ensures
        face == clamp_face_spec(value, max),
        1 <= face <= max,
{
    if value < 1 {
        1
    } else if value > max {
        max
    } else {
        value
    }
}

/// `rand::random_range` on the inclusive range `1..=max`, which draws from
/// the random number generator of the current thread. Trusted, not proved:
/// the value that comes back lies in the range. The call panics on an empty
/// range, so `max` is at least 1. Which value comes back is left open.
#[verifier::external_body]
fn random_face(max: u8) -> (face: u8)
    requires
        max >= 1,
    ensures
        1 <= face <= max,
{
    rand::random_range(1u8..=max)
}

/// `num` dice with `max` faces each, and the values of their last roll.
pub struct Dice {
    num: u8,
    max: u8,
    roll: Vec<u8>,
}

impl View for Dice {
    type V = Seq<u8>;

    /// The values of the last roll in draw order; empty before the first roll.
    closed spec fn view(&self) -> Seq<u8> {
        self.roll@
    }
}

impl Dice {
    /// How many dice are rolled together.
    pub closed spec fn count(&self) -> u8 {
        self.num
    }

    /// How many faces each die has.
    pub closed spec fn faces(&self) -> u8 {
        self.max
    }

    /// What holds of every `Dice`: it is unrolled or holds one value per die,
    /// and each value shows a face of the die.
    #[verifier::type_invariant]
    pub open spec fn wf(&self) -> bool {
        &&& self@.len() == 0 || self@.len() == self.count()
        &&& faces_within(self@, self.faces())
    }

    /// Whether the dice can be rolled: a die that is rolled has a face.
    pub open spec fn rollable(&self) -> bool {
        self.count() > 0 ==> self.faces() >= 1
    }

    /// `num` dice with `max` faces each, not yet rolled.
    pub fn new(num: u8, max: u8) -> (dice: Dice)
        ensures
            dice.count() == num,
            dice.faces() == max,
            dice@ == Seq::<u8>::empty(),
    {
        Dice { num, max, roll: Vec::new() }
    }

    /// Rolls every die once with `generator`, which is handed the number of
    /// faces; whatever it returns is brought into `1..=faces` before it is kept.
    pub fn roll_with<F>(&mut self, mut generator: F) where F: FnMut(u8) -> u8
        requires
            old(self).rollable(),
            old(self).count() > 0 ==> call_requires(generator, (old(self).faces(),)),
        ensures
            final(self).count() == old(self).count(),
            final(self).faces() == old(self).faces(),
            final(self)@.len() == old(self).count(),
            faces_within(final(self)@, final(self).faces()),
            forall|i: int|
                0 <= i < final(self)@.len() ==> clamped_output(
                    generator,
                    old(self).faces(),
                    #[trigger] final(self)@[i],
                ),
    {
        let ghost initial = generator;
        let mut rolls: Vec<u8> = Vec::new();
        let mut i: u8 = 0;
        while i < self.num
            invariant
                generator == initial,
                i <= self.num,
                rolls@.len() == i,
                self.num > 0 ==> self.max >= 1,
                self.num > 0 ==> call_requires(generator, (self.max,)),
                faces_within(rolls@, self.max),
                forall|k: int|
                    0 <= k < rolls@.len() ==> clamped_output(
                        generator,
                        self.max,
                        #[trigger] rolls@[k],
                    ),
            decreases self.num - i,
        {
            let raw = generator(self.max);
            rolls.push(clamp_face(raw, self.max));
            i += 1;
        }
        self.roll = rolls;
    }

    /// Rolls every die once with the random number generator of the thread.
    pub fn roll(&mut self)
        requires
            old(self).rollable(),
        ensures
            final(self).count() == old(self).count(),
            final(self).faces() == old(self).faces(),
            final(self)@.len() == old(self).count(),
            faces_within(final(self)@, final(self).faces()),
    {
        self.roll_with(random_face);
    }

    /// The values of the last roll in draw order.
    pub fn values(&self) -> (values: &Vec<u8>)
        ensures
            values@ == self@,
            self.wf(),
    {
        proof {
            use_type_invariant(self);
        }
        &self.roll
    }

    /// The values of the last roll in draw order, joined by `+`.
    pub fn display_rolls(&self) -> (text: String)
        ensures
            text@ == plus_joined(self@),
    {
        let mut text = String::new();
        let mut i: usize = 0;
        while i < self.roll.len()
            invariant
                i <= self.roll@.len(),
                text@ == plus_joined(self.roll@.take(i as int)),
            decreases self.roll@.len() - i,
        {
            assert(self.roll@.take(i + 1).drop_last() == self.roll@.take(i as int));
            if i > 0 {
                proof {
                    reveal_strlit("+");
                }
                text.append("+");
                assert(text@ == plus_joined(self.roll@.take(i as int)) + seq!['+']);
            }
            push_decimal(&mut text, self.roll[i] as u32);
            i += 1;
        }
        assert(self.roll@.take(i as int) == self.roll@);
        text
    }

    /// The sum of the values of the last roll; 0 before the first roll.
    pub fn result(&self) -> (sum: i32)
        ensures
            sum == total(self@),
            self@.len() <= sum <= self@.len() * self.faces(),
    {
        proof {
            use_type_invariant(self);
            lemma_total_bounds(self@, self.max);
        }
        let mut sum: i32 = 0;
        let mut i: usize = 0;
        while i < self.roll.len()
            invariant
                i <= self.roll@.len() <= 255,
                sum == total(self.roll@.take(i as int)),
                0 <= sum <= 255 * i,
            decreases self.roll@.len() - i,
        {
            assert(self.roll@.take(i + 1).drop_last() == self.roll@.take(i as int));
            sum = sum + self.roll[i] as i32;
            i += 1;
        }
        assert(self.roll@.take(i as int) == self.roll@);
        sum
    }
}

/// A roll of `values.len()` dice with `max` faces sums to at least one and at
/// most `max` per die.
pub proof fn lemma_total_bounds(values: Seq<u8>, max: u8)
    requires
        faces_within(values, max),
    ensures
        values.len() <= total(values) <= values.len() * max,
    decreases values.len(),
{
    if values.len() > 0 {
        lemma_total_bounds(values.drop_last(), max);
        assert(values.len() * max == values.drop_last().len() * max + max) by (nonlinear_arith)
            requires
                values.len() == values.drop_last().len() + 1,
        ;
    }
}

/// Clamping lands on a face, leaves a face as it is, and sends every other
/// value to the nearest face.
pub proof fn lemma_clamp_face(value: u8, max: u8)
    requires
        max >= 1,
    ensures
        1 <= clamp_face_spec(value, max) <= max,
        1 <= value <= max ==> clamp_face_spec(value, max) == value,
        value < 1 ==> clamp_face_spec(value, max) == 1,
        value > max ==> clamp_face_spec(value, max) == max,
        clamp_face_spec(clamp_face_spec(value, max), max) == clamp_face_spec(value, max),
{
}

/// The joined text of a roll holds one `+` between each two neighbouring
/// values and no other.
pub proof fn lemma_plus_joined_separators(values: Seq<u8>)
    ensures
        occurrences(plus_joined(values), '+') == separators(values.len()),
    decreases values.len(),
{
    if values.len() == 0 {
    } else if values.len() == 1 {
        lemma_decimal_has_only_digits(values[0] as nat, '+');
    } else {
        let front = plus_joined(values.drop_last());
        let last = decimal(values.last() as nat);
        lemma_plus_joined_separators(values.drop_last());
        lemma_decimal_has_only_digits(values.last() as nat, '+');
        lemma_occurrences_concat(front, seq!['+'], '+');
        lemma_occurrences_concat(front + seq!['+'], last, '+');
        assert(occurrences(seq!['+'], '+') == 1) by {
            reveal_with_fuel(occurrences, 2);
        }
    }
}

} // verus!
