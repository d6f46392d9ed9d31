//! Call of Cthulhu, sixth edition: the eight characteristics of an
//! investigator, how each is rolled, and the sheet that holds them.

use vstd::prelude::*;
use vstd::string::StringExecFns;
pub use crate::dice::Dice;
use crate::dice::{
    clamped_output, lemma_plus_joined_separators, lemma_total_bounds, plus_joined, separators,
    total,
};
use crate::text::{
    decimal, digit_char, is_digit, lemma_decimal, lemma_decimal_has_only_digits,
    lemma_occurrences_concat, occurrences, push_decimal,
};

verus! {

/// The characteristics of an investigator, in the order of the sheet.
#[derive(Copy, Clone, Debug, PartialEq, Eq, Structural)]
pub enum StatusType {
    Str,
    Con,
    Pow,
    Dex,
    App,
    Siz,
    Int,
    Edu,
}

/// Every characteristic once, in the order of the sheet.
pub open spec fn canonical_order() -> Seq<StatusType> {
    seq![
        StatusType::Str,
        StatusType::Con,
        StatusType::Pow,
        StatusType::Dex,
        StatusType::App,
        StatusType::Siz,
        StatusType::Int,
        StatusType::Edu,
    ]
}

impl StatusType {
    /// The three-letter code under which the characteristic is shown.
    pub open spec fn code(self) -> Seq<char> {
        match self {
            StatusType::Str => "STR"@,
            StatusType::Con => "CON"@,
            StatusType::Pow => "POW"@,
            StatusType::Dex => "DEX"@,
            StatusType::App => "APP"@,
            StatusType::Siz => "SIZ"@,
            StatusType::Int => "INT"@,
            StatusType::Edu => "EDU"@,
        }
    }

    /// How many dice are rolled for the characteristic.
    pub open spec fn dice_count(self) -> u8 {
        match self {
            StatusType::Siz | StatusType::Int => 2,
            _ => 3,
        }
    }

    /// How many faces each of those dice has.
    pub open spec fn dice_faces(self) -> u8 {
        6
    }

    /// What is added to the sum of the dice.
    pub open spec fn bonus(self) -> int {
        match self {
            StatusType::Siz | StatusType::Int => 6,
            StatusType::Edu => 3,
            _ => 0,
        }
    }

    /// The three-letter code under which the characteristic is shown.
    pub fn to_string(&self) -> (code: &'static str)
        ensures
            code@ == self.code(),
    {
        match self {
            StatusType::Str => "STR",
            StatusType::Con => "CON",
            StatusType::Pow => "POW",
            StatusType::Dex => "DEX",
            StatusType::App => "APP",
            StatusType::Siz => "SIZ",
            StatusType::Int => "INT",
            StatusType::Edu => "EDU",
        }
    }

    /// Every characteristic once, in the order of the sheet.
    pub fn values() -> (kinds: Vec<StatusType>)
        ensures
            kinds@ == canonical_order(),
    {
        let mut kinds: Vec<StatusType> = Vec::new();
        kinds.push(StatusType::Str);
        kinds.push(StatusType::Con);
        kinds.push(StatusType::Pow);
        kinds.push(StatusType::Dex);
        kinds.push(StatusType::App);
        kinds.push(StatusType::Siz);
        kinds.push(StatusType::Int);
        kinds.push(StatusType::Edu);
        assert(kinds@ =~= canonical_order());
        kinds
    }

    /// The dice of the characteristic, not yet rolled.
    pub fn get_dice(&self) -> (dice: Dice)
        ensures
            dice.count() == self.dice_count(),
            dice.faces() == self.dice_faces(),
            dice@ == Seq::<u8>::empty(),
            dice.rollable(),
    {
        match self {
            StatusType::Str
            | StatusType::Con
            | StatusType::Pow
            | StatusType::Dex
            | StatusType::App => Dice::new(3, 6),
            StatusType::Siz | StatusType::Int => Dice::new(2, 6),
            StatusType::Edu => Dice::new(3, 6),
        }
    }

    /// What is added to the sum of the dice.
    pub fn roll_special(&self) -> (bonus: i32)
        ensures
            bonus == self.bonus(),
    {
        match self {
            StatusType::Siz | StatusType::Int => 6,
            StatusType::Edu => 3,
            _ => 0,
        }
    }
}

/// The score as it is shown: a single digit is preceded by one space, so that
/// every score takes at least two columns.
pub open spec fn score_field(score: nat) -> Seq<char> {
    if score < 10 {
        seq![' '] + decimal(score)
    } else {
        decimal(score)
    }
}

/// What follows the dice inside the parentheses: `+` and the bonus where
/// there is one, nothing where the bonus is 0.
pub open spec fn bonus_suffix(bonus: nat) -> Seq<char> {
    if bonus > 0 {
        seq!['+'] + decimal(bonus)
    } else {
        Seq::empty()
    }
}

/// The dice and the bonus as they are shown, in parentheses.
pub open spec fn parenthetical(rolls: Seq<u8>, bonus: nat) -> Seq<char> {
    seq!['('] + plus_joined(rolls) + bonus_suffix(bonus) + seq![')']
}

/// The line of one characteristic: code, colon, score, and in parentheses
/// how the score came about.
pub open spec fn status_line(kind: StatusType, score: nat, rolls: Seq<u8>) -> Seq<char> {
    kind.code() + seq![':', ' '] + score_field(score) + seq![' '] + parenthetical(
        rolls,
        kind.bonus() as nat,
    )
}

/// One characteristic of an investigator with its dice and its score.
pub struct Status {
    status_type: StatusType,
    dice: Dice,
    value: i32,
}

impl Status {
    /// Which characteristic this is.
    pub closed spec fn kind(&self) -> StatusType {
        self.status_type
    }

    /// The dice of the characteristic with their last roll.
    pub closed spec fn dice(&self) -> Dice {
        self.dice
    }

    /// The score: the sum of the dice and the bonus.
    pub closed spec fn score(&self) -> int {
        self.value as int
    }

    /// What holds of every `Status`: its dice are those of its
    /// characteristic, and its score is their sum and the bonus.
    #[verifier::type_invariant]
    pub open spec fn wf(&self) -> bool {
        &&& self.dice().wf()
        &&& self.dice().count() == self.kind().dice_count()
        &&& self.dice().faces() == self.kind().dice_faces()
        &&& self.score() == total(self.dice()@) + self.kind().bonus()
    }

    /// Whether every die has been rolled.
    pub open spec fn rolled(&self) -> bool {
        self.dice()@.len() == self.kind().dice_count()
    }

    /// The line that shows the characteristic.
    pub open spec fn line(&self) -> Seq<char> {
        status_line(self.kind(), self.score() as nat, self.dice()@)
    }

    /// The characteristic before its dice are rolled.
    pub fn new(status_type: StatusType) -> (status: Status)
        ensures
            status.wf(),
            status.kind() == status_type,
            status.dice()@ == Seq::<u8>::empty(),
    {
        Status::new_with_dice(status_type, status_type.get_dice())
    }

    fn new_with_dice(status_type: StatusType, dice: Dice) -> (status: Status)
        requires
            dice.count() == status_type.dice_count(),
            dice.faces() == status_type.dice_faces(),
        ensures
            status.wf(),
            status.kind() == status_type,
            status.dice() == dice,
    {
        proof {
            use_type_invariant(&dice);
        }
        let value = dice.result() + status_type.roll_special();
        Status { status_type, dice, value }
    }

    /// Rolls the dice of the characteristic anew and takes the score from
    /// them.
    pub fn roll_status(&mut self)
        ensures
            final(self).wf(),
            final(self).kind() == old(self).kind(),
            final(self).rolled(),
    {
        let mut dice = self.status_type.get_dice();
        dice.roll();
        *self = Status::new_with_dice(self.status_type, dice);
    }

    /// Rolls the dice of the characteristic anew with `generator` in place of
    /// chance, and takes the score from them.
    pub fn roll_status_with<F>(&mut self, generator: F) where F: FnMut(u8) -> u8
        requires
            call_requires(generator, (old(self).kind().dice_faces(),)),
        ensures
            final(self).wf(),
            final(self).kind() == old(self).kind(),
            final(self).rolled(),
            forall|i: int|
                0 <= i < final(self).dice()@.len() ==> clamped_output(
                    generator,
                    old(self).kind().dice_faces(),
                    #[trigger] final(self).dice()@[i],
                ),
    {
        let mut dice = self.status_type.get_dice();
        dice.roll_with(generator);
        *self = Status::new_with_dice(self.status_type, dice);
    }

    /// Which characteristic this is.
    pub fn status_type(&self) -> (kind: StatusType)
        ensures
            kind == self.kind(),
    {
        self.status_type
    }

    /// The values of the last roll of the dice, in draw order.
    pub fn rolls(&self) -> (rolls: &Vec<u8>)
        ensures
            rolls@ == self.dice()@,
            self.wf(),
    {
        proof {
            use_type_invariant(self);
        }
        self.dice.values()
    }

    /// The score.
    pub fn value(&self) -> (value: i32)
        ensures
            value == self.score(),
            self.wf(),
    {
        proof {
            use_type_invariant(self);
        }
        self.value
    }

    fn dice_value_string(&self) -> (text: String)
        ensures
            text@ == score_field(self.score() as nat),
    {
        proof {
            use_type_invariant(self);
            use_type_invariant(&self.dice);
            lemma_total_bounds(self.dice@, self.dice.faces());
        }
        let mut text = String::new();
        if self.value >= 10 {
            push_decimal(&mut text, self.value as u32);
        } else {
            proof {
                reveal_strlit(" ");
            }
            text.append(" ");
            push_decimal(&mut text, self.value as u32);
        }
        text
    }

    /// The line that shows the characteristic.
    pub fn to_string(&self) -> (line: String)
        ensures
            line@ == self.line(),
    {
        proof {
            reveal_strlit(": ");
            reveal_strlit(" (");
            reveal_strlit("+");
            reveal_strlit(")");
        }
        let bonus = self.status_type.roll_special();
        let mut line = String::from_str(self.status_type.to_string());
        line.append(": ");
        line.append(self.dice_value_string().as_str());
        line.append(" (");
        line.append(self.dice.display_rolls().as_str());
        if bonus > 0 {
            line.append("+");
            push_decimal(&mut line, bonus as u32);
        }
        line.append(")");
        assert(line@ =~= self.line());
        line
    }
}

/// The characteristics of one investigator.
pub struct Sheet {
    pub statuses: Vec<Status>,
}

impl Sheet {
    /// What holds of a sheet that `new` built: one entry for every
    /// characteristic, in the order of the sheet, each of them rolled.
    pub open spec fn wf(&self) -> bool {
        &&& self.statuses@.len() == canonical_order().len()
        &&& forall|i: int|
            0 <= i < self.statuses@.len() ==> {
                &&& (#[trigger] self.statuses@[i]).kind() == canonical_order()[i]
                &&& self.statuses@[i].wf()
                &&& self.statuses@[i].rolled()
            }
    }

    /// The lines that show the sheet, one for every entry, in the order of
    /// the entries.
    pub open spec fn lines(&self) -> Seq<Seq<char>> {
        Seq::new(self.statuses@.len(), |i: int| self.statuses@[i].line())
    }

    /// Rolls a new investigator.
    pub fn new() -> (sheet: Sheet)
        ensures
            sheet.wf(),
    {
        let kinds = StatusType::values();
        let mut statuses: Vec<Status> = Vec::new();
        let mut i: usize = 0;
        while i < kinds.len()
            invariant
                i <= kinds@.len(),
                kinds@ == canonical_order(),
                statuses@.len() == i,
                forall|k: int|
                    0 <= k < i ==> {
                        &&& (#[trigger] statuses@[k]).kind() == canonical_order()[k]
                        &&& statuses@[k].wf()
                        &&& statuses@[k].rolled()
                    },
            decreases kinds@.len() - i,
        {
            let mut status = Status::new(kinds[i]);
            status.roll_status();
            statuses.push(status);
            i += 1;
        }
        Sheet { statuses }
    }

    /// The lines that show the sheet, one for every entry, in the order of
    /// the entries.
    pub fn status_lines(&self) -> (lines: Vec<String>)
        ensures
            lines.deep_view() == self.lines(),
    {
        let mut lines: Vec<String> = Vec::new();
        let mut i: usize = 0;
        while i < self.statuses.len()
            invariant
                i <= self.statuses@.len(),
                lines@.len() == i,
                forall|k: int| 0 <= k < i ==> (#[trigger] lines@[k])@ == self.statuses@[k].line(),
            decreases self.statuses@.len() - i,
        {
            lines.push(self.statuses[i].to_string());
            i += 1;
        }
        assert(lines.deep_view() =~= self.lines());
        lines
    }
}

/// A score below 10 is shown as one space and its digit; a score of 10 or
/// more is shown as its numeral, which starts with a digit and not with a
/// space. Either way the score takes at least two columns.
pub proof fn lemma_score_padding(score: nat)
    ensures
        score < 10 ==> score_field(score) == seq![' ', digit_char(score)],
        score >= 10 ==> score_field(score) == decimal(score) && is_digit(score_field(score)[0]),
        score_field(score).len() >= 2,
{
    lemma_decimal(score);
    if score < 10 {
        assert(score_field(score) =~= seq![' ', digit_char(score)]);
    }
}

/// In the line of a characteristic the score follows the code, a colon and a
/// space: a score below 10 stands behind one more space, a score of 10 or
/// more stands there at once.
pub proof fn lemma_line_padding(kind: StatusType, score: nat, rolls: Seq<u8>)
    ensures
        status_line(kind, score, rolls).len() >= 10,
        status_line(kind, score, rolls).subrange(0, 3) == kind.code(),
        status_line(kind, score, rolls)[3] == ':',
        status_line(kind, score, rolls)[4] == ' ',
        score < 10 ==> {
            &&& status_line(kind, score, rolls)[5] == ' '
            &&& status_line(kind, score, rolls)[6] == digit_char(score)
            &&& status_line(kind, score, rolls)[7] == ' '
            &&& status_line(kind, score, rolls)[8] == '('
        },
        score >= 10 ==> is_digit(status_line(kind, score, rolls)[5]),
{
    reveal_strlit("STR");
    reveal_strlit("CON");
    reveal_strlit("POW");
    reveal_strlit("DEX");
    reveal_strlit("APP");
    reveal_strlit("SIZ");
    reveal_strlit("INT");
    reveal_strlit("EDU");
    lemma_score_padding(score);
    let line = status_line(kind, score, rolls);
    let head = kind.code() + seq![':', ' '] + score_field(score) + seq![' '];
    let tail = parenthetical(rolls, kind.bonus() as nat);
    assert(line == head + tail);
    assert(tail.len() >= 2);
    assert(tail[0] == '(');
    assert(head.len() == 6 + score_field(score).len());
    assert(line.subrange(0, 3) =~= kind.code());
    assert(line[3] == head[3]);
    assert(line[4] == head[4]);
    assert(line[5] == score_field(score)[0]);
    if score < 10 {
        assert(line[6] == score_field(score)[1]);
        assert(line[7] == head[7]);
        assert(line[8] == tail[0]);
    }
}

/// Without a bonus the parentheses hold the joined dice and nothing else;
/// with a bonus they end in `+` and the bonus. The `+` signs in them are
/// those that join the dice and, with a bonus, one more: so a single die
/// without a bonus shows no `+` at all.
pub proof fn lemma_bonus_suffix(rolls: Seq<u8>, bonus: nat)
    ensures
        bonus == 0 ==> parenthetical(rolls, bonus) == seq!['('] + plus_joined(rolls) + seq![')'],
        bonus > 0 ==> parenthetical(rolls, bonus) == seq!['('] + plus_joined(rolls) + (seq!['+']
            + decimal(bonus) + seq![')']),
        occurrences(parenthetical(rolls, bonus), '+') == separators(rolls.len()) + if bonus > 0 {
            1nat
        } else {
            0nat
        },
        bonus == 0 && rolls.len() <= 1 ==> occurrences(parenthetical(rolls, bonus), '+') == 0,
{
    let open = seq!['('];
    let close = seq![')'];
    let joined = plus_joined(rolls);
    let suffix = bonus_suffix(bonus);
    lemma_plus_joined_separators(rolls);
    lemma_occurrences_concat(open, joined, '+');
    lemma_occurrences_concat(open + joined, suffix, '+');
    lemma_occurrences_concat(open + joined + suffix, close, '+');
    assert(occurrences(open, '+') == 0 && occurrences(close, '+') == 0 && occurrences(
        seq!['+'],
        '+',
    ) == 1) by {
        reveal_with_fuel(occurrences, 2);
    }
    if bonus > 0 {
        lemma_decimal_has_only_digits(bonus, '+');
        lemma_occurrences_concat(seq!['+'], decimal(bonus), '+');
        assert(parenthetical(rolls, bonus) =~= open + joined + (seq!['+'] + decimal(bonus)
            + close));
    } else {
        assert(parenthetical(rolls, bonus) =~= open + joined + close);
    }
}

/// Every characteristic is rolled with at least one die that has at least
/// one face, and no bonus takes anything away.
pub proof fn lemma_dice_formula_valid(kind: StatusType)
    ensures
        kind.dice_count() >= 1,
        kind.dice_faces() >= 1,
        kind.bonus() >= 0,
{
}

/// Every characteristic stands in the order of the sheet exactly once.
pub proof fn lemma_canonical_order_complete(kind: StatusType)
    ensures
        exists|i: int|
            {
                &&& 0 <= i < canonical_order().len()
                &&& #[trigger] canonical_order()[i] == kind
                &&& forall|j: int|
                    0 <= j < canonical_order().len() && #[trigger] canonical_order()[j] == kind
                        ==> j == i
            },
{
    let i: int = match kind {
        StatusType::Str => 0,
        StatusType::Con => 1,
        StatusType::Pow => 2,
        StatusType::Dex => 3,
        StatusType::App => 4,
        StatusType::Siz => 5,
        StatusType::Int => 6,
        StatusType::Edu => 7,
    };
    assert(canonical_order()[i] == kind);
}

/// A sheet that `Sheet::new` built holds every characteristic exactly once.
pub proof fn lemma_sheet_holds_every_kind_once(sheet: Sheet, kind: StatusType)
    requires
        sheet.wf(),
    ensures
        exists|i: int|
            {
                &&& 0 <= i < sheet.statuses@.len()
                &&& (#[trigger] sheet.statuses@[i]).kind() == kind
                &&& forall|j: int|
                    0 <= j < sheet.statuses@.len() && (#[trigger] sheet.statuses@[j]).kind() == kind
                        ==> j == i
            },
{
    lemma_canonical_order_complete(kind);
    let i = choose|i: int|
        {
            &&& 0 <= i < canonical_order().len()
            &&& #[trigger] canonical_order()[i] == kind
            &&& forall|j: int|
                0 <= j < canonical_order().len() && #[trigger] canonical_order()[j] == kind ==> j
                    == i
        };
    assert(sheet.statuses@[i].kind() == kind);
    assert forall|j: int|
        0 <= j < sheet.statuses@.len() && (#[trigger] sheet.statuses@[j]).kind() == kind implies j
        == i by {
        assert(canonical_order()[j] == kind);
    }
}

/// The score of a rolled characteristic lies between one and the number of
/// faces per die, plus the bonus.
pub proof fn lemma_score_range(status: Status)
    requires
        status.wf(),
        status.rolled(),
    ensures
        status.kind().dice_count() + status.kind().bonus() <= status.score(),
        status.score() <= status.kind().dice_count() * status.kind().dice_faces()
            + status.kind().bonus(),
{
    lemma_total_bounds(status.dice()@, status.dice().faces());
}

} // verus!
