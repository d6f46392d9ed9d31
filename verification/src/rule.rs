//! The rule sets a character can be made for, and the text of a new
//! character under each of them.

use vstd::prelude::*;
use vstd::string::StringExecFns;
use crate::coc6::{canonical_order, status_line, Sheet};

verus! {

/// A rule set.
#[derive(Copy, Clone, Debug, PartialEq, Eq, Structural)]
pub enum Rule {
    Coc6,
    Coc7,
}

/// Why no character was made.
#[derive(Copy, Clone, Debug, PartialEq, Eq, Structural)]
pub enum SheetError {
    /// The rule set is known by name only.
    UnsupportedEdition(Rule),
}

impl Default for Rule {
    /// The rule set that is taken where none is named: one that is supported.
    fn default() -> (rule: Rule)
        ensures
            rule == Rule::Coc6,
            rule.supported(),
    {
        Rule::Coc6
    }
}

impl Rule {
    /// The name under which the rule set is shown.
    pub open spec fn label(self) -> Seq<char> {
        match self {
            Rule::Coc6 => "CoC6"@,
            Rule::Coc7 => "CoC7"@,
        }
    }

    /// Whether characters can be made for the rule set.
    pub open spec fn supported(self) -> bool {
        self == Rule::Coc6
    }

    /// The name under which the rule set is shown.
    pub fn name(&self) -> (name: &'static str)
        ensures
            name@ == self.label(),
    {
        match self {
            Rule::Coc6 => "CoC6",
            Rule::Coc7 => "CoC7",
        }
    }
}

/// The line that opens the text of a character and names its rule set.
pub open spec fn header(rule: Rule) -> Seq<char> {
    "==== "@ + rule.label() + " ===="@
}

/// The text of a character: the header, then the lines of the sheet.
pub open spec fn report(rule: Rule, sheet: Sheet) -> Seq<Seq<char>> {
    seq![header(rule)] + sheet.lines()
}

/// What tells the user that `rule` is known by name only.
pub open spec fn unsupported_message(rule: Rule) -> Seq<char> {
    "rule "@ + rule.label() + " is not implemented"@
}

impl SheetError {
    /// What tells the user why no character was made.
    pub open spec fn text(self) -> Seq<char> {
        match self {
            SheetError::UnsupportedEdition(rule) => unsupported_message(rule),
        }
    }

    /// What tells the user why no character was made.
    pub fn message(&self) -> (message: String)
        ensures
            message@ == self.text(),
    {
        match self {
            SheetError::UnsupportedEdition(rule) => {
                let mut message = String::from_str("rule ");
                message.append(rule.name());
                message.append(" is not implemented");
                message
            },
        }
    }
}

/// The text of `sheet` as a character of the sixth edition.
pub fn coc6_report(sheet: &Sheet) -> (lines: Vec<String>)
    ensures
        lines.deep_view() == report(Rule::Coc6, *sheet),
{
    let mut header = String::from_str("==== ");
    header.append(Rule::Coc6.name());
    header.append(" ====");
    let mut lines: Vec<String> = Vec::new();
    lines.push(header);
    let mut rest = sheet.status_lines();
    lines.append(&mut rest);
    assert(lines.deep_view() =~= report(Rule::Coc6, *sheet));
    lines
}

/// Rolls a character of the sixth edition and gives its text.
pub fn run_coc6() -> (lines: Vec<String>)
    ensures
        exists|sheet: Sheet| sheet.wf() && lines.deep_view() == report(Rule::Coc6, sheet),
{
    let sheet = Sheet::new();
    coc6_report(&sheet)
}

/// Makes a new character under `rule` and gives its text, or says that the
/// rule set is not supported; then nothing has been rolled.
pub fn run_new_char(rule: Rule) -> (out: Result<Vec<String>, SheetError>)
    ensures
        rule.supported() <==> out is Ok,
        out matches Ok(lines) ==> exists|sheet: Sheet|
            sheet.wf() && lines.deep_view() == report(rule, sheet),
        out matches Err(error) ==> error == SheetError::UnsupportedEdition(rule),
{
    match rule {
        Rule::Coc6 => Ok(run_coc6()),
        Rule::Coc7 => Err(SheetError::UnsupportedEdition(rule)),
    }
}

/// The text of a character that was rolled has nine lines: the header, then
/// one line for every characteristic, in the order of the sheet.
pub proof fn lemma_report_shape(rule: Rule, sheet: Sheet)
    requires
        sheet.wf(),
    ensures
        report(rule, sheet).len() == 9,
        report(rule, sheet)[0] == header(rule),
        forall|k: int|
            1 <= k < 9 ==> #[trigger] report(rule, sheet)[k] == status_line(
                canonical_order()[k - 1],
                sheet.statuses@[k - 1].score() as nat,
                sheet.statuses@[k - 1].dice()@,
            ),
{
}

} // verus!
