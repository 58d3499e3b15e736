use crate::stats::StatisticsRecord;
use crate::summary::Summary;
use vstd::prelude::*;
use vstd::string::StringExecFns;

verus! {

/// `String::push` appends the given character to the end of the string.
pub assume_specification[ String::push ](text: &mut String, ch: char)
    ensures
        final(text)@ == old(text)@.push(ch),
;

/// The character that stands for the digit `d`: the digits follow one another
/// from `'0'`.
pub open spec fn digit_char(d: nat) -> char {
    (('0' as u8 + d) as u8) as char
}

/// `n` written in base ten, without leading zeros.
pub open spec fn decimal(n: nat) -> Seq<char>
    decreases n,
{
    if n < 10 {
        seq![digit_char(n)]
    } else {
        decimal(n / 10).push(digit_char(n % 10))
    }
}

/// A number of hundredths written with a decimal point and two places.
pub open spec fn two_places(hundredths: nat) -> Seq<char> {
    decimal(hundredths / 100) + seq![
        '.',
        digit_char((hundredths % 100) / 10),
        digit_char((hundredths % 100) % 10),
    ]
}

/// The report on one statistics record under the heading `label`: the number
/// of samples, the best case, the observed worst case, the mean to two decimal
/// places and the jitter, all in nanoseconds, one per line.
pub open spec fn report_text(label: Seq<char>, summary: Summary) -> Seq<char> {
    "--- "@ + label + " ---\n"@
        + "Samples: "@ + decimal(summary.count) + "\n"@
        + "Min: "@ + decimal(summary.min) + " ns\n"@
        + "Max: "@ + decimal(summary.max) + " ns (Observed WCET)\n"@
        + "Avg: "@ + two_places(summary.mean_hundredths()) + " ns\n"@
        + "Jitter: "@ + decimal(summary.jitter) + " ns (Max - Min)\n"@
}

fn digit_of(d: u8) -> (c: char)
    requires
        d < 10,
    ensures
        c == digit_char(d as nat),
{
    ('0' as u8 + d) as char
}

/// The digits of `n` in base ten, the most significant first.
pub fn decimal_digits(n: u128) -> (digits: Vec<char>)
    ensures
        digits@ == decimal(n as nat),
{
    let mut digits: Vec<char> = Vec::new();
    digits.push(digit_of((n % 10) as u8));
    let mut rest: u128 = n / 10;
    while rest > 0
        invariant
            decimal(n as nat) == (if rest == 0 {
                Seq::<char>::empty()
            } else {
                decimal(rest as nat)
            }) + digits@,
        decreases rest,
    {
        digits.insert(0, digit_of((rest % 10) as u8));
        rest = rest / 10;
    }
    digits
}

/// Appends `n` in base ten to `text`.
fn push_decimal(text: &mut String, n: u128)
    ensures
        final(text)@ == old(text)@ + decimal(n as nat),
{
    let digits = decimal_digits(n);
    let mut i: usize = 0;
    while i < digits.len()
        invariant
            i <= digits@.len(),
            text@ == old(text)@ + digits@.take(i as int),
        decreases digits@.len() - i,
    {
        text.push(digits[i]);
        i += 1;
    }
}

/// Writes the report on `record` under the heading `label`.
pub fn render_report(label: &str, record: &StatisticsRecord) -> (text: String)
    ensures
        text@ == report_text(label@, record@),
{
    let mean = record.mean_hundredths();
    let mut text = String::new();
    text.append("--- ");
    text.append(label);
    text.append(" ---\n");
    text.append("Samples: ");
    push_decimal(&mut text, record.count() as u128);
    text.append("\n");
    text.append("Min: ");
    push_decimal(&mut text, record.min());
    text.append(" ns\n");
    text.append("Max: ");
    push_decimal(&mut text, record.max());
    text.append(" ns (Observed WCET)\n");
    text.append("Avg: ");
    push_decimal(&mut text, mean.0);
    text.push('.');
    text.push(digit_of(mean.1 / 10));
    text.push(digit_of(mean.1 % 10));
    text.append(" ns\n");
    text.append("Jitter: ");
    push_decimal(&mut text, record.jitter());
    text.append(" ns (Max - Min)\n");
    text
}

} // verus!
