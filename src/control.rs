use vstd::prelude::*;
use crate::waveform::Waveform;
use vstd::string::StringSliceAdditionalSpecFns;

verus! {

/// The number of whitespace-separated fields in an operator's command:
/// index, frequency, amplitude, waveform, speed, phase.
pub const COMMAND_FIELDS: usize = 6;

pub open spec fn is_digit(b: u8) -> bool {
    48 <= b <= 57
}

/// The number that a sequence of ASCII decimal digits spells.
pub open spec fn digits_value(d: Seq<u8>) -> nat
    decreases d.len(),
{
    if d.len() == 0 {
        0
    } else {
        digits_value(d.drop_last()) * 10 + (d.last() - 48) as nat
    }
}

/// The digits of an unsigned number's text: one leading `+` is allowed.
pub open spec fn unsigned_digits(b: Seq<u8>) -> Seq<u8> {
    if b.len() > 0 && b[0] == 43 {
        b.drop_first()
    } else {
        b
    }
}

/// The oscillator index that a field's bytes spell: an optional `+`, then at
/// least one ASCII digit and nothing else, with a value that fits in `usize`.
pub open spec fn index_of_field(b: Seq<u8>) -> Option<usize> {
    let d = unsigned_digits(b);
    if d.len() > 0 && (forall|i: int| 0 <= i < d.len() ==> is_digit(#[trigger] d[i]))
        && digits_value(d) <= usize::MAX {
        Some(digits_value(d) as usize)
    } else {
        None
    }
}

/// The waveform that a field's bytes name: exactly `sine`, `square` or `saw`,
/// case-sensitive.
pub open spec fn waveform_named(b: Seq<u8>) -> Option<Waveform> {
    if b == seq![115u8, 105, 110, 101] {
        Some(Waveform::Sine)
    } else if b == seq![115u8, 113, 117, 97, 114, 101] {
        Some(Waveform::Square)
    } else if b == seq![115u8, 97, 119] {
        Some(Waveform::Sawtooth)
    } else {
        None
    }
}

/// The fields of a command that the library reads itself; the four numeric
/// fields (frequency, amplitude, speed, phase) are read by the caller.
#[derive(Clone, Copy, Debug, PartialEq, Eq, Structural)]
pub struct CommandHead {
    pub index: usize,
    pub waveform: Waveform,
}

/// What a command's fields give: nothing unless there are exactly six fields,
/// the first is an index and the fourth names a waveform.
pub open spec fn command_head_of(fields: Seq<&str>) -> Option<CommandHead> {
    if fields.len() == COMMAND_FIELDS {
        match (index_of_field(fields[0].spec_bytes()), waveform_named(fields[3].spec_bytes())) {
            (Some(index), Some(waveform)) => Some(CommandHead { index, waveform }),
            _ => None,
        }
    } else {
        None
    }
}

proof fn lemma_digits_value_grows(d: Seq<u8>, k: int)
    requires
        0 <= k <= d.len(),
    ensures
        digits_value(d.subrange(0, k)) <= digits_value(d),
    decreases d.len(),
{
    if k < d.len() {
        assert(d.drop_last().subrange(0, k) =~= d.subrange(0, k));
        lemma_digits_value_grows(d.drop_last(), k);
    } else {
        assert(d.subrange(0, k) =~= d);
    }
}

fn bytes_equal(a: &[u8], b: &[u8]) -> (r: bool)
    ensures
        r == (a@ == b@),
{
    if a.len() != b.len() {
        return false;
    }
    let mut i: usize = 0;
    while i < a.len()
        invariant
            a@.len() == b@.len(),
            i <= a@.len(),
            forall|j: int| 0 <= j < i ==> a@[j] == b@[j],
        decreases a@.len() - i,
    {
        if a[i] != b[i] {
            return false;
        }
        i = i + 1;
    }
    assert(a@ =~= b@);
    true
}

/// Reads an oscillator index the way Rust reads a `usize` from text.
pub fn parse_index(field: &str) -> (r: Option<usize>)
    ensures
        r == index_of_field(field.spec_bytes()),
{
    let bytes = field.as_bytes();
    let ghost b = bytes@;
    let ghost d = unsigned_digits(b);
    let start: usize = if bytes.len() > 0 && bytes[0] == 43 { 1 } else { 0 };
    assert(d =~= b.subrange(start as int, b.len() as int));
    if start >= bytes.len() {
        return None;
    }
    let mut value: usize = 0;
    let mut i: usize = start;
    while i < bytes.len()
        invariant
            start <= i <= b.len(),
            bytes@ == b,
            b == field.spec_bytes(),
            d == unsigned_digits(b),
            d == b.subrange(start as int, b.len() as int),
            forall|j: int| 0 <= j < i - start ==> is_digit(#[trigger] d[j]),
            value == digits_value(d.subrange(0, i - start)),
        decreases b.len() - i,
    {
        let c = bytes[i];
        if c < 48 || c > 57 {
            assert(!is_digit(d[i - start]));
            return None;
        }
        let digit: usize = (c - 48) as usize;
        let ghost prefix = d.subrange(0, i + 1 - start);
        assert(prefix.drop_last() =~= d.subrange(0, i - start));
        assert(digits_value(prefix) == value * 10 + digit);
        if value > (usize::MAX - digit) / 10 {
            assert(value * 10 + digit > usize::MAX) by (nonlinear_arith)
                requires
                    value > (usize::MAX - digit) / 10,
                    digit <= 9,
            ;
            proof {
                lemma_digits_value_grows(d, i + 1 - start);
            }
            return None;
        }
        assert(value * 10 + digit <= usize::MAX) by (nonlinear_arith)
            requires
                value <= (usize::MAX - digit) / 10,
                digit <= 9,
        ;
        value = value * 10 + digit;
        i = i + 1;
    }
    assert(d.subrange(0, d.len() as int) =~= d);
    Some(value)
}

/// Reads a waveform name: `sine`, `square` or `saw`, case-sensitive.
pub fn waveform_from_name(field: &str) -> (r: Option<Waveform>)
    ensures
        r == waveform_named(field.spec_bytes()),
{
    let bytes = field.as_bytes();
    let sine: Vec<u8> = vec![115u8, 105, 110, 101];
    let square: Vec<u8> = vec![115u8, 113, 117, 97, 114, 101];
    let saw: Vec<u8> = vec![115u8, 97, 119];
    assert(sine@ =~= seq![115u8, 105, 110, 101]);
    assert(square@ =~= seq![115u8, 113, 117, 97, 114, 101]);
    assert(saw@ =~= seq![115u8, 97, 119]);
    if bytes_equal(bytes, sine.as_slice()) {
        Some(Waveform::Sine)
    } else if bytes_equal(bytes, square.as_slice()) {
        Some(Waveform::Square)
    } else if bytes_equal(bytes, saw.as_slice()) {
        Some(Waveform::Sawtooth)
    } else {
        None
    }
}

/// Reads the index and waveform of an operator's command, given its
/// whitespace-separated fields. A command with the wrong number of fields,
/// an unreadable index or an unknown waveform gives nothing.
pub fn parse_command_head(fields: &[&str]) -> (r: Option<CommandHead>)
    ensures
        r == command_head_of(fields@),
{
    if fields.len() != COMMAND_FIELDS {
        return None;
    }
    let index = parse_index(fields[0]);
    let waveform = waveform_from_name(fields[3]);
    match (index, waveform) {
        (Some(index), Some(waveform)) => Some(CommandHead { index, waveform }),
        _ => None,
    }
}

} // verus!
