//! Seeds written as decimal text, read back, and the names of the artifacts
//! of a batch.
use vstd::prelude::*;

verus! {

/// The character of a decimal digit.
pub open spec fn digit_char(d: nat) -> char
    recommends
        d < 10,
{
    seq!['0', '1', '2', '3', '4', '5', '6', '7', '8', '9'][d as int]
}

pub open spec fn is_digit(c: char) -> bool {
    '0' <= c && c <= '9'
}

/// The value of a decimal digit character.
pub open spec fn digit_value(c: char) -> nat {
    (c as int - '0' as int) as nat
}

/// The shortest decimal text of `v`.
pub open spec fn decimal(v: nat) -> Seq<char>
    decreases v,
{
    if v < 10 {
        seq![digit_char(v)]
    } else {
        decimal(v / 10).push(digit_char(v % 10))
    }
}

/// The value of a text of decimal digits.
pub open spec fn value_of(s: Seq<char>) -> nat
    decreases s.len(),
{
    if s.len() == 0 {
        0
    } else {
        value_of(s.drop_last()) * 10 + digit_value(s.last())
    }
}

/// The digits of a seed text: the text without one leading `+`.
pub open spec fn seed_digits(s: Seq<char>) -> Seq<char> {
    if s.len() > 0 && s[0] == '+' {
        s.drop_first()
    } else {
        s
    }
}

/// A seed text is one or more decimal digits, after an optional `+`, whose
/// value fits in 64 bits.
pub open spec fn seed_text_valid(s: Seq<char>) -> bool {
    let d = seed_digits(s);
    &&& d.len() > 0
    &&& forall|i: int| 0 <= i < d.len() ==> is_digit(#[trigger] d[i])
    &&& value_of(d) <= u64::MAX
}

/// Why a seed text was refused.
#[derive(Debug, Clone, Copy, PartialEq, Eq, Structural)]
pub enum SeedTextError {
    /// No digits.
    Empty,
    /// A character that is not a decimal digit.
    InvalidDigit,
    /// A value beyond 64 bits.
    Overflow,
}

fn digit_str(d: u64) -> (r: &'static str)
    requires
        d < 10,
    ensures
        r@ == seq![digit_char(d as nat)],
{
    proof {
        reveal_strlit("0");
        reveal_strlit("1");
        reveal_strlit("2");
        reveal_strlit("3");
        reveal_strlit("4");
        reveal_strlit("5");
        reveal_strlit("6");
        reveal_strlit("7");
        reveal_strlit("8");
        reveal_strlit("9");
    }
    match d {
        0 => "0",
        1 => "1",
        2 => "2",
        3 => "3",
        4 => "4",
        5 => "5",
        6 => "6",
        7 => "7",
        8 => "8",
        _ => "9",
    }
}

fn append_decimal(v: u64, out: &mut String)
    ensures
        final(out)@ == old(out)@ + decimal(v as nat),
    decreases v,
{
    if v >= 10 {
        append_decimal(v / 10, out);
    }
    out.append(digit_str(v % 10));
    proof {
        if v >= 10 {
            assert(decimal(v as nat) == decimal((v / 10) as nat).push(digit_char((v % 10) as nat)));
        }
    }
}

/// The decimal text of a seed, as the seed ledger and the structured format
/// write it.
pub fn seed_text(seed: u64) -> (r: String)
    ensures
        r@ == decimal(seed as nat),
{
    let mut out = String::new();
    append_decimal(seed, &mut out);
    proof {
        assert(out@ =~= decimal(seed as nat));
    }
    out
}

proof fn lemma_value_of_prefix_grows(s: Seq<char>, i: int)
    requires
        0 <= i <= s.len(),
    ensures
        value_of(s.take(i)) <= value_of(s),
    decreases s.len() - i,
{
    if i < s.len() {
        lemma_value_of_prefix_grows(s, i + 1);
        assert(s.take(i + 1).drop_last() =~= s.take(i));
    } else {
        assert(s.take(i) =~= s);
    }
}

proof fn lemma_decimal(v: nat)
    ensures
        decimal(v).len() > 0,
        forall|i: int| 0 <= i < decimal(v).len() ==> is_digit(#[trigger] decimal(v)[i]),
        value_of(decimal(v)) == v,
    decreases v,
{
    let digits = seq!['0', '1', '2', '3', '4', '5', '6', '7', '8', '9'];
    assert(forall|d: int| 0 <= d < 10 ==> #[trigger] digits[d] as int == '0' as int + d) by {
        assert(digits[0] == '0' && digits[1] == '1' && digits[2] == '2' && digits[3] == '3');
        assert(digits[4] == '4' && digits[5] == '5' && digits[6] == '6' && digits[7] == '7');
        assert(digits[8] == '8' && digits[9] == '9');
    }
    if v < 10 {
        assert(decimal(v)[0] == digits[v as int]);
        assert(decimal(v).drop_last() =~= Seq::<char>::empty());
        assert(value_of(decimal(v).drop_last()) == 0);
        assert(digit_value(decimal(v).last()) == v);
    } else {
        lemma_decimal(v / 10);
        let t = decimal(v);
        assert(t.drop_last() =~= decimal(v / 10));
        assert(t.last() == digits[(v % 10) as int]);
        assert(digit_value(t.last()) == v % 10);
        assert(value_of(t) == value_of(decimal(v / 10)) * 10 + v % 10);
        assert((v / 10) * 10 + v % 10 == v);
        assert forall|i: int| 0 <= i < t.len() implies is_digit(#[trigger] t[i]) by {
            if i < t.len() - 1 {
                assert(t[i] == decimal(v / 10)[i]);
            }
        }
    }
}

/// Round trip of a seed through its text: the text that `seed_text` writes
/// is accepted by `parse_seed`, which reads back the same seed.
pub proof fn lemma_seed_text_round_trip(seed: u64)
    ensures
        seed_text_valid(decimal(seed as nat)),
        value_of(seed_digits(decimal(seed as nat))) == seed,
{
    lemma_decimal(seed as nat);
    let t = decimal(seed as nat);
    assert(is_digit(t[0]));
    assert(seed_digits(t) == t);
}

/// Reads a seed written as decimal text, as `u64::from_str` does.
pub fn parse_seed(s: &str) -> (r: Result<u64, SeedTextError>)
    ensures
        r is Ok <==> seed_text_valid(s@),
        r matches Ok(v) ==> v as nat == value_of(seed_digits(s@)),
{
    let len = s.unicode_len();
    let mut start: usize = 0;
    if len > 0 && s.get_char(0) == '+' {
        start = 1;
    }
    let ghost d = seed_digits(s@);
    assert(d =~= s@.skip(start as int));
    if start == len {
        return Err(SeedTextError::Empty);
    }
    let mut acc: u64 = 0;
    let mut i: usize = start;
    while i < len
        invariant
            len == s@.len(),
            d == s@.skip(start as int),
            d == seed_digits(s@),
            start <= i <= len,
            start < len,
            forall|k: int| 0 <= k < i - start ==> is_digit(#[trigger] d[k]),
            acc as nat == value_of(d.take(i - start)),
        decreases len - i,
    {
        let c = s.get_char(i);
        assert(c == d[i - start]);
        if !('0' <= c && c <= '9') {
            assert(!is_digit(d[i - start]));
            return Err(SeedTextError::InvalidDigit);
        }
        let dv = (c as u32 - '0' as u32) as u64;
        assert(d.take(i - start + 1).drop_last() =~= d.take(i - start));
        assert(d.take(i - start + 1).last() == c);
        if acc > (u64::MAX - dv) / 10 {
            proof {
                assert(acc * 10 + dv > u64::MAX) by (nonlinear_arith)
                    requires
                        acc > (u64::MAX - dv) / 10,
                        dv < 10,
                ;
                lemma_value_of_prefix_grows(d, i - start + 1);
            }
            assert(!seed_text_valid(s@));
            return Err(SeedTextError::Overflow);
        }
        assert(acc * 10 + dv <= u64::MAX) by (nonlinear_arith)
            requires
                acc <= (u64::MAX - dv) / 10,
                dv < 10,
        ;
        acc = acc * 10 + dv;
        i = i + 1;
    }
    assert(d.take(len - start) =~= d);
    Ok(acc)
}

/// The name of the `index`-th artifact of a batch: `<stem>_<index>.<ext>`.
pub open spec fn artifact_name_spec(stem: Seq<char>, index: nat, ext: Seq<char>) -> Seq<char> {
    stem + seq!['_'] + decimal(index) + seq!['.'] + ext
}

/// The name of the `index`-th artifact of a batch.
pub fn artifact_name(stem: &str, index: usize, ext: &str) -> (r: String)
    ensures
        r@ == artifact_name_spec(stem@, index as nat, ext@),
{
    proof {
        reveal_strlit("_");
        reveal_strlit(".");
    }
    let mut out = String::from_str(stem);
    out.append("_");
    append_decimal(index as u64, &mut out);
    out.append(".");
    out.append(ext);
    proof {
        assert(out@ =~= artifact_name_spec(stem@, index as nat, ext@));
    }
    out
}

/// The names of the `num` artifacts of a batch, numbered from 1 in task order.
pub fn artifact_names(stem: &str, num: usize, ext: &str) -> (r: Vec<String>)
    ensures
        r@.len() == num,
        forall|i: int| 0 <= i < num ==> (#[trigger] r@[i])@ == artifact_name_spec(stem@, (i + 1) as nat, ext@),
{
    let mut names: Vec<String> = Vec::with_capacity(num);
    let mut i: usize = 0;
    while i < num
        invariant
            i <= num,
            names@.len() == i,
            forall|k: int| 0 <= k < i ==> (#[trigger] names@[k])@ == artifact_name_spec(stem@, (k + 1) as nat, ext@),
        decreases num - i,
    {
        names.push(artifact_name(stem, i + 1, ext));
        i = i + 1;
    }
    names
}

/// The structured text of a generated sequence: the seed as a quoted
/// decimal string, the sample table, and the scenario under its own table.
pub open spec fn document_spec(seed: u64, samples: Seq<char>, scenario: Seq<char>) -> Seq<char> {
    seq!['s', 'e', 'e', 'd', ' ', '=', ' ', '"'] + decimal(seed as nat) + seq!['"', '\n'] + samples
        + seq!['\n', '\n', '[', 's', 'c', 'e', 'n', 'a', 'r', 'i', 'o', ']', '\n'] + scenario
}

/// Frames the structured text of a generated sequence from its seed and the
/// already serialised sample table and scenario.
pub fn document(seed: u64, samples: &str, scenario: &str) -> (r: String)
    ensures
        r@ == document_spec(seed, samples@, scenario@),
{
    proof {
        reveal_strlit("seed = \"");
        reveal_strlit("\"\n");
        reveal_strlit("\n\n[scenario]\n");
    }
    let mut out = String::from_str("seed = \"");
    append_decimal(seed, &mut out);
    out.append("\"\n");
    out.append(samples);
    out.append("\n\n[scenario]\n");
    out.append(scenario);
    proof {
        assert(out@ =~= document_spec(seed, samples@, scenario@));
    }
    out
}

} // verus!
