//! Brazilian identity documents: CPF and CNPJ numbers.
//!
//! A document is handed over as free text; only its decimal digits count.
//! Validation recomputes the two check digits from the payload digits;
//! formatting inserts the conventional punctuation.

use vstd::prelude::*;
use vstd::string::StringExecFns;

use crate::text::digit_chars;
use crate::text::digit_val;
use crate::text::digits_spec;
use crate::text::is_digit_char;
use crate::text::lemma_digits_are_digits;
use crate::text::push_char;

verus! {

/// The check digit that a weighted sum yields under the modulus-11 scheme.
pub open spec fn check_digit_11(sum: int) -> int {
    if sum % 11 < 2 {
        0
    } else {
        11 - sum % 11
    }
}

/// Whether every character equals the first one.
pub open spec fn all_same(d: Seq<char>) -> bool {
    forall|i: int| 0 <= i < d.len() ==> #[trigger] d[i] == d[0]
}

/// The first CPF checksum: the first nine digits weighted 10 down to 2.
pub open spec fn cpf_sum1(d: Seq<char>) -> int {
    10 * digit_val(d[0]) + 9 * digit_val(d[1]) + 8 * digit_val(d[2]) + 7 * digit_val(d[3]) + 6
        * digit_val(d[4]) + 5 * digit_val(d[5]) + 4 * digit_val(d[6]) + 3 * digit_val(d[7]) + 2
        * digit_val(d[8])
}

/// The second CPF checksum: the first ten digits weighted 11 down to 2.
pub open spec fn cpf_sum2(d: Seq<char>) -> int {
    11 * digit_val(d[0]) + 10 * digit_val(d[1]) + 9 * digit_val(d[2]) + 8 * digit_val(d[3]) + 7
        * digit_val(d[4]) + 6 * digit_val(d[5]) + 5 * digit_val(d[6]) + 4 * digit_val(d[7]) + 3
        * digit_val(d[8]) + 2 * digit_val(d[9])
}

/// A CPF is valid when its digits number exactly eleven, are not all equal,
/// and its two final digits are the check digits of the first nine.
pub open spec fn cpf_valid(s: Seq<char>) -> bool {
    let d = digits_spec(s);
    d.len() == 11 && !all_same(d) && digit_val(d[9]) == check_digit_11(cpf_sum1(d)) && digit_val(
        d[10],
    ) == check_digit_11(cpf_sum2(d))
}

/// The first CNPJ checksum: the twelve payload digits under the weights
/// 5,4,3,2,9,8,7,6,5,4,3,2.
pub open spec fn cnpj_sum1(d: Seq<char>) -> int {
    5 * digit_val(d[0]) + 4 * digit_val(d[1]) + 3 * digit_val(d[2]) + 2 * digit_val(d[3]) + 9
        * digit_val(d[4]) + 8 * digit_val(d[5]) + 7 * digit_val(d[6]) + 6 * digit_val(d[7]) + 5
        * digit_val(d[8]) + 4 * digit_val(d[9]) + 3 * digit_val(d[10]) + 2 * digit_val(d[11])
}

/// The second CNPJ checksum: the twelve payload digits and the first check
/// digit under the weights 6,5,4,3,2,9,8,7,6,5,4,3,2.
pub open spec fn cnpj_sum2(d: Seq<char>, first_check: int) -> int {
    6 * digit_val(d[0]) + 5 * digit_val(d[1]) + 4 * digit_val(d[2]) + 3 * digit_val(d[3]) + 2
        * digit_val(d[4]) + 9 * digit_val(d[5]) + 8 * digit_val(d[6]) + 7 * digit_val(d[7]) + 6
        * digit_val(d[8]) + 5 * digit_val(d[9]) + 4 * digit_val(d[10]) + 3 * digit_val(d[11]) + 2
        * first_check
}

/// A CNPJ is valid when its digits number exactly fourteen, are not all
/// equal, and its two final digits are the check digits of the first twelve.
pub open spec fn cnpj_valid(s: Seq<char>) -> bool {
    let d = digits_spec(s);
    let first_check = check_digit_11(cnpj_sum1(d));
    d.len() == 14 && !all_same(d) && digit_val(d[12]) == first_check && digit_val(d[13])
        == check_digit_11(cnpj_sum2(d, first_check))
}

/// A CPF formatted as `ddd.ddd.ddd-dd`.
pub open spec fn cpf_formatted(d: Seq<char>) -> Seq<char> {
    d.subrange(0, 3) + seq!['.'] + d.subrange(3, 6) + seq!['.'] + d.subrange(6, 9) + seq!['-']
        + d.subrange(9, 11)
}

/// A CNPJ formatted as `dd.ddd.ddd/dddd-dd`.
pub open spec fn cnpj_formatted(d: Seq<char>) -> Seq<char> {
    d.subrange(0, 2) + seq!['.'] + d.subrange(2, 5) + seq!['.'] + d.subrange(5, 8) + seq!['/']
        + d.subrange(8, 12) + seq!['-'] + d.subrange(12, 14)
}

fn digit_value(c: char) -> (r: u8)
    requires
        is_digit_char(c),
    ensures
        r == digit_val(c),
        r <= 9,
{
    ((c as u32) - 48) as u8
}

fn check_digit(sum: u32) -> (r: u8)
    ensures
        r == check_digit_11(sum as int),
{
    let rem = sum % 11;
    if rem < 2 {
        0
    } else {
        (11 - rem) as u8
    }
}

fn all_digits_same(d: &Vec<char>) -> (r: bool)
    requires
        d@.len() > 0,
    ensures
        r == all_same(d@),
{
    let n = d.len();
    let mut i: usize = 1;
    while i < n
        invariant
            1 <= i <= n == d@.len(),
            forall|k: int| 0 <= k < i ==> #[trigger] d@[k] == d@[0],
        decreases n - i,
    {
        if d[i] != d[0] {
            return false;
        }
        i = i + 1;
    }
    true
}

/// Recomputes the two CPF check digits and compares them with the ones the
/// document carries.
pub fn validate_cpf(cpf: &str) -> (r: bool)
    ensures
        r == cpf_valid(cpf@),
{
    let d = digit_chars(cpf);
    if d.len() != 11 {
        return false;
    }
    proof {
        lemma_digits_are_digits(cpf@);
    }
    if all_digits_same(&d) {
        return false;
    }
    let sum1: u32 = 10 * digit_value(d[0]) as u32 + 9 * digit_value(d[1]) as u32 + 8
        * digit_value(d[2]) as u32 + 7 * digit_value(d[3]) as u32 + 6 * digit_value(d[4]) as u32
        + 5 * digit_value(d[5]) as u32 + 4 * digit_value(d[6]) as u32 + 3 * digit_value(
        d[7],
    ) as u32 + 2 * digit_value(d[8]) as u32;
    let dig1 = check_digit(sum1);
    let sum2: u32 = 11 * digit_value(d[0]) as u32 + 10 * digit_value(d[1]) as u32 + 9
        * digit_value(d[2]) as u32 + 8 * digit_value(d[3]) as u32 + 7 * digit_value(d[4]) as u32
        + 6 * digit_value(d[5]) as u32 + 5 * digit_value(d[6]) as u32 + 4 * digit_value(
        d[7],
    ) as u32 + 3 * digit_value(d[8]) as u32 + 2 * digit_value(d[9]) as u32;
    let dig2 = check_digit(sum2);
    digit_value(d[9]) == dig1 && digit_value(d[10]) == dig2
}

/// Recomputes the two CNPJ check digits and compares them with the ones the
/// document carries.
pub fn validate_cnpj(cnpj: &str) -> (r: bool)
    ensures
        r == cnpj_valid(cnpj@),
{
    let d = digit_chars(cnpj);
    if d.len() != 14 {
        return false;
    }
    proof {
        lemma_digits_are_digits(cnpj@);
    }
    if all_digits_same(&d) {
        return false;
    }
    let sum1: u32 = 5 * digit_value(d[0]) as u32 + 4 * digit_value(d[1]) as u32 + 3 * digit_value(
        d[2],
    ) as u32 + 2 * digit_value(d[3]) as u32 + 9 * digit_value(d[4]) as u32 + 8 * digit_value(
        d[5],
    ) as u32 + 7 * digit_value(d[6]) as u32 + 6 * digit_value(d[7]) as u32 + 5 * digit_value(
        d[8],
    ) as u32 + 4 * digit_value(d[9]) as u32 + 3 * digit_value(d[10]) as u32 + 2 * digit_value(
        d[11],
    ) as u32;
    let dig1 = check_digit(sum1);
    let sum2: u32 = 6 * digit_value(d[0]) as u32 + 5 * digit_value(d[1]) as u32 + 4 * digit_value(
        d[2],
    ) as u32 + 3 * digit_value(d[3]) as u32 + 2 * digit_value(d[4]) as u32 + 9 * digit_value(
        d[5],
    ) as u32 + 8 * digit_value(d[6]) as u32 + 7 * digit_value(d[7]) as u32 + 6 * digit_value(
        d[8],
    ) as u32 + 5 * digit_value(d[9]) as u32 + 4 * digit_value(d[10]) as u32 + 3 * digit_value(
        d[11],
    ) as u32 + 2 * dig1 as u32;
    let dig2 = check_digit(sum2);
    digit_value(d[12]) == dig1 && digit_value(d[13]) == dig2
}

/// Formats the digits of `cpf` as `ddd.ddd.ddd-dd`, provided they number
/// exactly eleven.
pub fn format_cpf(cpf: &str) -> (r: Result<String, String>)
    ensures
        digits_spec(cpf@).len() == 11 ==> (r matches Ok(t) && t@ == cpf_formatted(
            digits_spec(cpf@),
        )),
        digits_spec(cpf@).len() != 11 ==> (r matches Err(m) && m@ == "Invalid CPF length"@),
{
    let d = digit_chars(cpf);
    if d.len() != 11 {
        return Err(String::from_str("Invalid CPF length"));
    }
    let mut out = String::new();
    push_char(&mut out, d[0]);
    push_char(&mut out, d[1]);
    push_char(&mut out, d[2]);
    push_char(&mut out, '.');
    push_char(&mut out, d[3]);
    push_char(&mut out, d[4]);
    push_char(&mut out, d[5]);
    push_char(&mut out, '.');
    push_char(&mut out, d[6]);
    push_char(&mut out, d[7]);
    push_char(&mut out, d[8]);
    push_char(&mut out, '-');
    push_char(&mut out, d[9]);
    push_char(&mut out, d[10]);
    proof {
        assert(out@ =~= cpf_formatted(d@));
    }
    Ok(out)
}

/// Formats the digits of `cnpj` as `dd.ddd.ddd/dddd-dd`, provided they
/// number exactly fourteen.
pub fn format_cnpj(cnpj: &str) -> (r: Result<String, String>)
    ensures
        digits_spec(cnpj@).len() == 14 ==> (r matches Ok(t) && t@ == cnpj_formatted(
            digits_spec(cnpj@),
        )),
        digits_spec(cnpj@).len() != 14 ==> (r matches Err(m) && m@ == "Invalid CNPJ length"@),
{
    let d = digit_chars(cnpj);
    if d.len() != 14 {
        return Err(String::from_str("Invalid CNPJ length"));
    }
    let mut out = String::new();
    push_char(&mut out, d[0]);
    push_char(&mut out, d[1]);
    push_char(&mut out, '.');
    push_char(&mut out, d[2]);
    push_char(&mut out, d[3]);
    push_char(&mut out, d[4]);
    push_char(&mut out, '.');
    push_char(&mut out, d[5]);
    push_char(&mut out, d[6]);
    push_char(&mut out, d[7]);
    push_char(&mut out, '/');
    push_char(&mut out, d[8]);
    push_char(&mut out, d[9]);
    push_char(&mut out, d[10]);
    push_char(&mut out, d[11]);
    push_char(&mut out, '-');
    push_char(&mut out, d[12]);
    push_char(&mut out, d[13]);
    proof {
        assert(out@ =~= cnpj_formatted(d@));
    }
    Ok(out)
}

/// Formats free text as a CPF when it carries eleven digits, as a CNPJ when
/// it carries fourteen, and rejects it otherwise.
pub fn format_document(documento_: &str) -> (r: Result<String, String>)
    ensures
        digits_spec(documento_@).len() == 11 ==> (r matches Ok(t) && t@ == cpf_formatted(
            digits_spec(documento_@),
        )),
        digits_spec(documento_@).len() == 14 ==> (r matches Ok(t) && t@ == cnpj_formatted(
            digits_spec(documento_@),
        )),
        (digits_spec(documento_@).len() != 11 && digits_spec(documento_@).len() != 14) ==> (r
            matches Err(m) && m@ == "Invalid document"@),
{
    match format_cpf(documento_) {
        Ok(cpf) => {
            return Ok(cpf);
        },
        Err(_) => {},
    }
    match format_cnpj(documento_) {
        Ok(cnpj) => {
            return Ok(cnpj);
        },
        Err(_) => {},
    }
    Err(String::from_str("Invalid document"))
}

} // verus!
