//! Hardware inventory of the machine: what the queries print is turned into
//! names and numbers here; running the queries is the host's part.

use crate::text::{
    all_space, blank_from, chars_of, clean_chars, display_text, find_last, last_occurrence, lines,
    matches_at, occurs_at, slice_of, string_of, trim_chars, trimmed,
};
use vstd::prelude::*;
use vstd::string::*;

verus! {

/// What is known of the machine: model, processor, graphics, memory.
#[derive(Debug, Clone)]
pub struct SystemSpecs {
    pub device_model: String,
    pub cpu_model: String,
    pub gpu_models: Vec<String>,
    pub total_ram_gb: u32,
}

/// Text that stands for a part that is not known.
pub open spec fn unknown() -> Seq<char> {
    "Unknown"@
}

impl Default for SystemSpecs {
    fn default() -> (specs: Self)
        ensures
            specs.device_model@ == unknown(),
            specs.cpu_model@ == unknown(),
            lines(specs.gpu_models@) == seq![unknown()],
            specs.total_ram_gb == 0,
    {
        let mut gpu_models: Vec<String> = Vec::new();
        gpu_models.push(String::from_str("Unknown"));
        assert(lines(gpu_models@) =~= seq![unknown()]);
        SystemSpecs {
            device_model: String::from_str("Unknown"),
            cpu_model: String::from_str("Unknown"),
            gpu_models,
            total_ram_gb: 0,
        }
    }
}

/// The graphics model numbers that a device name may end with, in the order
/// in which they are looked for.
pub open spec fn gpu_suffixes() -> Seq<Seq<char>> {
    seq!["4060"@, "4070"@, "4080"@, "4090"@, "5070"@, "5080"@, "5090"@]
}

/// The name cut before `suffix`, where the name ends with it, or where the
/// last place at which it stands after a space is followed by white space
/// only.
pub open spec fn cut_before(name: Seq<char>, suffix: Seq<char>) -> Option<Seq<char>> {
    if occurs_at(name, suffix, name.len() - suffix.len()) {
        Some(name.take(name.len() - suffix.len()))
    } else {
        match last_occurrence(name, seq![' '] + suffix) {
            Some(at) => if all_space(name.skip(at + 1 + suffix.len())) {
                Some(name.take(at))
            } else {
                None
            },
            None => None,
        }
    }
}

/// The name cut before the first of the suffixes, from the `from`-th on,
/// for which there is a cut; the name itself if there is none.
pub open spec fn cut_name(name: Seq<char>, suffixes: Seq<Seq<char>>, from: int) -> Seq<char>
    decreases suffixes.len() - from,
{
    if from < 0 || from >= suffixes.len() {
        name
    } else {
        match cut_before(name, suffixes[from]) {
            Some(cut) => cut,
            None => cut_name(name, suffixes, from + 1),
        }
    }
}

/// The model as it is displayed: the device name without the graphics model
/// number at its end and without white space at the ends.
pub open spec fn model_name(device_name: Seq<char>) -> Seq<char> {
    trimmed(cut_name(device_name, gpu_suffixes(), 0))
}

fn suffix_list() -> (list: Vec<Vec<char>>)
    ensures
        list@.len() == gpu_suffixes().len(),
        forall|i: int| 0 <= i < list@.len() ==> (#[trigger] list@[i])@ == gpu_suffixes()[i],
{
    let mut list: Vec<Vec<char>> = Vec::new();
    list.push(chars_of("4060"));
    list.push(chars_of("4070"));
    list.push(chars_of("4080"));
    list.push(chars_of("4090"));
    list.push(chars_of("5070"));
    list.push(chars_of("5080"));
    list.push(chars_of("5090"));
    list
}

fn cut_at(name: &Vec<char>, suffix: &Vec<char>) -> (cut: Option<usize>)
    ensures
        match cut {
            Some(at) => at <= name.len() && cut_before(name@, suffix@) == Some(
                name@.take(at as int),
            ),
            None => cut_before(name@, suffix@).is_none(),
        },
{
    if suffix.len() <= name.len() && matches_at(name, suffix, name.len() - suffix.len()) {
        return Some(name.len() - suffix.len());
    }
    let mut spaced: Vec<char> = Vec::new();
    spaced.push(' ');
    let mut i: usize = 0;
    while i < suffix.len()
        invariant
            0 <= i <= suffix.len(),
            spaced@ == seq![' '] + suffix@.take(i as int),
        decreases suffix.len() - i,
    {
        spaced.push(suffix[i]);
        i = i + 1;
        assert(spaced@ =~= seq![' '] + suffix@.take(i as int));
    }
    assert(suffix@.take(suffix.len() as int) =~= suffix@);
    match find_last(name, &spaced) {
        Some(at) => {
            if blank_from(name, at + spaced.len()) {
                Some(at)
            } else {
                None
            }
        },
        None => None,
    }
}

/// The model to display for a device name.
pub fn device_model_name(device_name: &str) -> (model: String)
    ensures
        model@ == model_name(device_name@),
{
    let name = chars_of(device_name);
    let suffixes = suffix_list();
    let mut end: usize = name.len();
    let mut i: usize = 0;
    assert(name@.take(end as int) =~= name@);
    while i < suffixes.len()
        invariant_except_break
            end == name.len(),
            cut_name(name@, gpu_suffixes(), 0) == cut_name(name@, gpu_suffixes(), i as int),
        invariant
            0 <= i <= suffixes.len(),
            suffixes@.len() == gpu_suffixes().len(),
            forall|k: int| 0 <= k < suffixes@.len() ==> (#[trigger] suffixes@[k])@ == gpu_suffixes()[k],
        ensures
            end <= name.len(),
            cut_name(name@, gpu_suffixes(), 0) == name@.take(end as int),
        decreases suffixes.len() - i,
    {
        match cut_at(&name, &suffixes[i]) {
            Some(at) => {
                end = at;
                break ;
            },
            None => {},
        }
        i = i + 1;
    }
    let cut = slice_of(&name, 0, end);
    assert(name@.subrange(0, end as int) =~= name@.take(end as int));
    let model = trim_chars(&cut);
    string_of(&model)
}

/// The processor name that the processor query printed.
pub fn get_cpu_info(output: &str) -> (name: String)
    ensures
        name@ == display_text(output@),
{
    let chars = chars_of(output);
    let cleaned = clean_chars(&chars);
    string_of(&cleaned)
}

/// The pieces of `s` between its line feeds.
pub open spec fn split_lines(s: Seq<char>) -> Seq<Seq<char>>
    decreases s.len(),
{
    if s.len() == 0 {
        seq![Seq::<char>::empty()]
    } else {
        let before = split_lines(s.drop_last());
        if s.last() == '\n' {
            before.push(Seq::empty())
        } else {
            before.drop_last().push(before.last().push(s.last()))
        }
    }
}

/// The display texts of the lines that are not empty after cleaning.
pub open spec fn listed_names(rows: Seq<Seq<char>>) -> Seq<Seq<char>>
    decreases rows.len(),
{
    if rows.len() == 0 {
        Seq::empty()
    } else if display_text(rows.last()).len() == 0 {
        listed_names(rows.drop_last())
    } else {
        listed_names(rows.drop_last()).push(display_text(rows.last()))
    }
}

/// Text that stands for an empty list of graphics processors.
pub open spec fn no_gpu() -> Seq<char> {
    "No discrete GPU detected"@
}

/// The graphics processors that the query printed, one per line.
pub open spec fn gpu_names(output: Seq<char>) -> Seq<Seq<char>> {
    if listed_names(split_lines(output)).len() == 0 {
        seq![no_gpu()]
    } else {
        listed_names(split_lines(output))
    }
}

proof fn split_lines_is_not_empty(s: Seq<char>)
    ensures
        split_lines(s).len() > 0,
    decreases s.len(),
{
    if s.len() > 0 {
        split_lines_is_not_empty(s.drop_last());
    }
}

/// The names of the graphics processors that the graphics query printed.
pub fn get_gpu_info(output: &str) -> (names: Vec<String>)
    ensures
        lines(names@) == gpu_names(output@),
{
    let chars = chars_of(output);
    let mut names: Vec<String> = Vec::new();
    let mut row: Vec<char> = Vec::new();
    let mut i: usize = 0;
    assert(lines(names@) =~= listed_names(split_lines(chars@.take(0)).drop_last()));
    while i < chars.len()
        invariant
            0 <= i <= chars.len(),
            split_lines(chars@.take(i as int)).len() > 0,
            row@ == split_lines(chars@.take(i as int)).last(),
            lines(names@) == listed_names(split_lines(chars@.take(i as int)).drop_last()),
        decreases chars.len() - i,
    {
        let ghost before = split_lines(chars@.take(i as int));
        proof {
            assert(chars@.take(i + 1).drop_last() =~= chars@.take(i as int));
            split_lines_is_not_empty(chars@.take(i + 1));
        }
        let c = chars[i];
        if c == '\n' {
            let cleaned = clean_chars(&row);
            proof {
                assert(before.push(Seq::empty()).drop_last() =~= before);
                assert(before.drop_last().push(before.last()) =~= before);
            }
            if cleaned.len() > 0 {
                names.push(string_of(&cleaned));
                assert(lines(names@) =~= listed_names(before.drop_last()).push(cleaned@));
            }
            row = Vec::new();
        } else {
            row.push(c);
            proof {
                assert(before.drop_last().push(before.last().push(c)).drop_last()
                    =~= before.drop_last());
            }
        }
        i = i + 1;
    }
    assert(chars@.take(chars.len() as int) =~= chars@);
    let ghost rows = split_lines(chars@);
    assert(rows.drop_last().push(rows.last()) =~= rows);
    let cleaned = clean_chars(&row);
    if cleaned.len() > 0 {
        names.push(string_of(&cleaned));
        assert(lines(names@) =~= listed_names(rows.drop_last()).push(cleaned@));
    }
    if names.len() == 0 {
        names.push(String::from_str("No discrete GPU detected"));
        assert(lines(names@) =~= seq![no_gpu()]);
    }
    names
}

/// Value of a decimal digit, if the character is one.
pub open spec fn digit_value(c: char) -> Option<nat> {
    if '0' <= c <= '9' {
        Some((c as u32 - '0' as u32) as nat)
    } else {
        None
    }
}

/// Whether every character is a decimal digit.
pub open spec fn all_digits(s: Seq<char>) -> bool {
    forall|i: int| 0 <= i < s.len() ==> digit_value(#[trigger] s[i]).is_some()
}

/// The number that a sequence of decimal digits denotes.
pub open spec fn digits_value(s: Seq<char>) -> nat
    decreases s.len(),
{
    if s.len() == 0 {
        0
    } else {
        digits_value(s.drop_last()) * 10 + match digit_value(s.last()) {
            Some(d) => d,
            None => 0,
        }
    }
}

/// The number that a text denotes: decimal digits, at least one, after an
/// optional plus sign, with a value that fits into 64 bits.
pub open spec fn parsed_number(s: Seq<char>) -> Option<u64> {
    let digits = if s.len() > 0 && s[0] == '+' {
        s.skip(1)
    } else {
        s
    };
    if digits.len() == 0 || !all_digits(digits) || digits_value(digits) > u64::MAX {
        None
    } else {
        Some(digits_value(digits) as u64)
    }
}

proof fn digits_value_grows(s: Seq<char>, n: int)
    requires
        0 <= n <= s.len(),
    ensures
        digits_value(s.take(n)) <= digits_value(s),
    decreases s.len() - n,
{
    if n < s.len() {
        digits_value_grows(s, n + 1);
        assert(s.take(n + 1).drop_last() =~= s.take(n));
    } else {
        assert(s.take(n) =~= s);
    }
}

/// The number that a text denotes, if it denotes one.
pub fn parse_number(text: &Vec<char>) -> (number: Option<u64>)
    ensures
        number == parsed_number(text@),
{
    let start: usize = if text.len() > 0 && text[0] == '+' {
        1
    } else {
        0
    };
    let ghost digits = text@.skip(start as int);
    if start == text.len() {
        return None;
    }
    let mut value: u64 = 0;
    let mut i: usize = start;
    assert(digits.take(0) =~= Seq::<char>::empty());
    while i < text.len()
        invariant
            start <= i <= text.len(),
            start == if text.len() > 0 && text@[0] == '+' {
                1int
            } else {
                0int
            },
            digits == text@.skip(start as int),
            forall|j: int| 0 <= j < i - start ==> digit_value(#[trigger] digits[j]).is_some(),
            value == digits_value(digits.take(i - start)),
        decreases text.len() - i,
    {
        let c = text[i];
        assert(digits[i - start] == c);
        assert(digits.take(i - start + 1).drop_last() =~= digits.take(i - start));
        if !('0' <= c && c <= '9') {
            assert(text@.skip(0) =~= text@);
            return None;
        }
        let d: u64 = (c as u32 - '0' as u32) as u64;
        assert(digits_value(digits.take(i - start + 1)) == value * 10 + d);
        proof {
            digits_value_grows(digits, i - start + 1);
            assert(text@.skip(0) =~= text@);
        }
        let tens = match value.checked_mul(10) {
            Some(tens) => tens,
            None => {
                return None;
            },
        };
        value = match tens.checked_add(d) {
            Some(sum) => sum,
            None => {
                return None;
            },
        };
        i = i + 1;
    }
    assert(digits.take(digits.len() as int) =~= digits);
    assert(text@.skip(0) =~= text@);
    Some(value)
}

/// Number of bytes in a gibibyte.
pub const GIBIBYTE: u64 = 1073741824;

/// The memory size in gibibytes for a number of bytes, as 32 bits hold it.
pub open spec fn gibibytes(bytes: u64) -> u32 {
    ((bytes / GIBIBYTE) % 0x1_0000_0000) as u32
}

/// Text of the error for a memory size that is no number.
pub open spec fn ram_parse_failed_text() -> Seq<char> {
    "Failed to parse RAM size"@
}

/// The memory size that the memory query printed, in gibibytes.
pub open spec fn ram_size(output: Seq<char>) -> Result<u32, Seq<char>> {
    match parsed_number(display_text(output)) {
        Some(bytes) => Ok(gibibytes(bytes)),
        None => Err(ram_parse_failed_text()),
    }
}

/// The memory size in gibibytes from what the memory query printed: the
/// number of bytes.
pub fn get_ram_info(output: &str) -> (size: Result<u32, String>)
    ensures
        crate::link::told(size) == ram_size(output@),
{
    let chars = chars_of(output);
    let cleaned = clean_chars(&chars);
    match parse_number(&cleaned) {
        Some(ram_bytes) => {
            let whole = ram_bytes / GIBIBYTE;
            Ok((whole % 0x1_0000_0000) as u32)
        },
        None => Err(String::from_str("Failed to parse RAM size")),
    }
}

/// The inventory built from what could be found out: a part that is missing
/// keeps its placeholder, and so does an empty list of graphics processors.
pub fn get_system_specs(
    device_name: Option<&str>,
    cpu: Option<String>,
    gpus: Option<Vec<String>>,
    ram_gb: Option<u32>,
) -> (specs: SystemSpecs)
    ensures
        specs.device_model@ == match device_name {
            Some(name) => model_name(name@),
            None => unknown(),
        },
        specs.cpu_model@ == match cpu {
            Some(name) => name@,
            None => unknown(),
        },
        lines(specs.gpu_models@) == match gpus {
            Some(names) => if names@.len() > 0 {
                lines(names@)
            } else {
                seq![unknown()]
            },
            None => seq![unknown()],
        },
        specs.total_ram_gb == match ram_gb {
            Some(size) => size,
            None => 0,
        },
{
    let mut specs = SystemSpecs::default();
    if let Some(name) = device_name {
        specs.device_model = device_model_name(name);
    }
    if let Some(name) = cpu {
        specs.cpu_model = name;
    }
    if let Some(names) = gpus {
        if names.len() > 0 {
            specs.gpu_models = names;
        }
    }
    if let Some(size) = ram_gb {
        specs.total_ram_gb = size;
    }
    specs
}

} // verus!
