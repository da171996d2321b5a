//! Reading the declared program identity out of the project manifest.

use vstd::prelude::*;
use vstd::string::StrSliceExecFns;
use vstd::string::StringExecFns;

verus! {

/// White space, as text trimming understands it.
pub open spec fn is_space(c: char) -> bool {
    let n = c as u32;
    n == 0x20 || (0x09 <= n && n <= 0x0d) || n == 0x85 || n == 0xa0 || n == 0x1680 || (0x2000 <= n
        && n <= 0x200a) || n == 0x2028 || n == 0x2029 || n == 0x202f || n == 0x205f || n == 0x3000
}

/// Is `c` stripped from the ends of a text: a double quote where `quotes`
/// is set, white space otherwise.
pub open spec fn is_stripped(c: char, quotes: bool) -> bool {
    if quotes {
        c == '"'
    } else {
        is_space(c)
    }
}

/// How many characters from `pos` on come before the first `stop`, or
/// before `hi` where there is none.
pub open spec fn run_len(s: Seq<char>, pos: int, hi: int, stop: char) -> nat
    decreases hi - pos,
{
    if pos < hi && s[pos] != stop {
        1 + run_len(s, pos + 1, hi, stop)
    } else {
        0
    }
}

/// How many stripped characters the range starts with.
pub open spec fn lead(s: Seq<char>, lo: int, hi: int, quotes: bool) -> nat
    decreases hi - lo,
{
    if lo < hi && is_stripped(s[lo], quotes) {
        1 + lead(s, lo + 1, hi, quotes)
    } else {
        0
    }
}

/// How many stripped characters the range ends with.
pub open spec fn trail(s: Seq<char>, lo: int, hi: int, quotes: bool) -> nat
    decreases hi - lo,
{
    if lo < hi && is_stripped(s[hi - 1], quotes) {
        1 + trail(s, lo, hi - 1, quotes)
    } else {
        0
    }
}

/// The range that is left of `lo..hi` when stripped characters are taken
/// from both ends.
pub open spec fn strip(s: Seq<char>, lo: int, hi: int, quotes: bool) -> (int, int) {
    let start = lo + lead(s, lo, hi, quotes);
    (start, hi - trail(s, start, hi, quotes))
}

/// The word that names the section of program identities.
pub open spec fn programs_word() -> Seq<char> {
    seq!['p', 'r', 'o', 'g', 'r', 'a', 'm', 's']
}

/// Is the trimmed line `lo..hi` a section header?
pub open spec fn is_header(s: Seq<char>, lo: int, hi: int) -> bool {
    lo < hi && s[lo] == '[' && s[hi - 1] == ']'
}

/// Does the header `lo..hi` open the section of program identities, or a
/// subsection of it?
pub open spec fn opens_programs(s: Seq<char>, lo: int, hi: int) -> bool {
    let section = s.subrange(lo + 1, hi - 1);
    section == programs_word() || (section.len() >= 9 && section.subrange(0, 8) == programs_word()
        && section[8] == '.')
}

/// The value that the trimmed line `lo..hi` gives to `name`: what follows
/// the first `=`, trimmed and without surrounding quotes, where the key
/// before it is `name` and the value is not empty.
pub open spec fn entry_value(s: Seq<char>, lo: int, hi: int, name: Seq<char>) -> Option<
    (int, int),
> {
    let eq = lo + run_len(s, lo, hi, '=');
    if eq >= hi {
        None
    } else {
        let key = strip(s, lo, eq, false);
        let trimmed = strip(s, eq + 1, hi, false);
        let value = strip(s, trimmed.0, trimmed.1, true);
        if s.subrange(key.0, key.1) == name && value.0 < value.1 {
            Some(value)
        } else {
            None
        }
    }
}

/// What one trimmed line `lo..hi` decides: the range of the identity it
/// declares for `name`, if it declares one, and whether the next line stands
/// in the section of program identities.
pub open spec fn line_step(s: Seq<char>, name: Seq<char>, lo: int, hi: int, in_programs: bool) -> (
    Option<(int, int)>,
    bool,
) {
    if is_header(s, lo, hi) {
        (None, opens_programs(s, lo, hi))
    } else if !in_programs || lo >= hi || s[lo] == '#' {
        (None, in_programs)
    } else {
        (entry_value(s, lo, hi, name), in_programs)
    }
}

/// The range of the identity that the lines from `pos` on declare for
/// `name`, where `in_programs` says whether the line at `pos` stands in the
/// section of program identities.
pub open spec fn find_from(s: Seq<char>, name: Seq<char>, pos: int, in_programs: bool) -> Option<
    (int, int),
>
    decreases s.len() - pos,
{
    if pos >= s.len() {
        None
    } else {
        let end = pos + run_len(s, pos, s.len() as int, '\n');
        let line = strip(s, pos, end, false);
        let step = line_step(s, name, line.0, line.1, in_programs);
        if step.0 is Some {
            step.0
        } else if end >= s.len() {
            None
        } else {
            find_from(s, name, end + 1, step.1)
        }
    }
}

/// The identity that a manifest declares for `name`: the value of the first
/// entry with that key in the section `programs` or one of its subsections,
/// comment lines and empty values passed over.
pub open spec fn find_program_id_spec(toml: Seq<char>, name: Seq<char>) -> Option<Seq<char>> {
    match find_from(toml, name, 0, false) {
        Some(range) => Some(toml.subrange(range.0, range.1)),
        None => None,
    }
}

/// The characters of a text.
pub fn chars_of(text: &str) -> (r: Vec<char>)
    ensures
        r@ == text@,
{
    let n = text.unicode_len();
    let mut out: Vec<char> = Vec::with_capacity(n);
    for c in it: text.chars()
        invariant
            it.seq() == text@,
            out@.len() == it.index(),
            forall|j: int| 0 <= j < out@.len() ==> out@[j] == it.seq()[j],
    {
        out.push(c);
    }
    assert(out@ =~= text@);
    out
}

fn is_space_char(c: char) -> (r: bool)
    ensures
        r == is_space(c),
{
    let n: u32 = c as u32;
    n == 0x20 || (0x09 <= n && n <= 0x0d) || n == 0x85 || n == 0xa0 || n == 0x1680 || (0x2000 <= n
        && n <= 0x200a) || n == 0x2028 || n == 0x2029 || n == 0x202f || n == 0x205f || n == 0x3000
}

fn is_stripped_char(c: char, quotes: bool) -> (r: bool)
    ensures
        r == is_stripped(c, quotes),
{
    if quotes {
        c == '"'
    } else {
        is_space_char(c)
    }
}

/// The index of the first `stop` in `pos..hi`, or `hi`.
fn scan(v: &Vec<char>, pos: usize, hi: usize, stop: char) -> (r: usize)
    requires
        pos <= hi <= v@.len(),
    ensures
        r == pos + run_len(v@, pos as int, hi as int, stop),
        pos <= r <= hi,
{
    let mut i: usize = pos;
    while i < hi && v[i] != stop
        invariant
            pos <= i <= hi <= v@.len(),
            pos + run_len(v@, pos as int, hi as int, stop) == i + run_len(
                v@,
                i as int,
                hi as int,
                stop,
            ),
        decreases hi - i,
    {
        i += 1;
    }
    i
}

/// Strips the range `lo..hi` at both ends.
fn strip_range(v: &Vec<char>, lo: usize, hi: usize, quotes: bool) -> (r: (usize, usize))
    requires
        lo <= hi <= v@.len(),
    ensures
        (r.0 as int, r.1 as int) == strip(v@, lo as int, hi as int, quotes),
        lo <= r.0 <= r.1 <= hi,
{
    let mut start: usize = lo;
    while start < hi && is_stripped_char(v[start], quotes)
        invariant
            lo <= start <= hi <= v@.len(),
            lo + lead(v@, lo as int, hi as int, quotes) == start + lead(
                v@,
                start as int,
                hi as int,
                quotes,
            ),
        decreases hi - start,
    {
        start += 1;
    }
    let mut end: usize = hi;
    while start < end && is_stripped_char(v[end - 1], quotes)
        invariant
            start <= end <= hi <= v@.len(),
            hi - trail(v@, start as int, hi as int, quotes) == end - trail(
                v@,
                start as int,
                end as int,
                quotes,
            ),
        decreases end - start,
    {
        end -= 1;
    }
    (start, end)
}

/// Does the range `lo..hi` of `v` hold exactly the characters of `word`?
fn range_is(v: &Vec<char>, lo: usize, hi: usize, word: &Vec<char>) -> (r: bool)
    requires
        lo <= hi <= v@.len(),
    ensures
        r == (v@.subrange(lo as int, hi as int) == word@),
{
    if hi - lo != word.len() {
        return false;
    }
    let mut i: usize = 0;
    while i < word.len()
        invariant
            lo <= hi <= v@.len(),
            hi - lo == word@.len(),
            i <= word@.len(),
            forall|j: int| 0 <= j < i ==> v@[lo + j] == word@[j],
        decreases word@.len() - i,
    {
        if v[lo + i] != word[i] {
            assert(v@.subrange(lo as int, hi as int)[i as int] != word@[i as int]);
            return false;
        }
        i += 1;
    }
    assert(v@.subrange(lo as int, hi as int) =~= word@);
    true
}

fn programs_word_chars() -> (r: Vec<char>)
    ensures
        r@ == programs_word(),
{
    let mut w: Vec<char> = Vec::new();
    w.push('p');
    w.push('r');
    w.push('o');
    w.push('g');
    w.push('r');
    w.push('a');
    w.push('m');
    w.push('s');
    assert(w@ =~= programs_word());
    w
}

fn header_opens_programs(v: &Vec<char>, lo: usize, hi: usize) -> (r: bool)
    requires
        lo < hi <= v@.len(),
        is_header(v@, lo as int, hi as int),
    ensures
        r == opens_programs(v@, lo as int, hi as int),
{
    let word = programs_word_chars();
    let from: usize = lo + 1;
    let to: usize = hi - 1;
    let ghost section = v@.subrange(from as int, to as int);
    if range_is(v, from, to, &word) {
        return true;
    }
    if to - from >= 9 {
        assert(section.subrange(0, 8) =~= v@.subrange(from as int, from + 8));
        assert(section[8] == v@[from + 8]);
        range_is(v, from, from + 8, &word) && v[from + 8] == '.'
    } else {
        false
    }
}

fn entry_value_range(v: &Vec<char>, lo: usize, hi: usize, name: &Vec<char>) -> (r: Option<
    (usize, usize),
>)
    requires
        lo <= hi <= v@.len(),
    ensures
        match r {
            Some(range) => entry_value(v@, lo as int, hi as int, name@) == Some(
                (range.0 as int, range.1 as int),
            ) && range.0 <= range.1 <= v@.len(),
            None => entry_value(v@, lo as int, hi as int, name@) is None,
        },
{
    let eq = scan(v, lo, hi, '=');
    if eq >= hi {
        return None;
    }
    let key = strip_range(v, lo, eq, false);
    let trimmed = strip_range(v, eq + 1, hi, false);
    let value = strip_range(v, trimmed.0, trimmed.1, true);
    if range_is(v, key.0, key.1, name) && value.0 < value.1 {
        Some(value)
    } else {
        None
    }
}

/// Finds the identity that the manifest text declares for `program_name`.
pub fn find_program_id(toml: &str, program_name: &str) -> (r: Option<String>)
    ensures
        match r {
            Some(value) => find_program_id_spec(toml@, program_name@) == Some(value@),
            None => find_program_id_spec(toml@, program_name@) is None,
        },
{
    let v = chars_of(toml);
    let name = chars_of(program_name);
    let n = v.len();
    let mut pos: usize = 0;
    let mut in_programs = false;
    while pos < n
        invariant
            n == v@.len(),
            v@ == toml@,
            name@ == program_name@,
            pos <= n,
            find_from(v@, name@, 0, false) == find_from(v@, name@, pos as int, in_programs),
        decreases n - pos,
    {
        let end = scan(&v, pos, n, '\n');
        let line = strip_range(&v, pos, end, false);
        if line.0 < line.1 && v[line.0] == '[' && v[line.1 - 1] == ']' {
            in_programs = header_opens_programs(&v, line.0, line.1);
        } else if !in_programs || line.0 >= line.1 || v[line.0] == '#' {
        } else {
            match entry_value_range(&v, line.0, line.1, &name) {
                Some(value) => {
                    let text = toml.substring_char(value.0, value.1);
                    return Some(String::from_str(text));
                },
                None => {},
            }
        }
        if end >= n {
            return None;
        }
        pos = end + 1;
    }
    None
}

} // verus!
