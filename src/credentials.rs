use vstd::prelude::*;
use vstd::string::StringExecFns;
use crate::option_list::names_of;

verus! {

pub open spec fn is_bracket(c: char) -> bool {
    c == '[' || c == ']'
}

/// A line that opens a profile section: it starts with `[` and ends with `]`.
pub open spec fn is_section_header(line: Seq<char>) -> bool {
    line.len() > 0 && line[0] == '[' && line.last() == ']'
}

/// `s` without its trailing brackets.
pub open spec fn trim_brackets_end(s: Seq<char>) -> Seq<char>
    decreases s.len(),
{
    if s.len() == 0 {
        s
    } else if is_bracket(s.last()) {
        trim_brackets_end(s.drop_last())
    } else {
        s
    }
}

/// `s` without its leading and trailing brackets.
pub open spec fn trim_brackets(s: Seq<char>) -> Seq<char>
    decreases s.len(),
{
    if s.len() == 0 {
        s
    } else if is_bracket(s[0]) {
        trim_brackets(s.drop_first())
    } else {
        trim_brackets_end(s)
    }
}

/// The profile that a line of a credentials file names, if it is a section header.
pub open spec fn profile_of_line(line: Seq<char>) -> Option<Seq<char>> {
    if is_section_header(line) {
        Some(trim_brackets(line))
    } else {
        None
    }
}

/// The profiles named by the section headers among `lines`, in file order.
pub open spec fn profiles_in(lines: Seq<Seq<char>>) -> Seq<Seq<char>>
    decreases lines.len(),
{
    if lines.len() == 0 {
        Seq::empty()
    } else {
        let rest = profiles_in(lines.drop_last());
        match profile_of_line(lines.last()) {
            Some(p) => rest.push(p),
            None => rest,
        }
    }
}

/// `line` without its leading and trailing brackets.
pub fn trim_brackets_exec(line: &str) -> (r: String)
    ensures
        r@ == trim_brackets(line@),
{
    let n = line.unicode_len();
    let mut i: usize = 0;
    assert(line@.subrange(0, n as int) =~= line@);
    while i < n && (line.get_char(i) == '[' || line.get_char(i) == ']')
        invariant
            i <= n,
            n == line@.len(),
            trim_brackets(line@) == trim_brackets(line@.subrange(i as int, n as int)),
        decreases n - i,
    {
        assert(line@.subrange(i as int, n as int).drop_first() =~= line@.subrange(
            i + 1,
            n as int,
        ));
        i += 1;
    }
    let mut j: usize = n;
    while j > i && (line.get_char(j - 1) == '[' || line.get_char(j - 1) == ']')
        invariant
            i <= j <= n,
            n == line@.len(),
            i == n || !is_bracket(line@[i as int]),
            trim_brackets(line@) == trim_brackets_end(line@.subrange(i as int, j as int)),
        decreases j,
    {
        assert(line@.subrange(i as int, j as int).drop_last() =~= line@.subrange(
            i as int,
            j - 1,
        ));
        j -= 1;
    }
    String::from_str(line.substring_char(i, j))
}

/// The profile names in the lines of a credentials file: each line that starts with
/// `[` and ends with `]` names one, with its brackets trimmed.
pub fn profile_names(lines: &Vec<String>) -> (r: Vec<String>)
    ensures
        names_of(r@) == profiles_in(names_of(lines@)),
{
    let mut r: Vec<String> = Vec::new();
    let mut k: usize = 0;
    assert(names_of(lines@).take(0) =~= Seq::<Seq<char>>::empty());
    assert(names_of(r@) =~= Seq::<Seq<char>>::empty());
    while k < lines.len()
        invariant
            k <= lines.len(),
            names_of(r@) == profiles_in(names_of(lines@).take(k as int)),
        decreases lines.len() - k,
    {
        let line = lines[k].as_str();
        let n = line.unicode_len();
        proof {
            assert(names_of(lines@).take(k + 1).drop_last() =~= names_of(lines@).take(k as int));
            assert(names_of(lines@).take(k + 1).last() == line@);
        }
        if n > 0 && line.get_char(0) == '[' && line.get_char(n - 1) == ']' {
            let p = trim_brackets_exec(line);
            r.push(p);
            assert(names_of(r@) =~= profiles_in(names_of(lines@).take(k as int)).push(p@));
        }
        k += 1;
    }
    assert(names_of(lines@).take(lines.len() as int) =~= names_of(lines@));
    r
}

} // verus!
