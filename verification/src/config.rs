use vstd::prelude::*;
use crate::text::{first_index_of, lemma_first_index_at, lemma_first_index_none};

verus! {

/// The parsed contents of a package's `config.flash` file: an optional
/// display name, an optional description, the install command, and the
/// policy flag that asks for the package directory to be deleted after a
/// successful install.
#[derive(Debug, Clone)]
pub struct InstallDescriptor {
    pub name: Option<String>,
    pub desc: Option<String>,
    pub exec_command: Option<String>,
    pub clear: bool,
}

/// `s` split at every newline. The separators belong to no segment, and a
/// text always has at least one (possibly empty) segment.
pub open spec fn split_lines(s: Seq<char>) -> Seq<Seq<char>>
    decreases s.len(),
{
    let k = first_index_of(s, '\n');
    if k >= s.len() {
        seq![s]
    } else {
        seq![s.take(k as int)] + split_lines(s.skip(k as int + 1))
    }
}

/// A trailing carriage return is not part of a line's content.
pub open spec fn trim_cr(l: Seq<char>) -> Seq<char> {
    if l.len() > 0 && l.last() == '\r' {
        l.drop_last()
    } else {
        l
    }
}

/// Does the line begin with `exec=`?
pub open spec fn is_exec_line(l: Seq<char>) -> bool {
    l.len() >= 5 && l[0] == 'e' && l[1] == 'x' && l[2] == 'e' && l[3] == 'c' && l[4] == '='
}

/// Does the line begin with `name=`?
pub open spec fn is_name_line(l: Seq<char>) -> bool {
    l.len() >= 5 && l[0] == 'n' && l[1] == 'a' && l[2] == 'm' && l[3] == 'e' && l[4] == '='
}

/// Does the line begin with `desc=`?
pub open spec fn is_desc_line(l: Seq<char>) -> bool {
    l.len() >= 5 && l[0] == 'd' && l[1] == 'e' && l[2] == 's' && l[3] == 'c' && l[4] == '='
}

/// Does the line begin with `clear=true`?
pub open spec fn is_clear_line(l: Seq<char>) -> bool {
    l.len() >= 10 && l[0] == 'c' && l[1] == 'l' && l[2] == 'e' && l[3] == 'a' && l[4] == 'r'
        && l[5] == '=' && l[6] == 't' && l[7] == 'r' && l[8] == 'u' && l[9] == 'e'
}

/// The value a raw line contributes to the `exec` field, if any: the
/// remainder of the line after the key.
pub open spec fn line_exec(raw: Seq<char>) -> Option<Seq<char>> {
    let l = trim_cr(raw);
    if is_exec_line(l) {
        Some(l.skip(5))
    } else {
        None
    }
}

/// The value a raw line contributes to the `name` field, if any.
pub open spec fn line_name(raw: Seq<char>) -> Option<Seq<char>> {
    let l = trim_cr(raw);
    if is_name_line(l) {
        Some(l.skip(5))
    } else {
        None
    }
}

/// The value a raw line contributes to the `desc` field, if any.
pub open spec fn line_desc(raw: Seq<char>) -> Option<Seq<char>> {
    let l = trim_cr(raw);
    if is_desc_line(l) {
        Some(l.skip(5))
    } else {
        None
    }
}

/// Does a raw line set the `clear` flag?
pub open spec fn line_clear(raw: Seq<char>) -> bool {
    is_clear_line(trim_cr(raw))
}

/// Of two optional values read in this order, the later one wins.
pub open spec fn later_wins(first: Option<Seq<char>>, second: Option<Seq<char>>) -> Option<
    Seq<char>,
> {
    if second is Some {
        second
    } else {
        first
    }
}

/// The `exec` value of a config, line by line: the last `exec=` line wins.
pub open spec fn exec_of_lines(lines: Seq<Seq<char>>) -> Option<Seq<char>>
    decreases lines.len(),
{
    if lines.len() == 0 {
        None
    } else {
        later_wins(line_exec(lines[0]), exec_of_lines(lines.skip(1)))
    }
}

/// The `name` value of a config: the last `name=` line wins.
pub open spec fn name_of_lines(lines: Seq<Seq<char>>) -> Option<Seq<char>>
    decreases lines.len(),
{
    if lines.len() == 0 {
        None
    } else {
        later_wins(line_name(lines[0]), name_of_lines(lines.skip(1)))
    }
}

/// The `desc` value of a config: the last `desc=` line wins.
pub open spec fn desc_of_lines(lines: Seq<Seq<char>>) -> Option<Seq<char>>
    decreases lines.len(),
{
    if lines.len() == 0 {
        None
    } else {
        later_wins(line_desc(lines[0]), desc_of_lines(lines.skip(1)))
    }
}

/// The `clear` flag of a config: set by any `clear=true` line.
pub open spec fn clear_of_lines(lines: Seq<Seq<char>>) -> bool
    decreases lines.len(),
{
    if lines.len() == 0 {
        false
    } else {
        line_clear(lines[0]) || clear_of_lines(lines.skip(1))
    }
}

/// What parsing a whole config text yields, field by field.
pub open spec fn desc_matches(d: InstallDescriptor, text: Seq<char>) -> bool {
    &&& d.exec_command.deep_view() == exec_of_lines(split_lines(text))
    &&& d.name.deep_view() == name_of_lines(split_lines(text))
    &&& d.desc.deep_view() == desc_of_lines(split_lines(text))
    &&& d.clear == clear_of_lines(split_lines(text))
}

/// Splitting a text whose first newline stands at `k` yields the prefix as
/// the first line, followed by the lines of the remainder.
proof fn lemma_split_at_nl(s: Seq<char>, k: int)
    requires
        0 <= k < s.len(),
        s[k] == '\n',
        forall|j: int| 0 <= j < k ==> s[j] != '\n',
    ensures
        split_lines(s) == seq![s.take(k)] + split_lines(s.skip(k + 1)),
{
    lemma_first_index_at(s, '\n', k);
}

/// A text without a newline is a single line.
proof fn lemma_split_no_nl(s: Seq<char>)
    requires
        forall|j: int| 0 <= j < s.len() ==> s[j] != '\n',
    ensures
        split_lines(s) == seq![s],
{
    lemma_first_index_none(s, '\n');
}

/// Reading one more line folds its contribution into each field.
proof fn lemma_fields_of_cons(a: Seq<char>, rest: Seq<Seq<char>>)
    ensures
        exec_of_lines(seq![a] + rest) == later_wins(line_exec(a), exec_of_lines(rest)),
        name_of_lines(seq![a] + rest) == later_wins(line_name(a), name_of_lines(rest)),
        desc_of_lines(seq![a] + rest) == later_wins(line_desc(a), desc_of_lines(rest)),
        clear_of_lines(seq![a] + rest) == (line_clear(a) || clear_of_lines(rest)),
{
    let l = seq![a] + rest;
    assert(l.len() == 1 + rest.len());
    assert(l[0] == a);
    assert(l.skip(1) =~= rest);
}

impl InstallDescriptor {
    /// A descriptor with nothing set.
    pub fn empty() -> (d: InstallDescriptor)
        ensures
            d.name is None,
            d.desc is None,
            d.exec_command is None,
            d.clear == false,
    {
        InstallDescriptor { name: None, desc: None, exec_command: None, clear: false }
    }
}

/// Fold one raw config line into the descriptor.
fn apply_line(d: &mut InstallDescriptor, raw: &str)
    ensures
        final(d).exec_command.deep_view() == later_wins(old(d).exec_command.deep_view(), line_exec(raw@)),
        final(d).name.deep_view() == later_wins(old(d).name.deep_view(), line_name(raw@)),
        final(d).desc.deep_view() == later_wins(old(d).desc.deep_view(), line_desc(raw@)),
        final(d).clear == (old(d).clear || line_clear(raw@)),
{
    let n = raw.unicode_len();
    let has_cr = n > 0 && raw.get_char(n - 1) == '\r';
    let m = if has_cr {
        n - 1
    } else {
        n
    };
    let line = raw.substring_char(0, m);
    proof {
        assert(line@ =~= trim_cr(raw@));
    }
    if m >= 5 && line.get_char(0) == 'e' && line.get_char(1) == 'x' && line.get_char(2) == 'e'
        && line.get_char(3) == 'c' && line.get_char(4) == '=' {
        let value = String::from_str(line.substring_char(5, m));
        proof {
            assert(value@ =~= trim_cr(raw@).skip(5));
        }
        d.exec_command = Some(value);
    } else if m >= 5 && line.get_char(0) == 'n' && line.get_char(1) == 'a' && line.get_char(2)
        == 'm' && line.get_char(3) == 'e' && line.get_char(4) == '=' {
        let value = String::from_str(line.substring_char(5, m));
        proof {
            assert(value@ =~= trim_cr(raw@).skip(5));
        }
        d.name = Some(value);
    } else if m >= 5 && line.get_char(0) == 'd' && line.get_char(1) == 'e' && line.get_char(2)
        == 's' && line.get_char(3) == 'c' && line.get_char(4) == '=' {
        let value = String::from_str(line.substring_char(5, m));
        proof {
            assert(value@ =~= trim_cr(raw@).skip(5));
        }
        d.desc = Some(value);
    } else if m >= 10 && line.get_char(0) == 'c' && line.get_char(1) == 'l' && line.get_char(2)
        == 'e' && line.get_char(3) == 'a' && line.get_char(4) == 'r' && line.get_char(5) == '='
        && line.get_char(6) == 't' && line.get_char(7) == 'r' && line.get_char(8) == 'u'
        && line.get_char(9) == 'e' {
        d.clear = true;
    }
}

/// Parse the text of a `config.flash` file.
///
/// The text is read line by line; the recognized keys are `exec=`, `name=`
/// and `desc=`, whose value is the remainder of the line, and the flag
/// `clear=true`. When a key repeats, the last line wins. Every other line
/// is ignored.
pub fn parse_config(text: &str) -> (d: InstallDescriptor)
    ensures
        desc_matches(d, text@),
{
    let n = text.unicode_len();
    let mut d = InstallDescriptor::empty();
    let mut start: usize = 0;
    let mut i: usize = 0;
    proof {
        assert(text@.skip(0) =~= text@);
    }
    while i < n
        invariant
            0 <= start <= i <= n,
            n == text@.len(),
            forall|j: int| start <= j < i ==> text@[j] != '\n',
            exec_of_lines(split_lines(text@)) == later_wins(
                d.exec_command.deep_view(),
                exec_of_lines(split_lines(text@.skip(start as int))),
            ),
            name_of_lines(split_lines(text@)) == later_wins(
                d.name.deep_view(),
                name_of_lines(split_lines(text@.skip(start as int))),
            ),
            desc_of_lines(split_lines(text@)) == later_wins(
                d.desc.deep_view(),
                desc_of_lines(split_lines(text@.skip(start as int))),
            ),
            clear_of_lines(split_lines(text@)) == (d.clear || clear_of_lines(
                split_lines(text@.skip(start as int)),
            )),
        decreases n - i,
    {
        let c = text.get_char(i);
        if c == '\n' {
            let raw = text.substring_char(start, i);
            proof {
                let s = text@.skip(start as int);
                let k = i - start;
                assert(s[k] == '\n');
                assert(forall|j: int| 0 <= j < k ==> s[j] != '\n');
                lemma_split_at_nl(s, k);
                assert(s.take(k) =~= raw@);
                assert(s.skip(k + 1) =~= text@.skip(i + 1));
                lemma_fields_of_cons(raw@, split_lines(text@.skip(i + 1)));
            }
            apply_line(&mut d, raw);
            start = i + 1;
        }
        i += 1;
    }
    let raw = text.substring_char(start, n);
    proof {
        let s = text@.skip(start as int);
        assert(forall|j: int| 0 <= j < s.len() ==> s[j] != '\n');
        lemma_split_no_nl(s);
        assert(s =~= raw@);
        lemma_fields_of_cons(raw@, Seq::<Seq<char>>::empty());
        assert(seq![raw@] + Seq::<Seq<char>>::empty() =~= seq![raw@]);
        assert(split_lines(s) == seq![raw@]);
        assert(exec_of_lines(Seq::<Seq<char>>::empty()) is None);
    }
    apply_line(&mut d, raw);
    d
}

} // verus!
