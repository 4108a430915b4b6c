//! Line handling: stripping line terminators and splitting command lines.
use vstd::prelude::*;
use vstd::string::StrSliceExecFns;

verus! {

/// The character that marks a line as a local command.
pub const COMMAND_PREFIX: char = '.';

/// `s` without its trailing run of newline characters.
pub open spec fn without_trailing_newlines(s: Seq<char>) -> Seq<char>
    decreases s.len(),
{
    if s.len() > 0 && s.last() == '\n' {
        without_trailing_newlines(s.drop_last())
    } else {
        s
    }
}

/// Position of the first space in `s`, if any.
pub open spec fn first_space(s: Seq<char>) -> Option<int>
    decreases s.len(),
{
    if s.len() == 0 {
        None
    } else if s[0] == ' ' {
        Some(0)
    } else {
        match first_space(s.drop_first()) {
            Some(i) => Some(i + 1),
            None => None,
        }
    }
}

/// A command line starts with the command prefix.
pub open spec fn is_command_line(s: Seq<char>) -> bool {
    s.len() > 0 && s[0] == COMMAND_PREFIX
}

/// The (name, argument text) pair of a command line: the text after the prefix,
/// split at the first space; the argument text is empty when there is no space.
pub open spec fn command_parts(s: Seq<char>) -> Option<(Seq<char>, Seq<char>)> {
    if is_command_line(s) {
        match first_space(s) {
            Some(i) => Some((s.subrange(1, i), s.subrange(i + 1, s.len() as int))),
            None => Some((s.subrange(1, s.len() as int), Seq::<char>::empty())),
        }
    } else {
        None
    }
}

proof fn lemma_first_space(s: Seq<char>)
    ensures
        match first_space(s) {
            Some(i) => 0 <= i < s.len() && s[i] == ' ' && forall|j: int| 0 <= j < i ==> s[j] != ' ',
            None => forall|j: int| 0 <= j < s.len() ==> s[j] != ' ',
        },
    decreases s.len(),
{
    if s.len() > 0 && s[0] != ' ' {
        lemma_first_space(s.drop_first());
        assert forall|j: int| 1 <= j < s.len() implies s[j] == s.drop_first()[j - 1] by {}
    }
}

/// The first space found by a scan is the position that `first_space` names.
proof fn lemma_first_space_at(s: Seq<char>, i: int)
    requires
        0 <= i < s.len(),
        s[i] == ' ',
        forall|j: int| 0 <= j < i ==> s[j] != ' ',
    ensures
        first_space(s) == Some(i),
    decreases s.len(),
{
    if i > 0 {
        lemma_first_space_at(s.drop_first(), i - 1);
    }
}

proof fn lemma_no_space(s: Seq<char>)
    requires
        forall|j: int| 0 <= j < s.len() ==> s[j] != ' ',
    ensures
        first_space(s) == None::<int>,
    decreases s.len(),
{
    if s.len() > 0 {
        lemma_no_space(s.drop_first());
    }
}

/// A command line is exactly the prefix, the name, and, when the argument
/// text is present, one space and the argument text; the name holds no space.
pub proof fn lemma_command_split_at_first_space(s: Seq<char>)
    requires
        is_command_line(s),
    ensures
        ({
            let (name, rest) = command_parts(s).unwrap();
            &&& forall|j: int| 0 <= j < name.len() ==> name[j] != ' '
            &&& (s == seq![COMMAND_PREFIX] + name + seq![' '] + rest
                || (rest.len() == 0 && s == seq![COMMAND_PREFIX] + name))
        }),
{
    lemma_first_space(s);
    let (name, rest) = command_parts(s).unwrap();
    match first_space(s) {
        Some(i) => {
            assert(s =~= seq![COMMAND_PREFIX] + name + seq![' '] + rest);
        },
        None => {
            assert(s =~= seq![COMMAND_PREFIX] + name);
        },
    }
}

/// Removes every trailing newline character from `line`.
pub fn strip_trailing_newlines(line: &str) -> (r: &str)
    ensures
        r@ == without_trailing_newlines(line@),
{
    let mut end: usize = line.unicode_len();
    assert(line@.subrange(0, end as int) =~= line@);
    while end > 0 && line.get_char(end - 1) == '\n'
        invariant
            end <= line@.len(),
            without_trailing_newlines(line@.subrange(0, end as int)) == without_trailing_newlines(line@),
        decreases end,
    {
        assert(line@.subrange(0, end as int).drop_last() =~= line@.subrange(0, end - 1));
        end = end - 1;
    }
    line.substring_char(0, end)
}

/// Whether two strings hold the same characters.
pub fn same_text(a: &str, b: &str) -> (r: bool)
    ensures
        r == (a@ == b@),
{
    let n: usize = a.unicode_len();
    if n != b.unicode_len() {
        return false;
    }
    let mut i: usize = 0;
    while i < n
        invariant
            n == a@.len() == b@.len(),
            i <= n,
            forall|j: int| 0 <= j < i ==> a@[j] == b@[j],
        decreases n - i,
    {
        if a.get_char(i) != b.get_char(i) {
            return false;
        }
        i = i + 1;
    }
    assert(a@ =~= b@);
    true
}

/// Splits a command line into its name and argument text at the first space.
/// Returns `None` when the line does not start with the command prefix.
pub fn parse_command(line: &str) -> (r: Option<(&str, &str)>)
    ensures
        match r {
            Some((name, rest)) => command_parts(line@) == Some((name@, rest@)),
            None => command_parts(line@) == None::<(Seq<char>, Seq<char>)>,
        },
{
    let n: usize = line.unicode_len();
    if n == 0 || line.get_char(0) != COMMAND_PREFIX {
        return None;
    }
    let mut i: usize = 1;
    while i < n
        invariant
            n == line@.len(),
            1 <= i <= n,
            line@[0] == COMMAND_PREFIX,
            forall|j: int| 0 <= j < i ==> line@[j] != ' ',
        decreases n - i,
    {
        if line.get_char(i) == ' ' {
            proof {
                lemma_first_space_at(line@, i as int);
            }
            return Some((line.substring_char(1, i), line.substring_char(i + 1, n)));
        }
        i = i + 1;
    }
    proof {
        lemma_no_space(line@);
    }
    let empty = line.substring_char(n, n);
    assert(empty@ =~= Seq::<char>::empty());
    Some((line.substring_char(1, n), empty))
}

} // verus!
