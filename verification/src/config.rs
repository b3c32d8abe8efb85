//! Enumerating profiles from AWS config content: every line of the literal
//! form `[profile <name>]` declares a profile, where the name is everything
//! between `[profile ` and the closing `]`; the implicit `default` profile is
//! appended last.

use crate::default_name;
use crate::text::seq_views;
use vstd::prelude::*;

verus! {

/// A line of the literal form `[profile <name>]`: it opens with the nine
/// characters `[profile ` and its last character is the closing bracket.
pub open spec fn is_header(line: Seq<char>) -> bool {
    line.len() >= 10 && line[0] == '[' && line[1] == 'p' && line[2] == 'r' && line[3] == 'o'
        && line[4] == 'f' && line[5] == 'i' && line[6] == 'l' && line[7] == 'e' && line[8] == ' '
        && line[line.len() - 1] == ']'
}

/// The name a header line carries: everything between `[profile ` and the
/// closing `]`.
pub open spec fn header_name(line: Seq<char>) -> Seq<char> {
    line.subrange(9, line.len() - 1)
}

/// Index of the first line break, or the length when there is none.
pub open spec fn first_newline(s: Seq<char>) -> int
    decreases s.len(),
{
    if s.len() == 0 {
        0
    } else if s[0] == '\n' {
        0
    } else {
        1 + first_newline(s.drop_first())
    }
}

proof fn lemma_first_newline_bounds(s: Seq<char>)
    ensures
        0 <= first_newline(s) <= s.len(),
        forall|j: int| 0 <= j < first_newline(s) ==> s[j] != '\n',
        first_newline(s) < s.len() ==> s[first_newline(s)] == '\n',
    decreases s.len(),
{
    if s.len() > 0 && s[0] != '\n' {
        lemma_first_newline_bounds(s.drop_first());
        assert(forall|j: int|
            1 <= j < first_newline(s) ==> s[j] == s.drop_first()[j - 1] && s.drop_first()[j - 1]
                != '\n');
    }
}

/// The first line break is wherever a break is seen with none before it; with
/// none at all it is the length.
proof fn lemma_first_newline_at(s: Seq<char>, k: int)
    requires
        0 <= k <= s.len(),
        forall|j: int| 0 <= j < k ==> s[j] != '\n',
        k < s.len() ==> s[k] == '\n',
    ensures
        first_newline(s) == k,
    decreases s.len(),
{
    if s.len() > 0 && s[0] != '\n' {
        lemma_first_newline_at(s.drop_first(), k - 1);
        assert(forall|j: int|
            0 <= j < k - 1 ==> s.drop_first()[j] == s[j + 1] && s[j + 1] != '\n');
    }
}

/// The lines of the content, split on `'\n'`; the break belongs to no line,
/// and a final unterminated line counts too.
pub open spec fn config_lines(s: Seq<char>) -> Seq<Seq<char>>
    decreases s.len(),
    via config_lines_decreases
{
    if first_newline(s) == s.len() {
        seq![s]
    } else {
        seq![s.subrange(0, first_newline(s))] + config_lines(
            s.subrange(first_newline(s) + 1, s.len() as int),
        )
    }
}

#[via_fn]
proof fn config_lines_decreases(s: Seq<char>) {
    lemma_first_newline_bounds(s);
}

/// The profile names of all header lines, in order.
pub open spec fn header_names(ls: Seq<Seq<char>>) -> Seq<Seq<char>>
    decreases ls.len(),
{
    if ls.len() == 0 {
        seq![]
    } else {
        (if is_header(ls[0]) {
            seq![header_name(ls[0])]
        } else {
            seq![]
        }) + header_names(ls.drop_first())
    }
}

/// The names declared by the config content: one per `[profile ...]` line, in
/// file order.
pub open spec fn config_profile_names(content: Seq<char>) -> Seq<Seq<char>> {
    header_names(config_lines(content))
}

/// The list the tool works with: the declared names, then `default`.
pub open spec fn full_profile_list(content: Seq<char>) -> Seq<Seq<char>> {
    config_profile_names(content) + seq![default_name()]
}

/// Splitting off the first line: at a break preceded by none, or at the end
/// when the content has no break at all.
proof fn lemma_lines_split(s: Seq<char>, k: int)
    requires
        0 <= k <= s.len(),
        forall|j: int| 0 <= j < k ==> s[j] != '\n',
        k < s.len() ==> s[k] == '\n',
    ensures
        k == s.len() ==> config_lines(s) == seq![s],
        k < s.len() ==> config_lines(s) == seq![s.subrange(0, k)] + config_lines(
            s.subrange(k + 1, s.len() as int),
        ),
{
    lemma_first_newline_at(s, k);
}

proof fn lemma_header_names_cons(l: Seq<char>, rest: Seq<Seq<char>>)
    ensures
        is_header(l) ==> header_names(seq![l] + rest) == seq![header_name(l)] + header_names(rest),
        !is_header(l) ==> header_names(seq![l] + rest) == header_names(rest),
{
    let ls = seq![l] + rest;
    assert(ls[0] == l);
    assert(ls.drop_first() =~= rest);
    if !is_header(l) {
        assert(header_names(ls) =~= header_names(rest));
    }
}

/// The name carried by the content slice `[line_start, line_end)`, when that
/// line is a profile header.
fn line_name(content: &str, line_start: usize, line_end: usize) -> (r: Option<String>)
    requires
        line_start <= line_end,
        line_end as int <= content@.len(),
    ensures
        ({
            let line = content@.subrange(line_start as int, line_end as int);
            match r {
                Some(n) => is_header(line) && n@ == header_name(line),
                None => !is_header(line),
            }
        }),
{
    let ghost line = content@.subrange(line_start as int, line_end as int);
    if line_end - line_start < 10 {
        return None;
    }
    let ok = content.get_char(line_start) == '[' && content.get_char(line_start + 1) == 'p'
        && content.get_char(line_start + 2) == 'r' && content.get_char(line_start + 3) == 'o'
        && content.get_char(line_start + 4) == 'f' && content.get_char(line_start + 5) == 'i'
        && content.get_char(line_start + 6) == 'l' && content.get_char(line_start + 7) == 'e'
        && content.get_char(line_start + 8) == ' ' && content.get_char(line_end - 1) == ']';
    proof {
        assert(forall|j: int| 0 <= j < line.len() ==> line[j] == content@[line_start + j]);
    }
    if !ok {
        return None;
    }
    let name_slice = content.substring_char(line_start + 9, line_end - 1);
    proof {
        assert(name_slice@ =~= header_name(line));
    }
    Some(name_slice.to_owned())
}

/// Scans config content and collects the name of every `[profile ...]`
/// header line, in file order.
pub fn parse_profile_names(content: &str) -> (names: Vec<String>)
    ensures
        seq_views(names@) == config_profile_names(content@),
{
    let len = content.unicode_len();
    let mut names: Vec<String> = Vec::new();
    let mut line_start: usize = 0;
    let mut i: usize = 0;
    proof {
        assert(content@.subrange(0, len as int) =~= content@);
        assert(seq_views(names@) =~= Seq::<Seq<char>>::empty());
        assert(Seq::<Seq<char>>::empty() + config_profile_names(content@) =~= config_profile_names(
            content@,
        ));
    }
    while i < len
        invariant
            len == content@.len(),
            line_start <= i <= len,
            forall|j: int| line_start <= j < i ==> content@[j] != '\n',
            seq_views(names@) + config_profile_names(
                content@.subrange(line_start as int, len as int),
            ) == config_profile_names(content@),
        decreases len - i,
    {
        if content.get_char(i) == '\n' {
            let ghost suffix = content@.subrange(line_start as int, len as int);
            let ghost line = content@.subrange(line_start as int, i as int);
            let ghost rest = content@.subrange(i as int + 1, len as int);
            proof {
                assert(forall|j: int| 0 <= j < suffix.len() ==> suffix[j] == content@[
                    line_start + j
                ]);
                assert(suffix[i - line_start] == '\n');
                lemma_lines_split(suffix, i - line_start);
                assert(suffix.subrange(0, i - line_start) =~= line);
                assert(suffix.subrange(i - line_start + 1, suffix.len() as int) =~= rest);
                lemma_header_names_cons(line, config_lines(rest));
            }
            let ghost pre = seq_views(names@);
            match line_name(content, line_start, i) {
                Some(n) => {
                    let ghost nv = n@;
                    names.push(n);
                    proof {
                        assert(seq_views(names@) =~= pre + seq![nv]);
                        assert(seq_views(names@) + config_profile_names(rest) =~= pre + (
                        seq![nv] + config_profile_names(rest)));
                    }
                },
                None => {},
            }
            line_start = i + 1;
        }
        i += 1;
    }
    let ghost suffix = content@.subrange(line_start as int, len as int);
    proof {
        assert(forall|j: int| 0 <= j < suffix.len() ==> suffix[j] == content@[line_start + j]);
        lemma_lines_split(suffix, suffix.len() as int);
        assert(seq![suffix].drop_first() =~= Seq::<Seq<char>>::empty());
        assert(header_names(Seq::<Seq<char>>::empty()) =~= Seq::<Seq<char>>::empty());
    }
    let ghost pre = seq_views(names@);
    let r = line_name(content, line_start, len);
    match r {
        Some(n) => {
            let ghost nv = n@;
            names.push(n);
            proof {
                assert(header_names(seq![suffix]) =~= seq![nv] + header_names(
                    Seq::<Seq<char>>::empty(),
                ));
                assert(header_names(seq![suffix]) =~= seq![nv]);
                assert(seq_views(names@) =~= pre + seq![nv]);
                assert(seq_views(names@) =~= config_profile_names(content@));
            }
            names
        },
        None => {
            proof {
                assert(header_names(seq![suffix]) =~= Seq::<Seq<char>>::empty());
                assert(seq_views(names@) + Seq::<Seq<char>>::empty() =~= seq_views(names@));
            }
            names
        },
    }
}

/// Failure of profile enumeration.
#[derive(Clone, Copy, Debug, PartialEq, Eq, Structural)]
pub enum ConfigError {
    /// The config content declares no `[profile ...]` section at all.
    NoProfilesFound,
}

/// Derives the ordered profile list from config content: every header's name
/// in file order, then `default`. Content without a single header is reported
/// as `NoProfilesFound`; the caller decides how to go on.
pub fn aws_profiles_from_config(content: &str) -> (r: Result<Vec<String>, ConfigError>)
    ensures
        r.is_ok() <==> config_profile_names(content@).len() > 0,
        r matches Ok(profiles) ==> seq_views(profiles@) == full_profile_list(content@),
{
    let mut names = parse_profile_names(content);
    if names.len() == 0 {
        return Err(ConfigError::NoProfilesFound);
    }
    let ghost pre = seq_views(names@);
    names.push(String::from_str("default"));
    proof {
        assert(seq_views(names@) =~= pre + seq![default_name()]);
    }
    Ok(names)
}

/// The derived list has one entry per header plus the trailing `default`;
/// when no header is itself named `default`, that name appears exactly once,
/// as the last entry.
pub proof fn lemma_profile_list_shape(content: Seq<char>)
    requires
        forall|i: int|
            0 <= i < config_profile_names(content).len() ==> config_profile_names(content)[i]
                != default_name(),
    ensures
        full_profile_list(content).len() == config_profile_names(content).len() + 1,
        full_profile_list(content)[full_profile_list(content).len() - 1] == default_name(),
        forall|i: int|
            0 <= i < full_profile_list(content).len() - 1 ==> full_profile_list(content)[i]
                != default_name(),
{
    let names = config_profile_names(content);
    assert(forall|i: int| 0 <= i < names.len() ==> full_profile_list(content)[i] == names[i]);
}

} // verus!
