use crate::config::Config;
use vstd::prelude::*;
use vstd::string::StrSliceExecFns;
use vstd::string::StringExecFns;

verus! {

/// The view of an optional string input.
pub open spec fn opt_chars(o: Option<&String>) -> Option<Seq<char>> {
    match o {
        Some(s) => Some(s@),
        None => None,
    }
}

/// The value of an optional numeric input.
pub open spec fn opt_val(o: Option<&u8>) -> Option<u8> {
    match o {
        Some(n) => Some(*n),
        None => None,
    }
}

/// The task URL for a contest/problem pair:
/// `https://{contest}.contest.atcoder.jp/tasks/{contest}_{problem}`.
pub open spec fn task_url_chars(contest: Seq<char>, problem: Seq<char>) -> Seq<char> {
    "https://"@ + contest + ".contest.atcoder.jp/tasks/"@ + contest + "_"@ + problem
}

/// Builds the task URL for a contest/problem pair.
pub fn task_url(contest: &str, problem: &str) -> (r: String)
    ensures
        r@ == task_url_chars(contest@, problem@),
{
    let mut url = String::new();
    url.append("https://");
    url.append(contest);
    url.append(".contest.atcoder.jp/tasks/");
    url.append(contest);
    url.append("_");
    url.append(problem);
    proof {
        assert(url@ =~= task_url_chars(contest@, problem@));
    }
    url
}

/// The default solution file name `{contest}_{problem}.{extension}`,
/// with no directory prefix.
pub open spec fn file_name_chars(
    contest: Seq<char>,
    problem: Seq<char>,
    extension: Seq<char>,
) -> Seq<char> {
    contest + "_"@ + problem + "."@ + extension
}

/// Builds the default solution file name for a contest/problem pair.
pub fn default_file_name(contest: &str, problem: &str, extension: &str) -> (r: String)
    ensures
        r@ == file_name_chars(contest@, problem@, extension@),
{
    let mut name = String::new();
    name.append(contest);
    name.append("_");
    name.append(problem);
    name.append(".");
    name.append(extension);
    proof {
        assert(name@ =~= file_name_chars(contest@, problem@, extension@));
    }
    name
}

/// The file name a command works on: the explicit one whenever it was
/// supplied, else the default `{contest}_{problem}.{extension}`.
pub open spec fn resolved_file_name_chars(
    contest: Seq<char>,
    problem: Seq<char>,
    explicit: Option<Seq<char>>,
    extension: Seq<char>,
) -> Seq<char> {
    match explicit {
        Some(f) => f,
        None => file_name_chars(contest, problem, extension),
    }
}

/// An explicitly supplied file name is returned unchanged, whatever the
/// configured extension: the environment never overrides an explicit
/// name.
pub proof fn lemma_explicit_file_name_wins(
    contest: Seq<char>,
    problem: Seq<char>,
    explicit: Seq<char>,
    ext_a: Seq<char>,
    ext_b: Seq<char>,
)
    ensures
        resolved_file_name_chars(contest, problem, Some(explicit), ext_a) == explicit,
        resolved_file_name_chars(contest, problem, Some(explicit), ext_a)
            == resolved_file_name_chars(contest, problem, Some(explicit), ext_b),
{
}

/// Resolves the file name a command works on, explicit name first.
pub fn resolve_file_name(
    contest: &str,
    problem: &str,
    explicit: Option<&String>,
    config: &Config,
) -> (r: String)
    ensures
        r@ == resolved_file_name_chars(
            contest@,
            problem@,
            opt_chars(explicit),
            config.extension@,
        ),
{
    match explicit {
        Some(f) => f.clone(),
        None => default_file_name(contest, problem, config.extension.as_str()),
    }
}

/// Whether `c` is a lowercase problem letter, `a` through `z`.
pub open spec fn is_problem_letter(c: char) -> bool {
    'a' as u32 <= c as u32 && c as u32 <= 'z' as u32
}

/// The `i`-th lowercase problem letter: `a` for 0 through `z` for 25.
pub open spec fn letter_char(i: int) -> char {
    if i == 0 {
        'a'
    } else if i == 1 {
        'b'
    } else if i == 2 {
        'c'
    } else if i == 3 {
        'd'
    } else if i == 4 {
        'e'
    } else if i == 5 {
        'f'
    } else if i == 6 {
        'g'
    } else if i == 7 {
        'h'
    } else if i == 8 {
        'i'
    } else if i == 9 {
        'j'
    } else if i == 10 {
        'k'
    } else if i == 11 {
        'l'
    } else if i == 12 {
        'm'
    } else if i == 13 {
        'n'
    } else if i == 14 {
        'o'
    } else if i == 15 {
        'p'
    } else if i == 16 {
        'q'
    } else if i == 17 {
        'r'
    } else if i == 18 {
        's'
    } else if i == 19 {
        't'
    } else if i == 20 {
        'u'
    } else if i == 21 {
        'v'
    } else if i == 22 {
        'w'
    } else if i == 23 {
        'x'
    } else if i == 24 {
        'y'
    } else {
        'z'
    }
}

/// Returns the `i`-th lowercase problem letter.
pub fn nth_letter(i: u8) -> (c: char)
    requires
        i < 26,
    ensures
        c == letter_char(i as int),
        is_problem_letter(c),
{
    match i {
        0 => 'a',
        1 => 'b',
        2 => 'c',
        3 => 'd',
        4 => 'e',
        5 => 'f',
        6 => 'g',
        7 => 'h',
        8 => 'i',
        9 => 'j',
        10 => 'k',
        11 => 'l',
        12 => 'm',
        13 => 'n',
        14 => 'o',
        15 => 'p',
        16 => 'q',
        17 => 'r',
        18 => 's',
        19 => 't',
        20 => 'u',
        21 => 'v',
        22 => 'w',
        23 => 'x',
        24 => 'y',
        _ => 'z',
    }
}

/// Returns the one-character string holding a lowercase letter.
pub fn letter_str(c: char) -> (r: &'static str)
    requires
        is_problem_letter(c),
    ensures
        r@ == seq![c],
{
    proof {
        reveal_strlit("a");
        reveal_strlit("b");
        reveal_strlit("c");
        reveal_strlit("d");
        reveal_strlit("e");
        reveal_strlit("f");
        reveal_strlit("g");
        reveal_strlit("h");
        reveal_strlit("i");
        reveal_strlit("j");
        reveal_strlit("k");
        reveal_strlit("l");
        reveal_strlit("m");
        reveal_strlit("n");
        reveal_strlit("o");
        reveal_strlit("p");
        reveal_strlit("q");
        reveal_strlit("r");
        reveal_strlit("s");
        reveal_strlit("t");
        reveal_strlit("u");
        reveal_strlit("v");
        reveal_strlit("w");
        reveal_strlit("x");
        reveal_strlit("y");
        reveal_strlit("z");
    }
    let r = match c {
        'a' => "a",
        'b' => "b",
        'c' => "c",
        'd' => "d",
        'e' => "e",
        'f' => "f",
        'g' => "g",
        'h' => "h",
        'i' => "i",
        'j' => "j",
        'k' => "k",
        'l' => "l",
        'm' => "m",
        'n' => "n",
        'o' => "o",
        'p' => "p",
        'q' => "q",
        'r' => "r",
        's' => "s",
        't' => "t",
        'u' => "u",
        'v' => "v",
        'w' => "w",
        'x' => "x",
        'y' => "y",
        _ => "z",
    };
    proof {
        assert(r@ =~= seq![c]);
    }
    r
}

/// The scaffold copy destination `./{contest}/{contest}_{letter}.{extension}`.
pub open spec fn copy_dest_chars(contest: Seq<char>, letter: char, extension: Seq<char>) -> Seq<
    char,
> {
    "./"@ + contest + "/"@ + contest + "_"@ + seq![letter] + "."@ + extension
}

/// Builds the scaffold copy destination path.
pub fn copy_destination(contest: &str, letter: char, extension: &str) -> (r: String)
    requires
        is_problem_letter(letter),
    ensures
        r@ == copy_dest_chars(contest@, letter, extension@),
{
    let mut path = String::new();
    path.append("./");
    path.append(contest);
    path.append("/");
    path.append(contest);
    path.append("_");
    path.append(letter_str(letter));
    path.append(".");
    path.append(extension);
    proof {
        assert(path@ =~= copy_dest_chars(contest@, letter, extension@));
    }
    path
}

/// The decimal digit character for 1 through 9.
pub open spec fn digit_char(t: u8) -> char {
    if t == 1 {
        '1'
    } else if t == 2 {
        '2'
    } else if t == 3 {
        '3'
    } else if t == 4 {
        '4'
    } else if t == 5 {
        '5'
    } else if t == 6 {
        '6'
    } else if t == 7 {
        '7'
    } else if t == 8 {
        '8'
    } else {
        '9'
    }
}

/// The judge tolerance parameter `1e-{t}` for an exponent `t`.
pub open spec fn tolerance_chars(t: u8) -> Seq<char> {
    "1e-"@ + seq![digit_char(t)]
}

/// Builds the judge tolerance parameter `1e-{t}`.
pub fn tolerance_param(t: u8) -> (r: String)
    requires
        1 <= t <= 9,
    ensures
        r@ == tolerance_chars(t),
{
    proof {
        reveal_strlit("1");
        reveal_strlit("2");
        reveal_strlit("3");
        reveal_strlit("4");
        reveal_strlit("5");
        reveal_strlit("6");
        reveal_strlit("7");
        reveal_strlit("8");
        reveal_strlit("9");
    }
    let digit = match t {
        1 => "1",
        2 => "2",
        3 => "3",
        4 => "4",
        5 => "5",
        6 => "6",
        7 => "7",
        8 => "8",
        _ => "9",
    };
    proof {
        assert(digit@ =~= seq![digit_char(t)]);
    }
    let mut r = "1e-".to_owned();
    r.append(digit);
    proof {
        assert(r@ =~= tolerance_chars(t));
    }
    r
}

/// Whether `c` separates tokens of the compile override: the Unicode
/// `White_Space` set, the same set `str::split_whitespace` splits on.
pub open spec fn is_whitespace(c: char) -> bool {
    let u = c as u32;
    u == 0x09 || u == 0x0A || u == 0x0B || u == 0x0C || u == 0x0D || u == 0x20 || u == 0x85 || u
        == 0xA0 || u == 0x1680 || (0x2000 <= u && u <= 0x200A) || u == 0x2028 || u == 0x2029 || u
        == 0x202F || u == 0x205F || u == 0x3000
}

fn char_is_whitespace(c: char) -> (b: bool)
    ensures
        b == is_whitespace(c),
{
    let u = c as u32;
    u == 0x09 || u == 0x0A || u == 0x0B || u == 0x0C || u == 0x0D || u == 0x20 || u == 0x85 || u
        == 0xA0 || u == 0x1680 || (0x2000 <= u && u <= 0x200A) || u == 0x2028 || u == 0x2029 || u
        == 0x202F || u == 0x205F || u == 0x3000
}

/// The whitespace-separated tokens of `s`, read left to right from
/// position `i`: `cur` is the token being collected and `acc` the tokens
/// already complete.
pub open spec fn split_tokens_from(
    s: Seq<char>,
    i: int,
    cur: Seq<char>,
    acc: Seq<Seq<char>>,
) -> Seq<Seq<char>>
    decreases s.len() - i,
{
    if i < 0 || i >= s.len() {
        if cur.len() > 0 {
            acc.push(cur)
        } else {
            acc
        }
    } else if is_whitespace(s[i]) {
        if cur.len() > 0 {
            split_tokens_from(s, i + 1, seq![], acc.push(cur))
        } else {
            split_tokens_from(s, i + 1, seq![], acc)
        }
    } else {
        split_tokens_from(s, i + 1, cur.push(s[i]), acc)
    }
}

/// The tokens of `s`, split on runs of whitespace; no quoting is
/// recognised.
pub open spec fn split_tokens(s: Seq<char>) -> Seq<Seq<char>> {
    split_tokens_from(s, 0, seq![], seq![])
}

/// The views of the strings in `v`.
pub open spec fn string_views(v: Seq<String>) -> Seq<Seq<char>> {
    Seq::new(v.len(), |i: int| v[i]@)
}

/// Splits `s` on runs of whitespace, as the compile override is
/// tokenized.
pub fn split_whitespace_tokens(s: &str) -> (r: Vec<String>)
    ensures
        string_views(r@) == split_tokens(s@),
{
    let n = s.unicode_len();
    let mut acc: Vec<String> = Vec::new();
    let mut i: usize = 0;
    proof {
        assert(string_views(acc@) =~= Seq::<Seq<char>>::empty());
    }
    while i < n
        invariant
            i <= n,
            n == s@.len(),
            split_tokens_from(s@, i as int, seq![], string_views(acc@)) == split_tokens(s@),
        decreases n - i,
    {
        let c = s.get_char(i);
        if char_is_whitespace(c) {
            i = i + 1;
        } else {
            let start = i;
            i = i + 1;
            proof {
                assert(s@.subrange(start as int, i as int) =~= seq![].push(s@[start as int]));
            }
            while i < n && !char_is_whitespace(s.get_char(i))
                invariant
                    start < i <= n,
                    n == s@.len(),
                    split_tokens_from(
                        s@,
                        i as int,
                        s@.subrange(start as int, i as int),
                        string_views(acc@),
                    ) == split_tokens(s@),
                decreases n - i,
            {
                proof {
                    assert(s@.subrange(start as int, i + 1 as int) =~= s@.subrange(
                        start as int,
                        i as int,
                    ).push(s@[i as int]));
                }
                i = i + 1;
            }
            let token = s.substring_char(start, i).to_owned();
            let ghost old_views = string_views(acc@);
            acc.push(token);
            proof {
                assert(string_views(acc@) =~= old_views.push(token@));
                assert(token@.len() > 0);
            }
        }
    }
    acc
}

} // verus!
