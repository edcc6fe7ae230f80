//! Rules of the compiler settings page: how the test run of the build
//! command is launched and how its outcome is reported.

use vstd::prelude::*;
use crate::snippets::{decimal, push_decimal};

verus! {

/// The shell and its "run this command" switch: `cmd /C` on Windows,
/// `sh -c` elsewhere.
pub fn command_shell(is_windows: bool) -> (r: (&'static str, &'static str))
    ensures
        r.0@ == if is_windows { "cmd"@ } else { "sh"@ },
        r.1@ == if is_windows { "/C"@ } else { "-c"@ },
{
    if is_windows { ("cmd", "/C") } else { ("sh", "-c") }
}

/// Separator of entries in the `PATH` variable: `;` on Windows, `:`
/// elsewhere.
pub fn path_separator(is_windows: bool) -> (r: &'static str)
    ensures
        r@ == if is_windows { ";"@ } else { ":"@ },
{
    if is_windows { ";" } else { ":" }
}

/// Whether `c` has the Unicode `White_Space` property: tab, line feed,
/// vertical tab, form feed, carriage return, space, next line, no-break
/// space, ogham space mark, the spaces U+2000..=U+200A, line and paragraph
/// separators, narrow no-break space, medium mathematical space and
/// ideographic space.
pub open spec fn is_white_space(c: char) -> bool {
    let u = c as u32;
    (0x09 <= u <= 0x0d) || u == 0x20 || u == 0x85 || u == 0xa0 || u == 0x1680 || (0x2000 <= u <= 0x200a)
        || u == 0x2028 || u == 0x2029 || u == 0x202f || u == 0x205f || u == 0x3000
}

/// `s` without its leading white space.
pub open spec fn trim_start_of(s: Seq<char>) -> Seq<char>
    decreases s.len(),
{
    if s.len() > 0 && is_white_space(s[0]) { trim_start_of(s.drop_first()) } else { s }
}

/// `s` without its trailing white space.
pub open spec fn trim_end_of(s: Seq<char>) -> Seq<char>
    decreases s.len(),
{
    if s.len() > 0 && is_white_space(s.last()) { trim_end_of(s.drop_last()) } else { s }
}

/// `s` without leading and trailing white space.
pub open spec fn trim_of(s: Seq<char>) -> Seq<char> {
    trim_end_of(trim_start_of(s))
}

fn is_white_space_char(c: char) -> (r: bool)
    ensures
        r == is_white_space(c),
{
    let u = c as u32;
    (0x09 <= u && u <= 0x0d) || u == 0x20 || u == 0x85 || u == 0xa0 || u == 0x1680 || (0x2000 <= u && u <= 0x200a)
        || u == 0x2028 || u == 0x2029 || u == 0x202f || u == 0x205f || u == 0x3000
}

/// `s` without leading and trailing white space (see `trim_of`), as
/// `str::trim` gives it.
fn trim_str(s: &str) -> (r: &str)
    ensures
        r@ == trim_of(s@),
{
    let n = s.unicode_len();
    let mut start: usize = 0;
    assert(s@.subrange(0, n as int) =~= s@);
    while start < n
        invariant
            n == s@.len(),
            start <= n,
            trim_start_of(s@) == trim_start_of(s@.subrange(start as int, n as int)),
        ensures
            start <= n,
            trim_start_of(s@) == s@.subrange(start as int, n as int),
        decreases n - start,
    {
        let c = s.get_char(start);
        let ghost rest = s@.subrange(start as int, n as int);
        assert(rest[0] == c);
        if !is_white_space_char(c) {
            break;
        }
        assert(rest.drop_first() =~= s@.subrange(start + 1, n as int));
        start += 1;
    }
    proof {
        let rest = s@.subrange(start as int, n as int);
        if start == n {
            assert(rest.len() == 0);
        }
    }
    let mut end: usize = n;
    while end > start
        invariant
            n == s@.len(),
            start <= end <= n,
            trim_end_of(s@.subrange(start as int, n as int)) == trim_end_of(s@.subrange(start as int, end as int)),
        ensures
            start <= end <= n,
            trim_end_of(s@.subrange(start as int, n as int)) == s@.subrange(start as int, end as int),
        decreases end - start,
    {
        let c = s.get_char(end - 1);
        let ghost mid = s@.subrange(start as int, end as int);
        assert(mid.last() == c);
        if !is_white_space_char(c) {
            break;
        }
        assert(mid.drop_last() =~= s@.subrange(start as int, end - 1));
        end -= 1;
    }
    proof {
        let mid = s@.subrange(start as int, end as int);
        if start == end {
            assert(mid.len() == 0);
        }
    }
    s.substring_char(start, end)
}

/// Signed decimal notation.
pub open spec fn signed_decimal(n: int) -> Seq<char> {
    if n < 0 { seq!['-'] + decimal((-n) as nat) } else { decimal(n as nat) }
}

/// The status line reported after a test run of the build command.
///
/// On success: the success text, followed by ` | ` and the trimmed output
/// when the command printed anything. On failure: the failure text followed
/// by the trimmed error output, or else the trimmed standard output, or
/// else a sentence giving the exit code.
pub open spec fn report_text(
    success: bool,
    stdout: Seq<char>,
    stderr: Seq<char>,
    exit_code: i32,
    ok_text: Seq<char>,
    fail_text: Seq<char>,
    is_english: bool,
) -> Seq<char> {
    if success {
        if stdout.len() > 0 { ok_text + " | "@ + trim_of(stdout) } else { ok_text }
    } else {
        let detail = if stderr.len() > 0 {
            stderr
        } else if stdout.len() > 0 {
            stdout
        } else if is_english {
            "Process exited with code: "@ + signed_decimal(exit_code as int)
        } else {
            "Процесс завершился с системным кодом: "@ + signed_decimal(exit_code as int)
        };
        fail_text + trim_of(detail)
    }
}

/// Builds the status line of a test run (see `report_text`).
pub fn compile_report(
    success: bool,
    stdout: &str,
    stderr: &str,
    exit_code: i32,
    ok_text: &str,
    fail_text: &str,
    is_english: bool,
) -> (r: String)
    ensures
        r@ == report_text(success, stdout@, stderr@, exit_code, ok_text@, fail_text@, is_english),
{
    let mut r = String::from_str(ok_text);
    if success {
        if stdout.unicode_len() > 0 {
            r.append(" | ");
            r.append(trim_str(stdout));
        }
        return r;
    }
    r = String::from_str(fail_text);
    if stderr.unicode_len() > 0 {
        r.append(trim_str(stderr));
    } else if stdout.unicode_len() > 0 {
        r.append(trim_str(stdout));
    } else {
        let mut detail = if is_english {
            String::from_str("Process exited with code: ")
        } else {
            String::from_str("Процесс завершился с системным кодом: ")
        };
        if exit_code < 0 {
            detail.append("-");
            let magnitude: u64 = (-(exit_code as i64)) as u64;
            proof {
                reveal_strlit("-");
            }
            assert(magnitude == -(exit_code as int));
            push_decimal(&mut detail, magnitude as usize);
            assert(detail@ =~= (if is_english {
                "Process exited with code: "@
            } else {
                "Процесс завершился с системным кодом: "@
            }) + signed_decimal(exit_code as int));
        } else {
            push_decimal(&mut detail, exit_code as usize);
            assert(detail@ =~= (if is_english {
                "Process exited with code: "@
            } else {
                "Процесс завершился с системным кодом: "@
            }) + signed_decimal(exit_code as int));
        }
        r.append(trim_str(detail.as_str()));
    }
    r
}

} // verus!
