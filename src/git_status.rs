use vstd::prelude::*;
use vstd::string::StringExecFns;

verus! {

/// A short summary of a working tree's state.
#[derive(Clone, Debug)]
pub struct GitStatusSummary {
    pub branch: String,
    pub changed: usize,
    pub untracked: usize,
    pub ahead: usize,
    pub behind: usize,
}

/// Position `i` holds the first byte of a non-empty NUL-separated entry.
pub open spec fn starts_entry(s: Seq<u8>, i: int) -> bool {
    &&& 0 <= i < s.len()
    &&& s[i] != 0
    &&& (i == 0 || s[i - 1] == 0)
}

/// A porcelain v2 entry that records a change: ordinary (`1`), renamed or
/// copied (`2`), or unmerged (`u`).
pub open spec fn is_changed_marker(b: u8) -> bool {
    b == 0x31 || b == 0x32 || b == 0x75
}

/// A porcelain v2 entry for an untracked path (`?`).
pub open spec fn is_untracked_marker(b: u8) -> bool {
    b == 0x3f
}

/// The number of entries among the first `n` bytes whose leading byte is a
/// change marker.
pub open spec fn changed_count(s: Seq<u8>, n: nat) -> nat
    decreases n,
{
    if n == 0 {
        0
    } else {
        changed_count(s, (n - 1) as nat) + if starts_entry(s, n - 1) && is_changed_marker(s[n - 1]) {
            1nat
        } else {
            0nat
        }
    }
}

/// The number of entries among the first `n` bytes whose leading byte is the
/// untracked marker.
pub open spec fn untracked_count(s: Seq<u8>, n: nat) -> nat
    decreases n,
{
    if n == 0 {
        0
    } else {
        untracked_count(s, (n - 1) as nat) + if starts_entry(s, n - 1) && is_untracked_marker(s[n - 1]) {
            1nat
        } else {
            0nat
        }
    }
}

/// Counts the changed and the untracked entries of `git status --porcelain=2 -z`
/// output; ignored entries and headers count as neither.
pub fn parse_porcelain_counts(output: &[u8]) -> (r: (usize, usize))
    ensures
        r.0 == changed_count(output@, output@.len()),
        r.1 == untracked_count(output@, output@.len()),
{
    let mut changed: usize = 0;
    let mut untracked: usize = 0;
    let mut i: usize = 0;
    while i < output.len()
        invariant
            i <= output@.len(),
            changed == changed_count(output@, i as nat),
            untracked == untracked_count(output@, i as nat),
            changed <= i,
            untracked <= i,
        decreases output@.len() - i,
    {
        let b = output[i];
        let starts = b != 0 && (i == 0 || output[i - 1] == 0);
        if starts {
            if b == 0x3f {
                untracked += 1;
            } else if b == 0x31 || b == 0x32 || b == 0x75 {
                changed += 1;
            }
        }
        i += 1;
    }
    (changed, untracked)
}

/// The branch shown for a repository: the current branch, else `detached@`
/// followed by the short head hash, else `detached`.
pub open spec fn branch_label_spec(branch: Option<Seq<char>>, sha: Option<Seq<char>>) -> Seq<char> {
    match branch {
        Some(b) => b,
        None => match sha {
            Some(s) => "detached@"@ + s,
            None => "detached"@,
        },
    }
}

pub fn branch_label(branch: Option<String>, sha: Option<String>) -> (r: String)
    ensures
        r@ == branch_label_spec(
            match branch {
                Some(b) => Some(b@),
                None => None,
            },
            match sha {
                Some(s) => Some(s@),
                None => None,
            },
        ),
{
    match branch {
        Some(b) => b,
        None => match sha {
            Some(s) => {
                let mut label = String::from_str("detached@");
                label.append(s.as_str());
                label
            },
            None => String::from_str("detached"),
        },
    }
}

/// Assembles the summary from the porcelain status output, the branch label
/// parts and the ahead/behind commit counts (zero when unknown).
pub fn summarize(
    porcelain: &[u8],
    branch: Option<String>,
    sha: Option<String>,
    ahead: Option<usize>,
    behind: Option<usize>,
) -> (r: GitStatusSummary)
    ensures
        r.changed == changed_count(porcelain@, porcelain@.len()),
        r.untracked == untracked_count(porcelain@, porcelain@.len()),
        r.branch@ == branch_label_spec(
            match branch {
                Some(b) => Some(b@),
                None => None,
            },
            match sha {
                Some(s) => Some(s@),
                None => None,
            },
        ),
        r.ahead == match ahead {
            Some(n) => n,
            None => 0,
        },
        r.behind == match behind {
            Some(n) => n,
            None => 0,
        },
{
    let (changed, untracked) = parse_porcelain_counts(porcelain);
    let branch = branch_label(branch, sha);
    let ahead = match ahead {
        Some(n) => n,
        None => 0,
    };
    let behind = match behind {
        Some(n) => n,
        None => 0,
    };
    GitStatusSummary { branch, changed, untracked, ahead, behind }
}

/// A character with the Unicode `White_Space` property.
pub open spec fn is_white_space(c: char) -> bool {
    let u = c as u32;
    (0x09 <= u && u <= 0x0d) || u == 0x20 || u == 0x85 || u == 0xa0 || u == 0x1680 || (0x2000 <= u
        && u <= 0x200a) || u == 0x2028 || u == 0x2029 || u == 0x202f || u == 0x205f || u == 0x3000
}

/// `s` without its leading white space.
pub open spec fn trim_start_of(s: Seq<char>) -> Seq<char>
    decreases s.len(),
{
    if s.len() > 0 && is_white_space(s[0]) {
        trim_start_of(s.drop_first())
    } else {
        s
    }
}

/// `s` without its trailing white space.
pub open spec fn trim_end_of(s: Seq<char>) -> Seq<char>
    decreases s.len(),
{
    if s.len() > 0 && is_white_space(s.last()) {
        trim_end_of(s.drop_last())
    } else {
        s
    }
}

/// `s` without leading and trailing white space.
pub open spec fn trim_of(s: Seq<char>) -> Seq<char> {
    trim_end_of(trim_start_of(s))
}

/// Relies on `str::trim`: the string without leading and trailing characters
/// of the Unicode `White_Space` property.
#[verifier::external_body]
fn trim(s: &str) -> (r: String)
    ensures
        r@ == trim_of(s@),
{
    s.trim().to_string()
}

/// The non-empty trimmed text of a command's output, if it was text at all.
pub fn output_line(stdout: Option<String>) -> (r: Option<String>)
    ensures
        match stdout {
            None => r is None,
            Some(text) => if trim_of(text@).len() > 0 {
                r matches Some(line) && line@ == trim_of(text@)
            } else {
                r is None
            },
        },
{
    match stdout {
        None => None,
        Some(text) => {
            let line = trim(text.as_str());
            if line.as_str().unicode_len() > 0 {
                Some(line)
            } else {
                None
            }
        },
    }
}

pub open spec fn is_digit(c: char) -> bool {
    '0' <= c && c <= '9'
}

/// The value of a string of decimal digits.
pub open spec fn digits_value(s: Seq<char>) -> nat
    decreases s.len(),
{
    if s.len() == 0 {
        0
    } else {
        digits_value(s.drop_last()) * 10 + (s.last() as nat - '0' as nat) as nat
    }
}

/// The digits of an unsigned decimal number: one or more digits, after an
/// optional `+`.
pub open spec fn unsigned_digits(s: Seq<char>) -> Option<Seq<char>> {
    let d = if s.len() > 0 && s[0] == '+' {
        s.drop_first()
    } else {
        s
    };
    if d.len() > 0 && forall|i: int| 0 <= i < d.len() ==> is_digit(#[trigger] d[i]) {
        Some(d)
    } else {
        None
    }
}

/// Relies on `usize::from_str`: an optional `+` and decimal digits whose value
/// fits, else an error.
#[verifier::external_body]
fn parse_usize(s: &str) -> (r: Option<usize>)
    ensures
        match unsigned_digits(s@) {
            Some(d) => if digits_value(d) <= usize::MAX {
                r == Some(digits_value(d) as usize)
            } else {
                r is None
            },
            None => r is None,
        },
{
    s.parse::<usize>().ok()
}

/// The commit count printed by `git rev-list --count`, if it printed one.
pub fn commit_count(stdout: Option<String>) -> (r: Option<usize>)
    ensures
        match stdout {
            None => r is None,
            Some(text) => match unsigned_digits(trim_of(text@)) {
                Some(d) => if digits_value(d) <= usize::MAX {
                    r == Some(digits_value(d) as usize)
                } else {
                    r is None
                },
                None => r is None,
            },
        },
{
    match stdout {
        None => None,
        Some(text) => {
            let line = trim(text.as_str());
            parse_usize(line.as_str())
        },
    }
}

} // verus!
