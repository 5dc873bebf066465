//! Reading environment facts out of the text that tools and files give:
//! the kube context, git's porcelain status and the cloud profile.

use vstd::prelude::*;
use vstd::string::StringExecFns;
use crate::text::after_last_slash;
use crate::text::after_last_slash_chars;
use crate::text::chars_of;
use crate::text::first_line;
use crate::text::first_word;
use crate::text::first_line_chars;
use crate::text::newline_at;
use crate::text::slice_chars;
use crate::text::string_of;
use crate::text::strip_prefix_all;
use crate::text::strip_prefix_all_chars;
use crate::text::trim;
use crate::text::trim_chars;

verus! {

/// The last `/`-separated part of a kube context name.
pub fn trim_kube_context(context: &str) -> (r: String)
    ensures
        r@ == after_last_slash(context@),
{
    string_of(&after_last_slash_chars(&chars_of(context)))
}

pub open spec fn starts_with(s: Seq<char>, p: Seq<char>) -> bool {
    p.len() <= s.len() && s.take(p.len() as int) == p
}

fn starts_with_chars(s: &Vec<char>, p: &Vec<char>) -> (r: bool)
    ensures
        r == starts_with(s@, p@),
{
    if p.len() > s.len() {
        return false;
    }
    let mut i: usize = 0;
    while i < p.len()
        invariant
            p@.len() <= s@.len(),
            i <= p@.len(),
            forall|k: int| 0 <= k < i ==> s@[k] == p@[k],
        decreases p.len() - i,
    {
        if s[i] != p[i] {
            assert(s@.take(p@.len() as int)[i as int] != p@[i as int]);
            return false;
        }
        i += 1;
    }
    assert(s@.take(p@.len() as int) =~= p@);
    true
}

pub open spec fn context_key() -> Seq<char> {
    seq!['c', 'u', 'r', 'r', 'e', 'n', 't', '-', 'c', 'o', 'n', 't', 'e', 'x', 't', ':']
}

/// The context a kubeconfig line names, if it is a `current-context:` line
/// with a value.
pub open spec fn context_of_line(line: Seq<char>) -> Option<Seq<char>> {
    let t = trim(line);
    if starts_with(t, context_key()) {
        let v = trim(t.skip(context_key().len() as int));
        if v.len() > 0 { Some(after_last_slash(v)) } else { None }
    } else {
        None
    }
}

/// The current context of a kubeconfig: the first line that names one.
pub open spec fn kube_context_spec(s: Seq<char>) -> Option<Seq<char>>
    decreases s.len(),
{
    if s.len() == 0 {
        None
    } else {
        match context_of_line(first_line(s)) {
            Some(c) => Some(c),
            None => if newline_at(s) < s.len() {
                kube_context_spec(s.skip(newline_at(s) as int + 1))
            } else {
                None
            },
        }
    }
}

fn newline_index(s: &Vec<char>) -> (r: usize)
    ensures
        r == newline_at(s@),
{
    let mut i: usize = 0;
    assert(s@.skip(0) =~= s@);
    while i < s.len() && s[i] != '\n'
        invariant
            i <= s@.len(),
            newline_at(s@) == i + newline_at(s@.skip(i as int)),
        decreases s.len() - i,
    {
        assert(s@.skip(i as int).drop_first() =~= s@.skip(i + 1));
        i += 1;
    }
    i
}

fn context_in_line(line: &Vec<char>) -> (r: Option<String>)
    ensures
        r matches Some(c) ==> context_of_line(line@) == Some(c@),
        r is None ==> context_of_line(line@) is None,
{
    let t = trim_chars(line);
    let key = chars_of("current-context:");
    proof {
        reveal_strlit("current-context:");
        assert(key@ =~= context_key());
    }
    if !starts_with_chars(&t, &key) {
        return None;
    }
    let rest = slice_chars(&t, key.len(), t.len());
    assert(rest@ =~= t@.skip(context_key().len() as int));
    let v = trim_chars(&rest);
    if v.len() == 0 {
        return None;
    }
    Some(string_of(&after_last_slash_chars(&v)))
}

/// The current context named in the text of a kubeconfig file.
pub fn kube_current_context(contents: &str) -> (r: Option<String>)
    ensures
        r matches Some(c) ==> kube_context_spec(contents@) == Some(c@),
        r is None ==> kube_context_spec(contents@) is None,
{
    let mut rest = chars_of(contents);
    let ghost all = contents@;
    while rest.len() > 0
        invariant
            all == contents@,
            kube_context_spec(rest@) == kube_context_spec(all),
        decreases rest.len(),
    {
        let line = first_line_chars(&rest);
        if let Some(c) = context_in_line(&line) {
            return Some(c);
        }
        let n = newline_index(&rest);
        if n >= rest.len() {
            return None;
        }
        let next = slice_chars(&rest, n + 1, rest.len());
        assert(next@ =~= rest@.skip(n as int + 1));
        rest = next;
    }
    None
}

/// The cloud profile as shown: surrounding whitespace and any leading
/// `export AWS_PROFILE=` removed; nothing when that leaves it empty.
pub open spec fn aws_profile_spec(raw: Seq<char>) -> Option<Seq<char>> {
    let p = strip_prefix_all(trim(raw), crate::layout::aws_prefix());
    if p.len() > 0 { Some(p) } else { None }
}

pub fn normalize_aws_profile(raw: &str) -> (r: Option<String>)
    ensures
        r matches Some(p) ==> aws_profile_spec(raw@) == Some(p@),
        r is None ==> aws_profile_spec(raw@) is None,
{
    let t = trim_chars(&chars_of(raw));
    let prefix = chars_of("export AWS_PROFILE=");
    proof {
        reveal_strlit("export AWS_PROFILE=");
        assert(prefix@ =~= crate::layout::aws_prefix());
    }
    let p = strip_prefix_all_chars(&t, &prefix);
    if p.len() == 0 { None } else { Some(string_of(&p)) }
}

/// A value that is not blank, or nothing.
pub fn non_blank(value: Option<String>) -> (r: Option<String>)
    ensures
        match value {
            Some(v) => if trim(v@).len() > 0 { r == Some(v) } else { r is None },
            None => r is None,
        },
{
    match value {
        Some(v) => if crate::text::is_blank(v.as_str()) { None } else { Some(v) },
        None => None,
    }
}

} // verus!

verus! {

pub open spec fn is_digit(c: char) -> bool {
    '0' <= c <= '9'
}

/// The number that a run of decimal digits spells.
pub open spec fn digits_value(d: Seq<char>) -> int
    decreases d.len(),
{
    if d.len() == 0 {
        0
    } else {
        digits_value(d.drop_last()) * 10 + (d.last() as int - '0' as int)
    }
}

/// A signed decimal integer as `i64` parsing accepts it: an optional sign
/// and at least one digit, within range.
pub open spec fn all_digits(d: Seq<char>) -> bool {
    forall|i: int| 0 <= i < d.len() ==> is_digit(#[trigger] d[i])
}

/// `w` without its sign, if it has one.
pub open spec fn unsigned_part(w: Seq<char>) -> Seq<char> {
    if w.len() > 0 && (w[0] == '-' || w[0] == '+') { w.drop_first() } else { w }
}

pub open spec fn parse_i64_spec(w: Seq<char>) -> Option<i64> {
    let negative = w.len() > 0 && w[0] == '-';
    let digits = unsigned_part(w);
    if digits.len() == 0 || !all_digits(digits) {
        None
    } else {
        let v = if negative { -digits_value(digits) } else { digits_value(digits) };
        if i64::MIN <= v <= i64::MAX { Some(v as i64) } else { None }
    }
}

/// Parses a signed decimal integer.
pub fn parse_i64(w: &Vec<char>) -> (r: Option<i64>)
    ensures
        r == parse_i64_spec(w@),
{
    let negative = w.len() > 0 && w[0] == '-';
    let start: usize = if w.len() > 0 && (w[0] == '-' || w[0] == '+') { 1 } else { 0 };
    let ghost digits = unsigned_part(w@);
    assert(digits =~= w@.skip(start as int));
    if start >= w.len() {
        return None;
    }
    let mut value: i128 = 0;
    let mut i: usize = start;
    while i < w.len()
        invariant
            start <= i <= w@.len(),
            digits == w@.skip(start as int),
            digits == unsigned_part(w@),
            negative == (w@.len() > 0 && w@[0] == '-'),
            forall|k: int| 0 <= k < i - start ==> is_digit(#[trigger] digits[k]),
            value == digits_value(digits.take(i - start)),
            0 <= value <= 0x8000_0000_0000_0000i128,
        decreases w.len() - i,
    {
        let c = w[i];
        if !('0' <= c && c <= '9') {
            assert(!is_digit(digits[i - start]));
            assert(!all_digits(digits));
            return None;
        }
        let d = (c as u32 - '0' as u32) as i128;
        assert(digits.take(i - start + 1).drop_last() =~= digits.take(i - start));
        let next = value * 10 + d;
        if next > 0x8000_0000_0000_0000i128 {
            proof {
                if all_digits(digits) {
                    lemma_digits_value_grows(digits, (i - start + 1) as int);
                }
            }
            return None;
        }
        value = next;
        i += 1;
    }
    assert(digits.take(digits.len() as int) =~= digits);
    if negative {
        Some((-value) as i64)
    } else if value <= i64::MAX as i128 {
        Some(value as i64)
    } else {
        None
    }
}

/// A longer run of digits spells no smaller a number.
proof fn lemma_digits_value_grows(d: Seq<char>, k: int)
    requires
        0 <= k <= d.len(),
        forall|i: int| 0 <= i < d.len() ==> is_digit(#[trigger] d[i]),
    ensures
        digits_value(d.take(k)) <= digits_value(d),
    decreases d.len() - k,
{
    if k < d.len() {
        lemma_digits_value_grows(d, k + 1);
        assert(d.take(k + 1).drop_last() =~= d.take(k));
        lemma_digits_value_nonneg(d.take(k));
    } else {
        assert(d.take(k) =~= d);
    }
}

proof fn lemma_digits_value_nonneg(d: Seq<char>)
    requires
        forall|i: int| 0 <= i < d.len() ==> is_digit(#[trigger] d[i]),
    ensures
        digits_value(d) >= 0,
    decreases d.len(),
{
    if d.len() > 0 {
        lemma_digits_value_nonneg(d.drop_last());
    }
}

} // verus!

verus! {

pub open spec fn branch_ab_key() -> Seq<char> {
    seq!['#', ' ', 'b', 'r', 'a', 'n', 'c', 'h', '.', 'a', 'b', ' ']
}

/// A count after its expected sign: `+3` for ahead, `-2` for behind.
pub open spec fn signed_count(word: Seq<char>, sign: char) -> Option<i64> {
    if word.len() > 0 && word[0] == sign { parse_i64_spec(word.drop_first()) } else { None }
}

/// What one line of `git status --porcelain=2 --branch` tells: any line
/// that is not a header marks the tree dirty, and the `# branch.ab` header
/// gives the ahead and behind counts.
pub open spec fn status_line_effect(line: Seq<char>, acc: (bool, Option<i64>, Option<i64>)) -> (bool, Option<i64>, Option<i64>) {
    let dirty = acc.0 || !(line.len() > 0 && line[0] == '#');
    if starts_with(line, branch_ab_key()) {
        let rest = line.skip(branch_ab_key().len() as int);
        let a = first_word(rest);
        let b = first_word(crate::text::after_first_word(rest));
        let ahead = if a.len() > 0 { signed_count(a, '+') } else { acc.1 };
        let behind = if a.len() > 0 && b.len() > 0 { signed_count(b, '-') } else { acc.2 };
        (dirty, ahead, behind)
    } else {
        (dirty, acc.1, acc.2)
    }
}

pub open spec fn git_status_spec(s: Seq<char>, acc: (bool, Option<i64>, Option<i64>)) -> (bool, Option<i64>, Option<i64>)
    decreases s.len(),
{
    if s.len() == 0 {
        acc
    } else {
        let next = status_line_effect(first_line(s), acc);
        if newline_at(s) < s.len() {
            git_status_spec(s.skip(newline_at(s) as int + 1), next)
        } else {
            next
        }
    }
}

fn signed_count_of(word: &Vec<char>, sign: char) -> (r: Option<i64>)
    ensures
        r == signed_count(word@, sign),
{
    if word.len() > 0 && word[0] == sign {
        let digits = slice_chars(word, 1, word.len());
        assert(digits@ =~= word@.drop_first());
        parse_i64(&digits)
    } else {
        None
    }
}

fn apply_status_line(line: &Vec<char>, acc: (bool, Option<i64>, Option<i64>)) -> (r: (bool, Option<i64>, Option<i64>))
    ensures
        r == status_line_effect(line@, acc),
{
    let dirty = acc.0 || !(line.len() > 0 && line[0] == '#');
    let key = chars_of("# branch.ab ");
    proof {
        reveal_strlit("# branch.ab ");
        assert(key@ =~= branch_ab_key());
    }
    if !starts_with_chars(line, &key) {
        return (dirty, acc.1, acc.2);
    }
    let rest = slice_chars(line, key.len(), line.len());
    assert(rest@ =~= line@.skip(branch_ab_key().len() as int));
    let (a, after) = crate::text::split_first_word(&rest);
    let (b, _) = crate::text::split_first_word(&after);
    let ahead = if a.len() > 0 { signed_count_of(&a, '+') } else { acc.1 };
    let behind = if a.len() > 0 && b.len() > 0 { signed_count_of(&b, '-') } else { acc.2 };
    (dirty, ahead, behind)
}

/// Dirty flag and ahead/behind counts from the output of
/// `git status --porcelain=2 --branch`.
pub fn parse_git_status(text: &str) -> (r: (bool, Option<i64>, Option<i64>))
    ensures
        r == git_status_spec(text@, (false, None, None)),
{
    let mut rest = chars_of(text);
    let mut acc: (bool, Option<i64>, Option<i64>) = (false, None, None);
    let ghost all = text@;
    while rest.len() > 0
        invariant
            all == text@,
            git_status_spec(rest@, acc) == git_status_spec(all, (false, None, None)),
        decreases rest.len(),
    {
        let line = first_line_chars(&rest);
        acc = apply_status_line(&line, acc);
        let n = newline_index(&rest);
        if n >= rest.len() {
            return acc;
        }
        let next = slice_chars(&rest, n + 1, rest.len());
        assert(next@ =~= rest@.skip(n as int + 1));
        rest = next;
    }
    acc
}

} // verus!
