//! Text primitives of the renderer: decimal numbers, the endorsement badge,
//! truncation with an ellipsis, and line-by-line quoting.

use vstd::prelude::*;
use vstd::string::*;

verus! {

/// Longest body text that is rendered whole, in characters.
pub const BODY_LIMIT: usize = 1475;

/// Longest quoted text that is rendered whole, in characters.
pub const QUOTE_LIMIT: usize = 512;

/// Number of characters kept of a quoted text that is over `QUOTE_LIMIT`.
pub const QUOTE_KEEP: usize = 509;

/// The character of one decimal digit.
pub open spec fn digit_char(d: nat) -> char {
    if d == 0 {
        '0'
    } else if d == 1 {
        '1'
    } else if d == 2 {
        '2'
    } else if d == 3 {
        '3'
    } else if d == 4 {
        '4'
    } else if d == 5 {
        '5'
    } else if d == 6 {
        '6'
    } else if d == 7 {
        '7'
    } else if d == 8 {
        '8'
    } else {
        '9'
    }
}

/// The decimal numeral of `n`, without sign or leading zeros.
pub open spec fn decimal(n: nat) -> Seq<char>
    decreases n,
{
    if n < 10 {
        seq![digit_char(n)]
    } else {
        decimal(n / 10).push(digit_char(n % 10))
    }
}

/// The badge shown as the visible text of a mirror message.
pub open spec fn badge(count: nat) -> Seq<char> {
    decimal(count) + " ⭐"@
}

/// `s` cut to its first `keep` characters and an ellipsis where it is longer
/// than `limit` characters, and `s` itself otherwise.
pub open spec fn truncated(s: Seq<char>, limit: nat, keep: nat) -> Seq<char> {
    if s.len() > limit {
        s.subrange(0, keep as int) + "..."@
    } else {
        s
    }
}

/// The body of a message as the mirror shows it.
pub open spec fn body_text(s: Seq<char>) -> Seq<char> {
    truncated(s, BODY_LIMIT as nat, BODY_LIMIT as nat)
}

/// The text of a replied-to message as the mirror quotes it, before it is
/// split into lines.
pub open spec fn quote_text(s: Seq<char>) -> Seq<char> {
    truncated(s, QUOTE_LIMIT as nat, QUOTE_KEEP as nat)
}

/// `k` is where the first line of `s` ends: at its first line feed, or at
/// the end of the text where it has none.
pub open spec fn is_line_end(s: Seq<char>, k: int) -> bool {
    &&& 0 <= k <= s.len()
    &&& (k == s.len() || s[k] == '\n')
    &&& forall|j: int| 0 <= j < k ==> s[j] != '\n'
}

/// The end of the first line of `s`.
pub open spec fn line_end(s: Seq<char>) -> int {
    choose|k: int| is_line_end(s, k)
}

/// The first line of `s` without its terminator, where the line ends at
/// `k`: a carriage return directly before the closing line feed belongs to
/// the terminator.
pub open spec fn line_body(s: Seq<char>, k: int) -> Seq<char> {
    if k < s.len() && 0 < k && s[k - 1] == '\r' {
        s.subrange(0, k - 1)
    } else {
        s.subrange(0, k)
    }
}

/// What follows the first line of `s` and its line feed, where the line
/// ends at `k`.
pub open spec fn after_line(s: Seq<char>, k: int) -> Seq<char> {
    if k < s.len() {
        s.subrange(k + 1, s.len() as int)
    } else {
        Seq::empty()
    }
}

/// One quoted line.
pub open spec fn quoted_line(line: Seq<char>) -> Seq<char> {
    "> "@ + line + "\n"@
}

/// The lines of `s`, each behind `"> "` and closed by a line feed. A line
/// feed at the very end of the text opens no further line, and the empty
/// text has no line.
pub open spec fn quoted(s: Seq<char>) -> Seq<char>
    decreases s.len(),
{
    let k = line_end(s);
    if s.len() > 0 && 0 <= k <= s.len() {
        quoted_line(line_body(s, k)) + quoted(after_line(s, k))
    } else {
        Seq::empty()
    }
}

/// A text has one first line only.
pub proof fn lemma_line_end_unique(s: Seq<char>, k: int)
    requires
        is_line_end(s, k),
    ensures
        line_end(s) == k,
{
    let c = line_end(s);
    assert(is_line_end(s, c));
    if c < k {
        assert(s[c] != '\n');
    }
    if k < c {
        assert(s[k] != '\n');
    }
}

/// A text of one line without a line feed is quoted as that line.
pub proof fn law_quoted_single_line(line: Seq<char>)
    requires
        line.len() > 0,
        forall|j: int| 0 <= j < line.len() ==> line[j] != '\n',
    ensures
        quoted(line) == quoted_line(line),
{
    lemma_line_end_unique(line, line.len() as int);
    assert(line.subrange(0, line.len() as int) =~= line);
    assert(quoted(after_line(line, line.len() as int)) =~= Seq::<char>::empty());
    assert(quoted_line(line) + Seq::<char>::empty() =~= quoted_line(line));
}

/// A text is quoted line by line: the quote of a line, a line feed and a
/// rest is the quoted line and then the quote of the rest. A carriage
/// return at the end of the line goes with the line feed.
pub proof fn law_quoted_line_by_line(line: Seq<char>, rest: Seq<char>)
    requires
        forall|j: int| 0 <= j < line.len() ==> line[j] != '\n',
    ensures
        quoted(line + seq!['\n'] + rest) == quoted_line(
            if line.len() > 0 && line.last() == '\r' {
                line.drop_last()
            } else {
                line
            },
        ) + quoted(rest),
{
    let s = line + seq!['\n'] + rest;
    let k = line.len() as int;
    assert(s[k] == '\n');
    assert forall|j: int| 0 <= j < k implies s[j] != '\n' by {
        assert(s[j] == line[j]);
    }
    lemma_line_end_unique(s, k);
    assert(after_line(s, k) =~= rest);
    if line.len() > 0 && line.last() == '\r' {
        assert(s[k - 1] == line.last());
        assert(line_body(s, k) =~= line.drop_last());
    } else {
        if k > 0 {
            assert(s[k - 1] == line.last());
        }
        assert(line_body(s, k) =~= line);
    }
}

/// The body of a message is shown whole up to the body limit, and as its
/// first characters up to the limit and an ellipsis beyond it.
pub proof fn law_body_text(s: Seq<char>)
    ensures
        s.len() <= 1475 ==> body_text(s) == s,
        s.len() > 1475 ==> body_text(s) == s.subrange(0, 1475) + "..."@,
{
}

/// A quoted text is shown whole up to the quote limit, and as its first 509
/// characters and an ellipsis beyond it.
pub proof fn law_quote_text(s: Seq<char>)
    ensures
        s.len() <= 512 ==> quote_text(s) == s,
        s.len() > 512 ==> quote_text(s) == s.subrange(0, 509) + "..."@,
{
}

fn digit_str(d: u64) -> (r: &'static str)
    requires
        d < 10,
    ensures
        r@ == seq![digit_char(d as nat)],
{
    proof {
        reveal_strlit("0");
        reveal_strlit("1");
        reveal_strlit("2");
        reveal_strlit("3");
        reveal_strlit("4");
        reveal_strlit("5");
        reveal_strlit("6");
        reveal_strlit("7");
        reveal_strlit("8");
        reveal_strlit("9");
    }
    let r = if d == 0 {
        "0"
    } else if d == 1 {
        "1"
    } else if d == 2 {
        "2"
    } else if d == 3 {
        "3"
    } else if d == 4 {
        "4"
    } else if d == 5 {
        "5"
    } else if d == 6 {
        "6"
    } else if d == 7 {
        "7"
    } else if d == 8 {
        "8"
    } else {
        "9"
    };
    assert(r@ =~= seq![digit_char(d as nat)]);
    r
}

/// Writes `n` as a decimal numeral.
pub fn decimal_string(n: u64) -> (r: String)
    ensures
        r@ == decimal(n as nat),
    decreases n,
{
    if n < 10 {
        String::from_str(digit_str(n))
    } else {
        let mut s = decimal_string(n / 10);
        s.append(digit_str(n % 10));
        assert(s@ =~= decimal(n as nat));
        s
    }
}

/// Renders the badge for `count` endorsements.
pub fn badge_string(count: usize) -> (r: String)
    ensures
        r@ == badge(count as nat),
{
    let mut s = decimal_string(count as u64);
    s.append(" ⭐");
    s
}

/// Cuts the body of a message to what the mirror shows of it.
pub fn cut_body(text: &str) -> (r: String)
    ensures
        r@ == body_text(text@),
{
    truncate(text, BODY_LIMIT, BODY_LIMIT)
}

/// Cuts the text of a replied-to message to what the mirror quotes of it.
pub fn cut_quote(text: &str) -> (r: String)
    ensures
        r@ == quote_text(text@),
{
    truncate(text, QUOTE_LIMIT, QUOTE_KEEP)
}

fn truncate(text: &str, limit: usize, keep: usize) -> (r: String)
    requires
        keep <= limit,
    ensures
        r@ == truncated(text@, limit as nat, keep as nat),
{
    if text.unicode_len() > limit {
        let mut s = String::from_str(text.substring_char(0, keep));
        s.append("...");
        s
    } else {
        String::from_str(text)
    }
}

/// Quotes `text` line by line.
pub fn quote_lines(text: &str) -> (r: String)
    ensures
        r@ == quoted(text@),
{
    let n = text.unicode_len();
    let mut out = String::new();
    let mut i: usize = 0;
    assert(text@.subrange(0, n as int) =~= text@);
    while i < n
        invariant
            n == text@.len(),
            i <= n,
            out@ + quoted(text@.subrange(i as int, n as int)) == quoted(text@),
        decreases n - i,
    {
        let ghost tail = text@.subrange(i as int, n as int);
        let mut j: usize = i;
        while j < n && text.get_char(j) != '\n'
            invariant
                n == text@.len(),
                i <= j <= n,
                forall|x: int| i <= x < j ==> text@[x] != '\n',
            decreases n - j,
        {
            j += 1;
        }
        let end: usize = if j < n && i < j && text.get_char(j - 1) == '\r' {
            j - 1
        } else {
            j
        };
        let next: usize = if j < n {
            j + 1
        } else {
            j
        };
        let ghost before = out@;
        out.append("> ");
        out.append(text.substring_char(i, end));
        out.append("\n");
        proof {
            let k = j - i;
            assert forall|x: int| 0 <= x < k implies tail[x] != '\n' by {
                assert(tail[x] == text@[i + x]);
            }
            lemma_line_end_unique(tail, k);
            assert(line_body(tail, k) =~= text@.subrange(i as int, end as int));
            assert(after_line(tail, k) =~= text@.subrange(next as int, n as int));
            assert(out@ =~= before + quoted_line(line_body(tail, k)));
            assert(out@ + quoted(text@.subrange(next as int, n as int)) =~= before + quoted(tail));
        }
        i = next;
    }
    assert(out@ =~= quoted(text@));
    out
}

/// `p` stands at the start of `s`.
pub open spec fn has_prefix(s: Seq<char>, p: Seq<char>) -> bool {
    p.len() <= s.len() && s.subrange(0, p.len() as int) == p
}

/// Tells whether two texts hold the same characters.
pub fn same_text(a: &str, b: &str) -> (r: bool)
    ensures
        r == (a@ == b@),
{
    String::from_str(a) == String::from_str(b)
}

/// Tells whether `text` begins with `prefix`.
pub fn starts_with(text: &str, prefix: &str) -> (r: bool)
    ensures
        r == has_prefix(text@, prefix@),
{
    let n = prefix.unicode_len();
    if text.unicode_len() < n {
        false
    } else {
        same_text(text.substring_char(0, n), prefix)
    }
}

} // verus!
