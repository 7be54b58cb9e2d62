//! Text of the wire format: JSON string tokens and the white space between
//! tokens.
use vstd::prelude::*;
use vstd::string::*;

verus! {

/// `serde_json::Error`, the reason why a text was not read. It is carried
/// through and never looked into.
#[verifier::external_type_specification]
#[verifier::external_body]
pub struct ExJsonError(serde_json::Error);

/// The lower-case hexadecimal digit for `n`, for `n` below sixteen.
pub open spec fn hex_digit(n: int) -> char {
    "0123456789abcdef"@[n]
}

/// How one character stands inside a JSON string token.
pub open spec fn escaped_char(c: char) -> Seq<char> {
    if c == '"' {
        seq!['\\', '"']
    } else if c == '\\' {
        seq!['\\', '\\']
    } else if c == '\u{8}' {
        seq!['\\', 'b']
    } else if c == '\t' {
        seq!['\\', 't']
    } else if c == '\n' {
        seq!['\\', 'n']
    } else if c == '\u{c}' {
        seq!['\\', 'f']
    } else if c == '\r' {
        seq!['\\', 'r']
    } else if (c as u32) < 0x20 {
        seq!['\\', 'u', '0', '0', hex_digit((c as u32) as int / 16), hex_digit((c as u32) as int % 16)]
    } else {
        seq![c]
    }
}

/// The characters of `s`, each as it stands inside a JSON string token.
pub open spec fn escaped(s: Seq<char>) -> Seq<char>
    decreases s.len(),
{
    if s.len() == 0 {
        Seq::empty()
    } else {
        escaped_char(s[0]) + escaped(s.drop_first())
    }
}

/// The JSON string token that stands for `s`.
pub open spec fn quoted(s: Seq<char>) -> Seq<char> {
    seq!['"'] + escaped(s) + seq!['"']
}

/// The string that `serde_json::from_str::<String>` reads from `text`, if it
/// reads one.
pub uninterp spec fn string_value(text: Seq<char>) -> Option<Seq<char>>;

/// Calls `serde_json::to_string` on a `str`.
///
/// Trusted: the result is the JSON string token for `s`, written with the
/// short escapes for quote, backslash, backspace, tab, line feed, form feed
/// and carriage return and `\u00XX` for the other control characters, and
/// `serde_json::from_str::<String>` reads `s` back from it. Serialising a
/// `str` into memory has no failing path.
#[verifier::external_body]
pub(crate) fn quote(s: &str) -> (token: String)
    ensures
        token@ == quoted(s@),
        string_value(token@) == Some(s@),
{
    match serde_json::to_string(s) {
        Ok(token) => token,
        Err(_) => String::new(),
    }
}

/// Calls `serde_json::from_str::<String>`.
///
/// Trusted: the outcome is a function of the text alone, named
/// [`string_value`].
#[verifier::external_body]
pub(crate) fn unquote(text: &str) -> (value: Result<String, serde_json::Error>)
    ensures
        match value {
            Ok(s) => string_value(text@) == Some(s@),
            Err(_) => string_value(text@) is None,
        },
{
    serde_json::from_str::<String>(text)
}

/// The characters of `text`, one by one.
pub fn chars_of(text: &str) -> (chars: Vec<char>)
    ensures
        chars@ == text@,
{
    broadcast use vstd::string::group_string_axioms;

    let mut chars: Vec<char> = Vec::new();
    for c in it: text.chars()
        invariant
            it.seq() == text@,
            chars@ == it.seq().take(it.index()),
    {
        chars.push(c);
    }
    chars
}

/// White space that may stand between two tokens.
pub open spec fn is_space(c: char) -> bool {
    c == ' ' || c == '\t' || c == '\n' || c == '\r'
}

/// The first position at or after `i` that holds no white space.
pub open spec fn skip_spaces(s: Seq<char>, i: int) -> int
    decreases s.len() - i,
{
    if 0 <= i < s.len() && is_space(s[i]) {
        skip_spaces(s, i + 1)
    } else {
        i
    }
}

/// The position after the quote that closes a string token whose body
/// starts at `i`. A backslash takes the character after it along, so an
/// escaped quote does not close the token.
pub open spec fn string_end(s: Seq<char>, i: int) -> Option<int>
    decreases s.len() - i,
{
    if i < 0 || i >= s.len() {
        None
    } else if s[i] == '"' {
        Some(i + 1)
    } else if s[i] == '\\' {
        if i + 1 < s.len() {
            string_end(s, i + 2)
        } else {
            None
        }
    } else {
        string_end(s, i + 1)
    }
}

/// The string token that starts at `i`: the string it stands for and the
/// position after it.
pub open spec fn string_at(s: Seq<char>, i: int) -> Option<(Seq<char>, int)> {
    if 0 <= i < s.len() && s[i] == '"' {
        match string_end(s, i + 1) {
            Some(j) => match string_value(s.subrange(i, j)) {
                Some(v) => Some((v, j)),
                None => None,
            },
            None => None,
        }
    } else {
        None
    }
}

/// The position after the character `c`, where `c` is the first thing at or
/// after `i` that is not white space.
pub open spec fn punct_at(s: Seq<char>, i: int, c: char) -> Option<int> {
    let j = skip_spaces(s, i);
    if 0 <= j < s.len() && s[j] == c {
        Some(j + 1)
    } else {
        None
    }
}

/// Whether the word `null` starts at `i`.
pub open spec fn null_at(s: Seq<char>, i: int) -> bool {
    0 <= i && i + 4 <= s.len() && s[i] == 'n' && s[i + 1] == 'u' && s[i + 2] == 'l' && s[i + 3]
        == 'l'
}

/// A decimal digit.
pub open spec fn is_digit(c: char) -> bool {
    '0' <= c && c <= '9'
}

/// The first position at or after `i` that holds no digit.
pub open spec fn digits_end(s: Seq<char>, i: int) -> int
    decreases s.len() - i,
{
    if 0 <= i < s.len() && is_digit(s[i]) {
        digits_end(s, i + 1)
    } else {
        i
    }
}

/// The number that a run of digits writes in base ten.
pub open spec fn decimal(digits: Seq<char>) -> nat
    decreases digits.len(),
{
    if digits.len() == 0 {
        0
    } else {
        (10 * decimal(digits.drop_last()) + ((digits.last() as u32) - ('0' as u32))) as nat
    }
}

/// The number token that starts at `i`: one or more digits, no leading
/// zero, no sign, fraction or exponent, and a value that a `u32` holds.
pub open spec fn number_at(s: Seq<char>, i: int) -> Option<(u32, int)> {
    let j = digits_end(s, i);
    if 0 <= i < j && (s[i] != '0' || j == i + 1) && decimal(s.subrange(i, j)) <= u32::MAX {
        Some((decimal(s.subrange(i, j)) as u32, j))
    } else {
        None
    }
}

/// Whether nothing but white space stands at or after `i`.
pub open spec fn ends_at(s: Seq<char>, i: int) -> bool {
    skip_spaces(s, i) == s.len()
}

/// An escaped character is stepped over as a whole when a token is scanned.
proof fn lemma_escaped_char_scan(s: Seq<char>, i: int, c: char)
    requires
        0 <= i,
        i + escaped_char(c).len() <= s.len(),
        s.subrange(i, i + escaped_char(c).len()) == escaped_char(c),
    ensures
        escaped_char(c).len() >= 1,
        string_end(s, i) == string_end(s, i + escaped_char(c).len()),
{
    let e = escaped_char(c);
    assert forall|k: int| 0 <= k < e.len() implies s[i + k] == e[k] by {
        assert(s.subrange(i, i + e.len())[k] == s[i + k]);
    }
    if e.len() == 6 {
        reveal_strlit("0123456789abcdef");
        assert(s[i] == e[0]);
        assert(s[i + 1] == e[1]);
        assert(s[i + 2] == e[2]);
        assert(s[i + 3] == e[3]);
        assert(s[i + 4] == e[4]);
        assert(s[i + 5] == e[5]);
        assert(string_end(s, i) == string_end(s, i + 2));
        assert(string_end(s, i + 2) == string_end(s, i + 3));
        assert(string_end(s, i + 3) == string_end(s, i + 4));
        assert(string_end(s, i + 4) == string_end(s, i + 5));
        assert(string_end(s, i + 5) == string_end(s, i + 6));
    } else if e.len() == 2 {
        assert(s[i] == e[0]);
        assert(s[i + 1] == e[1]);
    } else {
        assert(s[i] == e[0]);
    }
}

/// Escaped text is stepped over as a whole when a token is scanned: no
/// quote inside it closes the token.
proof fn lemma_escaped_scan(s: Seq<char>, i: int, x: Seq<char>)
    requires
        0 <= i,
        i + escaped(x).len() <= s.len(),
        s.subrange(i, i + escaped(x).len()) == escaped(x),
    ensures
        string_end(s, i) == string_end(s, i + escaped(x).len()),
    decreases x.len(),
{
    if x.len() > 0 {
        let head = escaped_char(x[0]);
        let rest = escaped(x.drop_first());
        assert(escaped(x) == head + rest);
        assert(s.subrange(i, i + head.len()) == head) by {
            assert(s.subrange(i, i + head.len()) =~= s.subrange(i, i + escaped(x).len()).subrange(
                0,
                head.len() as int,
            ));
            assert((head + rest).subrange(0, head.len() as int) =~= head);
        }
        lemma_escaped_char_scan(s, i, x[0]);
        assert(s.subrange(i + head.len(), i + head.len() + rest.len()) == rest) by {
            assert(s.subrange(i + head.len(), i + head.len() + rest.len()) =~= s.subrange(
                i,
                i + escaped(x).len(),
            ).subrange(head.len() as int, (head.len() + rest.len()) as int));
            assert((head + rest).subrange(head.len() as int, (head.len() + rest.len()) as int) =~= rest);
        }
        lemma_escaped_scan(s, i + head.len(), x.drop_first());
    }
}

/// Where `s` holds the token for `x` at `i`, scanning reads exactly that
/// token, and reads `x` from it if the reader returns what was written.
pub(crate) proof fn lemma_quoted_token(s: Seq<char>, i: int, x: Seq<char>)
    requires
        0 <= i,
        i + quoted(x).len() <= s.len(),
        s.subrange(i, i + quoted(x).len()) == quoted(x),
        string_value(quoted(x)) == Some(x),
    ensures
        string_at(s, i) == Some((x, i + quoted(x).len())),
{
    let q = quoted(x);
    let e = escaped(x);
    assert(q.len() == e.len() + 2);
    assert forall|k: int| 0 <= k < q.len() implies s[i + k] == q[k] by {
        assert(s.subrange(i, i + q.len())[k] == s[i + k]);
    }
    assert(s[i] == q[0]);
    assert(s[i + 1 + e.len()] == q[(1 + e.len()) as int]);
    assert(s.subrange(i + 1, i + 1 + e.len()) =~= e) by {
        assert forall|k: int| 0 <= k < e.len() implies s[i + 1 + k] == e[k] by {
            assert(q[1 + k] == e[k]);
        }
    }
    lemma_escaped_scan(s, i + 1, x);
    assert(string_end(s, i + 1 + e.len()) == Some(i + 2 + e.len()));
}

/// Whether `s` holds the text `t` at position `i`.
pub open spec fn holds_at(s: Seq<char>, i: int, t: Seq<char>) -> bool {
    0 <= i && i + t.len() <= s.len() && s.subrange(i, i + t.len()) == t
}

/// A text that holds `a + b` holds `a`, and `b` right after it.
pub(crate) proof fn lemma_holds_split(s: Seq<char>, i: int, a: Seq<char>, b: Seq<char>)
    requires
        holds_at(s, i, a + b),
    ensures
        holds_at(s, i, a),
        holds_at(s, i + a.len(), b),
{
    let whole = s.subrange(i, i + (a + b).len());
    assert(s.subrange(i, i + a.len()) =~= whole.subrange(0, a.len() as int));
    assert((a + b).subrange(0, a.len() as int) =~= a);
    assert(s.subrange(i + a.len(), i + a.len() + b.len()) =~= whole.subrange(
        a.len() as int,
        (a.len() + b.len()) as int,
    ));
    assert((a + b).subrange(a.len() as int, (a.len() + b.len()) as int) =~= b);
}

/// A key and its value, both string tokens, with a colon between them,
/// starting at or after `i`: the two strings and the position after the
/// value.
pub open spec fn member_at(s: Seq<char>, i: int) -> Option<(Seq<char>, Seq<char>, int)> {
    match string_at(s, skip_spaces(s, i)) {
        Some((key, j)) => match punct_at(s, j, ':') {
            Some(k) => match string_at(s, skip_spaces(s, k)) {
                Some((value, next)) => Some((key, value, next)),
                None => None,
            },
            None => None,
        },
        None => None,
    }
}

/// How a key and its string value are written.
pub open spec fn member_text(key: Seq<char>, value: Seq<char>) -> Seq<char> {
    quoted(key) + (seq![':'] + quoted(value))
}

/// Where `s` holds a written member at `i`, scanning reads that member, if
/// the reader returns what was written.
pub(crate) proof fn lemma_member_text(s: Seq<char>, i: int, key: Seq<char>, value: Seq<char>)
    requires
        holds_at(s, i, member_text(key, value)),
        string_value(quoted(key)) == Some(key),
        string_value(quoted(value)) == Some(value),
    ensures
        member_at(s, i) == Some((key, value, i + member_text(key, value).len())),
{
    let colon = seq![':'];
    lemma_holds_split(s, i, quoted(key), colon + quoted(value));
    let j = i + quoted(key).len();
    lemma_holds_split(s, j, colon, quoted(value));
    assert(s[i] == '"') by {
        assert(s.subrange(i, i + quoted(key).len())[0] == quoted(key)[0]);
    }
    lemma_quoted_token(s, i, key);
    assert(s[j] == ':') by {
        assert(s.subrange(j, j + colon.len())[0] == colon[0]);
    }
    assert(s[j + 1] == '"') by {
        assert(s.subrange(j + 1, j + 1 + quoted(value).len())[0] == quoted(value)[0]);
    }
    lemma_quoted_token(s, j + 1, value);
}

/// A text frame laid out for scanning: its characters can be read by
/// position and its tokens cut out.
pub struct Text<'a> {
    source: &'a str,
    chars: Vec<char>,
}

impl<'a> View for Text<'a> {
    type V = Seq<char>;

    closed spec fn view(&self) -> Seq<char> {
        self.chars@
    }
}

impl<'a> Text<'a> {
    #[verifier::type_invariant]
    spec fn well_formed(self) -> bool {
        self.source@ == self.chars@
    }

    /// Lays `source` out for scanning.
    pub fn new(source: &'a str) -> (text: Text<'a>)
        ensures
            text@ == source@,
    {
        Text { source, chars: chars_of(source) }
    }

    /// The number of characters.
    pub fn len(&self) -> (n: usize)
        ensures
            n == self@.len(),
    {
        self.chars.len()
    }

    /// Steps over white space from `at` on.
    pub fn skip_spaces(&self, at: usize) -> (next: usize)
        ensures
            next == skip_spaces(self@, at as int),
            at <= next,
            at <= self@.len() ==> next <= self@.len(),
    {
        let mut next = at;
        while next < self.chars.len() && is_space_char(self.chars[next])
            invariant
                at <= next,
                at <= self.chars@.len() ==> next <= self.chars@.len(),
                skip_spaces(self.chars@, at as int) == skip_spaces(self.chars@, next as int),
            decreases self.chars@.len() - next,
        {
            next = next + 1;
        }
        next
    }

    /// Whether nothing but white space is left from `at` on.
    pub fn ends(&self, at: usize) -> (done: bool)
        ensures
            done == ends_at(self@, at as int),
    {
        self.skip_spaces(at) == self.chars.len()
    }

    /// Steps over white space and then over the character `c`.
    pub fn punct(&self, at: usize, c: char) -> (next: Option<usize>)
        ensures
            match next {
                Some(j) => punct_at(self@, at as int, c) == Some(j as int) && at < j <= self@.len(),
                None => punct_at(self@, at as int, c) is None,
            },
    {
        let j = self.skip_spaces(at);
        if j < self.chars.len() && self.chars[j] == c {
            Some(j + 1)
        } else {
            None
        }
    }

    /// Whether the word `null` starts at `at`.
    pub fn null(&self, at: usize) -> (found: bool)
        ensures
            found == null_at(self@, at as int),
            found ==> at + 4 <= usize::MAX,
    {
        at < self.chars.len() && self.chars.len() - at >= 4 && self.chars[at] == 'n'
            && self.chars[at + 1] == 'u' && self.chars[at + 2] == 'l' && self.chars[at + 3] == 'l'
    }

    /// Finds the quote that closes a string token whose body starts at `at`.
    fn string_end(&self, at: usize) -> (end: Option<usize>)
        ensures
            match end {
                Some(j) => string_end(self@, at as int) == Some(j as int) && at < j <= self@.len(),
                None => string_end(self@, at as int) is None,
            },
    {
        let n = self.chars.len();
        let mut i = at;
        while i < n
            invariant
                n == self.chars@.len(),
                at <= i,
                string_end(self.chars@, at as int) == string_end(self.chars@, i as int),
            decreases n - i,
        {
            let c = self.chars[i];
            if c == '"' {
                return Some(i + 1);
            } else if c == '\\' {
                if n - i < 2 {
                    return None;
                }
                i = i + 2;
            } else {
                i = i + 1;
            }
        }
        None
    }

    /// Reads the string token that starts at `at`.
    pub fn string(&self, at: usize) -> (found: Option<(String, usize)>)
        ensures
            match found {
                Some((value, next)) => string_at(self@, at as int) == Some((value@, next as int))
                    && at < next <= self@.len(),
                None => string_at(self@, at as int) is None,
            },
    {
        proof {
            use_type_invariant(self);
        }
        if at < self.chars.len() && self.chars[at] == '"' {
            match self.string_end(at + 1) {
                Some(end) => {
                    let token = self.source.substring_char(at, end);
                    match unquote(token) {
                        Ok(value) => Some((value, end)),
                        Err(_) => None,
                    }
                },
                None => None,
            }
        } else {
            None
        }
    }

    /// Reads a key and its string value, with a colon between them.
    pub fn member(&self, at: usize) -> (found: Option<(String, String, usize)>)
        ensures
            match found {
                Some((key, value, next)) => member_at(self@, at as int) == Some(
                    (key@, value@, next as int),
                ) && at < next <= self@.len(),
                None => member_at(self@, at as int) is None,
            },
    {
        let start = self.skip_spaces(at);
        match self.string(start) {
            Some((key, after_key)) => match self.punct(after_key, ':') {
                Some(after_colon) => {
                    let value_start = self.skip_spaces(after_colon);
                    match self.string(value_start) {
                        Some((value, next)) => Some((key, value, next)),
                        None => None,
                    }
                },
                None => None,
            },
            None => None,
        }
    }

    /// Reads the number token that starts at `at`.
    pub fn number(&self, at: usize) -> (found: Option<(u32, usize)>)
        ensures
            match found {
                Some((value, next)) => number_at(self@, at as int) == Some((value, next as int))
                    && at < next <= self@.len(),
                None => number_at(self@, at as int) is None,
            },
    {
        let n = self.chars.len();
        if at >= n {
            return None;
        }
        let mut i = at;
        let mut value: u64 = 0;
        let mut fits = true;
        while i < n && is_digit_char(self.chars[i])
            invariant
                n == self.chars@.len(),
                at <= i <= n,
                digits_end(self.chars@, at as int) == digits_end(self.chars@, i as int),
                fits ==> value == decimal(self.chars@.subrange(at as int, i as int)) && value
                    <= u32::MAX,
                !fits ==> decimal(self.chars@.subrange(at as int, i as int)) > u32::MAX,
            decreases n - i,
        {
            let digit: u64 = (self.chars[i] as u32 - '0' as u32) as u64;
            proof {
                let longer = self.chars@.subrange(at as int, i + 1);
                assert(longer.drop_last() == self.chars@.subrange(at as int, i as int));
                assert(longer.last() == self.chars@[i as int]);
            }
            if fits {
                value = value * 10 + digit;
                if value > 0xffff_ffff {
                    fits = false;
                }
            }
            i = i + 1;
        }
        if at < i && fits && (self.chars[at] != '0' || i - at == 1) {
            Some((value as u32, i))
        } else {
            None
        }
    }
}

/// Whether two texts hold the same characters.
pub fn same_text(a: &str, b: &str) -> (same: bool)
    ensures
        same == (a@ == b@),
{
    a.to_owned() == b.to_owned()
}

fn is_space_char(c: char) -> (b: bool)
    ensures
        b == is_space(c),
{
    c == ' ' || c == '\t' || c == '\n' || c == '\r'
}

fn is_digit_char(c: char) -> (b: bool)
    ensures
        b == is_digit(c),
{
    '0' <= c && c <= '9'
}

} // verus!
