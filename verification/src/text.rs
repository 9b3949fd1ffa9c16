//! Text and file-name helpers that the searches and the bookkeeping share.
//!
//! What only the standard library and the `pinyin` crate can compute (lower
//! case, white space, the parts of a path, pinyin) is reached through the
//! wrappers; the rest is built here.

use pinyin::ToPinyin;
use vstd::prelude::*;
use vstd::string::*;

verus! {

/// What `str::to_lowercase` makes of `text`.
pub uninterp spec fn lowercase_of(text: Seq<char>) -> Seq<char>;

/// What `str::trim` leaves of `text`: the text without the white space at its
/// two ends.
pub uninterp spec fn trimmed_of(text: Seq<char>) -> Seq<char>;

/// What `Path::join` makes of the directory `dir` and the name `name`, both
/// taken as text, on the platform that the library is built for.
pub uninterp spec fn joined_path(dir: Seq<char>, name: Seq<char>) -> Seq<char>;

/// What `Path::extension` finds in `path`, taken as text.
pub uninterp spec fn extension_of(path: Seq<char>) -> Option<Seq<char>>;

/// What `Path::file_stem` finds in `path`, taken as text.
pub uninterp spec fn file_stem_of(path: Seq<char>) -> Option<Seq<char>>;

/// What `Path::file_name` finds in `path`, taken as text.
pub uninterp spec fn file_name_of(path: Seq<char>) -> Option<Seq<char>>;

/// What `Path::parent` finds in `path`, taken as text.
pub uninterp spec fn parent_of(path: Seq<char>) -> Option<Seq<char>>;

/// What `Path::is_absolute` says of `path`, taken as text.
pub uninterp spec fn is_absolute_path(path: Seq<char>) -> bool;

/// The plain pinyin of one character as the `pinyin` crate has it, without
/// tone marks; `None` for a character that has none.
pub uninterp spec fn plain_pinyin_of(c: char) -> Option<Seq<char>>;

/// `pattern` occurs in `text` as a run of neighbouring characters.
pub open spec fn has_substring(text: Seq<char>, pattern: Seq<char>) -> bool {
    exists|i: int|
        0 <= i && i + pattern.len() <= text.len() && #[trigger] text.subrange(
            i,
            i + pattern.len(),
        ) == pattern
}

/// A slash or a backslash.
pub open spec fn is_separator(c: char) -> bool {
    c == '\\' || c == '/'
}

/// `text` with each single quote written twice.
pub open spec fn with_quotes_doubled(text: Seq<char>) -> Seq<char>
    decreases text.len(),
{
    if text.len() == 0 {
        Seq::empty()
    } else if text.last() == '\'' {
        with_quotes_doubled(text.drop_last()).push('\'').push('\'')
    } else {
        with_quotes_doubled(text.drop_last()).push(text.last())
    }
}

/// `text` without the slashes and backslashes at its end.
pub open spec fn without_trailing_separators(text: Seq<char>) -> Seq<char>
    decreases text.len(),
{
    if text.len() > 0 && is_separator(text.last()) {
        without_trailing_separators(text.drop_last())
    } else {
        text
    }
}

/// Calls `str::to_lowercase`.
#[verifier::external_body]
pub(crate) fn to_lowercase(text: &str) -> (lower: String)
    ensures
        lower@ == lowercase_of(text@),
{
    text.to_lowercase()
}

/// Calls `str::trim`.
#[verifier::external_body]
pub(crate) fn trim(text: &str) -> (trimmed: &str)
    ensures
        trimmed@ == trimmed_of(text@),
{
    text.trim()
}

/// The characters of a text, one by one.
pub fn chars_of(text: &str) -> (chars: Vec<char>)
    ensures
        chars@ == text@,
{
    let mut chars: Vec<char> = Vec::new();
    for c in it: text.chars()
        invariant
            it.seq() == text@,
            chars@ == it.seq().take(it.index() as int),
    {
        chars.push(c);
    }
    chars
}

/// `pattern` stands in `text` at position `at`.
pub open spec fn occurs_at(text: Seq<char>, pattern: Seq<char>, at: int) -> bool {
    0 <= at && at + pattern.len() <= text.len() && text.subrange(at, at + pattern.len())
        == pattern
}

/// Whether `pattern` stands in `text` at position `at`.
pub fn matches_at(text: &Vec<char>, pattern: &Vec<char>, at: usize) -> (found: bool)
    ensures
        found == occurs_at(text@, pattern@, at as int),
{
    if at > text.len() || pattern.len() > text.len() - at {
        return false;
    }
    let mut k: usize = 0;
    while k < pattern.len()
        invariant
            k <= pattern.len(),
            at + pattern.len() <= text.len(),
            forall|j: int| 0 <= j < k ==> text@[at + j] == #[trigger] pattern@[j],
        decreases pattern.len() - k,
    {
        if text[at + k] != pattern[k] {
            assert(text@.subrange(at as int, at + pattern@.len())[k as int] != pattern@[k as int]);
            return false;
        }
        k += 1;
    }
    assert(text@.subrange(at as int, at + pattern@.len()) =~= pattern@);
    true
}

/// Whether `pattern` is how `text` begins.
pub fn starts_with(text: &str, pattern: &str) -> (found: bool)
    ensures
        found == pattern@.is_prefix_of(text@),
{
    let text_chars = chars_of(text);
    let pattern_chars = chars_of(pattern);
    matches_at(&text_chars, &pattern_chars, 0)
}

/// Whether `pattern` occurs in `text`.
pub fn contains(text: &str, pattern: &str) -> (found: bool)
    ensures
        found == has_substring(text@, pattern@),
{
    let text_chars = chars_of(text);
    let pattern_chars = chars_of(pattern);
    if pattern_chars.len() > text_chars.len() {
        return false;
    }
    let last: usize = text_chars.len() - pattern_chars.len();
    let mut i: usize = 0;
    while i < last
        invariant
            i <= last,
            last + pattern_chars@.len() == text_chars@.len(),
            text_chars@ == text@,
            pattern_chars@ == pattern@,
            forall|j: int| 0 <= j < i ==> !occurs_at(text@, pattern@, j),
        decreases last - i,
    {
        if matches_at(&text_chars, &pattern_chars, i) {
            assert(occurs_at(text@, pattern@, i as int));
            return true;
        }
        i += 1;
    }
    let found = matches_at(&text_chars, &pattern_chars, last);
    proof {
        if found {
            assert(occurs_at(text@, pattern@, last as int));
        } else {
            assert forall|j: int| !(0 <= j && j + pattern@.len() <= text@.len()
                && #[trigger] text@.subrange(j, j + pattern@.len()) == pattern@) by {
                if 0 <= j && j + pattern@.len() <= text@.len() {
                    assert(!occurs_at(text@, pattern@, j));
                }
            }
        }
    }
    found
}

/// Whether `c` is a slash or a backslash.
pub fn is_path_separator(c: char) -> (separator: bool)
    ensures
        separator == is_separator(c),
{
    c == '\\' || c == '/'
}

/// Removes every slash and backslash at the end of `text`.
pub fn trim_trailing_separators(text: &str) -> (trimmed: &str)
    ensures
        trimmed@ == without_trailing_separators(text@),
{
    let chars = chars_of(text);
    let mut end: usize = chars.len();
    assert(text@.subrange(0, end as int) =~= text@);
    while end > 0 && is_path_separator(chars[end - 1])
        invariant
            end <= chars.len(),
            chars@ == text@,
            without_trailing_separators(text@) == without_trailing_separators(
                text@.subrange(0, end as int),
            ),
        decreases end,
    {
        assert(text@.subrange(0, end as int).drop_last() =~= text@.subrange(0, end - 1));
        end -= 1;
    }
    text.substring_char(0, end)
}

/// Writes each single quote of `text` twice.
pub fn double_quotes(text: &str) -> (doubled: String)
    ensures
        doubled@ == with_quotes_doubled(text@),
{
    let chars = chars_of(text);
    let mut doubled = String::new();
    let mut i: usize = 0;
    proof {
        reveal_strlit("''");
        assert(text@.take(0) =~= Seq::<char>::empty());
    }
    while i < chars.len()
        invariant
            i <= chars.len(),
            chars@ == text@,
            "''"@ == seq!['\'', '\''],
            doubled@ == with_quotes_doubled(text@.take(i as int)),
        decreases chars.len() - i,
    {
        let ghost before = doubled@;
        if chars[i] == '\'' {
            doubled.append("''");
        } else {
            doubled.append(text.substring_char(i, i + 1));
        }
        proof {
            assert(text@.take(i as int + 1).drop_last() =~= text@.take(i as int));
            assert(text@.take(i as int + 1).last() == text@[i as int]);
            assert(text@.subrange(i as int, i + 1) =~= seq![text@[i as int]]);
            assert(doubled@ =~= with_quotes_doubled(text@.take(i as int + 1)));
        }
        i += 1;
    }
    proof {
        assert(text@.take(chars@.len() as int) =~= text@);
    }
    doubled
}

/// Calls `Path::join` on the directory `dir` and hands the path back as text.
#[verifier::external_body]
pub(crate) fn join_path(dir: &str, name: &str) -> (path: String)
    ensures
        path@ == joined_path(dir@, name@),
{
    std::path::Path::new(dir).join(name).to_string_lossy().into_owned()
}

/// Calls `Path::extension`.
#[verifier::external_body]
pub(crate) fn path_extension(path: &str) -> (extension: Option<String>)
    ensures
        extension is Some == extension_of(path@) is Some,
        extension is Some ==> extension->0@ == extension_of(path@)->0,
{
    std::path::Path::new(path).extension().and_then(|s| s.to_str()).map(|s| s.to_string())
}

/// Calls `Path::file_stem`.
#[verifier::external_body]
pub(crate) fn path_file_stem(path: &str) -> (stem: Option<String>)
    ensures
        stem is Some == file_stem_of(path@) is Some,
        stem is Some ==> stem->0@ == file_stem_of(path@)->0,
{
    std::path::Path::new(path).file_stem().and_then(|s| s.to_str()).map(|s| s.to_string())
}

/// Calls `Path::file_name`.
#[verifier::external_body]
pub(crate) fn path_file_name(path: &str) -> (name: Option<String>)
    ensures
        name is Some == file_name_of(path@) is Some,
        name is Some ==> name->0@ == file_name_of(path@)->0,
{
    std::path::Path::new(path).file_name().and_then(|s| s.to_str()).map(|s| s.to_string())
}

/// Calls `Path::parent`.
#[verifier::external_body]
pub(crate) fn path_parent(path: &str) -> (parent: Option<String>)
    ensures
        parent is Some == parent_of(path@) is Some,
        parent is Some ==> parent->0@ == parent_of(path@)->0,
{
    std::path::Path::new(path).parent().map(|p| p.to_string_lossy().into_owned())
}

/// Calls `Path::is_absolute`.
#[verifier::external_body]
pub(crate) fn path_is_absolute(path: &str) -> (absolute: bool)
    ensures
        absolute == is_absolute_path(path@),
{
    std::path::Path::new(path).is_absolute()
}

/// Calls `ToPinyin::to_pinyin` on one character and takes `Pinyin::plain` of
/// what it finds.
#[verifier::external_body]
pub(crate) fn plain_pinyin(c: char) -> (plain: Option<&'static str>)
    ensures
        plain is Some == plain_pinyin_of(c) is Some,
        plain is Some ==> plain->0@ == plain_pinyin_of(c)->0,
{
    c.to_pinyin().map(|p| p.plain())
}

/// Whether `a` and `b` hold the same text.
pub fn same_text(a: &str, b: &str) -> (same: bool)
    ensures
        same == (a@ == b@),
{
    let left = String::from_str(a);
    let right = String::from_str(b);
    left == right
}

/// `a` comes no later than `b` in the order of `str`: character by character
/// by code point, a text before its extensions.
pub open spec fn lex_le(a: Seq<char>, b: Seq<char>) -> bool
    decreases a.len(),
{
    if a.len() == 0 {
        true
    } else if b.len() == 0 {
        false
    } else if a[0] != b[0] {
        (a[0] as u32) < (b[0] as u32)
    } else {
        lex_le(a.drop_first(), b.drop_first())
    }
}

/// `a` comes before `b` and differs from it.
pub open spec fn lex_lt(a: Seq<char>, b: Seq<char>) -> bool {
    lex_le(a, b) && a != b
}

/// Whether `a` comes no later than `b` in the order of texts.
pub fn text_le(a: &str, b: &str) -> (le: bool)
    ensures
        le == lex_le(a@, b@),
{
    let left = chars_of(a);
    let right = chars_of(b);
    let mut i: usize = 0;
    assert(a@.skip(0) =~= a@ && b@.skip(0) =~= b@);
    while i < left.len() && i < right.len() && left[i] == right[i]
        invariant
            i <= left.len(),
            i <= right.len(),
            left@ == a@,
            right@ == b@,
            lex_le(a@, b@) == lex_le(a@.skip(i as int), b@.skip(i as int)),
        decreases left.len() - i,
    {
        assert(a@.skip(i as int).drop_first() =~= a@.skip(i as int + 1));
        assert(b@.skip(i as int).drop_first() =~= b@.skip(i as int + 1));
        i += 1;
    }
    if i >= left.len() {
        true
    } else if i >= right.len() {
        false
    } else {
        (left[i] as u32) < (right[i] as u32)
    }
}

/// The order of texts is reflexive.
pub proof fn lemma_lex_reflexive(a: Seq<char>)
    ensures
        lex_le(a, a),
    decreases a.len(),
{
    if a.len() > 0 {
        lemma_lex_reflexive(a.drop_first());
    }
}

/// Of two texts one comes no later than the other.
pub proof fn lemma_lex_total(a: Seq<char>, b: Seq<char>)
    ensures
        lex_le(a, b) || lex_le(b, a),
    decreases a.len(),
{
    if a.len() > 0 && b.len() > 0 {
        if a[0] == b[0] {
            lemma_lex_total(a.drop_first(), b.drop_first());
        } else {
            assert(a[0] as u32 != b[0] as u32) by {
                vstd::utf8::char_u32_cast(a[0], a[0] as u32);
                vstd::utf8::char_u32_cast(b[0], b[0] as u32);
            }
        }
    }
}

/// Two texts that come no later than each other are the same text.
pub proof fn lemma_lex_antisymmetric(a: Seq<char>, b: Seq<char>)
    requires
        lex_le(a, b),
        lex_le(b, a),
    ensures
        a == b,
    decreases a.len(),
{
    if a.len() == 0 || b.len() == 0 {
        assert(a =~= b);
    } else {
        lemma_lex_antisymmetric(a.drop_first(), b.drop_first());
        assert(a =~= seq![a[0]] + a.drop_first());
        assert(b =~= seq![b[0]] + b.drop_first());
    }
}

/// The order of texts is transitive.
pub proof fn lemma_lex_transitive(a: Seq<char>, b: Seq<char>, c: Seq<char>)
    requires
        lex_le(a, b),
        lex_le(b, c),
    ensures
        lex_le(a, c),
    decreases a.len(),
{
    if a.len() > 0 && b.len() > 0 && c.len() > 0 && a[0] == b[0] && b[0] == c[0] {
        lemma_lex_transitive(a.drop_first(), b.drop_first(), c.drop_first());
    }
}

/// The plain pinyin of a text: that of its characters one after the other,
/// with nothing for a character that has none.
pub open spec fn pinyin_of(text: Seq<char>) -> Seq<char>
    decreases text.len(),
{
    if text.len() == 0 {
        Seq::empty()
    } else {
        let rest = pinyin_of(text.drop_last());
        match plain_pinyin_of(text.last()) {
            Some(plain) => rest + plain,
            None => rest,
        }
    }
}

/// The pinyin initials of a text: the first letter of the plain pinyin of each
/// of its characters that has one.
pub open spec fn pinyin_initials_of(text: Seq<char>) -> Seq<char>
    decreases text.len(),
{
    if text.len() == 0 {
        Seq::empty()
    } else {
        let rest = pinyin_initials_of(text.drop_last());
        match plain_pinyin_of(text.last()) {
            Some(plain) => if plain.len() > 0 {
                rest.push(plain[0])
            } else {
                rest
            },
            None => rest,
        }
    }
}

/// Whether a character is a Chinese ideograph: one of the unified ideographs,
/// of their extensions A to D, or of the two compatibility blocks.
pub open spec fn is_chinese(c: char) -> bool {
    let code = c as u32;
    ||| 0x4E00 <= code <= 0x9FFF
    ||| 0x3400 <= code <= 0x4DBF
    ||| 0x20000 <= code <= 0x2A6DF
    ||| 0x2A700 <= code <= 0x2B73F
    ||| 0x2B740 <= code <= 0x2B81F
    ||| 0xF900 <= code <= 0xFAFF
    ||| 0x2F800 <= code <= 0x2FA1F
}

/// Whether some character of the text is a Chinese ideograph.
pub open spec fn has_chinese(text: Seq<char>) -> bool {
    exists|i: int| 0 <= i < text.len() && is_chinese(#[trigger] text[i])
}

/// Whether a character is a Chinese ideograph.
pub fn is_chinese_char(c: char) -> (chinese: bool)
    ensures
        chinese == is_chinese(c),
{
    let code = c as u32;
    (0x4E00 <= code && code <= 0x9FFF) || (0x3400 <= code && code <= 0x4DBF) || (0x20000 <= code
        && code <= 0x2A6DF) || (0x2A700 <= code && code <= 0x2B73F) || (0x2B740 <= code && code
        <= 0x2B81F) || (0xF900 <= code && code <= 0xFAFF) || (0x2F800 <= code && code <= 0x2FA1F)
}

/// Whether the text holds a Chinese ideograph.
pub fn contains_chinese(text: &str) -> (found: bool)
    ensures
        found == has_chinese(text@),
{
    let chars = chars_of(text);
    let n = chars.len();
    let mut i: usize = 0;
    while i < n
        invariant
            i <= n,
            n == text@.len(),
            chars@ == text@,
            forall|k: int| 0 <= k < i ==> !is_chinese(#[trigger] text@[k]),
        decreases n - i,
    {
        if is_chinese_char(chars[i]) {
            return true;
        }
        i += 1;
    }
    false
}

/// Turns the Chinese characters of a text into plain pinyin and drops the
/// other characters.
pub fn to_pinyin(text: &str) -> (pinyin: String)
    ensures
        pinyin@ == pinyin_of(text@),
{
    let chars = chars_of(text);
    let n = chars.len();
    let mut pinyin = String::new();
    let mut i: usize = 0;
    while i < n
        invariant
            i <= n,
            n == text@.len(),
            chars@ == text@,
            pinyin@ == pinyin_of(text@.take(i as int)),
        decreases n - i,
    {
        proof {
            assert(text@.take(i as int + 1).drop_last() =~= text@.take(i as int));
        }
        match plain_pinyin(chars[i]) {
            Some(plain) => {
                pinyin.append(plain);
            },
            None => {},
        }
        i += 1;
    }
    proof {
        assert(text@.take(n as int) =~= text@);
    }
    pinyin
}

/// Turns the Chinese characters of a text into the first letters of their
/// plain pinyin and drops the other characters.
pub fn to_pinyin_initials(text: &str) -> (initials: String)
    ensures
        initials@ == pinyin_initials_of(text@),
{
    let chars = chars_of(text);
    let n = chars.len();
    let mut initials = String::new();
    let mut i: usize = 0;
    while i < n
        invariant
            i <= n,
            n == text@.len(),
            chars@ == text@,
            initials@ == pinyin_initials_of(text@.take(i as int)),
        decreases n - i,
    {
        proof {
            assert(text@.take(i as int + 1).drop_last() =~= text@.take(i as int));
        }
        match plain_pinyin(chars[i]) {
            Some(plain) => {
                if plain.unicode_len() > 0 {
                    initials.append(plain.substring_char(0, 1));
                    proof {
                        let plain_text = plain_pinyin_of(text@[i as int])->0;
                        assert(plain_text.subrange(0, 1) =~= seq![plain_text[0]]);
                    }
                }
            },
            None => {},
        }
        i += 1;
    }
    proof {
        assert(text@.take(n as int) =~= text@);
    }
    initials
}

/// The pattern that finds `query` anywhere in a text, whatever the case: the
/// query in lower case between two percent signs.
pub open spec fn like_pattern_of(query: Seq<char>) -> Seq<char> {
    "%"@ + lowercase_of(query) + "%"@
}

/// The pattern with which the database is searched for `query`.
pub fn like_pattern(query: &str) -> (pattern: String)
    ensures
        pattern@ == like_pattern_of(query@),
{
    String::from_str("%").concat(to_lowercase(query).as_str()).concat("%")
}

/// A number of seconds as the database stores it, read as an unsigned number:
/// a negative one wraps around.
pub open spec fn unsigned_of(raw: i64) -> u64 {
    if raw >= 0 {
        raw as u64
    } else {
        (raw + 0x1_0000_0000_0000_0000) as u64
    }
}

/// Reads a stored number of seconds as an unsigned number.
pub fn to_unsigned(raw: i64) -> (seconds: u64)
    ensures
        seconds == unsigned_of(raw),
{
    if raw >= 0 {
        raw as u64
    } else {
        (raw as i128 + 0x1_0000_0000_0000_0000) as u64
    }
}

/// The digit for a number below ten.
pub open spec fn digit_of(d: int) -> char {
    "0123456789"@[d]
}

/// A number in decimal digits, without leading zeros.
pub open spec fn decimal_of(n: u64) -> Seq<char>
    decreases n,
{
    if n < 10 {
        seq![digit_of(n as int)]
    } else {
        decimal_of(n / 10).push(digit_of(n as int % 10))
    }
}

/// Writes `n` in decimal digits behind `text`.
pub fn append_decimal(text: &mut String, n: u64)
    ensures
        final(text)@ == old(text)@ + decimal_of(n),
    decreases n,
{
    if n >= 10 {
        append_decimal(text, n / 10);
    }
    let digits = "0123456789";
    proof {
        reveal_strlit("0123456789");
    }
    let d = (n % 10) as usize;
    text.append(digits.substring_char(d, d + 1));
    proof {
        assert(digits@.subrange(d as int, d + 1) =~= seq![digit_of(d as int)]);
        assert(text@ =~= old(text)@ + decimal_of(n));
    }
}

/// `n` in decimal digits.
pub fn decimal(n: u64) -> (digits: String)
    ensures
        digits@ == decimal_of(n),
{
    let mut digits = String::new();
    append_decimal(&mut digits, n);
    assert(digits@ =~= decimal_of(n));
    digits
}

} // verus!
