use vstd::prelude::*;
use vstd::pervasive::unreached;
use vstd::string::*;

verus! {

/// `tracing::Level`, carried through as an opaque value.
#[verifier::external_type_specification]
#[verifier::external_body]
pub struct ExLevel(tracing::Level);

/// The log levels that can be selected.
#[derive(Clone, Copy, Debug, PartialEq, Eq)]
pub enum LogLevel {
    Debug,
    Info,
    Warn,
    Error,
}

/// The level of a log event.
#[derive(Clone, Copy, Debug, PartialEq, Eq)]
pub enum Severity {
    Trace,
    Debug,
    Info,
    Warn,
    Error,
}

/// The names `tracing::Level` parses to its five levels.
pub open spec fn is_level_name(name: Seq<char>) -> bool {
    ||| name == "error"@
    ||| name == "warn"@
    ||| name == "info"@
    ||| name == "debug"@
    ||| name == "trace"@
}

/// What `<tracing::Level as FromStr>::from_str` gives for `name`, `None` when
/// it refuses it.
pub uninterp spec fn parsed_level(name: Seq<char>) -> Option<tracing::Level>;

/// Parses a level name with `<tracing::Level as FromStr>::from_str`.
///
/// Trusted: the result is named `parsed_level`. The source maps `error`,
/// `warn`, `info`, `debug` and `trace` (any ASCII case) to the constants
/// `ERROR`, `WARN`, `INFO`, `DEBUG` and `TRACE`, which are five different
/// levels; so each of the five names parses, and two different ones give
/// different levels. Which constant a name gives is not stated, `Level`
/// being opaque here.
#[verifier::external_body]
fn parse_level(name: &str) -> (level: Option<tracing::Level>)
    ensures
        level == parsed_level(name@),
        is_level_name(name@) ==> level is Some,
        forall|other: Seq<char>| #![trigger parsed_level(other)] is_level_name(name@) && is_level_name(other) && other != name@ ==> level != parsed_level(other),
{
    name.parse::<tracing::Level>().ok()
}

impl LogLevel {
    /// The `tracing` name of this level.
    pub open spec fn level_name_spec(self) -> Seq<char> {
        match self {
            LogLevel::Debug => "debug"@,
            LogLevel::Info => "info"@,
            LogLevel::Warn => "warn"@,
            LogLevel::Error => "error"@,
        }
    }

    /// The `tracing` name of this level.
    pub fn level_name(self) -> (name: &'static str)
        ensures
            name@ == self.level_name_spec(),
    {
        match self {
            LogLevel::Debug => "debug",
            LogLevel::Info => "info",
            LogLevel::Warn => "warn",
            LogLevel::Error => "error",
        }
    }
}

/// The `tracing` level that a selected log level stands for: the one its
/// name parses to.
pub open spec fn tracing_level_for(level: LogLevel) -> tracing::Level {
    parsed_level(level.level_name_spec())->0
}

impl vstd::std_specs::convert::FromSpecImpl<LogLevel> for tracing::Level {
    open spec fn obeys_from_spec() -> bool {
        true
    }

    open spec fn from_spec(level: LogLevel) -> tracing::Level {
        tracing_level_for(level)
    }
}

impl From<LogLevel> for tracing::Level {
    /// The level of the same name: `Debug` to `DEBUG`, `Info` to `INFO`,
    /// `Warn` to `WARN`, `Error` to `ERROR`; no other log level's name parses
    /// to the level returned.
    fn from(level: LogLevel) -> (l: tracing::Level)
        ensures
            l == tracing_level_for(level),
            parsed_level(level.level_name_spec()) == Some(l),
            forall|other: LogLevel|
                other != level ==> #[trigger] parsed_level(other.level_name_spec()) != Some(l),
    {
        let name = level.level_name();
        proof {
            reveal_strlit("error");
            reveal_strlit("warn");
            reveal_strlit("info");
            reveal_strlit("debug");
            reveal_strlit("trace");
        }
        match parse_level(name) {
            Some(l) => {
                proof {
                    assert forall|other: LogLevel| other != level implies #[trigger] parsed_level(
                        other.level_name_spec(),
                    ) != Some(l) by {
                        // The five names start with five different letters.
                        assert(other.level_name_spec()[0] != level.level_name_spec()[0]);
                        assert(is_level_name(other.level_name_spec()));
                    }
                }
                l
            },
            None => unreached(),
        }
    }
}

/// The characters of `s`, in order.
fn chars_of(s: &str) -> (chars: Vec<char>)
    ensures
        chars@ == s@,
{
    let mut chars: Vec<char> = Vec::new();
    for c in it: s.chars()
        invariant
            chars@ == it.seq().take(it.index()),
    {
        chars.push(c);
    }
    chars
}

/// Unicode `White_Space`, the property `char::is_whitespace` tests:
/// U+0009 to U+000D, space, U+0085, U+00A0, U+1680, U+2000 to U+200A,
/// U+2028, U+2029, U+202F, U+205F and U+3000.
pub open spec fn is_white_space(c: char) -> bool {
    ||| '\u{9}' <= c <= '\u{d}'
    ||| c == ' '
    ||| c == '\u{85}'
    ||| c == '\u{a0}'
    ||| c == '\u{1680}'
    ||| '\u{2000}' <= c <= '\u{200a}'
    ||| c == '\u{2028}'
    ||| c == '\u{2029}'
    ||| c == '\u{202f}'
    ||| c == '\u{205f}'
    ||| c == '\u{3000}'
}

/// Whether `c` is Unicode white space.
pub fn is_white_space_char(c: char) -> (ws: bool)
    ensures
        ws == is_white_space(c),
{
    ('\u{9}' <= c && c <= '\u{d}') || c == ' ' || c == '\u{85}' || c == '\u{a0}' || c
        == '\u{1680}' || ('\u{2000}' <= c && c <= '\u{200a}') || c == '\u{2028}' || c
        == '\u{2029}' || c == '\u{202f}' || c == '\u{205f}' || c == '\u{3000}'
}

/// The length of the run of non-white-space characters that starts `s`.
pub open spec fn word_len(s: Seq<char>) -> nat
    decreases s.len(),
{
    if s.len() == 0 || is_white_space(s[0]) {
        0
    } else {
        1 + word_len(s.drop_first())
    }
}

/// A word is never longer than the text it starts, and is not empty when
/// the text starts with a non-white-space character.
pub proof fn lemma_word_len_bound(s: Seq<char>)
    ensures
        word_len(s) <= s.len(),
        s.len() > 0 && !is_white_space(s[0]) ==> word_len(s) > 0,
    decreases s.len(),
{
    if s.len() > 0 && !is_white_space(s[0]) {
        lemma_word_len_bound(s.drop_first());
    }
}

/// The words of `s`: its maximal runs of non-white-space characters, in
/// order (what `str::split_whitespace` yields).
pub open spec fn words(s: Seq<char>) -> Seq<Seq<char>>
    decreases s.len(),
{
    if s.len() == 0 {
        seq![]
    } else if is_white_space(s[0]) {
        words(s.drop_first())
    } else {
        let n = word_len(s);
        proof {
            lemma_word_len_bound(s);
        }
        seq![s.take(n as int)] + words(s.skip(n as int))
    }
}

/// `word_len(s)` is `m` when the first `m` characters of `s` are not white
/// space and the next one, if any, is.
proof fn lemma_word_len_exact(s: Seq<char>, m: int)
    requires
        0 <= m <= s.len(),
        forall|q: int| 0 <= q < m ==> !is_white_space(#[trigger] s[q]),
        m == s.len() || is_white_space(s[m]),
    ensures
        word_len(s) == m,
    decreases m,
{
    if m > 0 {
        assert forall|q: int| 0 <= q < m - 1 implies !is_white_space(#[trigger] s.drop_first()[q]) by {
            assert(s.drop_first()[q] == s[q + 1]);
        }
        lemma_word_len_exact(s.drop_first(), m - 1);
    }
}

/// The regular expression of an ANSI colour escape: `ESC [`, digits and
/// semicolons, `m`.
pub const ANSI_ESCAPE_PATTERN: &'static str = "\\x1b\\[[0-9;]*m";

/// Whether `regex::Regex::new` accepts `pattern`.
pub uninterp spec fn regex_compiles(pattern: Seq<char>) -> bool;

/// What `regex::Regex::replace_all` returns: `haystack` with every
/// non-overlapping match of `pattern` replaced by `replacement`.
pub uninterp spec fn regex_replaced(
    pattern: Seq<char>,
    haystack: Seq<char>,
    replacement: Seq<char>,
) -> Seq<char>;

/// Replaces the matches of `pattern` in `haystack` with `regex`:
/// `Regex::new(pattern)` then `Regex::replace_all`.
///
/// Trusted: `None` exactly when `Regex::new` refuses the pattern, named
/// `regex_compiles`; otherwise the text `replace_all` returns, named
/// `regex_replaced`. The matching itself is not restated here.
/// `ANSI_ESCAPE_PATTERN` is valid regex syntax (an escaped byte, an escaped
/// bracket, a character class with `*`, a literal), so `Regex::new` accepts
/// it.
#[verifier::external_body]
fn replace_all_matches(pattern: &str, haystack: &str, replacement: &str) -> (replaced: Option<
    String,
>)
    ensures
        replaced is Some <==> regex_compiles(pattern@),
        pattern@ == ANSI_ESCAPE_PATTERN@ ==> replaced is Some,
        replaced matches Some(r) ==> r@ == regex_replaced(pattern@, haystack@, replacement@),
{
    match regex::Regex::new(pattern) {
        Ok(re) => Some(re.replace_all(haystack, replacement).into_owned()),
        Err(_) => None,
    }
}

pub const NO_TEXT: &'static str = "";

/// `s` without its ANSI colour escapes.
pub open spec fn strip_ansi(s: Seq<char>) -> Seq<char> {
    regex_replaced(ANSI_ESCAPE_PATTERN@, s, NO_TEXT@)
}

/// Escape that resets the colour.
pub const COLOR_RESET: &'static str = "\x1b[0m";
/// Escape that colours a span field's key (cyan).
pub const FIELD_KEY_COLOR: &'static str = "\x1b[36m";
/// Escape that colours a span field's value (bright magenta).
pub const FIELD_VALUE_COLOR: &'static str = "\x1b[95m";
pub const EQUALS: &'static str = "=";
pub const SPACE: &'static str = " ";

/// A span field `key=value` with its key and value coloured.
pub open spec fn colored_pair_text(key: Seq<char>, value: Seq<char>) -> Seq<char> {
    FIELD_KEY_COLOR@ + key + COLOR_RESET@ + EQUALS@ + FIELD_VALUE_COLOR@ + value + COLOR_RESET@
}

/// Colours a span field whose key and value have been stripped of escapes.
pub fn colored_pair(key: &str, value: &str) -> (text: String)
    ensures
        text@ == colored_pair_text(key@, value@),
{
    let mut text = String::from_str(FIELD_KEY_COLOR);
    text.append(key);
    text.append(COLOR_RESET);
    text.append(EQUALS);
    text.append(FIELD_VALUE_COLOR);
    text.append(value);
    text.append(COLOR_RESET);
    text
}

/// `k` is the position of the first `=` of `word`.
pub open spec fn first_equals_at(word: Seq<char>, k: int) -> bool {
    &&& 0 <= k < word.len()
    &&& word[k] == '='
    &&& forall|j: int| 0 <= j < k ==> word[j] != '='
}

/// `word` holds an `=`: it is a `key=value` field.
pub open spec fn is_pair(word: Seq<char>) -> bool {
    exists|k: int| first_equals_at(word, k)
}

/// A word of the span fields as it is shown in colour: a `key=value` field,
/// split at its first `=`, with escapes stripped from key and value and then
/// coloured; any other word unchanged.
pub open spec fn colored_word(word: Seq<char>) -> Seq<char> {
    if is_pair(word) {
        let k = choose|k: int| first_equals_at(word, k);
        colored_pair_text(strip_ansi(word.take(k)), strip_ansi(word.skip(k + 1)))
    } else {
        word
    }
}

proof fn lemma_first_equals_unique(word: Seq<char>, k: int)
    requires
        first_equals_at(word, k),
    ensures
        is_pair(word),
        (choose|k2: int| first_equals_at(word, k2)) == k,
{
    let k2 = choose|k2: int| first_equals_at(word, k2);
    assert(first_equals_at(word, k2));
    if k2 < k {
        assert(word[k2] != '=');
    } else if k < k2 {
        assert(word[k] != '=');
    }
}

/// Words joined with single spaces.
pub open spec fn join_words(words: Seq<Seq<char>>) -> Seq<char>
    decreases words.len(),
{
    if words.len() == 0 {
        seq![]
    } else if words.len() == 1 {
        words[0]
    } else {
        join_words(words.drop_last()) + SPACE@ + words.last()
    }
}

/// Span fields as they are shown in colour: their words, each coloured,
/// joined with single spaces.
pub open spec fn colored_fields(fields: Seq<char>) -> Seq<char> {
    join_words(words(fields).map_values(|w: Seq<char>| colored_word(w)))
}

proof fn lemma_words_skip_white_space(s: Seq<char>, i: int)
    requires
        0 <= i < s.len(),
        is_white_space(s[i]),
    ensures
        words(s.skip(i)) == words(s.skip(i + 1)),
{
    assert(s.skip(i).drop_first() =~= s.skip(i + 1));
}

proof fn lemma_words_take_word(s: Seq<char>, i: int, j: int)
    requires
        0 <= i < j <= s.len(),
        forall|q: int| i <= q < j ==> !is_white_space(#[trigger] s[q]),
        j == s.len() || is_white_space(s[j]),
    ensures
        words(s.skip(i)) == seq![s.subrange(i, j)] + words(s.skip(j)),
{
    let t = s.skip(i);
    assert forall|q: int| 0 <= q < j - i implies !is_white_space(#[trigger] t[q]) by {
        assert(t[q] == s[i + q]);
    }
    lemma_word_len_exact(t, j - i);
    assert(t.take(j - i) =~= s.subrange(i, j));
    assert(t.skip(j - i) =~= s.skip(j));
}

proof fn lemma_join_push(done: Seq<Seq<char>>, w: Seq<char>)
    ensures
        join_words(done.push(w).map_values(|x: Seq<char>| colored_word(x))) == if done.len()
            == 0 {
            colored_word(w)
        } else {
            join_words(done.map_values(|x: Seq<char>| colored_word(x))) + SPACE@ + colored_word(w)
        },
{
    let m = done.push(w).map_values(|x: Seq<char>| colored_word(x));
    assert(m.drop_last() =~= done.map_values(|x: Seq<char>| colored_word(x)));
}

/// Span fields coloured for a terminal: each `key=value` word gets its key
/// and value stripped of ANSI escapes and coloured, other words are kept,
/// and the words are joined with single spaces.
pub fn colorize_span_fields(fields: &str) -> (colored: String)
    ensures
        colored@ == colored_fields(fields@),
{
    let chars = chars_of(fields);
    let n = chars.len();
    let mut out = String::new();
    let mut first = true;
    let ghost mut done: Seq<Seq<char>> = seq![];
    let mut i: usize = 0;
    assert(fields@.skip(0) =~= fields@);
    while i < n
        invariant
            chars@ == fields@,
            n == chars.len(),
            i <= n,
            words(fields@) == done + words(fields@.skip(i as int)),
            out@ == join_words(done.map_values(|w: Seq<char>| colored_word(w))),
            first == (done.len() == 0),
        decreases n - i,
    {
        if is_white_space_char(chars[i]) {
            proof {
                lemma_words_skip_white_space(fields@, i as int);
            }
            i = i + 1;
        } else {
            let mut j = i + 1;
            while j < n && !is_white_space_char(chars[j])
                invariant
                    chars@ == fields@,
                    n == chars.len(),
                    i < j <= n,
                    !is_white_space(fields@[i as int]),
                    forall|q: int| i <= q < j ==> !is_white_space(#[trigger] fields@[q]),
                decreases n - j,
            {
                j = j + 1;
            }
            let ghost word = fields@.subrange(i as int, j as int);
            proof {
                lemma_words_take_word(fields@, i as int, j as int);
            }
            let mut k = i;
            while k < j && chars[k] != '='
                invariant
                    chars@ == fields@,
                    n == chars.len(),
                    i <= k <= j <= n,
                    forall|q: int| i <= q < k ==> fields@[q] != '=',
                decreases j - k,
            {
                k = k + 1;
            }
            let colored_word_text = if k < j {
                proof {
                    assert(first_equals_at(word, k - i));
                    lemma_first_equals_unique(word, k - i);
                    assert(word.take(k - i) =~= fields@.subrange(i as int, k as int));
                    assert(word.skip(k - i + 1) =~= fields@.subrange(k + 1, j as int));
                }
                let key = fields.substring_char(i, k);
                let value = fields.substring_char(k + 1, j);
                let clean_key = match replace_all_matches(ANSI_ESCAPE_PATTERN, key, NO_TEXT) {
                    Some(c) => c,
                    None => unreached(),
                };
                let clean_value = match replace_all_matches(ANSI_ESCAPE_PATTERN, value, NO_TEXT) {
                    Some(c) => c,
                    None => unreached(),
                };
                colored_pair(clean_key.as_str(), clean_value.as_str())
            } else {
                proof {
                    if is_pair(word) {
                        let k2 = choose|k2: int| first_equals_at(word, k2);
                        assert(word[k2] == fields@[i + k2]);
                    }
                }
                String::from_str(fields.substring_char(i, j))
            };
            if !first {
                out.append(SPACE);
            }
            out.append(colored_word_text.as_str());
            proof {
                lemma_join_push(done, word);
                done = done.push(word);
            }
            first = false;
            i = j;
        }
    }
    proof {
        assert(fields@.skip(n as int) =~= Seq::<char>::empty());
        assert(words(fields@.skip(n as int)) =~= Seq::<Seq<char>>::empty());
        assert(done + Seq::<Seq<char>>::empty() =~= done);
    }
    out
}

/// Whether log output is coloured. `NO_COLOR` set (to anything) turns colour
/// off; otherwise `FORCE_COLOR` set turns it on; otherwise the command-line
/// flag `--no-color` decides.
pub fn color_enabled(no_color_set: bool, force_color_set: bool, cli_no_color: bool) -> (enabled:
    bool)
    ensures
        enabled == (!no_color_set && (force_color_set || !cli_no_color)),
{
    if no_color_set {
        return false;
    }
    if force_color_set {
        return true;
    }
    !cli_no_color
}

/// The name of a level as `tracing` prints it right-aligned in five columns.
pub open spec fn padded_level_name(severity: Severity) -> Seq<char> {
    match severity {
        Severity::Trace => "TRACE"@,
        Severity::Debug => "DEBUG"@,
        Severity::Info => " INFO"@,
        Severity::Warn => " WARN"@,
        Severity::Error => "ERROR"@,
    }
}

/// The level's name right-aligned in five columns, as `tracing::Level`'s
/// `Display` writes it with `{:>5}` (it pads the names with
/// `Formatter::pad`).
pub fn padded_level(severity: Severity) -> (name: String)
    ensures
        name@ == padded_level_name(severity),
{
    match severity {
        Severity::Trace => String::from_str("TRACE"),
        Severity::Debug => String::from_str("DEBUG"),
        Severity::Info => String::from_str(" INFO"),
        Severity::Warn => String::from_str(" WARN"),
        Severity::Error => String::from_str("ERROR"),
    }
}

/// The colour escape of an event's level: red for errors, yellow for
/// warnings, green for info, cyan for debug, and the reset escape for trace.
pub open spec fn level_color_spec(severity: Severity) -> Seq<char> {
    match severity {
        Severity::Error => "\x1b[31m"@,
        Severity::Warn => "\x1b[33m"@,
        Severity::Info => "\x1b[32m"@,
        Severity::Debug => FIELD_KEY_COLOR@,
        Severity::Trace => COLOR_RESET@,
    }
}

/// The colour escape of an event's level.
pub fn level_color(severity: Severity) -> (color: &'static str)
    ensures
        color@ == level_color_spec(severity),
{
    match severity {
        Severity::Error => "\x1b[31m",
        Severity::Warn => "\x1b[33m",
        Severity::Info => "\x1b[32m",
        Severity::Debug => FIELD_KEY_COLOR,
        Severity::Trace => COLOR_RESET,
    }
}

/// The level column of a log line, followed by a space: the padded level
/// name, in the level's colour when colour is on.
pub fn level_prefix(severity: Severity, ansi: bool) -> (prefix: String)
    ensures
        prefix@ == if ansi {
            level_color_spec(severity) + padded_level_name(severity) + COLOR_RESET@ + SPACE@
        } else {
            padded_level_name(severity) + SPACE@
        },
{
    let name = padded_level(severity);
    if ansi {
        let mut prefix = String::from_str(level_color(severity));
        prefix.append(name.as_str());
        prefix.append(COLOR_RESET);
        prefix.append(SPACE);
        prefix
    } else {
        let mut prefix = name;
        prefix.append(SPACE);
        prefix
    }
}

/// Escape that colours the timestamp (bright cyan).
pub const TIMESTAMP_COLOR: &'static str = "\x1b[96m";

/// The timestamp column of a log line, followed by a space, in colour when
/// colour is on.
pub fn timestamp_prefix(timestamp: &str, ansi: bool) -> (prefix: String)
    ensures
        prefix@ == if ansi {
            TIMESTAMP_COLOR@ + timestamp@ + COLOR_RESET@ + SPACE@
        } else {
            timestamp@ + SPACE@
        },
{
    if ansi {
        let mut prefix = String::from_str(TIMESTAMP_COLOR);
        prefix.append(timestamp);
        prefix.append(COLOR_RESET);
        prefix.append(SPACE);
        prefix
    } else {
        let mut prefix = String::from_str(timestamp);
        prefix.append(SPACE);
        prefix
    }
}

/// What a span's formatted fields add at the end of a log line: nothing when
/// there are none; otherwise a space and the fields, coloured word by word
/// when colour is on.
pub fn span_fields_suffix(fields: &str, ansi: bool) -> (suffix: String)
    ensures
        suffix@ == if fields@.len() == 0 {
            Seq::empty()
        } else if ansi {
            SPACE@ + colored_fields(fields@)
        } else {
            SPACE@ + fields@
        },
{
    if fields.is_empty() {
        return String::new();
    }
    let mut suffix = String::from_str(SPACE);
    if ansi {
        let colored = colorize_span_fields(fields);
        suffix.append(colored.as_str());
    } else {
        suffix.append(fields);
    }
    suffix
}

/// Every word of a text is a non-empty run of non-white-space characters.
pub proof fn law_words_are_non_empty_runs(s: Seq<char>)
    ensures
        forall|i: int|
            0 <= i < words(s).len() ==> {
                &&& #[trigger] words(s)[i].len() > 0
                &&& forall|q: int|
                    0 <= q < words(s)[i].len() ==> !is_white_space(#[trigger] words(s)[i][q])
            },
    decreases s.len(),
{
    if s.len() == 0 {
    } else if is_white_space(s[0]) {
        law_words_are_non_empty_runs(s.drop_first());
        assert(words(s) == words(s.drop_first()));
    } else {
        let n = word_len(s);
        lemma_word_len_bound(s);
        lemma_word_runs(s);
        law_words_are_non_empty_runs(s.skip(n as int));
        let head = seq![s.take(n as int)];
        let rest = words(s.skip(n as int));
        assert(words(s) == head + rest);
        assert forall|i: int| 0 <= i < words(s).len() implies {
            &&& #[trigger] words(s)[i].len() > 0
            &&& forall|q: int|
                0 <= q < words(s)[i].len() ==> !is_white_space(#[trigger] words(s)[i][q])
        } by {
            if i > 0 {
                assert(words(s)[i] == rest[i - 1]);
            } else {
                assert(words(s)[0] == s.take(n as int));
                assert forall|q: int| 0 <= q < n implies !is_white_space(
                    #[trigger] s.take(n as int)[q],
                ) by {
                    assert(s.take(n as int)[q] == s[q]);
                }
            }
        }
    }
}

proof fn lemma_word_runs(s: Seq<char>)
    ensures
        word_len(s) <= s.len(),
        forall|q: int| 0 <= q < word_len(s) ==> !is_white_space(#[trigger] s[q]),
    decreases s.len(),
{
    if s.len() > 0 && !is_white_space(s[0]) {
        lemma_word_runs(s.drop_first());
        assert forall|q: int| 0 <= q < word_len(s) implies !is_white_space(#[trigger] s[q]) by {
            if q > 0 {
                assert(s[q] == s.drop_first()[q - 1]);
            }
        }
    }
}

/// Colouring only touches `key=value` words: span fields without such a
/// word are shown as their words joined with single spaces.
pub proof fn law_plain_words_unchanged(fields: Seq<char>)
    requires
        forall|i: int| 0 <= i < words(fields).len() ==> !is_pair(#[trigger] words(fields)[i]),
    ensures
        colored_fields(fields) == join_words(words(fields)),
{
    assert(words(fields).map_values(|w: Seq<char>| colored_word(w)) =~= words(fields));
}

proof fn lemma_word_len_before_white_space(a: Seq<char>, c: char, b: Seq<char>)
    requires
        is_white_space(c),
    ensures
        word_len(a + seq![c] + b) == word_len(a),
    decreases a.len(),
{
    let s = a + seq![c] + b;
    if a.len() > 0 && !is_white_space(a[0]) {
        assert(s[0] == a[0]);
        assert(s.drop_first() =~= a.drop_first() + seq![c] + b);
        lemma_word_len_before_white_space(a.drop_first(), c, b);
    } else if a.len() > 0 {
        assert(s[0] == a[0]);
    } else {
        assert(s[0] == c);
    }
}

/// Splitting at white space: a white-space character between two texts
/// separates their words, so the words of `a`, `c`, `b` are those of `a`
/// followed by those of `b`.
pub proof fn law_words_split_at_white_space(a: Seq<char>, c: char, b: Seq<char>)
    requires
        is_white_space(c),
    ensures
        words(a + seq![c] + b) == words(a) + words(b),
    decreases a.len(),
{
    let s = a + seq![c] + b;
    if a.len() == 0 {
        assert(s[0] == c);
        assert(s.drop_first() =~= b);
        assert(words(a) =~= Seq::<Seq<char>>::empty());
        assert(words(a) + words(b) =~= words(b));
    } else if is_white_space(a[0]) {
        assert(s[0] == a[0]);
        assert(s.drop_first() =~= a.drop_first() + seq![c] + b);
        law_words_split_at_white_space(a.drop_first(), c, b);
    } else {
        assert(s[0] == a[0]);
        let n = word_len(a);
        lemma_word_len_bound(a);
        lemma_word_len_before_white_space(a, c, b);
        assert(s.take(n as int) =~= a.take(n as int));
        assert(s.skip(n as int) =~= a.skip(n as int) + seq![c] + b);
        law_words_split_at_white_space(a.skip(n as int), c, b);
        assert(words(s) == seq![a.take(n as int)] + words(a.skip(n as int) + seq![c] + b));
        assert(words(a) == seq![a.take(n as int)] + words(a.skip(n as int)));
        assert(seq![a.take(n as int)] + (words(a.skip(n as int)) + words(b)) =~= (seq![
            a.take(n as int),
        ] + words(a.skip(n as int))) + words(b));
    }
}

/// A non-empty run of non-white-space characters is a single word, kept
/// whole.
pub proof fn law_run_is_one_word(w: Seq<char>)
    requires
        w.len() > 0,
        forall|q: int| 0 <= q < w.len() ==> !is_white_space(#[trigger] w[q]),
    ensures
        words(w) == seq![w],
{
    lemma_word_len_exact(w, w.len() as int);
    assert(w.take(w.len() as int) =~= w);
    assert(w.skip(w.len() as int) =~= Seq::<char>::empty());
    assert(words(Seq::<char>::empty()) =~= Seq::<Seq<char>>::empty());
    assert(seq![w] + Seq::<Seq<char>>::empty() =~= seq![w]);
}

proof fn lemma_join_concat(x: Seq<Seq<char>>, y: Seq<Seq<char>>)
    requires
        x.len() > 0,
        y.len() > 0,
    ensures
        join_words(x + y) == join_words(x) + SPACE@ + join_words(y),
    decreases y.len(),
{
    if y.len() == 1 {
        assert((x + y).drop_last() =~= x);
        assert((x + y).last() == y[0]);
    } else {
        assert((x + y).drop_last() =~= x + y.drop_last());
        assert((x + y).last() == y.last());
        lemma_join_concat(x, y.drop_last());
        assert(join_words(x) + SPACE@ + join_words(y.drop_last()) + SPACE@ + y.last() =~= join_words(
            x,
        ) + SPACE@ + (join_words(y.drop_last()) + SPACE@ + y.last()));
    }
}

/// Colouring is compositional over words: colouring two span-field texts
/// that each hold a word, joined by a space, gives the colouring of the
/// first, one space, and the colouring of the second. So every field of
/// the input is kept, in order.
pub proof fn law_colored_fields_compose(a: Seq<char>, b: Seq<char>)
    requires
        words(a).len() > 0,
        words(b).len() > 0,
    ensures
        colored_fields(a + SPACE@ + b) == colored_fields(a) + SPACE@ + colored_fields(b),
{
    reveal_strlit(" ");
    assert(SPACE@ =~= seq![' ']);
    law_words_split_at_white_space(a, ' ', b);
    let f = |w: Seq<char>| colored_word(w);
    assert((words(a) + words(b)).map_values(f) =~= words(a).map_values(f) + words(b).map_values(
        f,
    ));
    lemma_join_concat(words(a).map_values(f), words(b).map_values(f));
}

/// A single word without `=` is shown as it is; a single `key=value` word,
/// split at its first `=`, is shown as its key and value stripped of
/// escapes, each wrapped in its colour and the reset escape.
pub proof fn law_colored_single_word(key: Seq<char>, rest: Seq<char>)
    requires
        forall|q: int| 0 <= q < key.len() ==> key[q] != '=' && !is_white_space(#[trigger] key[q]),
        forall|q: int| 0 <= q < rest.len() ==> !is_white_space(#[trigger] rest[q]),
    ensures
        key.len() > 0 ==> colored_fields(key) == key,
        colored_fields(key + EQUALS@ + rest) == FIELD_KEY_COLOR@ + strip_ansi(key) + COLOR_RESET@
            + EQUALS@ + FIELD_VALUE_COLOR@ + strip_ansi(rest) + COLOR_RESET@,
{
    reveal_strlit("=");
    assert(EQUALS@ =~= seq!['=']);
    if key.len() > 0 {
        law_run_is_one_word(key);
        assert(!is_pair(key));
        assert(seq![key].map_values(|w: Seq<char>| colored_word(w)) =~= seq![key]);
    }
    let w = key + EQUALS@ + rest;
    assert forall|q: int| 0 <= q < w.len() implies !is_white_space(#[trigger] w[q]) by {
        if q < key.len() {
            assert(w[q] == key[q]);
        } else if q > key.len() {
            assert(w[q] == rest[q - key.len() - 1]);
        }
    }
    law_run_is_one_word(w);
    assert(first_equals_at(w, key.len() as int));
    lemma_first_equals_unique(w, key.len() as int);
    assert(w.take(key.len() as int) =~= key);
    assert(w.skip(key.len() + 1int) =~= rest);
    assert(seq![w].map_values(|x: Seq<char>| colored_word(x)) =~= seq![colored_word(w)]);
}

} // verus!
