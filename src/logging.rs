//! Choice of the log filter at startup.
use vstd::prelude::*;

verus! {

/// Whether a text parses as a list of log filter directives.
pub uninterp spec fn is_valid_filter(directives: Seq<char>) -> bool;

/// The characters that `str::trim` removes: those with the Unicode
/// `White_Space` property.
#[verifier::opaque]
pub open spec fn is_trimmed_whitespace(c: char) -> bool {
    let u = c as u32;
    ||| 0x09 <= u <= 0x0d
    ||| u == 0x20
    ||| u == 0x85
    ||| u == 0xa0
    ||| u == 0x1680
    ||| 0x2000 <= u <= 0x200a
    ||| u == 0x2028
    ||| u == 0x2029
    ||| u == 0x202f
    ||| u == 0x205f
    ||| u == 0x3000
}

/// No comma-separated piece of `s` begins with a whitespace character.
pub open spec fn pieces_start_unpadded(s: Seq<char>) -> bool {
    forall|i: int|
        0 <= i < s.len() && (i == 0 || s[i - 1] == ',') ==> !#[trigger] is_trimmed_whitespace(
            s[i],
        )
}

/// Whether `c` is a character that `str::trim` removes.
pub fn is_trimmed_whitespace_char(c: char) -> (r: bool)
    ensures
        r == is_trimmed_whitespace(c),
{
    reveal(is_trimmed_whitespace);
    let u = c as u32;
    (0x09 <= u && u <= 0x0d) || u == 0x20 || u == 0x85 || u == 0xa0 || u == 0x1680 || (0x2000
        <= u && u <= 0x200a) || u == 0x2028 || u == 0x2029 || u == 0x202f || u == 0x205f || u
        == 0x3000
}

/// Whether no comma-separated piece of `s` begins with a whitespace character.
pub fn has_unpadded_pieces(s: &str) -> (r: bool)
    ensures
        r == pieces_start_unpadded(s@),
{
    let n = s.unicode_len();
    let mut i: usize = 0;
    while i < n
        invariant
            n == s@.len(),
            i <= n,
            forall|j: int|
                0 <= j < i && (j == 0 || s@[j - 1] == ',') ==> !#[trigger] is_trimmed_whitespace(
                    s@[j],
                ),
        decreases n - i,
    {
        let c = s.get_char(i);
        let starts_piece = i == 0 || s.get_char(i - 1) == ',';
        if starts_piece && is_trimmed_whitespace_char(c) {
            assert(is_trimmed_whitespace(s@[i as int]));
            return false;
        }
        assert(s@[i as int] == c);
        i = i + 1;
    }
    true
}

/// Relies on `tracing_subscriber::EnvFilter::try_new`: it succeeds exactly when
/// the text parses as a comma-separated list of filter directives, and it
/// accepts the empty text as a filter with no directives. Each directive is
/// read by positions in its trimmed text that index the untrimmed one, which
/// panics when a piece begins with whitespace before a multi-byte character;
/// such text is left out.
#[verifier::external_body]
fn filter_parses(directives: &str) -> (r: bool)
    requires
        pieces_start_unpadded(directives@),
    ensures
        r == is_valid_filter(directives@),
        directives@.len() == 0 ==> r,
{
    tracing_subscriber::EnvFilter::try_new(directives).is_ok()
}

/// The filter used when the environment gives none, or an invalid one:
/// this program's own records, at level info and above.
pub open spec fn default_filter() -> Seq<char> {
    "iris_files=info"@
}

/// The filter that startup logs with, given the environment's value and
/// whether it parses.
pub open spec fn chosen_filter(env_value: Option<String>, valid: bool) -> Seq<char> {
    match env_value {
        Some(v) => if valid {
            v@
        } else {
            default_filter()
        },
        None => default_filter(),
    }
}

/// The default filter directives.
pub fn default_log_filter() -> (r: String)
    ensures
        r@ == default_filter(),
{
    "iris_files=info".to_owned()
}

/// The filter to log with: the environment's value when it is set and `valid`
/// says that it parses, the default filter otherwise.
pub fn select_log_filter(env_value: Option<String>, valid: bool) -> (r: String)
    ensures
        r@ == chosen_filter(env_value, valid),
{
    match env_value {
        Some(v) => if valid {
            v
        } else {
            default_log_filter()
        },
        None => default_log_filter(),
    }
}

/// The filter to log with, given the value of the environment's filter
/// variable (`None` when it is unset): that value when it parses and none of
/// its comma-separated pieces begins with whitespace, the default filter
/// otherwise. Logging setup therefore never fails.
pub fn log_filter(env_value: Option<String>) -> (r: String)
    ensures
        r@ == chosen_filter(
            env_value,
            env_value is Some && pieces_start_unpadded(env_value->0@) && is_valid_filter(
                env_value->0@,
            ),
        ),
        env_value is None ==> r@ == default_filter(),
{
    let valid = match &env_value {
        Some(v) => has_unpadded_pieces(v.as_str()) && filter_parses(v.as_str()),
        None => false,
    };
    select_log_filter(env_value, valid)
}

} // verus!
