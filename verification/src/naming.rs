//! External-id naming: lower-cases a display name and collapses every run
//! of separator characters into a single underscore, trimming stray
//! underscores at the ends. Leading underscores are kept when the
//! original name began with a separator, so names may still start with
//! digits but a leading-separator marker survives.

use vstd::prelude::*;
use vstd::string::*;

verus! {

/// What `str::to_lowercase` returns for these characters.
pub uninterp spec fn lower_of(s: Seq<char>) -> Seq<char>;

/// Relies on str::to_lowercase: the result is the Unicode lowercase
/// mapping of the input, a function of its characters alone; an empty
/// input has nothing to map.
#[verifier::external_body]
fn to_lowercase(s: &str) -> (r: String)
    ensures
        r@ == lower_of(s@),
        s@.len() == 0 ==> r@.len() == 0,
{
    s.to_lowercase()
}

/// What replacing every separator run in these characters with one
/// underscore yields.
pub uninterp spec fn squashed_of(s: Seq<char>) -> Seq<char>;

/// Relies on regex::Regex::replace_all with the fixed pattern
/// `[\s\W]+`: every maximal run of whitespace or non-word characters
/// becomes a single underscore, a function of the input characters
/// alone; an empty haystack has no match and is returned unchanged.
#[verifier::external_body]
fn squash_separators(s: &str) -> (r: String)
    ensures
        r@ == squashed_of(s@),
        s@.len() == 0 ==> r@.len() == 0,
{
    let re = regex::Regex::new(r"[\s\W]+").unwrap();
    re.replace_all(s, "_").into_owned()
}

/// Whether `char::is_whitespace` holds of the character.
pub uninterp spec fn whitespace_char(c: char) -> bool;

/// Relies on char::is_whitespace: a Unicode property of the character
/// alone.
#[verifier::external_body]
fn char_is_whitespace(c: char) -> (r: bool)
    ensures
        r == whitespace_char(c),
{
    c.is_whitespace()
}

/// Whether `char::is_alphanumeric` holds of the character.
pub uninterp spec fn alphanumeric_char(c: char) -> bool;

/// Relies on char::is_alphanumeric: a Unicode property of the character
/// alone.
#[verifier::external_body]
fn char_is_alphanumeric(c: char) -> (r: bool)
    ensures
        r == alphanumeric_char(c),
{
    c.is_alphanumeric()
}

/// The sequence with every trailing underscore removed.
pub open spec fn trim_end_underscores(s: Seq<char>) -> Seq<char>
    decreases s.len(),
{
    if s.len() > 0 && s.last() == '_' {
        trim_end_underscores(s.drop_last())
    } else {
        s
    }
}

/// The sequence with every leading underscore removed.
pub open spec fn trim_start_underscores(s: Seq<char>) -> Seq<char>
    decreases s.len(),
{
    if s.len() > 0 && s[0] == '_' {
        trim_start_underscores(s.skip(1))
    } else {
        s
    }
}

/// The name began with a separator, so its leading underscore marker is
/// kept.
pub open spec fn keeps_leading_underscore(low: Seq<char>) -> bool {
    low.len() > 0 && (whitespace_char(low[0]) || !alphanumeric_char(low[0]))
}

/// The snake-cased form of a name: lowercase it, collapse separator runs
/// to underscores, drop trailing underscores, and drop leading ones
/// unless the name began with a separator.
pub open spec fn snake_case_of(s: Seq<char>) -> Seq<char> {
    let low = lower_of(s);
    let sq = squashed_of(low);
    if keeps_leading_underscore(low) {
        trim_end_underscores(sq)
    } else {
        trim_start_underscores(trim_end_underscores(sq))
    }
}

proof fn lemma_trim_end_characterization(s: Seq<char>, e: int)
    requires
        0 <= e <= s.len(),
        forall|k: int| e <= k < s.len() ==> s[k] == '_',
        e > 0 ==> s[e - 1] != '_',
    ensures
        trim_end_underscores(s) == s.take(e),
    decreases s.len(),
{
    if s.len() == e {
        assert(s.take(e) =~= s);
    } else {
        assert(s.last() == '_');
        assert(forall|k: int| e <= k < s.drop_last().len() ==> s.drop_last()[k] == '_');
        lemma_trim_end_characterization(s.drop_last(), e);
        assert(s.drop_last().take(e) =~= s.take(e));
    }
}

proof fn lemma_trim_start_characterization(s: Seq<char>, st: int)
    requires
        0 <= st <= s.len(),
        forall|k: int| 0 <= k < st ==> s[k] == '_',
        st < s.len() ==> s[st] != '_',
    ensures
        trim_start_underscores(s) == s.skip(st),
    decreases st,
{
    if st == 0 {
        assert(s.skip(0) =~= s);
    } else {
        assert(s[0] == '_');
        assert(forall|k: int| 0 <= k < st - 1 ==> s.skip(1)[k] == '_');
        lemma_trim_start_characterization(s.skip(1), st - 1);
        assert(s.skip(1).skip(st - 1) =~= s.skip(st));
    }
}

/// Snake-cases a display name: lowercase, separator runs collapsed to
/// single underscores, trailing underscores trimmed, and leading ones
/// trimmed as well unless the original name started with a separator.
/// Names are allowed to start with digits.
pub fn to_snake_lower_cased_allow_start_with_digits(s: &str) -> (r: String)
    ensures
        r@ == snake_case_of(s@),
{
    let low = to_lowercase(s);
    let keep_leading = if low.as_str().unicode_len() > 0 {
        let c = low.as_str().get_char(0);
        char_is_whitespace(c) || !char_is_alphanumeric(c)
    } else {
        false
    };
    assert(keep_leading == keeps_leading_underscore(low@));
    let sq = squash_separators(low.as_str());
    let len = sq.as_str().unicode_len();
    let mut e: usize = len;
    while e > 0 && sq.as_str().get_char(e - 1) == '_'
        invariant
            e <= len,
            len == sq@.len(),
            forall|k: int| e <= k < sq@.len() ==> sq@[k] == '_',
        decreases e,
    {
        e = e - 1;
    }
    proof {
        lemma_trim_end_characterization(sq@, e as int);
    }
    let mut st: usize = 0;
    if !keep_leading {
        while st < e && sq.as_str().get_char(st) == '_'
            invariant
                st <= e <= len,
                len == sq@.len(),
                forall|k: int| 0 <= k < st ==> sq@[k] == '_',
                forall|k: int| e <= k < sq@.len() ==> sq@[k] == '_',
            decreases e - st,
        {
            st = st + 1;
        }
        proof {
            assert(forall|k: int| 0 <= k < st ==> sq@.take(e as int)[k] == '_');
            if st < e {
                assert(sq@.take(e as int)[st as int] != '_');
            }
            lemma_trim_start_characterization(sq@.take(e as int), st as int);
        }
    }
    let out = sq.as_str().substring_char(st, e);
    proof {
        assert(out@ =~= sq@.take(e as int).skip(st as int));
        if keep_leading {
            assert(out@ =~= trim_end_underscores(sq@));
        }
    }
    out.to_owned()
}

} // verus!
