use crate::config::Config;
use vstd::prelude::*;
use vstd::string::StringExecFns;

verus! {

/// The command line: the time to convert and the zones requested with `-z`.
pub struct Args {
    pub time: String,
    pub timezones: Vec<String>,
}

/// No source named any zone.
#[derive(Debug, Clone, Copy, PartialEq, Eq, Structural)]
pub enum ResolveError {
    NoTimezones,
}

pub open spec fn no_timezones_message() -> Seq<char> {
    "No timezone specified. Use -z or --timezone to specify one or more timezones, set GTIME_TIMEZONES environment variable, or configure timezones in the configuration file"@
}

impl ResolveError {
    /// The text shown to the user for this error.
    pub fn message(&self) -> (r: String)
        ensures
            r@ == no_timezones_message(),
    {
        String::from_str(
            "No timezone specified. Use -z or --timezone to specify one or more timezones, set GTIME_TIMEZONES environment variable, or configure timezones in the configuration file",
        )
    }
}

/// The characters with Unicode's White_Space property, which `str::trim` removes.
pub open spec fn is_white_space(c: char) -> bool {
    ('\u{9}' <= c && c <= '\u{d}') || c == ' ' || c == '\u{85}' || c == '\u{a0}' || c == '\u{1680}'
        || ('\u{2000}' <= c && c <= '\u{200a}') || c == '\u{2028}' || c == '\u{2029}' || c
        == '\u{202f}' || c == '\u{205f}' || c == '\u{3000}'
}

pub open spec fn trim_front(s: Seq<char>) -> Seq<char>
    decreases s.len(),
{
    if s.len() > 0 && is_white_space(s[0]) {
        trim_front(s.skip(1))
    } else {
        s
    }
}

pub open spec fn trim_back(s: Seq<char>) -> Seq<char>
    decreases s.len(),
{
    if s.len() > 0 && is_white_space(s.last()) {
        trim_back(s.drop_last())
    } else {
        s
    }
}

/// `s` without leading and trailing whitespace.
pub open spec fn trim_of(s: Seq<char>) -> Seq<char> {
    trim_back(trim_front(s))
}

fn white_space(c: char) -> (r: bool)
    ensures
        r == is_white_space(c),
{
    ('\u{9}' <= c && c <= '\u{d}') || c == ' ' || c == '\u{85}' || c == '\u{a0}' || c == '\u{1680}'
        || ('\u{2000}' <= c && c <= '\u{200a}') || c == '\u{2028}' || c == '\u{2029}' || c
        == '\u{202f}' || c == '\u{205f}' || c == '\u{3000}'
}

/// Removes leading and trailing whitespace, as `str::trim` does.
fn trim(s: &str) -> (r: String)
    ensures
        r@ == trim_of(s@),
{
    let n = s.unicode_len();
    let mut i: usize = 0;
    assert(s@.skip(0) =~= s@);
    while i < n && white_space(s.get_char(i))
        invariant
            n == s@.len(),
            i <= n,
            trim_front(s@) == trim_front(s@.skip(i as int)),
        decreases n - i,
    {
        assert(s@.skip(i as int).skip(1) =~= s@.skip(i as int + 1));
        i = i + 1;
    }
    let ghost front = s@.skip(i as int);
    assert(trim_front(s@) == front);
    let mut j: usize = n;
    assert(front =~= s@.subrange(i as int, n as int));
    while j > i && white_space(s.get_char(j - 1))
        invariant
            n == s@.len(),
            i <= j <= n,
            trim_back(front) == trim_back(s@.subrange(i as int, j as int)),
        decreases j - i,
    {
        assert(s@.subrange(i as int, j as int).drop_last() =~= s@.subrange(i as int, j as int - 1));
        j = j - 1;
    }
    let r = s.substring_char(i, j);
    String::from_str(r)
}

/// The pieces of `s` between commas, in order; `s` with no comma is one piece.
pub open spec fn comma_pieces(s: Seq<char>) -> Seq<Seq<char>>
    decreases s.len(),
{
    if s.len() == 0 {
        seq![Seq::<char>::empty()]
    } else {
        let rest = comma_pieces(s.drop_last());
        if s.last() == ',' {
            rest.push(Seq::<char>::empty())
        } else {
            rest.update(rest.len() - 1, rest.last().push(s.last()))
        }
    }
}

proof fn lemma_comma_pieces_nonempty(s: Seq<char>)
    ensures
        comma_pieces(s).len() >= 1,
    decreases s.len(),
{
    if s.len() > 0 {
        lemma_comma_pieces_nonempty(s.drop_last());
    }
}

/// The list of zones written in an environment value: the comma-separated
/// entries, each trimmed.
pub open spec fn zone_list(s: Seq<char>) -> Seq<Seq<char>> {
    comma_pieces(s).map_values(|p: Seq<char>| trim_of(p))
}

pub open spec fn strings_view(v: Seq<String>) -> Seq<Seq<char>> {
    v.map_values(|s: String| s@)
}

/// Splits a comma-separated list of zone names, trimming each entry.
pub fn split_timezone_list(value: &str) -> (r: Vec<String>)
    ensures
        strings_view(r@) == zone_list(value@),
{
    let n = value.unicode_len();
    let mut pieces: Vec<String> = Vec::new();
    let mut current = String::new();
    let mut i: usize = 0;
    proof {
        reveal_strlit(",");
        assert(value@.take(0) =~= Seq::<char>::empty());
        assert(strings_view(pieces@).push(current@) =~= comma_pieces(value@.take(0)));
    }
    while i < n
        invariant
            n == value@.len(),
            i <= n,
            strings_view(pieces@).push(current@) == comma_pieces(value@.take(i as int)),
        decreases n - i,
    {
        let c = value.get_char(i);
        let ghost before = value@.take(i as int);
        assert(value@.take(i as int + 1).drop_last() =~= before);
        proof {
            lemma_comma_pieces_nonempty(before);
        }
        if c == ',' {
            pieces.push(current);
            current = String::new();
            assert(strings_view(pieces@).push(current@) =~= comma_pieces(value@.take(i as int + 1)));
        } else {
            let ghost rest = comma_pieces(before);
            let ghost old_current = current@;
            assert(rest.last() == old_current);
            assert(value@.take(i as int + 1).last() == c);
            let one = value.substring_char(i, i + 1);
            assert(one@ =~= seq![c]);
            current.append(one);
            assert(current@ =~= rest.last().push(c));
            assert(strings_view(pieces@).push(current@) =~= comma_pieces(value@.take(i as int + 1)));
        }
        i = i + 1;
    }
    pieces.push(current);
    assert(value@.take(n as int) =~= value@);
    let ghost all = strings_view(pieces@);
    let mut r: Vec<String> = Vec::new();
    let mut k: usize = 0;
    while k < pieces.len()
        invariant
            k <= pieces@.len(),
            all == strings_view(pieces@),
            all == comma_pieces(value@),
            r@.len() == k,
            forall|j: int| 0 <= j < k ==> (#[trigger] r@[j])@ == trim_of(all[j]),
        decreases pieces@.len() - k,
    {
        let t = trim(pieces[k].as_str());
        r.push(t);
        k = k + 1;
    }
    assert(strings_view(r@) =~= zone_list(value@));
    r
}

/// Copies a list of strings.
fn copy_strings(v: &Vec<String>) -> (r: Vec<String>)
    ensures
        r@ == v@,
{
    let mut r: Vec<String> = Vec::new();
    let mut i: usize = 0;
    while i < v.len()
        invariant
            i <= v@.len(),
            r@ == v@.take(i as int),
        decreases v@.len() - i,
    {
        r.push(v[i].clone());
        i = i + 1;
        assert(r@ =~= v@.take(i as int));
    }
    assert(v@.take(v@.len() as int) =~= v@);
    r
}

/// The zones to convert to: those given with `-z` if any; otherwise those of
/// the environment value, if set; otherwise those of the configuration file,
/// if it names any. `None` where no source names a zone.
pub open spec fn resolve_spec(
    flags: Seq<Seq<char>>,
    env_value: Option<Seq<char>>,
    config: Seq<Seq<char>>,
) -> Option<Seq<Seq<char>>> {
    if flags.len() > 0 {
        Some(flags)
    } else if env_value is Some {
        Some(zone_list(env_value->0))
    } else if config.len() > 0 {
        Some(config)
    } else {
        None
    }
}

pub open spec fn opt_view(v: Option<String>) -> Option<Seq<char>> {
    match v {
        Some(s) => Some(s@),
        None => None,
    }
}

/// Whether the configuration file is consulted: only when no zone was given
/// with `-z` and the environment value is unset.
pub fn needs_config(args: &Args, env_value: &Option<String>) -> (r: bool)
    ensures
        r == (args.timezones@.len() == 0 && env_value is None),
{
    args.timezones.len() == 0 && env_value.is_none()
}

/// Picks the zones to convert to, by precedence: `-z` flags, then the
/// environment value, then the configuration file.
pub fn get_timezones(args: &Args, env_value: &Option<String>, config: &Config) -> (r: Result<
    Vec<String>,
    ResolveError,
>)
    ensures
        match resolve_spec(strings_view(args.timezones@), opt_view(*env_value), strings_view(config.timezones@)) {
            Some(zones) => r is Ok && strings_view(r->Ok_0@) == zones,
            None => r == Err::<Vec<String>, ResolveError>(ResolveError::NoTimezones),
        },
{
    if args.timezones.len() > 0 {
        return Ok(copy_strings(&args.timezones));
    }
    if let Some(v) = env_value {
        return Ok(split_timezone_list(v.as_str()));
    }
    if config.timezones.len() > 0 {
        return Ok(copy_strings(&config.timezones));
    }
    Err(ResolveError::NoTimezones)
}

/// Zones given with `-z` are used as they are, whatever the environment and
/// the configuration file hold, and the file is then not read.
pub proof fn flags_take_precedence(
    flags: Seq<Seq<char>>,
    env_value: Option<Seq<char>>,
    config: Seq<Seq<char>>,
)
    requires
        flags.len() > 0,
    ensures
        resolve_spec(flags, env_value, config) == Some(flags),
{
}

} // verus!
