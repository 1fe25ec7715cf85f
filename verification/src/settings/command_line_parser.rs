//! Reading `--name value` pairs off the command line.

use crate::settings::{decimal_value, parse_u64};
use crate::settings::error::{Error, ErrorView};
use url::Url;
use vstd::prelude::*;
use vstd::string::*;

verus! {

/// Whether the `url` crate accepts `text` as an absolute URL, that is,
/// whether `Url::parse` succeeds on it.
pub uninterp spec fn is_url(text: Seq<char>) -> bool;

/// `url::Url::parse(text).is_ok()`. Whether parsing succeeds is a function
/// of the text alone and is taken as the meaning of [`is_url`]; nothing
/// else is claimed of it.
#[verifier::external_body]
fn url_parses(text: &str) -> (accepted: bool)
    ensures
        accepted == is_url(text@),
{
    Url::parse(text).is_ok()
}

/// Whether `text` writes a port number.
fn port_parses(text: &str) -> (accepted: bool)
    ensures
        accepted == is_port(text@),
{
    match parse_u64(text) {
        Ok(number) => number <= 65535,
        Err(_) => false,
    }
}

/// Whether `text` writes a port number.
pub open spec fn is_port(text: Seq<char>) -> bool {
    match decimal_value(text) {
        Some(number) => number <= u16::MAX,
        None => false,
    }
}

/// Whether `name` is an argument that the command line may carry.
pub open spec fn is_permitted(name: Seq<char>) -> bool {
    name == "path"@ || name == "url"@ || name == "port"@
}

/// Whether `raw_key` begins with the two dashes that introduce a name.
pub open spec fn has_prefix(raw_key: Seq<char>) -> bool {
    raw_key.len() >= 2 && raw_key[0] == '-' && raw_key[1] == '-'
}

/// The reading of one pair, given for the value whether it is a URL and
/// whether it is a port number.
pub open spec fn judged(
    raw_key: Seq<char>,
    raw_value: Seq<char>,
    url: bool,
    port: bool,
) -> Result<(Seq<char>, Seq<char>), ErrorView> {
    let name = raw_key.skip(2);
    if !has_prefix(raw_key) {
        Err(ErrorView::ArgumentPrefixCorrupted(raw_key))
    } else if !is_permitted(name) {
        Err(ErrorView::ArgumentInvalid(name))
    } else if name == "url"@ && !url {
        Err(ErrorView::UrlInvalid(raw_value))
    } else if name == "port"@ && !port {
        Err(ErrorView::PortInvalid(raw_value))
    } else {
        Ok((name, raw_value))
    }
}

/// The reading of one pair of the command line.
pub open spec fn argument(raw_key: Option<Seq<char>>, raw_value: Option<Seq<char>>) -> Result<
    (Seq<char>, Seq<char>),
    ErrorView,
> {
    match (raw_key, raw_value) {
        (Some(key), Some(value)) => judged(key, value, is_url(value), is_port(value)),
        _ => Err(ErrorView::CommandLineCorrupted),
    }
}

/// Whether `outcome` is the exec form of `expected`.
pub open spec fn agrees(
    outcome: Result<(String, String), Error>,
    expected: Result<(Seq<char>, Seq<char>), ErrorView>,
) -> bool {
    match (outcome, expected) {
        (Ok(pair), Ok(model)) => pair.0@ == model.0 && pair.1@ == model.1,
        (Err(error), Err(model)) => error@ == model,
        _ => false,
    }
}

/// Whether two texts are the same.
fn same(left: &str, right: &str) -> (equal: bool)
    ensures
        equal == (left@ == right@),
{
    String::from_str(left) == String::from_str(right)
}

/// Reads one pair, `url` and `port` saying whether the value is a URL and
/// whether it is a port number. The name must begin with two dashes and be
/// one of `path`, `url` and `port`; the value of `url` must be a URL and
/// that of `port` a port number.
pub fn judge(raw_key: &str, raw_value: &str, url: bool, port: bool) -> (outcome: Result<
    (String, String),
    Error,
>)
    ensures
        agrees(outcome, judged(raw_key@, raw_value@, url, port)),
{
    let length = raw_key.unicode_len();
    if length < 2 || raw_key.get_char(0) != '-' || raw_key.get_char(1) != '-' {
        return Err(Error::ArgumentPrefixCorrupted(String::from_str(raw_key)));
    }
    let name = raw_key.substring_char(2, length);
    assert(name@ == raw_key@.skip(2));
    let is_url_name = same(name, "url");
    let is_port_name = same(name, "port");
    if !(same(name, "path") || is_url_name || is_port_name) {
        return Err(Error::ArgumentInvalid(String::from_str(name)));
    }
    if is_url_name && !url {
        return Err(Error::UrlInvalid(String::from_str(raw_value)));
    }
    if is_port_name && !port {
        return Err(Error::PortInvalid(String::from_str(raw_value)));
    }
    Ok((String::from_str(name), String::from_str(raw_value)))
}

/// Reads one pair of the command line: a name and its value. A missing
/// half is a corrupted command line.
pub fn fetch_argument(raw_key: Option<&String>, raw_value: Option<&String>) -> (outcome: Result<
    (String, String),
    Error,
>)
    ensures
        agrees(
            outcome,
            argument(
                match raw_key {
                    Some(key) => Some(key@),
                    None => None,
                },
                match raw_value {
                    Some(value) => Some(value@),
                    None => None,
                },
            ),
        ),
{
    match (raw_key, raw_value) {
        (Some(key), Some(value)) => {
            let url = url_parses(value.as_str());
            let port = port_parses(value.as_str());
            judge(key.as_str(), value.as_str(), url, port)
        },
        _ => Err(Error::CommandLineCorrupted),
    }
}

/// Pair `i` of the arguments `raw` is read without fault.
pub open spec fn pair_ok(raw: Seq<String>, i: int) -> bool {
    argument(Some(raw[2 * i]@), Some(raw[2 * i + 1]@)) is Ok
}

/// The name that pair `i` of the arguments `raw` carries.
pub open spec fn pair_name(raw: Seq<String>, i: int) -> Seq<char> {
    raw[2 * i]@.skip(2)
}

/// The value that pair `i` of the arguments `raw` carries.
pub open spec fn pair_value(raw: Seq<String>, i: int) -> Seq<char> {
    raw[2 * i + 1]@
}

/// What the first `n` pairs of `raw` say: each name that occurs among them,
/// with the value of the last pair that carries it.
pub open spec fn read(raw: Seq<String>, n: nat) -> Map<Seq<char>, Seq<char>>
    decreases n,
{
    if n == 0 {
        Map::empty()
    } else {
        read(raw, (n - 1) as nat).insert(pair_name(raw, n - 1), pair_value(raw, n - 1))
    }
}

/// The list `entries` holds the map `map` and nothing else: no name occurs
/// twice in it, every entry is a name of the map with its value, and every
/// name of the map has its entry. The list is then as long as the map has
/// names.
pub open spec fn holds(entries: Seq<(String, String)>, map: Map<Seq<char>, Seq<char>>) -> bool {
    &&& forall|i: int, j: int|
        0 <= i < j < entries.len() ==> (#[trigger] entries[i]).0@ != (#[trigger] entries[j]).0@
    &&& forall|i: int|
        0 <= i < entries.len() ==> map.dom().contains((#[trigger] entries[i]).0@)
            && map[entries[i].0@] == entries[i].1@
    &&& forall|name: Seq<char>| #[trigger]
        map.dom().contains(name) ==> exists|i: int|
            0 <= i < entries.len() && (#[trigger] entries[i]).0@ == name
    &&& map.dom().finite()
    &&& entries.len() == map.dom().len()
}

/// Enters `pair` into `entries`, which hold `map`: the value of a name that
/// is there already is replaced, a new name is added at the end.
fn put(entries: &mut Vec<(String, String)>, pair: (String, String), Ghost(map): Ghost<
    Map<Seq<char>, Seq<char>>,
>)
    requires
        holds(old(entries)@, map),
    ensures
        holds(final(entries)@, map.insert(pair.0@, pair.1@)),
{
    let ghost name = pair.0@;
    let ghost value = pair.1@;
    let ghost before = entries@;
    let mut found: Option<usize> = None;
    let mut j: usize = 0;
    while j < entries.len()
        invariant_except_break
            found is None,
            forall|i: int| 0 <= i < j ==> (#[trigger] entries[i]).0@ != name,
        invariant
            j <= entries.len(),
            entries@ == before,
            name == pair.0@,
        ensures
            match found {
                Some(at) => at < entries.len() && entries[at as int].0@ == name,
                None => forall|i: int| 0 <= i < entries.len() ==> (#[trigger] entries[i]).0@ != name,
            },
        decreases entries.len() - j,
    {
        if entries[j].0 == pair.0 {
            found = Some(j);
            break ;
        }
        j = j + 1;
    }
    broadcast use vstd::set::axiom_set_insert_len, vstd::set::axiom_set_insert_finite;

    match found {
        Some(at) => {
            entries.set(at, pair);
            proof {
                let after = map.insert(name, value);
                assert(map.dom().contains(before[at as int].0@));
                assert(after.dom() =~= map.dom());
                assert forall|key: Seq<char>| #[trigger] after.dom().contains(key) implies exists|
                    i: int,
                | 0 <= i < entries.len() && (#[trigger] entries[i]).0@ == key by {
                    let i = choose|i: int| 0 <= i < before.len() && (#[trigger] before[i]).0@ == key;
                    assert(entries[i].0@ == key);
                }
            }
        },
        None => {
            entries.push(pair);
            proof {
                let after = map.insert(name, value);
                assert(!map.dom().contains(name)) by {
                    if map.dom().contains(name) {
                        let i = choose|i: int|
                            0 <= i < before.len() && (#[trigger] before[i]).0@ == name;
                        assert(before[i].0@ != name);
                    }
                }
                assert(after.dom() =~= map.dom().insert(name));
                assert forall|key: Seq<char>| #[trigger] after.dom().contains(key) implies exists|
                    i: int,
                | 0 <= i < entries.len() && (#[trigger] entries[i]).0@ == key by {
                    if key == name {
                        assert(entries[before.len() as int].0@ == key);
                    } else {
                        let i = choose|i: int|
                            0 <= i < before.len() && (#[trigger] before[i]).0@ == key;
                        assert(entries[i].0@ == key);
                    }
                }
                assert forall|i: int| 0 <= i < entries.len() implies after.dom().contains(
                    (#[trigger] entries[i]).0@,
                ) && after[entries[i].0@] == entries[i].1@ by {
                    if i < before.len() {
                        assert(entries[i] == before[i]);
                    }
                }
            }
        },
    }
}

/// Reads the arguments of the command line, the program's name left out, as
/// pairs of a name and a value. An odd number of arguments is a corrupted
/// command line; otherwise the first pair at fault decides the error. Where
/// every pair is read without fault the result holds each name once, with
/// the value of the last pair that carries it.
pub fn fetch_arguments(raw_arguments: &Vec<String>) -> (outcome: Result<
    Vec<(String, String)>,
    Error,
>)
    ensures
        match outcome {
            Ok(arguments) => {
                &&& raw_arguments.len() % 2 == 0
                &&& forall|i: int| 0 <= 2 * i < raw_arguments.len() ==> pair_ok(raw_arguments@, i)
                &&& holds(arguments@, read(raw_arguments@, (raw_arguments.len() / 2) as nat))
            },
            Err(error) => {
                ||| raw_arguments.len() % 2 != 0 && error@ == ErrorView::CommandLineCorrupted
                ||| raw_arguments.len() % 2 == 0 && exists|i: int|
                    {
                        &&& 0 <= i && 2 * i + 1 < raw_arguments.len()
                        &&& forall|j: int| 0 <= j < i ==> pair_ok(raw_arguments@, j)
                        &&& #[trigger] argument(
                            Some(raw_arguments[2 * i]@),
                            Some(raw_arguments[2 * i + 1]@),
                        ) == Err::<(Seq<char>, Seq<char>), ErrorView>(error@)
                    }
            },
        },
{
    if raw_arguments.len() % 2 != 0 {
        return Err(Error::CommandLineCorrupted);
    }
    let mut arguments: Vec<(String, String)> = Vec::new();
    let mut k: usize = 0;
    proof {
        broadcast use vstd::set::axiom_set_empty_len, vstd::set::axiom_set_empty_finite;

        assert(read(raw_arguments@, 0).dom() =~= Set::<Seq<char>>::empty());
    }
    while 2 * k < raw_arguments.len()
        invariant
            raw_arguments.len() % 2 == 0,
            2 * k <= raw_arguments.len(),
            holds(arguments@, read(raw_arguments@, k as nat)),
            forall|j: int| 0 <= j < k ==> pair_ok(raw_arguments@, j),
        decreases raw_arguments.len() - 2 * k,
    {
        match fetch_argument(Some(&raw_arguments[2 * k]), Some(&raw_arguments[2 * k + 1])) {
            Ok(pair) => {
                assert(pair.0@ == pair_name(raw_arguments@, k as int));
                assert(pair.1@ == pair_value(raw_arguments@, k as int));
                put(&mut arguments, pair, Ghost(read(raw_arguments@, k as nat)));
            },
            Err(error) => {
                return Err(error);
            },
        }
        k = k + 1;
    }
    assert(k == raw_arguments.len() / 2);
    Ok(arguments)
}

/// The last value wins: among the first `n` pairs of `raw`, a name stands
/// for the value of pair `i` if pair `i` carries it and no later pair does,
/// and the names on hand are those that some pair carries.
pub proof fn law_last_value_wins(raw: Seq<String>, n: nat, i: int)
    requires
        0 <= i < n,
        forall|j: int| i < j < n ==> pair_name(raw, j) != pair_name(raw, i),
    ensures
        read(raw, n).dom().contains(pair_name(raw, i)),
        read(raw, n)[pair_name(raw, i)] == pair_value(raw, i),
    decreases n,
{
    if i < n - 1 {
        law_last_value_wins(raw, (n - 1) as nat, i);
    }
}

/// The names that the first `n` pairs of `raw` leave on hand are exactly the
/// names that one of these pairs carries.
pub proof fn law_names_are_those_given(raw: Seq<String>, n: nat, name: Seq<char>)
    ensures
        read(raw, n).dom().contains(name) <==> exists|i: int|
            0 <= i < n && #[trigger] pair_name(raw, i) == name,
    decreases n,
{
    if n > 0 {
        law_names_are_those_given(raw, (n - 1) as nat, name);
        if read(raw, n).dom().contains(name) {
            if pair_name(raw, n - 1) == name {
            } else {
                let i = choose|i: int| 0 <= i < n - 1 && #[trigger] pair_name(raw, i) == name;
                assert(0 <= i < n && pair_name(raw, i) == name);
            }
        }
        if exists|i: int| 0 <= i < n && #[trigger] pair_name(raw, i) == name {
            let i = choose|i: int| 0 <= i < n && #[trigger] pair_name(raw, i) == name;
            if i < n - 1 {
                assert(0 <= i < n - 1 && pair_name(raw, i) == name);
            }
        }
    }
}

} // verus!
