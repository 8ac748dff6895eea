//! Serial device identifiers: matching an expected path against what the
//! enumerator lists, and the names shown to the user.

use vstd::prelude::*;

verus! {

/// The pause between two enumerations while no device at all is attached, in
/// seconds.
pub const SELECT_POLL_SECS: u64 = 1;

/// `prefix` is a prefix of `s`.
pub open spec fn is_prefix_of(prefix: Seq<char>, s: Seq<char>) -> bool {
    prefix.len() <= s.len() && s.subrange(0, prefix.len() as int) == prefix
}

/// Some listed identifier starts with `path`: the enumerator may decorate the
/// raw device path with a description after it.
pub open spec fn lists_port(ports: Seq<String>, path: Seq<char>) -> bool {
    exists|i: int| 0 <= i < ports.len() && is_prefix_of(path, #[trigger] ports[i]@)
}

/// The raw device path inside a listed identifier: everything before the
/// first `:`, or the whole identifier when it has none.
pub open spec fn is_raw_path_of(raw: Seq<char>, entry: Seq<char>) -> bool {
    &&& raw.len() <= entry.len()
    &&& raw == entry.take(raw.len() as int)
    &&& raw.len() == entry.len() || entry[raw.len() as int] == ':'
    &&& !raw.contains(':')
}

/// The identifier that the enumerator lists for a USB device: its path, then
/// the manufacturer and the product.
pub open spec fn decorated_name(path: Seq<char>, manufacturer: Seq<char>, product: Seq<char>) -> Seq<
    char,
> {
    path + ": ("@ + manufacturer + " / "@ + product + ")"@
}

/// Relies on `String::push_str`: it appends the characters of `t` to `s`.
#[verifier::external_body]
fn append(s: &mut String, t: &str)
    ensures
        final(s)@ == old(s)@ + t@,
{
    s.push_str(t);
}

/// Whether `s` starts with `prefix`.
pub fn starts_with(s: &str, prefix: &str) -> (r: bool)
    ensures
        r == is_prefix_of(prefix@, s@),
{
    let n = prefix.unicode_len();
    if n > s.unicode_len() {
        return false;
    }
    let mut i: usize = 0;
    while i < n
        invariant
            i <= n,
            n == prefix@.len(),
            n <= s@.len(),
            forall|k: int| 0 <= k < i ==> s@[k] == prefix@[k],
        decreases n - i,
    {
        if s.get_char(i) != prefix.get_char(i) {
            assert(s@.subrange(0, n as int)[i as int] != prefix@[i as int]);
            return false;
        }
        i = i + 1;
    }
    assert(s@.subrange(0, n as int) =~= prefix@);
    true
}

/// Whether the device at `path` is among the listed `ports`, allowing for a
/// description after the path.
pub fn check_requested_port(ports: &[String], path: &str) -> (found: bool)
    ensures
        found == lists_port(ports@, path@),
{
    let mut i: usize = 0;
    while i < ports.len()
        invariant
            i <= ports@.len(),
            forall|k: int| 0 <= k < i ==> !is_prefix_of(path@, #[trigger] ports@[k]@),
        decreases ports@.len() - i,
    {
        if starts_with(ports[i].as_str(), path) {
            return true;
        }
        i = i + 1;
    }
    false
}

/// The raw device path of a listed identifier, without its description.
pub fn port_path_of(entry: &str) -> (raw: String)
    ensures
        is_raw_path_of(raw@, entry@),
{
    let n = entry.unicode_len();
    let mut i: usize = 0;
    while i < n
        invariant
            i <= n,
            n == entry@.len(),
            forall|k: int| 0 <= k < i ==> entry@[k] != ':',
        ensures
            i <= n,
            forall|k: int| 0 <= k < i ==> entry@[k] != ':',
            i == n || entry@[i as int] == ':',
        decreases n - i,
    {
        if entry.get_char(i) == ':' {
            break;
        }
        i = i + 1;
    }
    let raw = entry.substring_char(0, i).to_owned();
    assert(raw@ =~= entry@.take(i as int));
    assert(!raw@.contains(':')) by {
        assert forall|k: int| 0 <= k < raw@.len() implies raw@[k] != ':' by {
            assert(raw@[k] == entry@[k]);
        }
    }
    raw
}

/// The identifier listed for a USB device: the path, then the manufacturer
/// and the product, each empty when the device does not tell.
pub fn describe_port(path: &str, manufacturer: Option<&str>, product: Option<&str>) -> (name:
    String)
    ensures
        name@ == decorated_name(
            path@,
            match manufacturer {
                Some(m) => m@,
                None => Seq::empty(),
            },
            match product {
                Some(p) => p@,
                None => Seq::empty(),
            },
        ),
{
    let mut name = path.to_owned();
    append(&mut name, ": (");
    match manufacturer {
        Some(m) => append(&mut name, m),
        None => {},
    }
    append(&mut name, " / ");
    match product {
        Some(p) => append(&mut name, p),
        None => {},
    }
    append(&mut name, ")");
    proof {
        assert(name@ =~= decorated_name(
            path@,
            match manufacturer {
                Some(m) => m@,
                None => Seq::empty(),
            },
            match product {
                Some(p) => p@,
                None => Seq::empty(),
            },
        ));
    }
    name
}

/// A device listed with a description is still found under its raw path, and
/// its raw path is read back from the listed identifier.
pub proof fn lemma_decorated_name_matches(
    path: Seq<char>,
    manufacturer: Seq<char>,
    product: Seq<char>,
)
    requires
        !path.contains(':'),
    ensures
        is_prefix_of(path, decorated_name(path, manufacturer, product)),
        is_raw_path_of(path, decorated_name(path, manufacturer, product)),
{
    reveal_strlit(": (");
    let d = decorated_name(path, manufacturer, product);
    assert(d =~= path + (": ("@ + manufacturer + " / "@ + product + ")"@));
    assert(d.subrange(0, path.len() as int) =~= path);
    assert(d.take(path.len() as int) =~= path);
    assert(d[path.len() as int] == ':');
}

} // verus!
