//! File names: schema files, files of a namespace, and the dotted path that a
//! generated file's name encodes.

use vstd::prelude::*;
use vstd::string::*;

verus! {

/// `s` begins with `p`.
pub open spec fn has_prefix(s: Seq<char>, p: Seq<char>) -> bool {
    p.len() <= s.len() && s.subrange(0, p.len() as int) == p
}

/// `s` ends with `p`.
pub open spec fn has_suffix(s: Seq<char>, p: Seq<char>) -> bool {
    p.len() <= s.len() && s.subrange(s.len() - p.len(), s.len() as int) == p
}

/// A file name whose extension is `proto`: it ends in `.proto`, and that dot is
/// not the leading dot of a hidden file's name.
pub open spec fn is_proto_name(name: Seq<char>) -> bool {
    name.len() > 6 && has_suffix(name, ".proto"@)
}

/// A file name in the namespace `ns`: it begins with `ns` and a dot.
pub open spec fn in_namespace(name: Seq<char>, ns: Seq<char>) -> bool {
    has_prefix(name, ns + "."@)
}

/// A generated source file of the namespace `ns`: `ns`, a dot, a dotted path
/// and `.rs`, the prefix and the suffix not overlapping.
pub open spec fn is_module_file(name: Seq<char>, ns: Seq<char>) -> bool {
    in_namespace(name, ns) && has_suffix(name, ".rs"@) && ns.len() + 4 <= name.len()
}

/// The pieces of `s` between dots, in order; a string with no dot is one piece.
pub open spec fn split_dots(s: Seq<char>) -> Seq<Seq<char>>
    decreases s.len(),
{
    if s.len() == 0 {
        seq![Seq::empty()]
    } else {
        let p = split_dots(s.drop_last());
        if s.last() == '.' {
            p.push(Seq::empty())
        } else {
            p.update(p.len() - 1, p.last().push(s.last()))
        }
    }
}

/// The dotted path of a generated file of namespace `ns`, root first.
pub open spec fn dotted_path(name: Seq<char>, ns: Seq<char>) -> Seq<Seq<char>> {
    split_dots(name.subrange(ns.len() + 1int, name.len() - 3int))
}

pub open spec fn strings_view(v: Seq<String>) -> Seq<Seq<char>> {
    v.map_values(|x: String| x@)
}

/// Whether `s` begins with `p`.
pub fn starts_with(s: &str, p: &str) -> (r: bool)
    ensures
        r == has_prefix(s@, p@),
{
    let n = s.unicode_len();
    let m = p.unicode_len();
    if m > n {
        return false;
    }
    let mut i: usize = 0;
    while i < m
        invariant
            i <= m <= n,
            n == s@.len(),
            m == p@.len(),
            s@.subrange(0, i as int) == p@.subrange(0, i as int),
        decreases m - i,
    {
        if s.get_char(i) != p.get_char(i) {
            assert(s@.subrange(0, m as int)[i as int] != p@[i as int]);
            return false;
        }
        assert(s@.subrange(0, i + 1) =~= s@.subrange(0, i as int).push(s@[i as int]));
        assert(p@.subrange(0, i + 1) =~= p@.subrange(0, i as int).push(p@[i as int]));
        i += 1;
    }
    assert(p@.subrange(0, m as int) =~= p@);
    true
}

/// Whether `s` ends with `p`.
pub fn ends_with(s: &str, p: &str) -> (r: bool)
    ensures
        r == has_suffix(s@, p@),
{
    let n = s.unicode_len();
    let m = p.unicode_len();
    if m > n {
        return false;
    }
    let d: usize = n - m;
    let mut i: usize = 0;
    while i < m
        invariant
            i <= m <= n,
            d == n - m,
            n == s@.len(),
            m == p@.len(),
            s@.subrange(d as int, d + i) == p@.subrange(0, i as int),
        decreases m - i,
    {
        if s.get_char(d + i) != p.get_char(i) {
            assert(s@.subrange(d as int, n as int)[i as int] != p@[i as int]);
            return false;
        }
        assert(s@.subrange(d as int, d + i + 1) =~= s@.subrange(d as int, d + i).push(
            s@[d + i],
        ));
        assert(p@.subrange(0, i + 1) =~= p@.subrange(0, i as int).push(p@[i as int]));
        i += 1;
    }
    assert(p@.subrange(0, m as int) =~= p@);
    true
}

/// Whether a file name has the schema extension `proto`.
pub fn is_proto_file(name: &str) -> (r: bool)
    ensures
        r == is_proto_name(name@),
{
    name.unicode_len() > 6 && ends_with(name, ".proto")
}

/// Whether a file name belongs to the namespace `ns` (it begins with `ns.`).
pub fn is_namespace_file(name: &str, ns: &str) -> (r: bool)
    ensures
        r == in_namespace(name@, ns@),
{
    let prefix = String::from_str(ns).concat(".");
    starts_with(name, prefix.as_str())
}

/// Whether a file name is a generated source file of the namespace `ns`.
pub fn is_generated_module(name: &str, ns: &str) -> (r: bool)
    ensures
        r == is_module_file(name@, ns@),
{
    let n = name.unicode_len();
    let k = ns.unicode_len();
    is_namespace_file(name, ns) && ends_with(name, ".rs") && k < n && 4 <= n - k
}

/// Splits `s` at every dot.
pub fn split_at_dots(s: &str) -> (r: Vec<String>)
    ensures
        strings_view(r@) == split_dots(s@),
{
    let n = s.unicode_len();
    let mut parts: Vec<String> = Vec::new();
    let mut start: usize = 0;
    let mut i: usize = 0;
    assert(s@.subrange(0, 0) =~= Seq::<char>::empty());
    assert(strings_view(parts@).push(s@.subrange(0, 0)) =~= seq![Seq::<char>::empty()]);
    while i < n
        invariant
            start <= i <= n,
            n == s@.len(),
            split_dots(s@.subrange(0, i as int)) == strings_view(parts@).push(
                s@.subrange(start as int, i as int),
            ),
        decreases n - i,
    {
        let c = s.get_char(i);
        let ghost pre = s@.subrange(0, i as int);
        assert(s@.subrange(0, i + 1).drop_last() =~= pre);
        assert(s@.subrange(0, i + 1).last() == c);
        if c == '.' {
            let piece = String::from_str(s.substring_char(start, i));
            let ghost old_parts = parts@;
            parts.push(piece);
            assert(strings_view(parts@) =~= strings_view(old_parts).push(piece@));
            assert(s@.subrange(i + 1, i + 1) =~= Seq::<char>::empty());
            start = i + 1;
        } else {
            assert(s@.subrange(start as int, i + 1) =~= s@.subrange(start as int, i as int).push(
                c,
            ));
            assert(split_dots(s@.subrange(0, i + 1)) =~= strings_view(parts@).push(
                s@.subrange(start as int, i + 1),
            ));
        }
        i += 1;
    }
    let last = String::from_str(s.substring_char(start, n));
    let ghost old_parts = parts@;
    parts.push(last);
    assert(strings_view(parts@) =~= strings_view(old_parts).push(last@));
    assert(s@.subrange(0, n as int) =~= s@);
    parts
}

} // verus!
