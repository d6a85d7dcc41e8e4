//! Generation of the per-version module file and of the aggregator file.
//!
//! Each generated file `ns.a.b.rs` becomes `pub mod a { pub mod b { include!(..) } }`,
//! one nesting level per dotted segment, indented four spaces per level. Blocks
//! of files that share outer segments repeat those declarations; the target
//! language merges modules of the same name.

use vstd::prelude::*;
use vstd::string::*;
use crate::names::{dotted_path, is_generated_module, is_module_file, split_at_dots, strings_view};

verus! {

/// A version of the protocol definitions: the module identifier it is
/// generated under, and the commitish it is built from.
pub struct TendermintVersion {
    pub ident: String,
    pub commitish: String,
}

/// The first line of a generated version module.
pub open spec fn mod_header() -> Seq<char> {
    "//! Tendermint-proto auto-generated sub-modules for Tendermint\n"@
}

/// `n` levels of indentation, four spaces each.
pub open spec fn indent(n: nat) -> Seq<char>
    decreases n,
{
    if n == 0 {
        Seq::empty()
    } else {
        indent((n - 1) as nat) + "    "@
    }
}

/// The line that includes a generated file of version `ident`.
pub open spec fn include_line(ident: Seq<char>, file_name: Seq<char>) -> Seq<char> {
    "include!(\"../prost/"@ + ident + "/"@ + file_name + "\");"@
}

/// `leaf` wrapped in one module declaration per segment of `segs`, the first
/// segment outermost, starting at indentation level `depth`.
pub open spec fn nested_modules(segs: Seq<Seq<char>>, depth: nat, leaf: Seq<char>) -> Seq<char>
    decreases segs.len(),
{
    if segs.len() == 0 {
        indent(depth) + leaf
    } else {
        indent(depth) + "pub mod "@ + segs[0] + " {\n"@ + nested_modules(
            segs.drop_first(),
            depth + 1,
            leaf,
        ) + "\n"@ + indent(depth) + "}"@
    }
}

/// The nested declarations for one generated file.
pub open spec fn file_block(name: Seq<char>, ns: Seq<char>, ident: Seq<char>) -> Seq<char> {
    nested_modules(dotted_path(name, ns), 0, include_line(ident, name))
}

/// The blocks of the generated files among `names`, in order, each set off by
/// line breaks; other names contribute nothing.
pub open spec fn file_blocks(names: Seq<Seq<char>>, ns: Seq<char>, ident: Seq<char>) -> Seq<char>
    decreases names.len(),
{
    if names.len() == 0 {
        Seq::empty()
    } else if is_module_file(names.last(), ns) {
        file_blocks(names.drop_last(), ns, ident) + "\n"@ + file_block(names.last(), ns, ident)
            + "\n"@
    } else {
        file_blocks(names.drop_last(), ns, ident)
    }
}

/// The metadata module recording where a version comes from.
pub open spec fn meta_block(repository: Seq<char>, commitish: Seq<char>) -> Seq<char> {
    "\npub mod meta {\n"@ + indent(1) + "pub const REPOSITORY: &str = \""@ + repository
        + "\";\n"@ + indent(1) + "pub const COMMITISH: &str = \""@ + commitish + "\";\n}\n"@
}

/// The whole module file of a version.
pub open spec fn mod_text(
    names: Seq<Seq<char>>,
    ns: Seq<char>,
    ident: Seq<char>,
    repository: Seq<char>,
    commitish: Seq<char>,
) -> Seq<char> {
    mod_header() + file_blocks(names, ns, ident) + meta_block(repository, commitish)
}

/// `n` levels of indentation.
pub fn indentation(n: usize) -> (r: String)
    ensures
        r@ == indent(n as nat),
{
    let mut r = String::new();
    let mut i: usize = 0;
    while i < n
        invariant
            i <= n,
            r@ == indent(i as nat),
        decreases n - i,
    {
        r.append("    ");
        i += 1;
    }
    r
}

/// The nested module declarations for the generated file `file_name` of
/// namespace `ns`, including it from the directory of version `ident`.
pub fn generate_file_block(file_name: &str, ns: &str, ident: &str) -> (r: String)
    requires
        is_module_file(file_name@, ns@),
    ensures
        r@ == file_block(file_name@, ns@, ident@),
{
    let n = file_name.unicode_len();
    let k = ns.unicode_len();
    let segs = split_at_dots(file_name.substring_char(k + 1, n - 3));
    let ghost sv = strings_view(segs@);
    let ghost leaf = include_line(ident@, file_name@);
    let count = segs.len();
    let mut inner = indentation(count);
    inner.append("include!(\"../prost/");
    inner.append(ident);
    inner.append("/");
    inner.append(file_name);
    inner.append("\");");
    assert(sv.subrange(count as int, count as int) =~= Seq::<Seq<char>>::empty());
    let mut j: usize = count;
    while j > 0
        invariant
            j <= count,
            count == segs@.len(),
            sv == strings_view(segs@),
            inner@ == nested_modules(sv.subrange(j as int, count as int), j as nat, leaf),
        decreases j,
    {
        j -= 1;
        let ghost rest = sv.subrange(j as int, count as int);
        assert(rest.drop_first() =~= sv.subrange(j + 1, count as int));
        assert(rest[0] == segs@[j as int]@);
        let tabs = indentation(j);
        let mut outer = indentation(j);
        outer.append("pub mod ");
        outer.append(segs[j].as_str());
        outer.append(" {\n");
        outer.append(inner.as_str());
        outer.append("\n");
        outer.append(tabs.as_str());
        outer.append("}");
        inner = outer;
    }
    assert(sv.subrange(0, count as int) =~= sv);
    inner
}

/// The module file of `version`: one block for each generated file of
/// namespace `ns` among `file_names`, in the order given, then the metadata
/// module naming `repository` and the version's commitish.
pub fn generate_tendermint_mod(
    file_names: &Vec<String>,
    ns: &str,
    version: &TendermintVersion,
    repository: &str,
) -> (r: String)
    ensures
        r@ == mod_text(
            strings_view(file_names@),
            ns@,
            version.ident@,
            repository@,
            version.commitish@,
        ),
{
    let ghost names = strings_view(file_names@);
    let mut content = String::new();
    content.append("//! Tendermint-proto auto-generated sub-modules for Tendermint\n");
    let mut i: usize = 0;
    while i < file_names.len()
        invariant
            i <= file_names@.len(),
            names == strings_view(file_names@),
            content@ == mod_header() + file_blocks(names.subrange(0, i as int), ns@, version.ident@),
        decreases file_names@.len() - i,
    {
        let name = file_names[i].as_str();
        let ghost before = content@;
        assert(names.subrange(0, i + 1).drop_last() =~= names.subrange(0, i as int));
        assert(names.subrange(0, i + 1).last() == name@);
        if is_generated_module(name, ns) {
            let block = generate_file_block(name, ns, version.ident.as_str());
            content.append("\n");
            content.append(block.as_str());
            content.append("\n");
            assert(content@ =~= mod_header() + file_blocks(names.subrange(0, i + 1), ns@, version.ident@));
        }
        i += 1;
    }
    assert(names.subrange(0, file_names@.len() as int) =~= names);
    let tab = indentation(1);
    content.append("\npub mod meta {\n");
    content.append(tab.as_str());
    content.append("pub const REPOSITORY: &str = \"");
    content.append(repository);
    content.append("\";\n");
    content.append(tab.as_str());
    content.append("pub const COMMITISH: &str = \"");
    content.append(version.commitish.as_str());
    content.append("\";\n}\n");
    assert(content@ =~= mod_text(names, ns@, version.ident@, repository@, version.commitish@));
    content
}

/// The declaration of one version's module in the aggregator.
pub open spec fn version_decl(ident: Seq<char>) -> Seq<char> {
    "pub mod "@ + ident + ";\n"@
}

/// The declarations of every version, in order.
pub open spec fn version_decls(idents: Seq<Seq<char>>) -> Seq<char>
    decreases idents.len(),
{
    if idents.len() == 0 {
        Seq::empty()
    } else {
        version_decls(idents.drop_last()) + version_decl(idents.last())
    }
}

/// The re-export of one version's contents at the top level.
pub open spec fn reexport_line(ident: Seq<char>) -> Seq<char> {
    "pub use "@ + ident + "::*;\n"@
}

/// The aggregator: every version declared, the last one re-exported.
pub open spec fn lib_text(idents: Seq<Seq<char>>) -> Seq<char> {
    version_decls(idents) + reexport_line(idents.last())
}

pub open spec fn idents_view(versions: Seq<TendermintVersion>) -> Seq<Seq<char>> {
    versions.map_values(|v: TendermintVersion| v.ident@)
}

/// The aggregator file for `versions`: a module per version, and the contents
/// of the last one re-exported.
pub fn generate_tendermint_lib(versions: &[TendermintVersion]) -> (r: String)
    requires
        versions@.len() > 0,
    ensures
        r@ == lib_text(idents_view(versions@)),
{
    let ghost idents = idents_view(versions@);
    let mut content = String::new();
    let mut i: usize = 0;
    assert(idents.subrange(0, 0) =~= Seq::<Seq<char>>::empty());
    while i < versions.len()
        invariant
            i <= versions@.len(),
            idents == idents_view(versions@),
            content@ == version_decls(idents.subrange(0, i as int)),
        decreases versions@.len() - i,
    {
        assert(idents.subrange(0, i + 1).drop_last() =~= idents.subrange(0, i as int));
        assert(idents.subrange(0, i + 1).last() == versions@[i as int].ident@);
        content.append("pub mod ");
        content.append(versions[i].ident.as_str());
        content.append(";\n");
        assert(content@ =~= version_decls(idents.subrange(0, i + 1)));
        i += 1;
    }
    assert(idents.subrange(0, versions@.len() as int) =~= idents);
    let last = versions.len() - 1;
    content.append("pub use ");
    content.append(versions[last].ident.as_str());
    content.append("::*;\n");
    assert(content@ =~= lib_text(idents));
    content
}

proof fn lemma_decl_at(idents: Seq<Seq<char>>, i: int)
    requires
        0 <= i < idents.len(),
    ensures
        ({
            let off = version_decls(idents.take(i)).len() as int;
            let d = version_decl(idents[i]);
            &&& off + d.len() <= version_decls(idents).len()
            &&& version_decls(idents).subrange(off, off + d.len()) == d
        }),
    decreases idents.len(),
{
    let off = version_decls(idents.take(i)).len() as int;
    let d = version_decl(idents[i]);
    let front = idents.drop_last();
    if i == idents.len() - 1 {
        assert(front =~= idents.take(i));
        assert(version_decls(idents).subrange(off, off + d.len()) =~= d);
    } else {
        lemma_decl_at(front, i);
        assert(front.take(i) =~= idents.take(i));
        assert(version_decls(idents).subrange(off, off + d.len()) =~= version_decls(
            front,
        ).subrange(off, off + d.len()));
    }
}

/// The aggregator declares every version given, each at the place of its
/// declaration in order, and ends by re-exporting the last version of the
/// sequence, whatever the identifiers' lexical order.
pub proof fn lemma_lib_declares_all_and_exports_last(idents: Seq<Seq<char>>)
    requires
        idents.len() > 0,
    ensures
        forall|i: int|
            0 <= i < idents.len() ==> {
                let off = version_decls(#[trigger] idents.take(i)).len() as int;
                lib_text(idents).subrange(off, off + version_decl(idents[i]).len())
                    == version_decl(idents[i])
            },
        ({
            let t = lib_text(idents);
            let e = reexport_line(idents[idents.len() - 1]);
            t.subrange(t.len() - e.len(), t.len() as int) == e
        }),
{
    assert forall|i: int| 0 <= i < idents.len() implies {
        let off = version_decls(#[trigger] idents.take(i)).len() as int;
        lib_text(idents).subrange(off, off + version_decl(idents[i]).len()) == version_decl(
            idents[i],
        )
    } by {
        lemma_decl_at(idents, i);
        let off = version_decls(idents.take(i)).len() as int;
        let d = version_decl(idents[i]);
        assert(lib_text(idents).subrange(off, off + d.len()) =~= version_decls(idents).subrange(
            off,
            off + d.len(),
        ));
    }
    let t = lib_text(idents);
    let e = reexport_line(idents[idents.len() - 1]);
    assert(t.subrange(t.len() - e.len(), t.len() as int) =~= e);
}

/// The metadata of a version's module file reads back as given: the text
/// ends with the repository and the commitish, each at a fixed distance from
/// the end given the length of what follows it.
pub proof fn lemma_meta_round_trip(
    names: Seq<Seq<char>>,
    ns: Seq<char>,
    ident: Seq<char>,
    repository: Seq<char>,
    commitish: Seq<char>,
)
    ensures
        ({
            let t = mod_text(names, ns, ident, repository, commitish);
            let c_end = t.len() - "\";\n}\n"@.len();
            let c_start = c_end - commitish.len();
            let r_end = c_start - ("\";\n"@ + indent(1) + "pub const COMMITISH: &str = \""@).len();
            let r_start = r_end - repository.len();
            &&& t.subrange(c_start, c_end) == commitish
            &&& t.subrange(r_start, r_end) == repository
        }),
{
    let t = mod_text(names, ns, ident, repository, commitish);
    let tail = "\";\n}\n"@;
    let mid = "\";\n"@ + indent(1) + "pub const COMMITISH: &str = \""@;
    let head = mod_header() + file_blocks(names, ns, ident) + "\npub mod meta {\n"@ + indent(1)
        + "pub const REPOSITORY: &str = \""@;
    assert(t =~= head + repository + mid + commitish + tail);
    let c_end = t.len() - tail.len();
    let c_start = c_end - commitish.len();
    let r_end = c_start - mid.len();
    let r_start = r_end - repository.len();
    assert(t.subrange(c_start, c_end) =~= commitish);
    assert(t.subrange(r_start, r_end) =~= repository);
}

} // verus!
