use vstd::prelude::*;
use vstd::string::StringExecFns;
use biome_string_case::Case;

verus! {

/// The PascalCase form of a name, as biome_string_case computes it.
pub uninterp spec fn pascal_of(s: Seq<char>) -> Seq<char>;

/// Relies on biome_string_case's `Case::Pascal.convert`: its result depends
/// on the characters of the name alone, and an empty name stays empty.
#[verifier::external_body]
fn pascal_case(s: &str) -> (r: String)
    ensures
        r@ == pascal_of(s@),
        s@.len() == 0 ==> r@.len() == 0,
{
    Case::Pascal.convert(s)
}

/// The stem of the last component of a path, as std's `Path::file_stem`
/// computes it.
pub uninterp spec fn stem_of(path: Seq<char>) -> Option<Seq<char>>;

/// Relies on std's `Path::file_stem`: its result depends on the path's text
/// alone, and an empty path has no stem.
#[verifier::external_body]
fn file_stem(path: &str) -> (r: Option<String>)
    ensures
        r matches Some(t) ==> stem_of(path@) == Some(t@),
        r is None ==> stem_of(path@) is None,
        path@.len() == 0 ==> r is None,
{
    match std::path::Path::new(path).file_stem() {
        Some(t) => Some(t.to_string_lossy().into_owned()),
        None => None,
    }
}

/// The file name of `file` without its extension; an error for a path with
/// no file name.
pub fn filename(file: &str) -> (r: Result<String, String>)
    ensures
        r matches Ok(t) ==> stem_of(file@) == Some(t@),
        r is Err <==> stem_of(file@) is None,
        r matches Err(e) ==> e@ == "path has no file name"@,
{
    match file_stem(file) {
        Some(t) => Ok(t),
        None => Err(String::from_str("path has no file name")),
    }
}

/// `pub mod <name>;` followed by a line break.
pub open spec fn module_line(name: Seq<char>) -> Seq<char> {
    "pub mod "@ + name + ";\n"@
}

/// `            self::<module>::<Type>,` followed by a line break.
pub open spec fn path_line(module: Seq<char>) -> Seq<char> {
    "            self::"@ + module + "::"@ + pascal_of(module) + ",\n"@
}

/// The option alias of one rule of a group of a category.
pub open spec fn option_line(category: Seq<char>, group: Seq<char>, rule: Seq<char>) -> Seq<char> {
    "pub type "@ + pascal_of(rule) + " = <"@ + category + "::"@ + group + "::"@ + rule + "::"@
        + pascal_of(rule) + " as pgt_analyse::Rule>::Options;\n"@
}

/// The registration of a category in the registry visitor.
pub open spec fn registry_line(category: Seq<char>) -> Seq<char> {
    "    registry.record_category::<crate::"@ + category + "::"@ + pascal_of(category) + ">();\n"@
}

pub open spec fn module_lines(ms: Seq<Seq<char>>) -> Seq<char>
    decreases ms.len(),
{
    if ms.len() == 0 {
        Seq::empty()
    } else {
        module_lines(ms.drop_last()) + module_line(ms.last())
    }
}

pub open spec fn path_lines(ms: Seq<Seq<char>>) -> Seq<char>
    decreases ms.len(),
{
    if ms.len() == 0 {
        Seq::empty()
    } else {
        path_lines(ms.drop_last()) + path_line(ms.last())
    }
}

pub open spec fn registry_lines(cs: Seq<Seq<char>>) -> Seq<char>
    decreases cs.len(),
{
    if cs.len() == 0 {
        Seq::empty()
    } else {
        registry_lines(cs.drop_last()) + registry_line(cs.last())
    }
}

pub open spec fn views(v: Seq<String>) -> Seq<Seq<char>> {
    v.map_values(|s: String| s@)
}

/// The source of a lint group module whose rules live in the modules
/// `rules`, in that order.
pub open spec fn group_text(group: Seq<char>, rules: Seq<Seq<char>>) -> Seq<char> {
    "use pgt_analyse::declare_lint_group;\n\n"@ + module_lines(rules) + "\ndeclare_lint_group! {\n    pub "@
        + pascal_of(group) + " {\n        name: \""@ + group + "\",\n        rules: [\n"@
        + path_lines(rules) + "        ]\n    }\n}\n"@
}

/// The source of a category module of kind `kind` whose groups live in the
/// modules `groups`, in that order.
pub open spec fn category_text(category: Seq<char>, kind: Seq<char>, groups: Seq<Seq<char>>) -> Seq<char> {
    module_lines(groups) + "::pgt_analyse::declare_category! {\n    pub "@ + pascal_of(category)
        + " {\n        kind: "@ + kind + ",\n        groups: [\n"@ + path_lines(groups)
        + "        ]\n    }\n}\n"@
}

/// The source of the registry visitor over the categories `cs`, in that order.
pub open spec fn registry_text(cs: Seq<Seq<char>>) -> Seq<char> {
    "use pgt_analyse::RegistryVisitor;\n\npub fn visit_registry<V: RegistryVisitor>(registry: &mut V) {\n"@
        + registry_lines(cs) + "}\n"@
}

/// The kind of an analyser category; only `lint` is known.
pub open spec fn category_kind_of(category: Seq<char>) -> Option<Seq<char>> {
    if category == "lint"@ {
        Some("Lint"@)
    } else {
        None
    }
}

fn str_eq(a: &str, b: &str) -> (r: bool)
    ensures
        r == (a@ == b@),
{
    let n = a.unicode_len();
    if n != b.unicode_len() {
        return false;
    }
    let mut i: usize = 0;
    while i < n
        invariant
            n == a@.len(),
            n == b@.len(),
            i <= n,
            forall|j: int| 0 <= j < i ==> a@[j] == b@[j],
        decreases n - i,
    {
        if a.get_char(i) != b.get_char(i) {
            return false;
        }
        i = i + 1;
    }
    assert(a@ =~= b@);
    true
}

/// The kind of `category`, `None` for a category that is not supported.
pub fn category_kind(category: &str) -> (r: Option<String>)
    ensures
        r matches Some(k) ==> category_kind_of(category@) == Some(k@),
        r is None ==> category_kind_of(category@) is None,
{
    proof {
        reveal_strlit("lint");
        reveal_strlit("Lint");
    }
    if str_eq(category, "lint") {
        Some(String::from_str("Lint"))
    } else {
        None
    }
}

/// The option alias of the rule module `rule` of `group` in `category`.
pub fn rule_option_line(category: &str, group: &str, rule: &str) -> (r: String)
    ensures
        r@ == option_line(category@, group@, rule@),
{
    let name = pascal_case(rule);
    let mut s = String::from_str("pub type ");
    s.append(name.as_str());
    s.append(" = <");
    s.append(category);
    s.append("::");
    s.append(group);
    s.append("::");
    s.append(rule);
    s.append("::");
    s.append(name.as_str());
    s.append(" as pgt_analyse::Rule>::Options;\n");
    s
}

/// The source of the options module: the alias of each of `rules`, given
/// as (category, group, rule module) in the order to write them.
pub fn options_source(rules: &Vec<(String, String, String)>) -> (r: String)
    ensures
        r@ == "use crate::lint;\n\n"@ + option_lines(rules@),
{
    let mut s = String::from_str("use crate::lint;\n\n");
    let mut i: usize = 0;
    while i < rules.len()
        invariant
            i <= rules@.len(),
            s@ == "use crate::lint;\n\n"@ + option_lines(rules@.subrange(0, i as int)),
        decreases rules@.len() - i,
    {
        let line = rule_option_line(rules[i].0.as_str(), rules[i].1.as_str(), rules[i].2.as_str());
        s.append(line.as_str());
        proof {
            assert(rules@.subrange(0, i + 1).drop_last() =~= rules@.subrange(0, i as int));
        }
        i = i + 1;
    }
    assert(rules@.subrange(0, rules@.len() as int) =~= rules@);
    s
}

pub open spec fn option_lines(rs: Seq<(String, String, String)>) -> Seq<char>
    decreases rs.len(),
{
    if rs.len() == 0 {
        Seq::empty()
    } else {
        option_lines(rs.drop_last()) + option_line(rs.last().0@, rs.last().1@, rs.last().2@)
    }
}

/// The module declarations and the type paths of the modules `names`.
fn modules_and_paths(names: &Vec<String>) -> (r: (String, String))
    ensures
        r.0@ == module_lines(views(names@)),
        r.1@ == path_lines(views(names@)),
{
    let mut mods = String::new();
    let mut paths = String::new();
    let mut i: usize = 0;
    while i < names.len()
        invariant
            i <= names@.len(),
            mods@ == module_lines(views(names@.subrange(0, i as int))),
            paths@ == path_lines(views(names@.subrange(0, i as int))),
        decreases names@.len() - i,
    {
        let name = names[i].as_str();
        mods.append("pub mod ");
        mods.append(name);
        mods.append(";\n");
        let ty = pascal_case(name);
        paths.append("            self::");
        paths.append(name);
        paths.append("::");
        paths.append(ty.as_str());
        paths.append(",\n");
        proof {
            assert(views(names@.subrange(0, i + 1)).drop_last() =~= views(
                names@.subrange(0, i as int),
            ));
            assert(views(names@.subrange(0, i + 1)).last() == names@[i as int]@);
        }
        i = i + 1;
    }
    assert(names@.subrange(0, names@.len() as int) =~= names@);
    (mods, paths)
}

/// The source of the lint group `group` whose rule modules are `rules`.
pub fn group_source(group: &str, rules: &Vec<String>) -> (r: String)
    ensures
        r@ == group_text(group@, views(rules@)),
{
    let (mods, paths) = modules_and_paths(rules);
    let group_type = pascal_case(group);
    let mut s = String::from_str("use pgt_analyse::declare_lint_group;\n\n");
    s.append(mods.as_str());
    s.append("\ndeclare_lint_group! {\n    pub ");
    s.append(group_type.as_str());
    s.append(" {\n        name: \"");
    s.append(group);
    s.append("\",\n        rules: [\n");
    s.append(paths.as_str());
    s.append("        ]\n    }\n}\n");
    s
}

/// The source of the category module `category` with the group modules
/// `groups`; `None` for a category that is not supported.
pub fn category_source(category: &str, groups: &Vec<String>) -> (r: Option<String>)
    ensures
        r is Some <==> category_kind_of(category@) is Some,
        r matches Some(t) ==> t@ == category_text(
            category@,
            category_kind_of(category@).unwrap(),
            views(groups@),
        ),
{
    match category_kind(category) {
        None => None,
        Some(kind) => {
            let (mods, paths) = modules_and_paths(groups);
            let category_type = pascal_case(category);
            let mut s = mods;
            s.append("::pgt_analyse::declare_category! {\n    pub ");
            s.append(category_type.as_str());
            s.append(" {\n        kind: ");
            s.append(kind.as_str());
            s.append(",\n        groups: [\n");
            s.append(paths.as_str());
            s.append("        ]\n    }\n}\n");
            Some(s)
        },
    }
}

/// The source of the registry visitor that records each of `categories`.
pub fn registry_source(categories: &Vec<String>) -> (r: String)
    ensures
        r@ == registry_text(views(categories@)),
{
    let mut lines = String::new();
    let mut i: usize = 0;
    while i < categories.len()
        invariant
            i <= categories@.len(),
            lines@ == registry_lines(views(categories@.subrange(0, i as int))),
        decreases categories@.len() - i,
    {
        let name = categories[i].as_str();
        let ty = pascal_case(name);
        lines.append("    registry.record_category::<crate::");
        lines.append(name);
        lines.append("::");
        lines.append(ty.as_str());
        lines.append(">();\n");
        proof {
            assert(views(categories@.subrange(0, i + 1)).drop_last() =~= views(
                categories@.subrange(0, i as int),
            ));
            assert(views(categories@.subrange(0, i + 1)).last() == categories@[i as int]@);
        }
        i = i + 1;
    }
    assert(categories@.subrange(0, categories@.len() as int) =~= categories@);
    let mut s = String::from_str(
        "use pgt_analyse::RegistryVisitor;\n\npub fn visit_registry<V: RegistryVisitor>(registry: &mut V) {\n",
    );
    s.append(lines.as_str());
    s.append("}\n");
    s
}

} // verus!
