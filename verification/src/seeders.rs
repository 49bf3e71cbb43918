//! The languages a fresh database starts with.

use crate::resources::NewLanguage;
use vstd::prelude::*;

verus! {

/// The (name, extension) pairs of the default languages, in insertion order.
pub open spec fn default_languages() -> Seq<(Seq<char>, Seq<char>)> {
    seq![
        ("Rust"@, "rs"@),
        ("JavaScript"@, "js"@),
        ("TypeScript"@, "ts"@),
        ("Python"@, "py"@),
        ("Java"@, "java"@),
        ("C#"@, "cs"@),
        ("C++"@, "cpp"@),
        ("C"@, "c"@),
        ("Go"@, "go"@),
        ("PHP"@, "php"@),
        ("Ruby"@, "rb"@),
        ("Swift"@, "swift"@),
        ("Kotlin"@, "kt"@),
        ("Dart"@, "dart"@),
        ("Vue"@, "vue"@),
        ("React"@, "jsx"@),
        ("Json"@, "json"@),
        ("Html"@, "html"@),
        ("Css"@, "css"@),
        ("Sass"@, "sass"@),
        ("Scss"@, "scss"@),
        ("Sh"@, "sh"@),
        ("Sql"@, "sql"@),
        ("Yaml"@, "yaml"@),
        ("Toml"@, "toml"@),
        ("Xml"@, "xml"@),
        ("Markdown"@, "md"@),
    ]
}

/// The (name, extension) pairs of a list of languages.
pub open spec fn language_pairs(languages: Seq<NewLanguage>) -> Seq<(Seq<char>, Seq<char>)> {
    languages.map_values(|l: NewLanguage| (l.name@, l.extension@))
}

/// The languages to insert when seeding the database.
pub fn seed() -> (languages: Vec<NewLanguage>)
    ensures
        language_pairs(languages@) == default_languages(),
{
    let mut languages: Vec<NewLanguage> = Vec::new();
    languages.push(NewLanguage { name: String::from_str("Rust"), extension: String::from_str("rs") });
    languages.push(NewLanguage { name: String::from_str("JavaScript"), extension: String::from_str("js") });
    languages.push(NewLanguage { name: String::from_str("TypeScript"), extension: String::from_str("ts") });
    languages.push(NewLanguage { name: String::from_str("Python"), extension: String::from_str("py") });
    languages.push(NewLanguage { name: String::from_str("Java"), extension: String::from_str("java") });
    languages.push(NewLanguage { name: String::from_str("C#"), extension: String::from_str("cs") });
    languages.push(NewLanguage { name: String::from_str("C++"), extension: String::from_str("cpp") });
    languages.push(NewLanguage { name: String::from_str("C"), extension: String::from_str("c") });
    languages.push(NewLanguage { name: String::from_str("Go"), extension: String::from_str("go") });
    languages.push(NewLanguage { name: String::from_str("PHP"), extension: String::from_str("php") });
    languages.push(NewLanguage { name: String::from_str("Ruby"), extension: String::from_str("rb") });
    languages.push(NewLanguage { name: String::from_str("Swift"), extension: String::from_str("swift") });
    languages.push(NewLanguage { name: String::from_str("Kotlin"), extension: String::from_str("kt") });
    languages.push(NewLanguage { name: String::from_str("Dart"), extension: String::from_str("dart") });
    languages.push(NewLanguage { name: String::from_str("Vue"), extension: String::from_str("vue") });
    languages.push(NewLanguage { name: String::from_str("React"), extension: String::from_str("jsx") });
    languages.push(NewLanguage { name: String::from_str("Json"), extension: String::from_str("json") });
    languages.push(NewLanguage { name: String::from_str("Html"), extension: String::from_str("html") });
    languages.push(NewLanguage { name: String::from_str("Css"), extension: String::from_str("css") });
    languages.push(NewLanguage { name: String::from_str("Sass"), extension: String::from_str("sass") });
    languages.push(NewLanguage { name: String::from_str("Scss"), extension: String::from_str("scss") });
    languages.push(NewLanguage { name: String::from_str("Sh"), extension: String::from_str("sh") });
    languages.push(NewLanguage { name: String::from_str("Sql"), extension: String::from_str("sql") });
    languages.push(NewLanguage { name: String::from_str("Yaml"), extension: String::from_str("yaml") });
    languages.push(NewLanguage { name: String::from_str("Toml"), extension: String::from_str("toml") });
    languages.push(NewLanguage { name: String::from_str("Xml"), extension: String::from_str("xml") });
    languages.push(NewLanguage { name: String::from_str("Markdown"), extension: String::from_str("md") });
    assert(language_pairs(languages@) =~= default_languages());
    languages
}

/// The character at `k`, or 0 past the end.
pub open spec fn char_code_at(s: Seq<char>, k: int) -> int {
    if k < s.len() { s[k] as int } else { 0 }
}

/// A number that tells apart ASCII texts of at most five characters: the length and the
/// first five character codes.
pub open spec fn extension_code(s: Seq<char>) -> int {
    s.len() + 8 * (char_code_at(s, 0) + 128 * (char_code_at(s, 1) + 128 * (char_code_at(s, 2)
        + 128 * (char_code_at(s, 3) + 128 * char_code_at(s, 4)))))
}

/// The position among the default languages of the one whose extension has the code of
/// `ext` (-1 for none).
pub open spec fn default_language_index(ext: Seq<char>) -> int {
    if extension_code(ext) == 118674 {
        0
    } else if extension_code(ext) == 118610 {
        1
    } else if extension_code(ext) == 118690 {
        2
    } else if extension_code(ext) == 124802 {
        3
    } else if extension_code(ext) == 1642956628 {
        4
    } else if extension_code(ext) == 118554 {
        5
    } else if extension_code(ext) == 14795547 {
        6
    } else if extension_code(ext) == 793 {
        7
    } else if extension_code(ext) == 114490 {
        8
    } else if extension_code(ext) == 14787459 {
        9
    } else if extension_code(ext) == 101266 {
        10
    } else if extension_code(ext) == 250833264541 {
        11
    } else if extension_code(ext) == 119642 {
        12
    } else if extension_code(ext) == 1961199396 {
        13
    } else if extension_code(ext) == 13359027 {
        14
    } else if extension_code(ext) == 15847251 {
        15
    } else if extension_code(ext) == 1860161364 {
        16
    } else if extension_code(ext) == 1826345796 {
        17
    } else if extension_code(ext) == 15191835 {
        18
    } else if extension_code(ext) == 1944553372 {
        19
    } else if extension_code(ext) == 1944555420 {
        20
    } else if extension_code(ext) == 107418 {
        21
    } else if extension_code(ext) == 14272411 {
        22
    } else if extension_code(ext) == 1826326476 {
        23
    } else if extension_code(ext) == 1826340772 {
        24
    } else if extension_code(ext) == 14268355 {
        25
    } else if extension_code(ext) == 103274 {
        26
    } else {
        -1
    }
}

/// Law: no two default languages share an extension, so looking a language up by extension
/// finds at most one of them.
pub proof fn lemma_default_extensions_distinct()
    ensures
        forall|i: int, j: int|
            0 <= i < j < default_languages().len() ==> #[trigger] default_languages()[i].1
                != #[trigger] default_languages()[j].1,
{
    reveal_strlit("rs");
    reveal_strlit("js");
    reveal_strlit("ts");
    reveal_strlit("py");
    reveal_strlit("java");
    reveal_strlit("cs");
    reveal_strlit("cpp");
    reveal_strlit("c");
    reveal_strlit("go");
    reveal_strlit("php");
    reveal_strlit("rb");
    reveal_strlit("swift");
    reveal_strlit("kt");
    reveal_strlit("dart");
    reveal_strlit("vue");
    reveal_strlit("jsx");
    reveal_strlit("json");
    reveal_strlit("html");
    reveal_strlit("css");
    reveal_strlit("sass");
    reveal_strlit("scss");
    reveal_strlit("sh");
    reveal_strlit("sql");
    reveal_strlit("yaml");
    reveal_strlit("toml");
    reveal_strlit("xml");
    reveal_strlit("md");
    assert(default_language_index(default_languages()[0].1) == 0);
    assert(default_language_index(default_languages()[1].1) == 1);
    assert(default_language_index(default_languages()[2].1) == 2);
    assert(default_language_index(default_languages()[3].1) == 3);
    assert(default_language_index(default_languages()[4].1) == 4);
    assert(default_language_index(default_languages()[5].1) == 5);
    assert(default_language_index(default_languages()[6].1) == 6);
    assert(default_language_index(default_languages()[7].1) == 7);
    assert(default_language_index(default_languages()[8].1) == 8);
    assert(default_language_index(default_languages()[9].1) == 9);
    assert(default_language_index(default_languages()[10].1) == 10);
    assert(default_language_index(default_languages()[11].1) == 11);
    assert(default_language_index(default_languages()[12].1) == 12);
    assert(default_language_index(default_languages()[13].1) == 13);
    assert(default_language_index(default_languages()[14].1) == 14);
    assert(default_language_index(default_languages()[15].1) == 15);
    assert(default_language_index(default_languages()[16].1) == 16);
    assert(default_language_index(default_languages()[17].1) == 17);
    assert(default_language_index(default_languages()[18].1) == 18);
    assert(default_language_index(default_languages()[19].1) == 19);
    assert(default_language_index(default_languages()[20].1) == 20);
    assert(default_language_index(default_languages()[21].1) == 21);
    assert(default_language_index(default_languages()[22].1) == 22);
    assert(default_language_index(default_languages()[23].1) == 23);
    assert(default_language_index(default_languages()[24].1) == 24);
    assert(default_language_index(default_languages()[25].1) == 25);
    assert(default_language_index(default_languages()[26].1) == 26);
    assert forall|i: int, j: int|
        0 <= i < j < default_languages().len() implies #[trigger] default_languages()[i].1
            != #[trigger] default_languages()[j].1 by {
        assert(default_language_index(default_languages()[i].1) == i);
        assert(default_language_index(default_languages()[j].1) == j);
    }
}

} // verus!
