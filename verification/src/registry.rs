//! The template registry: per language, the compiled Dockerfile template,
//! the source of the main program and the sample function source. It is
//! assembled once at startup and read-only afterwards.

use vstd::prelude::*;
use vstd::string::*;
use vstd::utf8::{decode_utf8, valid_utf8};
use crate::models::{CodeRunnerLanguage, LanguageData};
use crate::template::{
    is_plain_template, liquid_error_text, parse_template, plain_template, stdlib_parser,
    template_parses, DockerfileTemplate, StdlibParser,
};
use crate::text::{concat2, concat3};

verus! {

/// A mapping from languages to values, each language at most once.
pub struct LanguageMap<T> {
    pub entries: Vec<(CodeRunnerLanguage, T)>,
}

impl<T> LanguageMap<T> {
    /// No language occurs twice.
    pub open spec fn wf(&self) -> bool {
        forall|i: int, j: int|
            0 <= i < j < self.entries@.len() ==> (#[trigger] self.entries@[i]).0 != (
            #[trigger] self.entries@[j]).0
    }

    /// The mapping that the entries stand for.
    pub open spec fn view(&self) -> Map<CodeRunnerLanguage, T> {
        Map::new(
            |lang: CodeRunnerLanguage|
                exists|i: int| 0 <= i < self.entries@.len() && (#[trigger] self.entries@[i]).0 == lang,
            |lang: CodeRunnerLanguage|
                self.entries@[choose|i: int|
                    0 <= i < self.entries@.len() && (#[trigger] self.entries@[i]).0 == lang].1,
        )
    }

    /// The empty mapping.
    pub fn new() -> (m: Self)
        ensures
            m.wf(),
            m.view() == Map::<CodeRunnerLanguage, T>::empty(),
    {
        let m = LanguageMap { entries: Vec::new() };
        assert(m.view() =~= Map::<CodeRunnerLanguage, T>::empty());
        m
    }

    /// Position of the entry for `lang`, if there is one.
    pub fn position(&self, lang: CodeRunnerLanguage) -> (r: Option<usize>)
        requires
            self.wf(),
        ensures
            r is Some <==> self.view().dom().contains(lang),
            r matches Some(i) ==> i < self.entries@.len() && self.entries@[i as int].0 == lang
                && self.entries@[i as int].1 == self.view()[lang],
    {
        let mut i: usize = 0;
        while i < self.entries.len()
            invariant
                self.wf(),
                i <= self.entries.len(),
                forall|j: int| 0 <= j < i ==> (#[trigger] self.entries@[j]).0 != lang,
            decreases self.entries.len() - i,
        {
            if self.entries[i].0 == lang {
                proof {
                    let k = choose|k: int|
                        0 <= k < self.entries@.len() && (#[trigger] self.entries@[k]).0 == lang;
                    assert(k == i);
                }
                return Some(i);
            }
            i += 1;
        }
        None
    }

    /// The value for `lang`, if there is one.
    pub fn get(&self, lang: CodeRunnerLanguage) -> (r: Option<&T>)
        requires
            self.wf(),
        ensures
            r is Some <==> self.view().dom().contains(lang),
            r matches Some(v) ==> *v == self.view()[lang],
    {
        match self.position(lang) {
            Some(i) => Some(&self.entries[i].1),
            None => None,
        }
    }

    /// Maps `lang` to `value`, in place of what it was mapped to.
    pub fn insert(&mut self, lang: CodeRunnerLanguage, value: T)
        requires
            old(self).wf(),
        ensures
            final(self).wf(),
            final(self).view() == old(self).view().insert(lang, value),
    {
        match self.position(lang) {
            Some(i) => {
                self.entries.set(i, (lang, value));
                proof {
                    let after = self.view();
                    let want = old(self).view().insert(lang, value);
                    assert forall|l: CodeRunnerLanguage| after.dom().contains(l)
                        <==> want.dom().contains(l) by {
                        if after.dom().contains(l) {
                            let k = choose|k: int|
                                0 <= k < self.entries@.len() && (#[trigger] self.entries@[k]).0 == l;
                            if k != i {
                                assert(old(self).entries@[k].0 == l);
                            }
                        }
                        if want.dom().contains(l) {
                            if l == lang {
                                assert(self.entries@[i as int].0 == l);
                            } else {
                                let k = choose|k: int|
                                    0 <= k < old(self).entries@.len() && (
                                    #[trigger] old(self).entries@[k]).0 == l;
                                assert(self.entries@[k].0 == l);
                            }
                        }
                    }
                    assert forall|l: CodeRunnerLanguage| after.dom().contains(l) implies after[l]
                        == want[l] by {
                        let k = choose|k: int|
                            0 <= k < self.entries@.len() && (#[trigger] self.entries@[k]).0 == l;
                        if l != lang {
                            let k0 = choose|k0: int|
                                0 <= k0 < old(self).entries@.len() && (
                                #[trigger] old(self).entries@[k0]).0 == l;
                            assert(old(self).entries@[k].0 == l);
                            assert(k == k0);
                        } else {
                            assert(k == i);
                        }
                    }
                    assert(after =~= want);
                }
            },
            None => {
                self.entries.push((lang, value));
                proof {
                    let n = old(self).entries@.len() as int;
                    let after = self.view();
                    let want = old(self).view().insert(lang, value);
                    assert forall|l: CodeRunnerLanguage| after.dom().contains(l)
                        <==> want.dom().contains(l) by {
                        if after.dom().contains(l) {
                            let k = choose|k: int|
                                0 <= k < self.entries@.len() && (#[trigger] self.entries@[k]).0 == l;
                            if k < n {
                                assert(old(self).entries@[k].0 == l);
                            }
                        }
                        if want.dom().contains(l) {
                            if l == lang {
                                assert(self.entries@[n].0 == l);
                            } else {
                                let k = choose|k: int|
                                    0 <= k < old(self).entries@.len() && (
                                    #[trigger] old(self).entries@[k]).0 == l;
                                assert(self.entries@[k].0 == l);
                            }
                        }
                    }
                    assert forall|l: CodeRunnerLanguage| after.dom().contains(l) implies after[l]
                        == want[l] by {
                        let k = choose|k: int|
                            0 <= k < self.entries@.len() && (#[trigger] self.entries@[k]).0 == l;
                        if l != lang {
                            let k0 = choose|k0: int|
                                0 <= k0 < old(self).entries@.len() && (
                                #[trigger] old(self).entries@[k0]).0 == l;
                            assert(self.entries@[k0].0 == l);
                            assert(k == k0);
                        } else {
                            assert(self.entries@[n].0 == l);
                            assert(k == n);
                        }
                    }
                    assert(after =~= want);
                }
            },
        }
    }

    /// Number of languages in the mapping.
    pub fn len(&self) -> (n: usize)
        ensures
            n == self.entries@.len(),
    {
        self.entries.len()
    }
}

/// Strict UTF-8 decoding through `std::str::from_utf8`: succeeds exactly on
/// valid UTF-8, and then gives the decoded text.
#[verifier::external_body]
pub(crate) fn utf8_text(bytes: &Vec<u8>) -> (r: Option<String>)
    ensures
        r is Some <==> valid_utf8(bytes@),
        r matches Some(s) ==> s@ == decode_utf8(bytes@),
{
    std::str::from_utf8(bytes).ok().map(str::to_owned)
}

/// The compiled assets of one language.
pub struct LanguageTemplates {
    /// The compiled Dockerfile template.
    pub dockerfile: DockerfileTemplate,
    /// Source of the main program.
    pub main_file: String,
    /// Source of the sample function.
    pub fn_file: String,
}

/// Where the assets of a language lie below the static directory.
#[derive(Debug, Clone, PartialEq, Eq)]
pub struct AssetPaths {
    pub folder: String,
    pub dockerfile: String,
    pub main_file: String,
    pub fn_file: String,
}

/// Folder of a language's templates.
pub open spec fn template_folder(template: Seq<char>) -> Seq<char> {
    "templates/"@ + template
}

/// Path of a file in a language's template folder.
pub open spec fn template_file(template: Seq<char>, name: Seq<char>) -> Seq<char> {
    template_folder(template) + "/"@ + name
}

/// The paths at which the assets of a language are looked up:
/// `<template>/Dockerfile.liquid`, `<template>/<main_file>` and
/// `<template>/<fn_file>` below the templates directory.
pub fn asset_paths(lang_data: &LanguageData) -> (p: AssetPaths)
    ensures
        p.folder@ == template_folder(lang_data.template@),
        p.dockerfile@ == template_file(lang_data.template@, "Dockerfile.liquid"@),
        p.main_file@ == template_file(lang_data.template@, lang_data.main_file@),
        p.fn_file@ == template_file(lang_data.template@, lang_data.fn_file@),
{
    let folder = concat2("templates/", lang_data.template.as_str());
    AssetPaths {
        dockerfile: concat3(folder.as_str(), "/", "Dockerfile.liquid"),
        main_file: concat3(folder.as_str(), "/", lang_data.main_file.as_str()),
        fn_file: concat3(folder.as_str(), "/", lang_data.fn_file.as_str()),
        folder,
    }
}

/// What was found at the asset paths of a language.
#[derive(Debug, Clone, PartialEq, Eq)]
pub struct LanguageAssets {
    /// Whether the template folder exists.
    pub folder_found: bool,
    pub dockerfile: Option<Vec<u8>>,
    pub main_file: Option<Vec<u8>>,
    pub fn_file: Option<Vec<u8>>,
}

impl CodeRunnerLanguage {
    /// The name of the variant, as `{:?}` shows it.
    pub open spec fn spec_variant_name(self) -> Seq<char> {
        match self {
            CodeRunnerLanguage::Bash => "Bash"@,
            CodeRunnerLanguage::Go => "Go"@,
            CodeRunnerLanguage::JavaScript => "JavaScript"@,
            CodeRunnerLanguage::Python => "Python"@,
            CodeRunnerLanguage::Rust => "Rust"@,
            CodeRunnerLanguage::TypeScript => "TypeScript"@,
        }
    }

    /// The name of the variant, as `{:?}` shows it.
    pub fn variant_name(&self) -> (s: &'static str)
        ensures
            s@ == self.spec_variant_name(),
    {
        match self {
            CodeRunnerLanguage::Bash => "Bash",
            CodeRunnerLanguage::Go => "Go",
            CodeRunnerLanguage::JavaScript => "JavaScript",
            CodeRunnerLanguage::Python => "Python",
            CodeRunnerLanguage::Rust => "Rust",
            CodeRunnerLanguage::TypeScript => "TypeScript",
        }
    }
}

/// The first thing that is wrong with the assets of a language, apart from
/// what only the template parser can tell; `None` if nothing is. A
/// Dockerfile template must be plain: variables and `if` blocks only.
pub open spec fn asset_defect(lang: CodeRunnerLanguage, assets: LanguageAssets) -> Option<Seq<char>> {
    let name = lang.spec_variant_name();
    if !assets.folder_found {
        Some("missing template directory for "@ + name)
    } else if assets.dockerfile is None {
        Some("missing Dockerfile template for "@ + name)
    } else if !valid_utf8(assets.dockerfile->0@) {
        Some("invalid UTF8 in Dockerfile template for "@ + name)
    } else if !plain_template(decode_utf8(assets.dockerfile->0@)) {
        Some("unsupported construct in Dockerfile template for "@ + name)
    } else if assets.main_file is None {
        Some("missing main file for "@ + name)
    } else if !valid_utf8(assets.main_file->0@) {
        Some("invalid UTF8 in main file for "@ + name)
    } else if assets.fn_file is None {
        Some("missing function file for "@ + name)
    } else if !valid_utf8(assets.fn_file->0@) {
        Some("invalid UTF8 in function file for "@ + name)
    } else {
        None
    }
}

/// The failure for a Dockerfile template that the parser refused with
/// `cause`.
pub open spec fn parse_defect(lang: CodeRunnerLanguage, cause: Seq<char>) -> Seq<char> {
    "failed to parse Dockerfile template for "@ + lang.spec_variant_name() + ": "@ + cause
}

/// The three sources of a language as text, once the assets are sound.
pub struct AssetTexts {
    pub dockerfile: String,
    pub main_file: String,
    pub fn_file: String,
}

/// Checks that the assets of a language are all there and are UTF-8, and
/// that the Dockerfile template is plain, and returns them as text;
/// otherwise the first defect.
pub fn check_assets(lang: CodeRunnerLanguage, assets: &LanguageAssets) -> (r: Result<
    AssetTexts,
    String,
>)
    ensures
        match r {
            Ok(t) => {
                &&& asset_defect(lang, *assets) is None
                &&& plain_template(t.dockerfile@)
                &&& t.dockerfile@ == decode_utf8(assets.dockerfile->0@)
                &&& t.main_file@ == decode_utf8(assets.main_file->0@)
                &&& t.fn_file@ == decode_utf8(assets.fn_file->0@)
            },
            Err(msg) => asset_defect(lang, *assets) == Some(msg@),
        },
{
    let name = lang.variant_name();
    if !assets.folder_found {
        return Err(concat2("missing template directory for ", name));
    }
    let dockerfile = match &assets.dockerfile {
        Some(bytes) => match utf8_text(bytes) {
            Some(text) => text,
            None => {
                return Err(concat2("invalid UTF8 in Dockerfile template for ", name));
            },
        },
        None => {
            return Err(concat2("missing Dockerfile template for ", name));
        },
    };
    if !is_plain_template(dockerfile.as_str()) {
        return Err(concat2("unsupported construct in Dockerfile template for ", name));
    }
    let main_file = match &assets.main_file {
        Some(bytes) => match utf8_text(bytes) {
            Some(text) => text,
            None => {
                return Err(concat2("invalid UTF8 in main file for ", name));
            },
        },
        None => {
            return Err(concat2("missing main file for ", name));
        },
    };
    let fn_file = match &assets.fn_file {
        Some(bytes) => match utf8_text(bytes) {
            Some(text) => text,
            None => {
                return Err(concat2("invalid UTF8 in function file for ", name));
            },
        },
        None => {
            return Err(concat2("missing function file for ", name));
        },
    };
    Ok(AssetTexts { dockerfile, main_file, fn_file })
}

/// Puts the compiled template, or the parser's refusal, together with the
/// sources of a language.
pub fn assemble_templates(
    lang: CodeRunnerLanguage,
    parsed: Result<DockerfileTemplate, String>,
    main_file: String,
    fn_file: String,
) -> (r: Result<LanguageTemplates, String>)
    ensures
        match parsed {
            Ok(template) => r matches Ok(t) && t.dockerfile == template && t.main_file == main_file
                && t.fn_file == fn_file,
            Err(cause) => r matches Err(msg) && msg@ == parse_defect(lang, cause@),
        },
{
    match parsed {
        Ok(template) => Ok(LanguageTemplates { dockerfile: template, main_file, fn_file }),
        Err(cause) => {
            let mut msg = concat2("failed to parse Dockerfile template for ", lang.variant_name());
            msg.append(": ");
            msg.append(cause.as_str());
            Err(msg)
        },
    }
}

/// `msg` is a failure that loading the templates of `lang` from `assets`
/// can end in: the first defect of the assets if they have one, otherwise a
/// refusal of the Dockerfile template by the parser, for some cause.
pub open spec fn template_failure(
    lang: CodeRunnerLanguage,
    assets: LanguageAssets,
    msg: Seq<char>,
) -> bool {
    match asset_defect(lang, assets) {
        Some(defect) => msg == defect,
        None => exists|cause: Seq<char>| msg == #[trigger] parse_defect(lang, cause),
    }
}

/// The text of the Dockerfile template among the assets.
pub open spec fn dockerfile_text(assets: LanguageAssets) -> Seq<char> {
    decode_utf8(assets.dockerfile->0@)
}

/// The templates of a language can be loaded from its assets: the assets
/// are sound and the parser takes the Dockerfile template.
pub open spec fn loadable(lang: CodeRunnerLanguage, assets: LanguageAssets) -> bool {
    asset_defect(lang, assets) is None && template_parses(dockerfile_text(assets))
}

/// `templates` holds what `assets` give: the Dockerfile template compiled
/// from its text, and the two sources.
pub open spec fn loaded_from(templates: LanguageTemplates, assets: LanguageAssets) -> bool {
    &&& assets.dockerfile is Some
    &&& assets.main_file is Some
    &&& assets.fn_file is Some
    &&& templates.dockerfile.source_text() == dockerfile_text(assets)
    &&& templates.main_file@ == decode_utf8(assets.main_file->0@)
    &&& templates.fn_file@ == decode_utf8(assets.fn_file->0@)
}

/// Loads the templates of one language from what was found at its asset
/// paths: checks the assets, compiles the Dockerfile template and keeps the
/// two sources. Succeeds exactly when the assets are sound and the parser
/// takes the template. Fails with the first defect of the assets, or else
/// with the parser's refusal.
pub fn load_templates(
    parser: &StdlibParser,
    lang: CodeRunnerLanguage,
    assets: &LanguageAssets,
) -> (r: Result<LanguageTemplates, String>)
    ensures
        r is Ok <==> loadable(lang, *assets),
        asset_defect(lang, *assets) matches Some(msg) ==> r matches Err(e) && e@ == msg,
        r matches Ok(t) ==> loaded_from(t, *assets),
        r matches Err(e) ==> template_failure(lang, *assets, e@),
{
    match check_assets(lang, assets) {
        Ok(texts) => {
            let parsed = match parse_template(parser, texts.dockerfile.as_str()) {
                Ok(template) => Ok(template),
                Err(err) => Err(liquid_error_text(&err)),
            };
            let ghost cause = if parsed is Err {
                parsed->Err_0@
            } else {
                Seq::<char>::empty()
            };
            let r = assemble_templates(lang, parsed, texts.main_file, texts.fn_file);
            proof {
                if r is Err {
                    assert(r->Err_0@ == parse_defect(lang, cause));
                }
            }
            r
        },
        Err(msg) => Err(msg),
    }
}

/// The assets of every language of the list are sound.
pub open spec fn all_assets_sound(assets: Seq<(CodeRunnerLanguage, LanguageAssets)>) -> bool {
    forall|i: int| 0 <= i < assets.len() ==> asset_defect(
        (#[trigger] assets[i]).0,
        assets[i].1,
    ) is None
}

/// The parser takes the Dockerfile template of every language of the list.
pub open spec fn all_templates_parse(assets: Seq<(CodeRunnerLanguage, LanguageAssets)>) -> bool {
    forall|i: int|
        0 <= i < assets.len() ==> template_parses(dockerfile_text((#[trigger] assets[i]).1))
}

/// Among the first `upto` entries of the list, one is for `lang`.
pub open spec fn lists_language(
    assets: Seq<(CodeRunnerLanguage, LanguageAssets)>,
    upto: int,
    lang: CodeRunnerLanguage,
) -> bool {
    exists|i: int| 0 <= i < upto && (#[trigger] assets[i]).0 == lang
}

/// Among the first `upto` entries of the list, one is for `lang` and holds
/// what `templates` was loaded from.
pub open spec fn lists_sources(
    assets: Seq<(CodeRunnerLanguage, LanguageAssets)>,
    upto: int,
    lang: CodeRunnerLanguage,
    templates: LanguageTemplates,
) -> bool {
    exists|i: int|
        0 <= i < upto && (#[trigger] assets[i]).0 == lang && loaded_from(templates, assets[i].1)
}

/// `msg` is a failure that assembling the registry from `assets` can end
/// in: the failure of some language of the list, before which every
/// language could be loaded.
pub open spec fn registry_failure(
    assets: Seq<(CodeRunnerLanguage, LanguageAssets)>,
    msg: Seq<char>,
) -> bool {
    exists|i: int|
        0 <= i < assets.len() && all_assets_sound(assets.take(i)) && all_templates_parse(
            assets.take(i),
        ) && !loadable((#[trigger] assets[i]).0, assets[i].1) && template_failure(
            assets[i].0,
            assets[i].1,
            msg,
        )
}

/// Assembles the registry at startup: builds the template parser, then
/// loads the templates of each language in turn from what was found at its
/// asset paths. It succeeds exactly when the assets of every language are
/// sound and the parser takes every Dockerfile template. The registry then
/// holds exactly the languages of the list, each with the template and the
/// sources that the list gives for it. The first failure is fatal: it is
/// the first defect of the assets of the first language that cannot be
/// loaded, or else the parser's refusal of its template.
pub fn load_registry(assets: &Vec<(CodeRunnerLanguage, LanguageAssets)>) -> (r: Result<
    LanguageMap<LanguageTemplates>,
    String,
>)
    ensures
        r is Ok <==> all_assets_sound(assets@) && all_templates_parse(assets@),
        r matches Ok(registry) ==> {
            &&& registry.wf()
            &&& forall|lang: CodeRunnerLanguage|
                registry.view().dom().contains(lang) <==> lists_language(
                    assets@,
                    assets@.len() as int,
                    lang,
                )
            &&& forall|lang: CodeRunnerLanguage| #[trigger]
                registry.view().dom().contains(lang) ==> lists_sources(
                    assets@,
                    assets@.len() as int,
                    lang,
                    registry.view()[lang],
                )
        },
        assets@.len() == 0 ==> r is Ok,
        r matches Err(msg) ==> registry_failure(assets@, msg@),
{
    let parser = match stdlib_parser() {
        Ok(p) => p,
        Err(err) => {
            return Err(liquid_error_text(&err));
        },
    };
    let mut registry: LanguageMap<LanguageTemplates> = LanguageMap::new();
    let mut i: usize = 0;
    while i < assets.len()
        invariant
            i <= assets.len(),
            registry.wf(),
            all_assets_sound(assets@.take(i as int)),
            all_templates_parse(assets@.take(i as int)),
            forall|lang: CodeRunnerLanguage|
                registry.view().dom().contains(lang) <==> lists_language(assets@, i as int, lang),
            forall|lang: CodeRunnerLanguage| #[trigger]
                registry.view().dom().contains(lang) ==> lists_sources(
                    assets@,
                    i as int,
                    lang,
                    registry.view()[lang],
                ),
        decreases assets.len() - i,
    {
        let lang = assets[i].0;
        match load_templates(&parser, lang, &assets[i].1) {
            Ok(templates) => {
                let ghost before = registry.view();
                registry.insert(lang, templates);
                proof {
                    let after = registry.view();
                    assert forall|l: CodeRunnerLanguage|
                        after.dom().contains(l) <==> lists_language(assets@, i + 1, l) by {
                        if after.dom().contains(l) {
                            if l == lang {
                                assert(assets@[i as int].0 == l);
                            } else {
                                assert(before.dom().contains(l));
                                let j = choose|j: int| 0 <= j < i && (#[trigger] assets@[j]).0 == l;
                                assert(assets@[j].0 == l);
                            }
                        }
                        if lists_language(assets@, i + 1, l) {
                            let j = choose|j: int| 0 <= j < i + 1 && (#[trigger] assets@[j]).0 == l;
                            if j < i {
                                assert(lists_language(assets@, i as int, l));
                            }
                        }
                    }
                    assert forall|l: CodeRunnerLanguage| #[trigger]
                        after.dom().contains(l) implies lists_sources(
                        assets@,
                        i + 1,
                        l,
                        after[l],
                    ) by {
                        if l == lang {
                            assert(assets@[i as int].0 == l);
                            assert(loaded_from(after[l], assets@[i as int].1));
                        } else {
                            assert(before.dom().contains(l));
                            let j = choose|j: int|
                                0 <= j < i && (#[trigger] assets@[j]).0 == l && loaded_from(
                                    before[l],
                                    assets@[j].1,
                                );
                            assert(assets@[j].0 == l);
                        }
                    }
                    assert forall|k: int| 0 <= k < i + 1 implies asset_defect(
                        (#[trigger] assets@.take(i + 1)[k]).0,
                        assets@.take(i + 1)[k].1,
                    ) is None by {
                        if k < i {
                            assert(assets@.take(i as int)[k] == assets@[k]);
                        }
                    }
                    assert forall|k: int| 0 <= k < i + 1 implies template_parses(
                        dockerfile_text((#[trigger] assets@.take(i + 1)[k]).1),
                    ) by {
                        if k < i {
                            assert(assets@.take(i as int)[k] == assets@[k]);
                        }
                    }
                }
            },
            Err(msg) => {
                proof {
                    assert(!loadable(assets@[i as int].0, assets@[i as int].1));
                    assert(template_failure(assets@[i as int].0, assets@[i as int].1, msg@));
                    assert(registry_failure(assets@, msg@));
                    if all_assets_sound(assets@) && all_templates_parse(assets@) {
                        assert(asset_defect(assets@[i as int].0, assets@[i as int].1) is None);
                        assert(template_parses(dockerfile_text(assets@[i as int].1)));
                    }
                }
                return Err(msg);
            },
        }
        i += 1;
    }
    assert(assets@.take(assets.len() as int) =~= assets@);
    Ok(registry)
}

} // verus!
