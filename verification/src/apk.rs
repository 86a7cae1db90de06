//! The result for one application archive, and the decisions of the driver
//! that assembles it.

use regex::Regex;
use vstd::prelude::*;
use crate::dex::errors::{error_views, DexError};
use crate::dex::file::{all_failures, all_nodes, DexFile};
use crate::dex::flatten::{flattened, graph_of, marked, reversed};
use crate::dex::get_methods;
use crate::dex::method::{method_views, opcode_bytes, CompactMethod, Method};
use crate::dex::order::same_string;
use crate::dex::pattern::{compile, regex_new};
use crate::manifest::component::{Component, ComponentView};
use crate::manifest::model::{component_views, Manifest, ManifestView};
use crate::text::{replace_char, replaced};

verus! {

/// What was read out of an application archive.
#[derive(Debug, PartialEq, Eq)]
pub struct Apk {
    /// The manifest, if the archive has one that could be read.
    pub manifest: Option<Manifest>,
    /// The methods of all DEX files in the order of the flattened call
    /// graph, those of the classes that the manifest names first.
    pub methods: Vec<Method>,
}

/// An [`Apk`] with every method reduced to its name and opcode bytes.
#[derive(Debug, PartialEq, Eq)]
pub struct CompactApk {
    pub manifest: Option<Manifest>,
    pub methods: Vec<CompactMethod>,
}

/// The eight bytes with which a DEX file starts: `dex`, a line feed, `03`,
/// a digit from 5 to 9, and a zero byte.
pub open spec fn dex_magic(bytes: Seq<u8>) -> bool {
    &&& bytes.len() >= 8
    &&& bytes[0] == 0x64
    &&& bytes[1] == 0x65
    &&& bytes[2] == 0x78
    &&& bytes[3] == 0x0A
    &&& bytes[4] == 0x30
    &&& bytes[5] == 0x33
    &&& 0x35 <= bytes[6] <= 0x39
    &&& bytes[7] == 0x00
}

/// Whether `bytes` start like a DEX file.
pub fn is_dex(bytes: &[u8]) -> (r: bool)
    ensures
        r == dex_magic(bytes@),
{
    bytes.len() >= 8 && bytes[0] == 0x64 && bytes[1] == 0x65 && bytes[2] == 0x78 && bytes[3] == 0x0A
        && bytes[4] == 0x30 && bytes[5] == 0x33 && 0x35 <= bytes[6] && bytes[6] <= 0x39 && bytes[7]
        == 0x00
}

/// What an entry of the archive is taken for.
#[derive(Clone, Copy, Debug, PartialEq, Eq, Structural)]
pub enum EntryKind {
    /// The binary manifest.
    Manifest,
    /// A DEX file.
    Dex,
    /// Anything else; it is passed over.
    Other,
}

/// What the entry with the name `name` and the contents `bytes` is taken
/// for: the entry named `AndroidManifest.xml` is the manifest, and any
/// other entry that starts with the DEX magic is a DEX file.
pub fn entry_kind(name: &str, bytes: &[u8]) -> (kind: EntryKind)
    ensures
        kind == if name@ == "AndroidManifest.xml"@ {
            EntryKind::Manifest
        } else if dex_magic(bytes@) {
            EntryKind::Dex
        } else {
            EntryKind::Other
        },
{
    if same_string(name, "AndroidManifest.xml") {
        EntryKind::Manifest
    } else if is_dex(bytes) {
        EntryKind::Dex
    } else {
        EntryKind::Other
    }
}

/// The expressions for the names of the components: each name with its
/// dots replaced by slashes.
pub open spec fn patterns_of(components: Seq<ComponentView>) -> Seq<Seq<char>> {
    Seq::new(components.len(), |i: int| replaced(components[i].name, '.', "/"@))
}

/// The expressions for all components of a manifest: for its activities,
/// then its services, its receivers and its providers.
pub open spec fn component_patterns(manifest: ManifestView) -> Seq<Seq<char>> {
    patterns_of(manifest.activities) + patterns_of(manifest.services) + patterns_of(
        manifest.receivers,
    ) + patterns_of(manifest.providers)
}

/// The strings of a list as sequences of characters.
pub open spec fn pattern_views(list: Seq<String>) -> Seq<Seq<char>> {
    Seq::new(list.len(), |i: int| list[i]@)
}

/// Appends the expressions for the names of `components`.
fn push_patterns(out: &mut Vec<String>, components: &Vec<Component>)
    ensures
        pattern_views(final(out)@) == pattern_views(old(out)@) + patterns_of(
            component_views(components@),
        ),
{
    let ghost base = pattern_views(out@);
    let mut i: usize = 0;
    while i < components.len()
        invariant
            i <= components@.len(),
            pattern_views(out@) == base + patterns_of(component_views(components@)).take(i as int),
        decreases components.len() - i,
    {
        let ghost before = pattern_views(out@);
        let pattern = replace_char(components[i].name.as_str(), '.', "/");
        let ghost p = pattern@;
        out.push(pattern);
        assert(pattern_views(out@) =~= before.push(p));
        i += 1;
    }
    assert(patterns_of(component_views(components@)).take(components@.len() as int) =~= patterns_of(
        component_views(components@),
    ));
}

/// The expressions for all components of a manifest, as strings.
pub fn patterns(manifest: &Manifest) -> (out: Vec<String>)
    ensures
        pattern_views(out@) == component_patterns(manifest@),
{
    let mut out: Vec<String> = Vec::new();
    push_patterns(&mut out, &manifest.activities);
    push_patterns(&mut out, &manifest.services);
    push_patterns(&mut out, &manifest.receivers);
    push_patterns(&mut out, &manifest.providers);
    out
}

/// All of `results` are compiled expressions.
pub open spec fn all_compiled(results: Seq<Result<Regex, regex::Error>>) -> bool {
    forall|i: int| 0 <= i < results.len() ==> (#[trigger] results[i]) is Ok
}

/// The compiled expressions of `results`.
pub open spec fn compiled(results: Seq<Result<Regex, regex::Error>>) -> Seq<Regex> {
    Seq::new(results.len(), |i: int| results[i]->Ok_0)
}

/// The expressions of `results` if all of them were compiled; a single
/// failure discards them all.
pub fn all_or_nothing(results: Vec<Result<Regex, regex::Error>>) -> (r: Option<Vec<Regex>>)
    ensures
        r is Some <==> all_compiled(results@),
        r matches Some(list) ==> list@ == compiled(results@),
{
    let ghost whole = results@;
    let mut rest = reversed(results);
    let mut out: Vec<Regex> = Vec::new();
    while rest.len() > 0
        invariant
            whole == results@,
            rest@.len() + out@.len() == whole.len(),
            forall|k: int| 0 <= k < rest@.len() ==> rest@[k] == whole[whole.len() - 1 - k],
            forall|k: int| 0 <= k < out@.len() ==> (#[trigger] whole[k]) == Ok::<Regex, regex::Error>(out@[k]),
        decreases rest@.len(),
    {
        let ghost k = out@.len() as int;
        let next = rest.pop().unwrap();
        match next {
            Ok(re) => {
                out.push(re);
            },
            Err(_) => {
                return None;
            },
        }
    }
    Some(out)
}

/// What compiling each of `patterns` gives.
pub open spec fn compilations(patterns: Seq<Seq<char>>) -> Seq<Result<Regex, regex::Error>> {
    Seq::new(patterns.len(), |i: int| regex_new(patterns[i]))
}

/// The compiled expressions for the components of a manifest, or nothing
/// if one of them does not compile.
pub open spec fn bias_of(manifest: ManifestView) -> Option<Seq<Regex>> {
    let results = compilations(component_patterns(manifest));
    if all_compiled(results) {
        Some(compiled(results))
    } else {
        None
    }
}

/// Compiles the expressions for the components of a manifest. If one of
/// them does not compile, there are none.
pub fn component_regexes(manifest: &Manifest) -> (r: Option<Vec<Regex>>)
    ensures
        crate::dex::flatten::regex_list(r) == bias_of(manifest@),
{
    let list = patterns(manifest);
    let mut results: Vec<Result<Regex, regex::Error>> = Vec::new();
    let mut i: usize = 0;
    while i < list.len()
        invariant
            i <= list@.len(),
            results@ == compilations(pattern_views(list@)).take(i as int),
        decreases list.len() - i,
    {
        let result = compile(list[i].as_str());
        results.push(result);
        i += 1;
    }
    assert(results@ =~= compilations(pattern_views(list@)));
    all_or_nothing(results)
}

/// The compact forms of the methods.
pub open spec fn compact_names(methods: Seq<Method>) -> Seq<Seq<char>> {
    Seq::new(
        methods.len(),
        |i: int| methods[i].signature.class_type@ + methods[i].signature.method_name@,
    )
}

/// The opcode bytes of the methods.
pub open spec fn compact_codes(methods: Seq<Method>) -> Seq<Seq<u8>> {
    Seq::new(methods.len(), |i: int| opcode_bytes(methods[i].insns@))
}

/// The names of the compact methods.
pub open spec fn names_of(methods: Seq<CompactMethod>) -> Seq<Seq<char>> {
    Seq::new(methods.len(), |i: int| methods[i].signature@)
}

/// The opcode bytes of the compact methods.
pub open spec fn codes_of(methods: Seq<CompactMethod>) -> Seq<Seq<u8>> {
    Seq::new(methods.len(), |i: int| methods[i].insns@)
}

impl Apk {
    /// The compact form: the same manifest, and each method reduced to
    /// its class type followed by its name and to its opcode bytes, in the
    /// same order.
    pub fn to_compact(self) -> (r: CompactApk)
        ensures
            r.manifest == self.manifest,
            names_of(r.methods@) == compact_names(self.methods@),
            codes_of(r.methods@) == compact_codes(self.methods@),
    {
        let Apk { manifest, methods } = self;
        let ghost whole = methods@;
        let mut rest = reversed(methods);
        let mut out: Vec<CompactMethod> = Vec::new();
        while rest.len() > 0
            invariant
                rest@.len() + out@.len() == whole.len(),
                forall|k: int| 0 <= k < rest@.len() ==> rest@[k] == whole[whole.len() - 1 - k],
                forall|k: int|
                    0 <= k < out@.len() ==> (#[trigger] out@[k]).signature@
                        == whole[k].signature.class_type@ + whole[k].signature.method_name@
                        && out@[k].insns@ == opcode_bytes(whole[k].insns@),
            decreases rest@.len(),
        {
            let method = rest.pop().unwrap();
            out.push(CompactMethod::from_method(method));
        }
        CompactApk { manifest, methods: out }
    }

    /// Assembles the result from the manifest and the DEX files of an
    /// archive: the methods are flattened with the components of the
    /// manifest first; without a manifest, or with one whose component
    /// names do not all compile, they are flattened by signature alone.
    /// The second component of the result holds the errors of the
    /// methods that could not be decoded and were left out.
    pub fn assemble(manifest: Option<Manifest>, files: &[DexFile]) -> (r: (Apk, Vec<DexError>))
        ensures
            r.0.manifest == manifest,
            method_views(r.0.methods@) == flattened(
                graph_of(all_nodes(files@, files@.len())),
                marked(
                    match manifest {
                        Some(m) => bias_of(m@),
                        None => None,
                    },
                ),
            ),
            error_views(r.1@) == all_failures(files@, files@.len()),
    {
        let regexes = match &manifest {
            Some(m) => component_regexes(m),
            None => None,
        };
        let (methods, failures) = get_methods(files, regexes);
        (Apk { manifest, methods }, failures)
    }
}

} // verus!
