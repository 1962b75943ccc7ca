//! Package metadata and properties, read from the routines of a package script

use vstd::prelude::*;

use crate::instruction::{InstrKind, SInstrKind};
use crate::parse::{parsed_done, try_lex_and_parse, spec_lex_and_parse, Parsed, SParsed, ScriptError, ScriptOutcome};
use crate::routine::{meta_routine, properties_routine, METADATA_ROUTINE, PROPERTIES_ROUTINE};
use crate::shared::{GameSide, Later, ModloaderMatch, PluginLoaderMatch};
use crate::text::{opt_str_view, strings_contain, strings_copy};
use vstd::string::StringSliceAdditionalSpecFns;

verus! {

/// Content type of a package
#[derive(Debug, Copy, Clone, Default, PartialEq, Eq, Structural)]
pub enum PackageContentType {
    /// A package script
    #[default]
    Script,
    /// A declarative / JSON package
    Declarative,
}

/// The mathematical value of an optional list of strings.
pub open spec fn opt_strs_view(o: Option<Vec<String>>) -> Option<Seq<Seq<char>>> {
    match o {
        Some(v) => Some(v.deep_view()),
        None => None,
    }
}

/// Nonessential display information about a package
#[derive(Default, Debug, Clone)]
pub struct PackageMetadata {
    /// The name of the package
    pub name: Option<String>,
    /// The short description of the package
    pub description: Option<String>,
    /// The long description of the package
    pub long_description: Option<String>,
    /// The authors of the package content
    pub authors: Option<Vec<String>>,
    /// The maintainers of the package file
    pub package_maintainers: Option<Vec<String>>,
    /// The package's website
    pub website: Option<String>,
    /// The package's support page
    pub support_link: Option<String>,
    /// The package's documentation link
    pub documentation: Option<String>,
    /// The package's source repository
    pub source: Option<String>,
    /// The package's issues tracker
    pub issues: Option<String>,
    /// The package's online community
    pub community: Option<String>,
    /// A link to the package's icon
    pub icon: Option<String>,
    /// A link to the package's banner
    pub banner: Option<String>,
    /// Links to gallery images for the package
    pub gallery: Option<Vec<String>>,
    /// The license of the package
    pub license: Option<String>,
    /// The keywords for the package
    pub keywords: Option<Vec<String>>,
    /// The categories for the package
    pub categories: Option<Vec<String>>,
}

/// The mathematical value of package metadata.
pub struct SMetadata {
    pub name: Option<Seq<char>>,
    pub description: Option<Seq<char>>,
    pub long_description: Option<Seq<char>>,
    pub authors: Option<Seq<Seq<char>>>,
    pub package_maintainers: Option<Seq<Seq<char>>>,
    pub website: Option<Seq<char>>,
    pub support_link: Option<Seq<char>>,
    pub documentation: Option<Seq<char>>,
    pub source: Option<Seq<char>>,
    pub issues: Option<Seq<char>>,
    pub community: Option<Seq<char>>,
    pub icon: Option<Seq<char>>,
    pub banner: Option<Seq<char>>,
    pub gallery: Option<Seq<Seq<char>>>,
    pub license: Option<Seq<char>>,
    pub keywords: Option<Seq<Seq<char>>>,
    pub categories: Option<Seq<Seq<char>>>,
}

impl View for PackageMetadata {
    type V = SMetadata;

    open spec fn view(&self) -> SMetadata {
        SMetadata {
            name: opt_str_view(self.name),
            description: opt_str_view(self.description),
            long_description: opt_str_view(self.long_description),
            authors: opt_strs_view(self.authors),
            package_maintainers: opt_strs_view(self.package_maintainers),
            website: opt_str_view(self.website),
            support_link: opt_str_view(self.support_link),
            documentation: opt_str_view(self.documentation),
            source: opt_str_view(self.source),
            issues: opt_str_view(self.issues),
            community: opt_str_view(self.community),
            icon: opt_str_view(self.icon),
            banner: opt_str_view(self.banner),
            gallery: opt_strs_view(self.gallery),
            license: opt_str_view(self.license),
            keywords: opt_strs_view(self.keywords),
            categories: opt_strs_view(self.categories),
        }
    }
}

/// Metadata with no field set.
pub open spec fn empty_metadata() -> SMetadata {
    SMetadata {
        name: None,
        description: None,
        long_description: None,
        authors: None,
        package_maintainers: None,
        website: None,
        support_link: None,
        documentation: None,
        source: None,
        issues: None,
        community: None,
        icon: None,
        banner: None,
        gallery: None,
        license: None,
        keywords: None,
        categories: None,
    }
}

/// Whether every metadata field is unset.
pub open spec fn spec_metadata_empty(m: SMetadata) -> bool {
    m == empty_metadata()
}

/// Why a package routine could not be evaluated
#[derive(Debug, Clone, PartialEq, Eq)]
pub enum EvalError {
    /// An instruction that may not stand in the routine
    InstructionNotAllowed,
    /// A default feature that is not among the features
    UnknownDefaultFeature(String),
}

/// The mathematical value of an evaluation error.
pub enum SEvalError {
    InstructionNotAllowed,
    UnknownDefaultFeature(Seq<char>),
}

impl View for EvalError {
    type V = SEvalError;

    open spec fn view(&self) -> SEvalError {
        match self {
            EvalError::InstructionNotAllowed => SEvalError::InstructionNotAllowed,
            EvalError::UnknownDefaultFeature(f) => SEvalError::UnknownDefaultFeature(f@),
        }
    }
}

/// The value of a filled string argument.
pub open spec fn later_value(t: Later<Seq<char>>) -> Seq<char> {
    match t {
        Later::Full(s) => s,
        Later::Empty => Seq::empty(),
    }
}

/// What one instruction of the metadata routine sets, or `None` where it may not stand there.
pub open spec fn meta_step(m: SMetadata, k: SInstrKind) -> Option<SMetadata> {
    match k {
        SInstrKind::Name(t) => Some(SMetadata { name: Some(later_value(t)), ..m }),
        SInstrKind::Description(t) => Some(SMetadata { description: Some(later_value(t)), ..m }),
        SInstrKind::LongDescription(t) => Some(SMetadata { long_description: Some(later_value(t)), ..m }),
        SInstrKind::Authors(l) => Some(SMetadata { authors: Some(l), ..m }),
        SInstrKind::PackageMaintainers(l) => Some(SMetadata { package_maintainers: Some(l), ..m }),
        SInstrKind::Website(t) => Some(SMetadata { website: Some(later_value(t)), ..m }),
        SInstrKind::SupportLink(t) => Some(SMetadata { support_link: Some(later_value(t)), ..m }),
        SInstrKind::Documentation(t) => Some(SMetadata { documentation: Some(later_value(t)), ..m }),
        SInstrKind::Source(t) => Some(SMetadata { source: Some(later_value(t)), ..m }),
        SInstrKind::Issues(t) => Some(SMetadata { issues: Some(later_value(t)), ..m }),
        SInstrKind::Community(t) => Some(SMetadata { community: Some(later_value(t)), ..m }),
        SInstrKind::Icon(t) => Some(SMetadata { icon: Some(later_value(t)), ..m }),
        SInstrKind::Banner(t) => Some(SMetadata { banner: Some(later_value(t)), ..m }),
        SInstrKind::License(t) => Some(SMetadata { license: Some(later_value(t)), ..m }),
        SInstrKind::Keywords(l) => Some(SMetadata { keywords: Some(l), ..m }),
        SInstrKind::Categories(l) => Some(SMetadata { categories: Some(l), ..m }),
        _ => None,
    }
}

/// The metadata after a list of instructions, or `None` where one may not stand there.
pub open spec fn meta_run(m: SMetadata, ks: Seq<SInstrKind>) -> Option<SMetadata>
    decreases ks.len(),
{
    if ks.len() == 0 {
        Some(m)
    } else {
        match meta_run(m, ks.drop_last()) {
            Some(m2) => meta_step(m2, ks.last()),
            None => None,
        }
    }
}

proof fn lemma_meta_run_none(m: SMetadata, ks: Seq<SInstrKind>, n: int)
    requires
        0 <= n <= ks.len(),
        meta_run(m, ks.take(n)) is None,
    ensures
        meta_run(m, ks) is None,
    decreases ks.len() - n,
{
    if n < ks.len() {
        assert(ks.take(n + 1).drop_last() =~= ks.take(n));
        lemma_meta_run_none(m, ks, n + 1);
    } else {
        assert(ks.take(n) =~= ks);
    }
}

/// The instructions of a routine: the contents of its block, or none where the routine or
/// its block does not exist.
pub open spec fn routine_instrs(p: SParsed, routine: Seq<char>) -> Option<Seq<SInstrKind>> {
    if p.routines.contains_key(routine) {
        let id = p.routines[routine];
        if 1 <= id <= p.blocks.len() {
            Some(p.blocks[id - 1].contents)
        } else {
            None
        }
    } else {
        None
    }
}

/// The metadata that the `meta` routine of a script sets.
pub open spec fn spec_eval_metadata(p: SParsed) -> Result<SMetadata, SEvalError> {
    match routine_instrs(p, meta_routine()) {
        Some(ks) => match meta_run(empty_metadata(), ks) {
            Some(m) => Ok(m),
            None => Err(SEvalError::InstructionNotAllowed),
        },
        None => Ok(empty_metadata()),
    }
}

impl PackageMetadata {
    /// Metadata with no field set
    pub fn new() -> (r: PackageMetadata)
        ensures
            r@ == empty_metadata(),
    {
        PackageMetadata {
            name: None,
            description: None,
            long_description: None,
            authors: None,
            package_maintainers: None,
            website: None,
            support_link: None,
            documentation: None,
            source: None,
            issues: None,
            community: None,
            icon: None,
            banner: None,
            gallery: None,
            license: None,
            keywords: None,
            categories: None,
        }
    }

    /// Check the validity of the metadata; every metadata is valid
    pub fn check_validity(&self) -> (r: Result<(), EvalError>)
        ensures
            r is Ok,
    {
        Ok(())
    }

    /// Check if all metadata fields are empty
    pub fn is_empty(&self) -> (r: bool)
        ensures
            r == spec_metadata_empty(self@),
    {
        self.name.is_none() && self.description.is_none() && self.long_description.is_none()
            && self.authors.is_none() && self.package_maintainers.is_none()
            && self.website.is_none() && self.support_link.is_none()
            && self.documentation.is_none() && self.source.is_none() && self.issues.is_none()
            && self.community.is_none() && self.icon.is_none() && self.banner.is_none()
            && self.gallery.is_none() && self.license.is_none() && self.keywords.is_none()
            && self.categories.is_none()
    }
}

/// The string of a filled argument.
fn later_string(t: &Later<String>) -> (r: String)
    requires
        t is Full,
    ensures
        r@ == later_value(crate::instruction::later_view(*t)),
{
    match t {
        Later::Full(s) => s.clone(),
        Later::Empty => String::new(),
    }
}

/// The contents of a routine's block, if the routine and its block exist.
fn routine_block<'a>(parsed: &'a Parsed, routine: &str) -> (r: Option<&'a crate::parse::Block>)
    ensures
        match routine_instrs(parsed@, routine@) {
            Some(ks) => r matches Some(b) && b@.contents == ks,
            None => r is None,
        },
{
    match parsed.get_routine(routine) {
        Some(id) => match parsed.get_block(id) {
            Some(b) => Some(b),
            None => None,
        },
        None => None,
    }
}

/// Collect the metadata from a package script
pub fn eval_metadata(parsed: &Parsed) -> (r: Result<PackageMetadata, EvalError>)
    requires
        parsed_done(parsed@),
    ensures
        match spec_eval_metadata(parsed@) {
            Ok(m) => r matches Ok(out) && out@ == m,
            Err(e) => r matches Err(err) && err@ == e,
        },
{
    proof {
        crate::routine::lemma_routine_literals();
    }
    let block = match routine_block(parsed, METADATA_ROUTINE) {
        Some(b) => b,
        None => {
            return Ok(PackageMetadata::new());
        },
    };
    let ghost ks = block@.contents;
    proof {
        let p = parsed@;
        let id = p.routines[meta_routine()];
        assert forall|j: int| 0 <= j < ks.len() implies crate::parse::instr_done(#[trigger] ks[j]) by {
            assert(ks[j] == p.blocks[id - 1].contents[j]);
        }
    }
    let mut out = PackageMetadata::new();
    let mut i: usize = 0;
    while i < block.contents.len()
        invariant
            i <= block.contents@.len(),
            ks == block@.contents,
            routine_instrs(parsed@, meta_routine()) == Some(ks),
            ks.len() == block.contents@.len(),
            forall|j: int| 0 <= j < ks.len() ==> #[trigger] ks[j] == block.contents@[j].kind@,
            forall|j: int| 0 <= j < ks.len() ==> crate::parse::instr_done(#[trigger] ks[j]),
            meta_run(empty_metadata(), ks.take(i as int)) == Some(out@),
        decreases block.contents@.len() - i,
    {
        proof {
            assert(ks.take(i + 1).drop_last() =~= ks.take(i as int));
            assert(crate::parse::instr_done(ks[i as int]));
        }
        match &block.contents[i].kind {
            InstrKind::Name(t) => out.name = Some(later_string(t)),
            InstrKind::Description(t) => out.description = Some(later_string(t)),
            InstrKind::LongDescription(t) => out.long_description = Some(later_string(t)),
            InstrKind::Authors(l) => out.authors = Some(strings_copy(l)),
            InstrKind::PackageMaintainers(l) => out.package_maintainers = Some(strings_copy(l)),
            InstrKind::Website(t) => out.website = Some(later_string(t)),
            InstrKind::SupportLink(t) => out.support_link = Some(later_string(t)),
            InstrKind::Documentation(t) => out.documentation = Some(later_string(t)),
            InstrKind::Source(t) => out.source = Some(later_string(t)),
            InstrKind::Issues(t) => out.issues = Some(later_string(t)),
            InstrKind::Community(t) => out.community = Some(later_string(t)),
            InstrKind::Icon(t) => out.icon = Some(later_string(t)),
            InstrKind::Banner(t) => out.banner = Some(later_string(t)),
            InstrKind::License(t) => out.license = Some(later_string(t)),
            InstrKind::Keywords(l) => out.keywords = Some(strings_copy(l)),
            InstrKind::Categories(l) => out.categories = Some(strings_copy(l)),
            _ => {
                proof {
                    assert(ks.take(i + 1).last() == ks[i as int]);
                    assert(meta_step(out@, ks[i as int]) is None);
                    lemma_meta_run_none(empty_metadata(), ks, i + 1);
                    assert(routine_instrs(parsed@, meta_routine()) == Some(ks));
                    assert(meta_run(empty_metadata(), ks) is None);
                }
                return Err(EvalError::InstructionNotAllowed);
            },
        }
        i = i + 1;
    }
    proof {
        assert(ks.take(block.contents@.len() as int) =~= ks);
    }
    match out.check_validity() {
        Ok(()) => Ok(out),
        Err(e) => Err(e),
    }
}

/// The mathematical value of an optional list of copyable items.
pub open spec fn opt_list_view<T>(o: Option<Vec<T>>) -> Option<Seq<T>> {
    match o {
        Some(v) => Some(v@),
        None => None,
    }
}

/// Package properties derived from running the 'properties' routine
#[derive(Default, Debug, Clone)]
pub struct PackageProperties {
    /// Available features that can be configured for the package
    pub features: Option<Vec<String>>,
    /// Features enabled by default
    pub default_features: Option<Vec<String>>,
    /// The package's Modrinth ID
    pub modrinth_id: Option<String>,
    /// The package's CurseForge ID
    pub curseforge_id: Option<String>,
    /// The package's Smithed ID
    pub smithed_id: Option<String>,
    /// The package's supported modloaders
    pub supported_modloaders: Option<Vec<ModloaderMatch>>,
    /// The package's supported plugin loaders
    pub supported_plugin_loaders: Option<Vec<PluginLoaderMatch>>,
    /// The package's supported sides
    pub supported_sides: Option<Vec<GameSide>>,
    /// The package's semantic tags
    pub tags: Option<Vec<String>>,
}

/// The mathematical value of package properties.
pub struct SProperties {
    pub features: Option<Seq<Seq<char>>>,
    pub default_features: Option<Seq<Seq<char>>>,
    pub modrinth_id: Option<Seq<char>>,
    pub curseforge_id: Option<Seq<char>>,
    pub smithed_id: Option<Seq<char>>,
    pub supported_modloaders: Option<Seq<ModloaderMatch>>,
    pub supported_plugin_loaders: Option<Seq<PluginLoaderMatch>>,
    pub supported_sides: Option<Seq<GameSide>>,
    pub tags: Option<Seq<Seq<char>>>,
}

impl View for PackageProperties {
    type V = SProperties;

    open spec fn view(&self) -> SProperties {
        SProperties {
            features: opt_strs_view(self.features),
            default_features: opt_strs_view(self.default_features),
            modrinth_id: opt_str_view(self.modrinth_id),
            curseforge_id: opt_str_view(self.curseforge_id),
            smithed_id: opt_str_view(self.smithed_id),
            supported_modloaders: opt_list_view(self.supported_modloaders),
            supported_plugin_loaders: opt_list_view(self.supported_plugin_loaders),
            supported_sides: opt_list_view(self.supported_sides),
            tags: opt_strs_view(self.tags),
        }
    }
}

/// Properties with no field set.
pub open spec fn empty_properties() -> SProperties {
    SProperties {
        features: None,
        default_features: None,
        modrinth_id: None,
        curseforge_id: None,
        smithed_id: None,
        supported_modloaders: None,
        supported_plugin_loaders: None,
        supported_sides: None,
        tags: None,
    }
}

/// What one instruction of the properties routine sets, or `None` where it may not stand there.
pub open spec fn props_step(m: SProperties, k: SInstrKind) -> Option<SProperties> {
    match k {
        SInstrKind::Features(l) => Some(SProperties { features: Some(l), ..m }),
        SInstrKind::DefaultFeatures(l) => Some(SProperties { default_features: Some(l), ..m }),
        SInstrKind::ModrinthID(t) => Some(SProperties { modrinth_id: Some(later_value(t)), ..m }),
        SInstrKind::CurseForgeID(t) => Some(SProperties { curseforge_id: Some(later_value(t)), ..m }),
        SInstrKind::SupportedModloaders(l) => Some(SProperties { supported_modloaders: Some(l), ..m }),
        SInstrKind::SupportedPluginLoaders(l) => Some(SProperties { supported_plugin_loaders: Some(l), ..m }),
        SInstrKind::SupportedSides(l) => Some(SProperties { supported_sides: Some(l), ..m }),
        SInstrKind::Tags(l) => Some(SProperties { tags: Some(l), ..m }),
        _ => None,
    }
}

/// The properties after a list of instructions, or `None` where one may not stand there.
pub open spec fn props_run(m: SProperties, ks: Seq<SInstrKind>) -> Option<SProperties>
    decreases ks.len(),
{
    if ks.len() == 0 {
        Some(m)
    } else {
        match props_run(m, ks.drop_last()) {
            Some(m2) => props_step(m2, ks.last()),
            None => None,
        }
    }
}

proof fn lemma_props_run_none(m: SProperties, ks: Seq<SInstrKind>, n: int)
    requires
        0 <= n <= ks.len(),
        props_run(m, ks.take(n)) is None,
    ensures
        props_run(m, ks) is None,
    decreases ks.len() - n,
{
    if n < ks.len() {
        assert(ks.take(n + 1).drop_last() =~= ks.take(n));
        lemma_props_run_none(m, ks, n + 1);
    } else {
        assert(ks.take(n) =~= ks);
    }
}

/// The first default feature that is not among the features, in order.
pub open spec fn first_unknown_feature(defaults: Seq<Seq<char>>, features: Seq<Seq<char>>) -> Option<
    Seq<char>,
>
    decreases defaults.len(),
{
    if defaults.len() == 0 {
        None
    } else {
        match first_unknown_feature(defaults.drop_last(), features) {
            Some(f) => Some(f),
            None => if features.contains(defaults.last()) {
                None
            } else {
                Some(defaults.last())
            },
        }
    }
}

/// Whether properties are valid: where both are given, every default feature is a feature;
/// otherwise the first that is not.
pub open spec fn spec_check_properties(p: SProperties) -> Result<(), SEvalError> {
    match (p.default_features, p.features) {
        (Some(d), Some(f)) => match first_unknown_feature(d, f) {
            Some(x) => Err(SEvalError::UnknownDefaultFeature(x)),
            None => Ok(()),
        },
        _ => Ok(()),
    }
}

/// The properties that the `properties` routine of a script sets.
pub open spec fn spec_eval_properties(p: SParsed) -> Result<SProperties, SEvalError> {
    match routine_instrs(p, properties_routine()) {
        Some(ks) => match props_run(empty_properties(), ks) {
            Some(m) => match spec_check_properties(m) {
                Ok(()) => Ok(m),
                Err(e) => Err(e),
            },
            None => Err(SEvalError::InstructionNotAllowed),
        },
        None => Ok(empty_properties()),
    }
}

impl PackageProperties {
    /// Properties with no field set
    pub fn new() -> (r: PackageProperties)
        ensures
            r@ == empty_properties(),
    {
        PackageProperties {
            features: None,
            default_features: None,
            modrinth_id: None,
            curseforge_id: None,
            smithed_id: None,
            supported_modloaders: None,
            supported_plugin_loaders: None,
            supported_sides: None,
            tags: None,
        }
    }

    /// Check the validity of the properties
    pub fn check_validity(&self) -> (r: Result<(), EvalError>)
        ensures
            match spec_check_properties(self@) {
                Ok(()) => r is Ok,
                Err(e) => r matches Err(err) && err@ == e,
            },
    {
        match (&self.default_features, &self.features) {
            (Some(default_features), Some(features)) => {
                let ghost d = default_features.deep_view();
                let mut i: usize = 0;
                while i < default_features.len()
                    invariant
                        i <= default_features@.len(),
                        d == default_features.deep_view(),
                        self@.default_features == Some(d),
                        self@.features == Some(features.deep_view()),
                        first_unknown_feature(d.take(i as int), features.deep_view()) is None,
                    decreases default_features@.len() - i,
                {
                    proof {
                        assert(d.take(i + 1).drop_last() =~= d.take(i as int));
                    }
                    if !strings_contain(features, default_features[i].as_str()) {
                        proof {
                            assert(d.take(i + 1).last() == d[i as int]);
                            assert(first_unknown_feature(d.take(i + 1), features.deep_view()) == Some(d[i as int]));
                            lemma_first_unknown_prefix(d, features.deep_view(), i + 1);
                        }
                        return Err(EvalError::UnknownDefaultFeature(default_features[i].clone()));
                    }
                    i = i + 1;
                }
                proof {
                    assert(d.take(default_features@.len() as int) =~= d);
                }
                Ok(())
            },
            _ => Ok(()),
        }
    }
}

proof fn lemma_first_unknown_prefix(d: Seq<Seq<char>>, f: Seq<Seq<char>>, n: int)
    requires
        0 <= n <= d.len(),
        first_unknown_feature(d.take(n), f) is Some,
    ensures
        first_unknown_feature(d, f) == first_unknown_feature(d.take(n), f),
    decreases d.len() - n,
{
    if n < d.len() {
        assert(d.take(n + 1).drop_last() =~= d.take(n));
        lemma_first_unknown_prefix(d, f, n + 1);
    } else {
        assert(d.take(n) =~= d);
    }
}

/// Collect the properties from a package script
pub fn eval_properties(parsed: &Parsed) -> (r: Result<PackageProperties, EvalError>)
    requires
        parsed_done(parsed@),
    ensures
        match spec_eval_properties(parsed@) {
            Ok(m) => r matches Ok(out) && out@ == m,
            Err(e) => r matches Err(err) && err@ == e,
        },
{
    proof {
        crate::routine::lemma_routine_literals();
    }
    let block = match routine_block(parsed, PROPERTIES_ROUTINE) {
        Some(b) => b,
        None => {
            return Ok(PackageProperties::new());
        },
    };
    let ghost ks = block@.contents;
    proof {
        let p = parsed@;
        let id = p.routines[properties_routine()];
        assert forall|j: int| 0 <= j < ks.len() implies crate::parse::instr_done(#[trigger] ks[j]) by {
            assert(ks[j] == p.blocks[id - 1].contents[j]);
        }
    }
    let mut out = PackageProperties::new();
    let mut i: usize = 0;
    while i < block.contents.len()
        invariant
            i <= block.contents@.len(),
            ks == block@.contents,
            routine_instrs(parsed@, properties_routine()) == Some(ks),
            ks.len() == block.contents@.len(),
            forall|j: int| 0 <= j < ks.len() ==> #[trigger] ks[j] == block.contents@[j].kind@,
            forall|j: int| 0 <= j < ks.len() ==> crate::parse::instr_done(#[trigger] ks[j]),
            props_run(empty_properties(), ks.take(i as int)) == Some(out@),
        decreases block.contents@.len() - i,
    {
        proof {
            assert(ks.take(i + 1).drop_last() =~= ks.take(i as int));
            assert(crate::parse::instr_done(ks[i as int]));
        }
        match &block.contents[i].kind {
            InstrKind::Features(l) => out.features = Some(strings_copy(l)),
            InstrKind::DefaultFeatures(l) => out.default_features = Some(strings_copy(l)),
            InstrKind::ModrinthID(t) => out.modrinth_id = Some(later_string(t)),
            InstrKind::CurseForgeID(t) => out.curseforge_id = Some(later_string(t)),
            InstrKind::SupportedModloaders(l) => out.supported_modloaders = Some(copy_list(l)),
            InstrKind::SupportedPluginLoaders(l) => out.supported_plugin_loaders = Some(copy_list(l)),
            InstrKind::SupportedSides(l) => out.supported_sides = Some(copy_list(l)),
            InstrKind::Tags(l) => out.tags = Some(strings_copy(l)),
            _ => {
                proof {
                    assert(ks.take(i + 1).last() == ks[i as int]);
                    assert(props_step(out@, ks[i as int]) is None);
                    lemma_props_run_none(empty_properties(), ks, i + 1);
                }
                return Err(EvalError::InstructionNotAllowed);
            },
        }
        i = i + 1;
    }
    proof {
        assert(ks.take(block.contents@.len() as int) =~= ks);
    }
    match out.check_validity() {
        Ok(()) => Ok(out),
        Err(e) => Err(e),
    }
}

/// A copy of a list of copyable items.
fn copy_list<T: Copy>(v: &Vec<T>) -> (r: Vec<T>)
    ensures
        r@ == v@,
{
    let mut out: Vec<T> = Vec::new();
    let mut i: usize = 0;
    while i < v.len()
        invariant
            i <= v@.len(),
            out@ == v@.take(i as int),
        decreases v@.len() - i,
    {
        out.push(v[i]);
        proof {
            assert(v@.take(i + 1) =~= v@.take(i as int).push(v@[i as int]));
        }
        i = i + 1;
    }
    proof {
        assert(v@.take(v@.len() as int) =~= v@);
    }
    out
}

/// Why a package is not valid
#[derive(Debug)]
pub enum PackageError {
    /// Parsing failed
    Parse(ScriptError),
    /// Metadata evaluation failed
    Metadata(EvalError),
    /// Properties evaluation failed
    Properties(EvalError),
}

/// The result of parsing and validating a script: `Ok` when it parses and its metadata and
/// properties evaluate.
pub enum SValidation {
    Valid,
    ParseFail(ScriptOutcome),
    MetadataFail(SEvalError),
    PropertiesFail(SEvalError),
}

/// What parsing and validating a package script gives.
pub open spec fn spec_validate_script(text: &str) -> SValidation {
    match spec_lex_and_parse(text) {
        ScriptOutcome::Parsed(p) => match spec_eval_metadata(p) {
            Err(e) => SValidation::MetadataFail(e),
            Ok(_) => match spec_eval_properties(p) {
                Err(e) => SValidation::PropertiesFail(e),
                Ok(_) => SValidation::Valid,
            },
        },
        other => SValidation::ParseFail(other),
    }
}

/// Parses and validates a package script
pub fn parse_and_validate(contents: &str) -> (r: Result<(), PackageError>)
    requires
        contents.spec_bytes().len() < usize::MAX,
        !(spec_lex_and_parse(contents) is Panic),
    ensures
        validation_matches(contents, r),
{
    match try_parse_and_validate(contents) {
        Some(r) => r,
        None => vstd::pervasive::unreached(),
    }
}

/// The result `r` is what validating the script `text` gives.
pub open spec fn validation_matches(text: &str, r: Result<(), PackageError>) -> bool {
    match spec_validate_script(text) {
        SValidation::Valid => r is Ok,
        SValidation::ParseFail(o) => r matches Err(PackageError::Parse(e)) && match o {
            ScriptOutcome::LexFail(le) => e matches ScriptError::Lex(x) && x@ == le,
            ScriptOutcome::ParseFail(pe) => e matches ScriptError::Parse(x) && x@ == pe,
            _ => false,
        },
        SValidation::MetadataFail(e) => r matches Err(PackageError::Metadata(x)) && x@ == e,
        SValidation::PropertiesFail(e) => r matches Err(PackageError::Properties(x)) && x@ == e,
    }
}

/// Parses and validates a package script where lexing and parsing it do not panic; `None`
/// where they would
pub fn try_parse_and_validate(contents: &str) -> (r: Option<Result<(), PackageError>>)
    requires
        contents.spec_bytes().len() < usize::MAX,
    ensures
        r is None <==> spec_lex_and_parse(contents) is Panic,
        r matches Some(v) ==> validation_matches(contents, v),
{
    let parsed = match try_lex_and_parse(contents) {
        Some(Ok(p)) => p,
        Some(Err(e)) => {
            return Some(Err(PackageError::Parse(e)));
        },
        None => {
            return None;
        },
    };
    match eval_metadata(&parsed) {
        Ok(_) => {},
        Err(e) => {
            return Some(Err(PackageError::Metadata(e)));
        },
    }
    match eval_properties(&parsed) {
        Ok(_) => Some(Ok(())),
        Err(e) => Some(Err(PackageError::Properties(e))),
    }
}

/// Validate the metadata and properties of a declarative package
pub fn validate_declarative_package(meta: &PackageMetadata, properties: &PackageProperties) -> (r:
    Result<(), PackageError>)
    ensures
        match spec_check_properties(properties@) {
            Ok(()) => r is Ok,
            Err(e) => r matches Err(PackageError::Properties(x)) && x@ == e,
        },
{
    match meta.check_validity() {
        Ok(()) => {},
        Err(e) => {
            return Err(PackageError::Metadata(e));
        },
    }
    match properties.check_validity() {
        Ok(()) => Ok(()),
        Err(e) => Err(PackageError::Properties(e)),
    }
}

} // verus!
