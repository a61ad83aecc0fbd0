//! One mod directory's worth of data: the raw file contents a scanner hands
//! over, the parsed entry types, and the trusted calls into the json5 parser
//! that turn the former into the latter.
use vstd::prelude::*;

verus! {

/// Failure to resolve or list a kind's root directory; per spec these are the
/// only errors a reload can surface.
#[derive(Clone, Copy, Debug, PartialEq, Eq, Structural)]
pub enum DiscoveryError {
    RootNotFound,
    RootNotReadable,
}

/// The one per-entry failure: the required metadata file is missing,
/// unreadable, or malformed.
#[derive(Clone, Copy, Debug, PartialEq, Eq, Structural)]
pub enum ParseError {
    RequiredMetadataInvalid,
}

/// The required metadata of a mod, as read from its `mod.json`.
pub struct ModJson {
    pub name: String,
    pub version: String,
    pub description: String,
    pub load_priority: Option<i32>,
}

/// Mathematical image of `ModJson`.
pub ghost struct ModJsonV {
    pub name: Seq<char>,
    pub version: Seq<char>,
    pub description: Seq<char>,
    pub load_priority: Option<i32>,
}

impl View for ModJson {
    type V = ModJsonV;

    open spec fn view(&self) -> ModJsonV {
        ModJsonV {
            name: self.name@,
            version: self.version@,
            description: self.description@,
            load_priority: self.load_priority,
        }
    }
}

/// Thunderstore's extended manifest, exactly as the outside crate parses it.
/// The core carries it through opaquely and never reads inside it.
#[verifier::external_type_specification]
#[verifier::external_body]
pub struct ExManifest(thermite::model::Manifest);

/// What the scanner hands over for one candidate mod directory: its path and
/// the raw contents of the three files of interest, each absent when the file
/// does not exist or could not be read.
pub struct ModDirScan {
    pub path: String,
    pub mod_json: Option<String>,
    pub manifest: Option<String>,
    pub author: Option<String>,
}

/// Mathematical image of `ModDirScan`.
pub ghost struct ModDirScanV {
    pub path: Seq<char>,
    pub mod_json: Option<Seq<char>>,
    pub manifest: Option<Seq<char>>,
    pub author: Option<Seq<char>>,
}

pub open spec fn opt_string_view(o: Option<String>) -> Option<Seq<char>> {
    match o {
        Option::Some(s) => Option::Some(s@),
        Option::None => Option::None,
    }
}

impl View for ModDirScan {
    type V = ModDirScanV;

    open spec fn view(&self) -> ModDirScanV {
        ModDirScanV {
            path: self.path@,
            mod_json: opt_string_view(self.mod_json),
            manifest: opt_string_view(self.manifest),
            author: opt_string_view(self.author),
        }
    }
}

/// One installed mod: required metadata, plus the optional extended manifest
/// and author string, and where it was found.
pub struct InstalledModPartial {
    pub manifest: Option<thermite::model::Manifest>,
    pub mod_json: ModJson,
    pub author: Option<String>,
    pub path: String,
}

/// Mathematical image of `InstalledModPartial`. The manifest is opaque to the
/// core, so only its presence is recorded.
pub ghost struct InstalledModV {
    pub has_manifest: bool,
    pub mod_json: ModJsonV,
    pub author: Option<Seq<char>>,
    pub path: Seq<char>,
}

impl View for InstalledModPartial {
    type V = InstalledModV;

    open spec fn view(&self) -> InstalledModV {
        InstalledModV {
            has_manifest: self.manifest is Some,
            mod_json: self.mod_json@,
            author: opt_string_view(self.author),
            path: self.path@,
        }
    }
}

/// One installed plugin; only the file name is kept.
pub struct InstalledPlugins {
    pub name: String,
}

impl View for InstalledPlugins {
    type V = Seq<char>;

    open spec fn view(&self) -> Seq<char> {
        self.name@
    }
}

/// Names the result of `json5::from_str::<thermite::model::ModJSON>` on a
/// text: the metadata fields this core keeps when the text parses, `None`
/// when it does not. The result depends on the text alone.
pub uninterp spec fn json5_mod_json(s: Seq<char>) -> Option<ModJsonV>;

/// Names whether `json5::from_str::<thermite::model::Manifest>` succeeds on a
/// text. The outcome depends on the text alone.
pub uninterp spec fn json5_manifest_ok(s: Seq<char>) -> bool;

pub open spec fn mod_json_view_opt(o: Option<ModJson>) -> Option<ModJsonV> {
    match o {
        Option::Some(m) => Option::Some(m@),
        Option::None => Option::None,
    }
}

/// Relies on `json5::from_str::<thermite::model::ModJSON>`: deserializes
/// lenient JSON text; which inputs parse, and the fields of the parsed value,
/// are named by `json5_mod_json`.
#[verifier::external_body]
fn parse_mod_json(s: &str) -> (r: Option<ModJson>)
    ensures
        mod_json_view_opt(r) == json5_mod_json(s@),
{
    match json5::from_str::<thermite::model::ModJSON>(s) {
        Ok(m) => Some(ModJson {
            name: m.name,
            version: m.version,
            description: m.description,
            load_priority: m.load_priority,
        }),
        Err(_) => None,
    }
}

/// Relies on `json5::from_str::<thermite::model::Manifest>`: deserializes the
/// extended manifest, which the core then carries opaquely; whether the text
/// parses is named by `json5_manifest_ok`.
#[verifier::external_body]
fn parse_manifest(s: &str) -> (r: Option<thermite::model::Manifest>)
    ensures
        (r is Some) == json5_manifest_ok(s@),
{
    json5::from_str::<thermite::model::Manifest>(s).ok()
}

/// What the entry parser yields for one scanned directory, at the
/// specification level: `None` exactly when the required metadata is absent
/// or malformed.
pub open spec fn parse_entry_spec(d: ModDirScanV) -> Option<InstalledModV> {
    match d.mod_json {
        Option::Some(s) => match json5_mod_json(s) {
            Option::Some(mj) => Option::Some(
                InstalledModV {
                    has_manifest: match d.manifest {
                        Option::Some(m) => json5_manifest_ok(m),
                        Option::None => false,
                    },
                    mod_json: mj,
                    author: d.author,
                    path: d.path,
                },
            ),
            Option::None => Option::None,
        },
        Option::None => Option::None,
    }
}

/// Parse one scanned mod directory into an entry. The required `mod.json`
/// must parse; absence or malformation of the extended manifest or of the
/// author file is not an error and leaves the field absent.
pub fn extract_mod_info(d: ModDirScan) -> (r: Result<InstalledModPartial, ParseError>)
    ensures
        match r {
            Result::Ok(e) => parse_entry_spec(d@) == Option::Some(e@),
            Result::Err(pe) => parse_entry_spec(d@) is None && pe
                == ParseError::RequiredMetadataInvalid,
        },
{
    let ModDirScan { path, mod_json, manifest, author } = d;
    let mj = match mod_json {
        Option::Some(s) => match parse_mod_json(s.as_str()) {
            Option::Some(m) => m,
            Option::None => {
                return Result::Err(ParseError::RequiredMetadataInvalid);
            },
        },
        Option::None => {
            return Result::Err(ParseError::RequiredMetadataInvalid);
        },
    };
    let mf = match manifest {
        Option::Some(s) => parse_manifest(s.as_str()),
        Option::None => Option::None,
    };
    Result::Ok(InstalledModPartial { manifest: mf, mod_json: mj, author, path })
}

/// Would this scanned directory contribute an entry? Discovery drops the
/// failures silently by design; this test lets a caller observe (for
/// instance, log) which directories were dropped, without changing that
/// behaviour.
pub fn mod_dir_parses(d: &ModDirScan) -> (r: bool)
    ensures
        r == (parse_entry_spec(d@) is Some),
{
    match &d.mod_json {
        Option::Some(s) => match parse_mod_json(s.as_str()) {
            Option::Some(_) => true,
            Option::None => false,
        },
        Option::None => false,
    }
}

/// Law: a directory whose required metadata parses and that has no manifest
/// file and no author file yields exactly one entry with both optional fields
/// absent.
pub proof fn lemma_bare_mod_dir_entry(d: ModDirScanV)
    requires
        d.mod_json is Some,
        json5_mod_json(d.mod_json->0) is Some,
        d.manifest is None,
        d.author is None,
    ensures
        parse_entry_spec(d) matches Option::Some(e) && !e.has_manifest && e.author is None
            && e.mod_json == json5_mod_json(d.mod_json->0)->0 && e.path == d.path,
{
}

} // verus!
