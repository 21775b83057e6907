//! The configuration store: single-writer planning of every load, save and
//! read-modify-write update of the on-disk document.
//!
//! The store owns the document's path and all decisions, while the
//! embedding application performs the file system effects it is told to:
//! each planning method takes the file's current content (`None` when the
//! file is absent) and returns the document together with what must be
//! written.  A missing file bootstraps the default document; an unparseable
//! file is recovered by copying it aside and writing the default; both are
//! pinned down here and every write round-trips through the proved codec.
//! Access must be serialized by the caller: two interleaved updates could
//! lose the first writer's change.

use vstd::prelude::*;
use crate::model::AppConfig;
use crate::model::AppearanceConfig;
use crate::model::AIConfig;
use crate::model::ConfigUpdate;
use crate::model::UpdateV;
use crate::model::DocV;
use crate::model::AppearanceV;
use crate::model::spec_default_doc;
use crate::model::spec_apply_update;
use crate::model::update_wf;
use crate::model::appearance_wf;
use crate::model::ai_wf;
use crate::model::milli_in_range;
use crate::model::doc_wf;
use crate::model::lemma_default_doc_wf;
use crate::model::lemma_apply_update_preserves_wf;
use crate::model::copy_bytes;
use crate::codec::render_document;
use crate::codec::parse_document;
use crate::codec::spec_render_doc;
use crate::codec::spec_parse_doc;
use crate::codec::lemma_parse_render_roundtrip;

verus! {

/// Failures of the store itself.  Decode failures on load are not
/// surfaced: they take the recovery path inside `load` instead.  The store
/// performs no I/O, so a filesystem failure cannot arise here; the
/// embedding application surfaces it verbatim, with the system's own
/// detail, at the edge where it happens.
#[derive(Clone, Copy, Debug, PartialEq, Eq, Structural)]
pub enum ConfigError {
    /// The bytes do not decode to a document.
    DeserializationError,
    /// No per-user configuration directory could be determined.
    DirectoryError,
}

impl ConfigError {
    /// A short description for user-facing reporting, one distinct text per
    /// variant.
    pub fn message(&self) -> (r: &'static str)
        ensures
            self is DeserializationError ==> r@ == "configuration file could not be decoded"@,
            self is DirectoryError ==> r@ == "no configuration directory could be determined"@,
    {
        match self {
            ConfigError::DeserializationError => "configuration file could not be decoded",
            ConfigError::DirectoryError => "no configuration directory could be determined",
        }
    }
}

/// What a load decided: the document to hand out, bytes that must be
/// written back to the config path first (bootstrap and recovery), and
/// corrupt content to copy aside as a backup before that write.
pub struct LoadOutcome {
    pub config: AppConfig,
    pub write_back: Option<Vec<u8>>,
    pub backup: Option<Vec<u8>>,
}

/// What an update decided: the mutated document, its serialized form to
/// overwrite the config path with, and corrupt previous content to copy
/// aside first.
pub struct UpdateOutcome {
    pub config: AppConfig,
    pub bytes: Vec<u8>,
    pub backup: Option<Vec<u8>>,
}

/// The document `load` yields for given file content: the parsed document
/// when the content parses, the default document otherwise (absent file or
/// corrupt content).
pub open spec fn spec_loaded(on_disk: Option<Seq<u8>>) -> DocV {
    match on_disk {
        Some(b) => match spec_parse_doc(b) {
            Some(c) => c,
            None => spec_default_doc(),
        },
        None => spec_default_doc(),
    }
}

/// View of the optional file content handed to a planning method.
pub open spec fn spec_opt_bytes(on_disk: Option<&Vec<u8>>) -> Option<Seq<u8>> {
    match on_disk {
        Some(b) => Some(b@),
        None => None,
    }
}

/// The backup a mutation plan must carry: exactly the file's previous
/// content, and exactly when that content exists and does not parse.
pub open spec fn spec_backup_plan(on_disk: Option<&Vec<u8>>, backup: Option<Vec<u8>>) -> bool {
    match on_disk {
        None => backup is None,
        Some(b) => ({
            &&& (spec_parse_doc(b@) is Some ==> backup is None)
            &&& (spec_parse_doc(b@) is None ==> (match backup {
                Some(k) => k@ == b@,
                None => false,
            }))
        }),
    }
}

/// Relies on dirs::config_dir for the platform's per-user configuration
/// directory, and on std::path::Path::join to place the named file inside
/// the named application directory.  The result depends on the environment,
/// so nothing is promised of it.
#[verifier::external_body]
fn os_config_file_path(app_name: &str, file_name: &str) -> (r: Option<String>) {
    dirs::config_dir().map(
        |d| d.join(app_name).join(file_name).to_string_lossy().into_owned(),
    )
}

/// The configuration store.  It owns the document's path and plans every
/// operation; the embedding application performs the planned file effects.
pub struct ConfigManager {
    path: String,
}

impl View for ConfigManager {
    type V = Seq<char>;

    closed spec fn view(&self) -> Seq<char> {
        self.path@
    }
}

/// Decodes on-disk bytes into a document, failing exactly when they do not
/// parse.
pub fn parse_config(bytes: &Vec<u8>) -> (r: Result<AppConfig, ConfigError>)
    ensures
        match r {
            Ok(c) => spec_parse_doc(bytes@) == Some(c@) && doc_wf(c@),
            Err(e) => e == ConfigError::DeserializationError && spec_parse_doc(bytes@) is None,
        },
{
    match parse_document(bytes) {
        Some(c) => Ok(c),
        None => Err(ConfigError::DeserializationError),
    }
}

impl ConfigManager {
    /// Builds the store for the per-user configuration location of
    /// `app_name`; `DirectoryError` when the platform offers none.
    pub fn new(app_name: &str) -> (r: Result<ConfigManager, ConfigError>)
        ensures
            r matches Err(e) ==> e == ConfigError::DirectoryError,
    {
        match os_config_file_path(app_name, "config.toml") {
            Some(p) => Ok(ConfigManager { path: p }),
            None => Err(ConfigError::DirectoryError),
        }
    }

    /// Builds the store over an explicit path.
    pub fn from_path(path: String) -> (m: ConfigManager)
        ensures
            m@ == path@,
    {
        ConfigManager { path }
    }

    /// The path of the backing file.
    pub fn config_path(&self) -> (p: &String)
        ensures
            p@ == self@,
    {
        &self.path
    }

    /// Plans a load given the file's current content (`None`: absent).
    /// An absent file bootstraps the default document and asks for it to be
    /// persisted; unparseable content is recovered by backing the bytes up
    /// and persisting the default; parseable content is simply decoded.
    pub fn load(&self, on_disk: Option<&Vec<u8>>) -> (r: LoadOutcome)
        ensures
            doc_wf(r.config@),
            r.config@ == spec_loaded(spec_opt_bytes(on_disk)),
            match on_disk {
                None => ({
                    &&& (match r.write_back {
                        Some(w) => w@ == spec_render_doc(spec_default_doc()),
                        None => false,
                    })
                    &&& r.backup is None
                }),
                Some(b) => ({
                    &&& (spec_parse_doc(b@) is Some ==> r.write_back is None && r.backup is None)
                    &&& (spec_parse_doc(b@) is None ==> ({
                        &&& (match r.write_back {
                            Some(w) => w@ == spec_render_doc(spec_default_doc()),
                            None => false,
                        })
                        &&& (match r.backup {
                            Some(k) => k@ == b@,
                            None => false,
                        })
                    }))
                }),
            },
    {
        match on_disk {
            None => {
                let d = AppConfig::default();
                proof {
                    lemma_default_doc_wf();
                }
                let bytes = render_document(&d);
                LoadOutcome { config: d, write_back: Some(bytes), backup: None }
            },
            Some(b) => match parse_document(b) {
                Some(c) => LoadOutcome { config: c, write_back: None, backup: None },
                None => {
                    let d = AppConfig::default();
                    proof {
                        lemma_default_doc_wf();
                    }
                    let bytes = render_document(&d);
                    LoadOutcome { config: d, write_back: Some(bytes), backup: Some(copy_bytes(b)) }
                },
            },
        }
    }

    /// Serializes the whole document (never a partial section) for an
    /// overwrite of the config path.
    pub fn save(&self, config: &AppConfig) -> (bytes: Vec<u8>)
        requires
            doc_wf(config@),
        ensures
            bytes@ == spec_render_doc(config@),
    {
        render_document(config)
    }

    /// The read-modify-write primitive: loads from the given content,
    /// applies the mutation, and serializes the result; every section
    /// setter goes through this one path, recovery included.
    pub fn update(&self, on_disk: Option<&Vec<u8>>, u: &ConfigUpdate) -> (r: UpdateOutcome)
        requires
            update_wf(u@),
        ensures
            doc_wf(r.config@),
            r.config@ == spec_apply_update(spec_loaded(spec_opt_bytes(on_disk)), u@),
            r.bytes@ == spec_render_doc(r.config@),
            spec_backup_plan(on_disk, r.backup),
    {
        let lo = self.load(on_disk);
        let newc = lo.config.apply_update(u);
        proof {
            lemma_apply_update_preserves_wf(lo.config@, u@);
        }
        let bytes = render_document(&newc);
        UpdateOutcome { config: newc, bytes, backup: lo.backup }
    }

    /// Replaces the appearance section through the update primitive.
    pub fn update_appearance(&self, on_disk: Option<&Vec<u8>>, a: AppearanceConfig) -> (r:
        UpdateOutcome)
        requires
            appearance_wf(a@),
        ensures
            doc_wf(r.config@),
            r.config@ == spec_apply_update(
                spec_loaded(spec_opt_bytes(on_disk)),
                UpdateV::Appearance(a@),
            ),
            r.bytes@ == spec_render_doc(r.config@),
            spec_backup_plan(on_disk, r.backup),
    {
        self.update(on_disk, &ConfigUpdate::Appearance(a))
    }

    /// Replaces the AI section through the update primitive.
    pub fn update_ai(&self, on_disk: Option<&Vec<u8>>, a: AIConfig) -> (r: UpdateOutcome)
        requires
            ai_wf(a@),
        ensures
            doc_wf(r.config@),
            r.config@ == spec_apply_update(spec_loaded(spec_opt_bytes(on_disk)), UpdateV::Ai(a@)),
            r.bytes@ == spec_render_doc(r.config@),
            spec_backup_plan(on_disk, r.backup),
    {
        self.update(on_disk, &ConfigUpdate::Ai(a))
    }

    /// Records the main window center through the update primitive.
    pub fn save_main_window_position(
        &self,
        on_disk: Option<&Vec<u8>>,
        x_milli: i64,
        y_milli: i64,
    ) -> (r: UpdateOutcome)
        requires
            milli_in_range(x_milli as int),
            milli_in_range(y_milli as int),
        ensures
            doc_wf(r.config@),
            r.config@ == spec_apply_update(
                spec_loaded(spec_opt_bytes(on_disk)),
                UpdateV::MainWindowPosition { x_milli: x_milli as int, y_milli: y_milli as int },
            ),
            r.bytes@ == spec_render_doc(r.config@),
            spec_backup_plan(on_disk, r.backup),
    {
        self.update(on_disk, &ConfigUpdate::MainWindowPosition { x_milli, y_milli })
    }

    /// Records the settings window bounds through the update primitive.
    pub fn save_settings_window_bounds(
        &self,
        on_disk: Option<&Vec<u8>>,
        x_milli: i64,
        y_milli: i64,
        width_milli: i64,
        height_milli: i64,
    ) -> (r: UpdateOutcome)
        requires
            milli_in_range(x_milli as int),
            milli_in_range(y_milli as int),
            milli_in_range(width_milli as int),
            milli_in_range(height_milli as int),
        ensures
            doc_wf(r.config@),
            r.config@ == spec_apply_update(
                spec_loaded(spec_opt_bytes(on_disk)),
                UpdateV::SettingsWindowBounds {
                    x_milli: x_milli as int,
                    y_milli: y_milli as int,
                    width_milli: width_milli as int,
                    height_milli: height_milli as int,
                },
            ),
            r.bytes@ == spec_render_doc(r.config@),
            spec_backup_plan(on_disk, r.backup),
    {
        self.update(
            on_disk,
            &ConfigUpdate::SettingsWindowBounds { x_milli, y_milli, width_milli, height_milli },
        )
    }
}

/// Bootstrap and recovery leave a stable file: the default document that
/// `load` persists for an absent or corrupt file parses back to the default
/// document, so a second load returns the same value and plans no further
/// write.
pub proof fn lemma_written_default_reloads()
    ensures
        spec_parse_doc(spec_render_doc(spec_default_doc())) == Some(spec_default_doc()),
{
    lemma_default_doc_wf();
    lemma_parse_render_roundtrip(spec_default_doc());
}

/// Logical atomicity of an appearance update: once the update's bytes are
/// on disk, a reload sees exactly the new appearance section, and the AI
/// and window sections are untouched.
pub proof fn lemma_update_appearance_roundtrip(d: DocV, a: AppearanceV)
    requires
        doc_wf(d),
        appearance_wf(a),
    ensures
        ({
            let d2 = spec_apply_update(d, UpdateV::Appearance(a));
            &&& spec_parse_doc(spec_render_doc(d2)) == Some(d2)
            &&& d2.appearance == a
            &&& d2.ai == d.ai
            &&& d2.window == d.window
        }),
{
    lemma_apply_update_preserves_wf(d, UpdateV::Appearance(a));
    lemma_parse_render_roundtrip(spec_apply_update(d, UpdateV::Appearance(a)));
}

/// Logical atomicity of every update: the persisted bytes of the mutated
/// document reload to exactly that document.
pub proof fn lemma_update_roundtrip(d: DocV, u: UpdateV)
    requires
        doc_wf(d),
        update_wf(u),
    ensures
        spec_parse_doc(spec_render_doc(spec_apply_update(d, u))) == Some(spec_apply_update(d, u)),
{
    lemma_apply_update_preserves_wf(d, u);
    lemma_parse_render_roundtrip(spec_apply_update(d, u));
}

} // verus!
