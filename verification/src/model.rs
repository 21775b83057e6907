//! The configuration document: typed sections, compiled-in defaults,
//! well-formedness, and the pure read-modify-write mutations.
//!
//! Real-valued settings (opacity, temperature, window coordinates) are
//! carried as integers in thousandths ("milli" units), so that the document
//! needs no floating point: an opacity of `1.0` is stored as `1000`.
//! Free-form text settings are carried as UTF-8 bytes.

use vstd::prelude::*;

verus! {

/// Magnitude bound on every milli-unit field of the document, generous
/// enough for any screen coordinate while keeping all codec arithmetic
/// comfortably inside `i64`.
pub const MAX_ABS_MILLI: i64 = 1000000000000000;

/// Mathematical value of an appearance section.
#[verifier::ext_equal]
pub ghost struct AppearanceV {
    pub pet_size: int,
    pub pet_opacity_milli: int,
    pub show_border: bool,
}

/// Mathematical value of an AI-assistant section.
#[verifier::ext_equal]
pub ghost struct AiV {
    pub api_key: Seq<u8>,
    pub base_url: Seq<u8>,
    pub model: Seq<u8>,
    pub temperature_milli: int,
    pub max_tokens: int,
    pub system_prompt: Option<Seq<u8>>,
}

/// Mathematical value of a window-placement section.
#[verifier::ext_equal]
pub ghost struct WindowV {
    pub main_window_x_milli: int,
    pub main_window_y_milli: int,
    pub settings_window_x_milli: Option<int>,
    pub settings_window_y_milli: Option<int>,
    pub settings_window_width_milli: Option<int>,
    pub settings_window_height_milli: Option<int>,
}

/// Mathematical value of a whole configuration document.
#[verifier::ext_equal]
pub ghost struct DocV {
    pub appearance: AppearanceV,
    pub ai: AiV,
    pub window: WindowV,
}

/// Appearance settings of the pet window.
#[derive(Debug)]
pub struct AppearanceConfig {
    /// Pet size in pixels; positive.
    pub pet_size: i32,
    /// Pet opacity in thousandths, between 0 and 1000 (opaque).
    pub pet_opacity_milli: i64,
    /// Whether the pet window draws a border.
    pub show_border: bool,
}

/// Settings of the AI assistant.
#[derive(Debug)]
pub struct AIConfig {
    /// Provider API key (secret; may be empty), as UTF-8 bytes.
    pub api_key: Vec<u8>,
    /// Provider endpoint URL, as UTF-8 bytes.
    pub base_url: Vec<u8>,
    /// Model identifier, as UTF-8 bytes.
    pub model: Vec<u8>,
    /// Sampling temperature in thousandths.
    pub temperature_milli: i64,
    /// Response length limit; positive.
    pub max_tokens: i32,
    /// Optional system prompt, as UTF-8 bytes.
    pub system_prompt: Option<Vec<u8>>,
}

/// Persisted window placement.
#[derive(Debug)]
pub struct WindowConfig {
    /// Main window center, in milli logical units.
    pub main_window_x_milli: i64,
    pub main_window_y_milli: i64,
    /// Settings window bounds, present only once that window has been moved
    /// or resized.
    pub settings_window_x_milli: Option<i64>,
    pub settings_window_y_milli: Option<i64>,
    pub settings_window_width_milli: Option<i64>,
    pub settings_window_height_milli: Option<i64>,
}

/// The root persisted document.
#[derive(Debug)]
pub struct AppConfig {
    pub appearance: AppearanceConfig,
    pub ai: AIConfig,
    pub window: WindowConfig,
}

impl View for AppearanceConfig {
    type V = AppearanceV;

    open spec fn view(&self) -> AppearanceV {
        AppearanceV {
            pet_size: self.pet_size as int,
            pet_opacity_milli: self.pet_opacity_milli as int,
            show_border: self.show_border,
        }
    }
}

impl View for AIConfig {
    type V = AiV;

    open spec fn view(&self) -> AiV {
        AiV {
            api_key: self.api_key@,
            base_url: self.base_url@,
            model: self.model@,
            temperature_milli: self.temperature_milli as int,
            max_tokens: self.max_tokens as int,
            system_prompt: match self.system_prompt {
                Some(p) => Some(p@),
                None => None,
            },
        }
    }
}

impl View for WindowConfig {
    type V = WindowV;

    open spec fn view(&self) -> WindowV {
        WindowV {
            main_window_x_milli: self.main_window_x_milli as int,
            main_window_y_milli: self.main_window_y_milli as int,
            settings_window_x_milli: match self.settings_window_x_milli {
                Some(v) => Some(v as int),
                None => None,
            },
            settings_window_y_milli: match self.settings_window_y_milli {
                Some(v) => Some(v as int),
                None => None,
            },
            settings_window_width_milli: match self.settings_window_width_milli {
                Some(v) => Some(v as int),
                None => None,
            },
            settings_window_height_milli: match self.settings_window_height_milli {
                Some(v) => Some(v as int),
                None => None,
            },
        }
    }
}

impl View for AppConfig {
    type V = DocV;

    open spec fn view(&self) -> DocV {
        DocV { appearance: self.appearance@, ai: self.ai@, window: self.window@ }
    }
}

/// An in-range milli value.
pub open spec fn milli_in_range(v: int) -> bool {
    -(MAX_ABS_MILLI as int) <= v <= MAX_ABS_MILLI as int
}

/// An in-range optional milli value.
pub open spec fn opt_milli_in_range(v: Option<int>) -> bool {
    match v {
        Some(m) => milli_in_range(m),
        None => true,
    }
}

pub open spec fn appearance_wf(a: AppearanceV) -> bool {
    &&& 1 <= a.pet_size <= i32::MAX
    &&& 0 <= a.pet_opacity_milli <= 1000
}

pub open spec fn ai_wf(a: AiV) -> bool {
    &&& milli_in_range(a.temperature_milli)
    &&& 1 <= a.max_tokens <= i32::MAX
}

pub open spec fn window_wf(w: WindowV) -> bool {
    &&& milli_in_range(w.main_window_x_milli)
    &&& milli_in_range(w.main_window_y_milli)
    &&& opt_milli_in_range(w.settings_window_x_milli)
    &&& opt_milli_in_range(w.settings_window_y_milli)
    &&& opt_milli_in_range(w.settings_window_width_milli)
    &&& opt_milli_in_range(w.settings_window_height_milli)
}

/// Well-formedness of the whole document: every field within the ranges the
/// document promises.  The default document is well formed, parsing always
/// yields a well-formed document, and rendering is defined for every
/// well-formed document.
pub open spec fn doc_wf(d: DocV) -> bool {
    &&& appearance_wf(d.appearance)
    &&& ai_wf(d.ai)
    &&& window_wf(d.window)
}

/// Bytes of the default provider endpoint, `https://api.deepseek.com/v1`.
pub open spec fn spec_default_base_url() -> Seq<u8> {
    seq![104u8, 116u8, 116u8, 112u8, 115u8, 58u8, 47u8, 47u8, 97u8, 112u8, 105u8, 46u8, 100u8,
        101u8, 101u8, 112u8, 115u8, 101u8, 101u8, 107u8, 46u8, 99u8, 111u8, 109u8, 47u8, 118u8,
        49u8]
}

/// Bytes of the default model identifier, `deepseek-chat`.
pub open spec fn spec_default_model() -> Seq<u8> {
    seq![100u8, 101u8, 101u8, 112u8, 115u8, 101u8, 101u8, 107u8, 45u8, 99u8, 104u8, 97u8, 116u8]
}

/// Bytes of the default system prompt, a short companion persona:
/// `You are a cute and clever desktop pet companion. Speak as yourself in
/// the first person, keep a warm and natural tone, and keep your replies
/// short and friendly.`
pub open spec fn spec_default_system_prompt() -> Seq<u8> {
    seq![89u8, 111u8, 117u8, 32u8, 97u8, 114u8, 101u8, 32u8, 97u8, 32u8, 99u8, 117u8, 116u8, 101u8,
        32u8, 97u8, 110u8, 100u8, 32u8, 99u8, 108u8, 101u8, 118u8, 101u8, 114u8, 32u8, 100u8,
        101u8, 115u8, 107u8, 116u8, 111u8, 112u8, 32u8, 112u8, 101u8, 116u8, 32u8, 99u8, 111u8,
        109u8, 112u8, 97u8, 110u8, 105u8, 111u8, 110u8, 46u8, 32u8, 83u8, 112u8, 101u8, 97u8,
        107u8, 32u8, 97u8, 115u8, 32u8, 121u8, 111u8, 117u8, 114u8, 115u8, 101u8, 108u8, 102u8,
        32u8, 105u8, 110u8, 32u8, 116u8, 104u8, 101u8, 32u8, 102u8, 105u8, 114u8, 115u8, 116u8,
        32u8, 112u8, 101u8, 114u8, 115u8, 111u8, 110u8, 44u8, 32u8, 107u8, 101u8, 101u8, 112u8,
        32u8, 97u8, 32u8, 119u8, 97u8, 114u8, 109u8, 32u8, 97u8, 110u8, 100u8, 32u8, 110u8, 97u8,
        116u8, 117u8, 114u8, 97u8, 108u8, 32u8, 116u8, 111u8, 110u8, 101u8, 44u8, 32u8, 97u8,
        110u8, 100u8, 32u8, 107u8, 101u8, 101u8, 112u8, 32u8, 121u8, 111u8, 117u8, 114u8, 32u8,
        114u8, 101u8, 112u8, 108u8, 105u8, 101u8, 115u8, 32u8, 115u8, 104u8, 111u8, 114u8, 116u8,
        32u8, 97u8, 110u8, 100u8, 32u8, 102u8, 114u8, 105u8, 101u8, 110u8, 100u8, 108u8, 121u8,
        46u8]
}

pub open spec fn spec_default_appearance() -> AppearanceV {
    AppearanceV { pet_size: 150, pet_opacity_milli: 1000, show_border: true }
}

pub open spec fn spec_default_ai() -> AiV {
    AiV {
        api_key: Seq::empty(),
        base_url: spec_default_base_url(),
        model: spec_default_model(),
        temperature_milli: 700,
        max_tokens: 2000,
        system_prompt: Some(spec_default_system_prompt()),
    }
}

pub open spec fn spec_default_window() -> WindowV {
    WindowV {
        main_window_x_milli: 400000,
        main_window_y_milli: 400000,
        settings_window_x_milli: None,
        settings_window_y_milli: None,
        settings_window_width_milli: None,
        settings_window_height_milli: None,
    }
}

/// The compiled-in default document, used to bootstrap a missing file and to
/// recover from a corrupt one.
pub open spec fn spec_default_doc() -> DocV {
    DocV {
        appearance: spec_default_appearance(),
        ai: spec_default_ai(),
        window: spec_default_window(),
    }
}

pub proof fn lemma_default_doc_wf()
    ensures
        doc_wf(spec_default_doc()),
{
}

impl Default for AppearanceConfig {
    fn default() -> (r: AppearanceConfig)
        ensures
            r@ == spec_default_appearance(),
    {
        AppearanceConfig { pet_size: 150, pet_opacity_milli: 1000, show_border: true }
    }
}

impl Default for AIConfig {
    fn default() -> (r: AIConfig)
        ensures
            r@ == spec_default_ai(),
    {
        let url: [u8; 27] = [104, 116, 116, 112, 115, 58, 47, 47, 97, 112, 105, 46, 100, 101, 101,
            112, 115, 101, 101, 107, 46, 99, 111, 109, 47, 118, 49];
        let model: [u8; 13] = [100, 101, 101, 112, 115, 101, 101, 107, 45, 99, 104, 97, 116];
        let prompt: [u8; 159] = [89, 111, 117, 32, 97, 114, 101, 32, 97, 32, 99, 117, 116, 101, 32, 97, 110, 100, 32,
            99, 108, 101, 118, 101, 114, 32, 100, 101, 115, 107, 116, 111, 112, 32, 112, 101, 116,
            32, 99, 111, 109, 112, 97, 110, 105, 111, 110, 46, 32, 83, 112, 101, 97, 107, 32, 97,
            115, 32, 121, 111, 117, 114, 115, 101, 108, 102, 32, 105, 110, 32, 116, 104, 101, 32,
            102, 105, 114, 115, 116, 32, 112, 101, 114, 115, 111, 110, 44, 32, 107, 101, 101, 112,
            32, 97, 32, 119, 97, 114, 109, 32, 97, 110, 100, 32, 110, 97, 116, 117, 114, 97, 108,
            32, 116, 111, 110, 101, 44, 32, 97, 110, 100, 32, 107, 101, 101, 112, 32, 121, 111,
            117, 114, 32, 114, 101, 112, 108, 105, 101, 115, 32, 115, 104, 111, 114, 116, 32, 97,
            110, 100, 32, 102, 114, 105, 101, 110, 100, 108, 121, 46];
        let r = AIConfig {
            api_key: Vec::new(),
            base_url: vstd::slice::slice_to_vec(url.as_slice()),
            model: vstd::slice::slice_to_vec(model.as_slice()),
            temperature_milli: 700,
            max_tokens: 2000,
            system_prompt: Some(vstd::slice::slice_to_vec(prompt.as_slice())),
        };
        proof {
            assert(r.base_url@ =~= spec_default_base_url());
            assert(r.model@ =~= spec_default_model());
            assert(r.api_key@ =~= Seq::<u8>::empty());
            match &r.system_prompt {
                Some(p) => {
                    assert(p@ =~= spec_default_system_prompt());
                },
                None => {},
            }
        }
        r
    }
}

impl Default for WindowConfig {
    fn default() -> (r: WindowConfig)
        ensures
            r@ == spec_default_window(),
    {
        WindowConfig {
            main_window_x_milli: 400000,
            main_window_y_milli: 400000,
            settings_window_x_milli: None,
            settings_window_y_milli: None,
            settings_window_width_milli: None,
            settings_window_height_milli: None,
        }
    }
}

impl Default for AppConfig {
    fn default() -> (r: AppConfig)
        ensures
            r@ == spec_default_doc(),
    {
        AppConfig {
            appearance: AppearanceConfig::default(),
            ai: AIConfig::default(),
            window: WindowConfig::default(),
        }
    }
}

impl AppearanceConfig {
    /// An owned copy, field for field.
    pub fn duplicate(&self) -> (r: AppearanceConfig)
        ensures
            r@ == self@,
    {
        AppearanceConfig {
            pet_size: self.pet_size,
            pet_opacity_milli: self.pet_opacity_milli,
            show_border: self.show_border,
        }
    }
}

/// An owned copy of a byte string.
pub fn copy_bytes(v: &Vec<u8>) -> (r: Vec<u8>)
    ensures
        r@ == v@,
{
    let mut r: Vec<u8> = Vec::new();
    let mut i: usize = 0;
    while i < v.len()
        invariant
            i <= v@.len(),
            r@ == v@.take(i as int),
        decreases v@.len() - i,
    {
        r.push(v[i]);
        proof {
            assert(v@.take(i as int + 1) =~= v@.take(i as int).push(v@[i as int]));
        }
        i = i + 1;
    }
    proof {
        assert(v@.take(v@.len() as int) =~= v@);
    }
    r
}

/// An owned copy of an optional byte string.
pub fn copy_opt_bytes(v: &Option<Vec<u8>>) -> (r: Option<Vec<u8>>)
    ensures
        match v {
            Some(b) => r matches Some(c) && c@ == b@,
            None => r is None,
        },
{
    match v {
        Some(b) => Some(copy_bytes(b)),
        None => None,
    }
}

impl AIConfig {
    /// An owned copy, field for field.
    pub fn duplicate(&self) -> (r: AIConfig)
        ensures
            r@ == self@,
    {
        AIConfig {
            api_key: copy_bytes(&self.api_key),
            base_url: copy_bytes(&self.base_url),
            model: copy_bytes(&self.model),
            temperature_milli: self.temperature_milli,
            max_tokens: self.max_tokens,
            system_prompt: copy_opt_bytes(&self.system_prompt),
        }
    }
}

impl WindowConfig {
    /// An owned copy, field for field.
    pub fn duplicate(&self) -> (r: WindowConfig)
        ensures
            r@ == self@,
    {
        WindowConfig {
            main_window_x_milli: self.main_window_x_milli,
            main_window_y_milli: self.main_window_y_milli,
            settings_window_x_milli: self.settings_window_x_milli,
            settings_window_y_milli: self.settings_window_y_milli,
            settings_window_width_milli: self.settings_window_width_milli,
            settings_window_height_milli: self.settings_window_height_milli,
        }
    }
}

impl AppConfig {
    /// An owned copy, field for field.
    pub fn duplicate(&self) -> (r: AppConfig)
        ensures
            r@ == self@,
    {
        AppConfig {
            appearance: self.appearance.duplicate(),
            ai: self.ai.duplicate(),
            window: self.window.duplicate(),
        }
    }

    /// An owned snapshot of the appearance section.
    pub fn get_appearance(&self) -> (r: AppearanceConfig)
        ensures
            r@ == self@.appearance,
    {
        self.appearance.duplicate()
    }

    /// An owned snapshot of the AI section.
    pub fn get_ai(&self) -> (r: AIConfig)
        ensures
            r@ == self@.ai,
    {
        self.ai.duplicate()
    }

    /// An owned snapshot of the window section.
    pub fn get_window(&self) -> (r: WindowConfig)
        ensures
            r@ == self@.window,
    {
        self.window.duplicate()
    }
}

/// One read-modify-write mutation of the document, as the store's update
/// primitive applies it.
pub enum ConfigUpdate {
    /// Replace the whole appearance section.
    Appearance(AppearanceConfig),
    /// Replace the whole AI section.
    Ai(AIConfig),
    /// Record the main window center.
    MainWindowPosition { x_milli: i64, y_milli: i64 },
    /// Record the settings window bounds.
    SettingsWindowBounds { x_milli: i64, y_milli: i64, width_milli: i64, height_milli: i64 },
}

/// Mathematical value of a mutation.
pub ghost enum UpdateV {
    Appearance(AppearanceV),
    Ai(AiV),
    MainWindowPosition { x_milli: int, y_milli: int },
    SettingsWindowBounds { x_milli: int, y_milli: int, width_milli: int, height_milli: int },
}

impl View for ConfigUpdate {
    type V = UpdateV;

    open spec fn view(&self) -> UpdateV {
        match self {
            ConfigUpdate::Appearance(a) => UpdateV::Appearance(a@),
            ConfigUpdate::Ai(a) => UpdateV::Ai(a@),
            ConfigUpdate::MainWindowPosition { x_milli, y_milli } => UpdateV::MainWindowPosition {
                x_milli: *x_milli as int,
                y_milli: *y_milli as int,
            },
            ConfigUpdate::SettingsWindowBounds { x_milli, y_milli, width_milli, height_milli } =>
                UpdateV::SettingsWindowBounds {
                x_milli: *x_milli as int,
                y_milli: *y_milli as int,
                width_milli: *width_milli as int,
                height_milli: *height_milli as int,
            },
        }
    }
}

/// What a mutation does to a document: it replaces exactly the fields it
/// names and leaves every other section untouched.
pub open spec fn spec_apply_update(d: DocV, u: UpdateV) -> DocV {
    match u {
        UpdateV::Appearance(a) => DocV { appearance: a, ..d },
        UpdateV::Ai(a) => DocV { ai: a, ..d },
        UpdateV::MainWindowPosition { x_milli, y_milli } => DocV {
            window: WindowV { main_window_x_milli: x_milli, main_window_y_milli: y_milli, ..d.window },
            ..d
        },
        UpdateV::SettingsWindowBounds { x_milli, y_milli, width_milli, height_milli } => DocV {
            window: WindowV {
                settings_window_x_milli: Some(x_milli),
                settings_window_y_milli: Some(y_milli),
                settings_window_width_milli: Some(width_milli),
                settings_window_height_milli: Some(height_milli),
                ..d.window
            },
            ..d
        },
    }
}

/// A mutation with in-range coordinates keeps the document well formed.
pub open spec fn update_wf(u: UpdateV) -> bool {
    match u {
        UpdateV::Appearance(a) => appearance_wf(a),
        UpdateV::Ai(a) => ai_wf(a),
        UpdateV::MainWindowPosition { x_milli, y_milli } => milli_in_range(x_milli) && milli_in_range(
            y_milli,
        ),
        UpdateV::SettingsWindowBounds { x_milli, y_milli, width_milli, height_milli } => {
            &&& milli_in_range(x_milli)
            &&& milli_in_range(y_milli)
            &&& milli_in_range(width_milli)
            &&& milli_in_range(height_milli)
        },
    }
}

pub proof fn lemma_apply_update_preserves_wf(d: DocV, u: UpdateV)
    requires
        doc_wf(d),
        update_wf(u),
    ensures
        doc_wf(spec_apply_update(d, u)),
{
}

impl AppConfig {
    /// Applies one mutation, returning the new document; exactly the named
    /// fields change.
    pub fn apply_update(&self, u: &ConfigUpdate) -> (r: AppConfig)
        ensures
            r@ == spec_apply_update(self@, u@),
    {
        match u {
            ConfigUpdate::Appearance(a) => AppConfig {
                appearance: a.duplicate(),
                ai: self.ai.duplicate(),
                window: self.window.duplicate(),
            },
            ConfigUpdate::Ai(a) => AppConfig {
                appearance: self.appearance.duplicate(),
                ai: a.duplicate(),
                window: self.window.duplicate(),
            },
            ConfigUpdate::MainWindowPosition { x_milli, y_milli } => AppConfig {
                appearance: self.appearance.duplicate(),
                ai: self.ai.duplicate(),
                window: WindowConfig {
                    main_window_x_milli: *x_milli,
                    main_window_y_milli: *y_milli,
                    ..self.window.duplicate()
                },
            },
            ConfigUpdate::SettingsWindowBounds { x_milli, y_milli, width_milli, height_milli } =>
                AppConfig {
                appearance: self.appearance.duplicate(),
                ai: self.ai.duplicate(),
                window: WindowConfig {
                    main_window_x_milli: self.window.main_window_x_milli,
                    main_window_y_milli: self.window.main_window_y_milli,
                    settings_window_x_milli: Some(*x_milli),
                    settings_window_y_milli: Some(*y_milli),
                    settings_window_width_milli: Some(*width_milli),
                    settings_window_height_milli: Some(*height_milli),
                },
            },
        }
    }
}

} // verus!
