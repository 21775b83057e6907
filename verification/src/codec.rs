//! The document codec: renders a configuration document to its sectioned
//! on-disk text form and parses that form back.
//!
//! The format is a sectioned key/value text: a `[section]` header line opens
//! each section, every setting is one `key = value` line, and blank lines
//! separate sections.  Values are the lexemes of `text`: decimal integers,
//! milli fixed-point decimals, `true`/`false`, and quoted strings.  The
//! parser starts from the parse base — plain settings at their compiled-in
//! defaults, optional settings absent — so a missing key keeps a plain
//! setting's default, a missing optional key stays `None`, and an unknown
//! key or section is ignored; a malformed line or an
//! out-of-range value rejects the whole document (the store then runs its
//! corruption recovery).  Parsing inverts rendering, which is proved in
//! `lemma_parse_render_roundtrip`.

use vstd::prelude::*;
use crate::model::AppearanceV;
use crate::model::AiV;
use crate::model::WindowV;
use crate::model::DocV;
use crate::model::AppConfig;
use crate::model::AppearanceConfig;
use crate::model::AIConfig;
use crate::model::WindowConfig;
use crate::model::spec_default_doc;
use crate::model::spec_default_ai;
use crate::model::milli_in_range;
use crate::model::doc_wf;
use crate::model::appearance_wf;
use crate::model::ai_wf;
use crate::model::window_wf;
use crate::model::MAX_ABS_MILLI;
use crate::model::lemma_default_doc_wf;
use crate::text::spec_render_int;
use crate::text::spec_parse_int;
use crate::text::spec_render_milli;
use crate::text::spec_parse_milli;
use crate::text::spec_render_bool;
use crate::text::spec_parse_bool;
use crate::text::spec_render_string;
use crate::text::spec_parse_string;
use crate::text::spec_first_idx;
use crate::text::lemma_first_idx_is;
use crate::text::lemma_parse_int_roundtrip;
use crate::text::lemma_parse_milli_roundtrip;
use crate::text::lemma_parse_bool_roundtrip;
use crate::text::lemma_parse_string_roundtrip;
use crate::text::lemma_digits_shape;
use crate::text::lemma_escape_no_newline;
use crate::text::lemma_pow10_16;
use crate::text::spec_digits;
use crate::text::spec_escape;
use crate::text::all_digits;
use crate::text::push_bytes;
use crate::text::push_int;
use crate::text::push_milli;
use crate::text::push_bool;
use crate::text::push_string;
use crate::text::bytes_eq;
use crate::text::parse_int_exec;
use crate::text::parse_milli_exec;
use crate::text::parse_bool_exec;
use crate::text::parse_string_exec;
use crate::text::first_idx_exec;

verus! {

/// Bytes of `appearance`.
pub open spec fn sec_appearance() -> Seq<u8> {
    seq![97u8, 112u8, 112u8, 101u8, 97u8, 114u8, 97u8, 110u8, 99u8, 101u8]
}

/// Owned bytes of `appearance`.
fn sec_appearance_vec() -> (r: Vec<u8>)
    ensures
        r@ == sec_appearance(),
{
    let a: [u8; 10] = [97, 112, 112, 101, 97, 114, 97, 110, 99, 101];
    let r = vstd::slice::slice_to_vec(a.as_slice());
    proof {
        assert(r@ =~= sec_appearance());
    }
    r
}

/// Bytes of `ai`.
pub open spec fn sec_ai() -> Seq<u8> {
    seq![97u8, 105u8]
}

/// Owned bytes of `ai`.
fn sec_ai_vec() -> (r: Vec<u8>)
    ensures
        r@ == sec_ai(),
{
    let a: [u8; 2] = [97, 105];
    let r = vstd::slice::slice_to_vec(a.as_slice());
    proof {
        assert(r@ =~= sec_ai());
    }
    r
}

/// Bytes of `window`.
pub open spec fn sec_window() -> Seq<u8> {
    seq![119u8, 105u8, 110u8, 100u8, 111u8, 119u8]
}

/// Owned bytes of `window`.
fn sec_window_vec() -> (r: Vec<u8>)
    ensures
        r@ == sec_window(),
{
    let a: [u8; 6] = [119, 105, 110, 100, 111, 119];
    let r = vstd::slice::slice_to_vec(a.as_slice());
    proof {
        assert(r@ =~= sec_window());
    }
    r
}

/// Bytes of `pet_size`.
pub open spec fn k_pet_size() -> Seq<u8> {
    seq![112u8, 101u8, 116u8, 95u8, 115u8, 105u8, 122u8, 101u8]
}

/// Owned bytes of `pet_size`.
fn k_pet_size_vec() -> (r: Vec<u8>)
    ensures
        r@ == k_pet_size(),
{
    let a: [u8; 8] = [112, 101, 116, 95, 115, 105, 122, 101];
    let r = vstd::slice::slice_to_vec(a.as_slice());
    proof {
        assert(r@ =~= k_pet_size());
    }
    r
}

/// Bytes of `pet_opacity`.
pub open spec fn k_pet_opacity() -> Seq<u8> {
    seq![112u8, 101u8, 116u8, 95u8, 111u8, 112u8, 97u8, 99u8, 105u8, 116u8, 121u8]
}

/// Owned bytes of `pet_opacity`.
fn k_pet_opacity_vec() -> (r: Vec<u8>)
    ensures
        r@ == k_pet_opacity(),
{
    let a: [u8; 11] = [112, 101, 116, 95, 111, 112, 97, 99, 105, 116, 121];
    let r = vstd::slice::slice_to_vec(a.as_slice());
    proof {
        assert(r@ =~= k_pet_opacity());
    }
    r
}

/// Bytes of `show_border`.
pub open spec fn k_show_border() -> Seq<u8> {
    seq![115u8, 104u8, 111u8, 119u8, 95u8, 98u8, 111u8, 114u8, 100u8, 101u8, 114u8]
}

/// Owned bytes of `show_border`.
fn k_show_border_vec() -> (r: Vec<u8>)
    ensures
        r@ == k_show_border(),
{
    let a: [u8; 11] = [115, 104, 111, 119, 95, 98, 111, 114, 100, 101, 114];
    let r = vstd::slice::slice_to_vec(a.as_slice());
    proof {
        assert(r@ =~= k_show_border());
    }
    r
}

/// Bytes of `api_key`.
pub open spec fn k_api_key() -> Seq<u8> {
    seq![97u8, 112u8, 105u8, 95u8, 107u8, 101u8, 121u8]
}

/// Owned bytes of `api_key`.
fn k_api_key_vec() -> (r: Vec<u8>)
    ensures
        r@ == k_api_key(),
{
    let a: [u8; 7] = [97, 112, 105, 95, 107, 101, 121];
    let r = vstd::slice::slice_to_vec(a.as_slice());
    proof {
        assert(r@ =~= k_api_key());
    }
    r
}

/// Bytes of `base_url`.
pub open spec fn k_base_url() -> Seq<u8> {
    seq![98u8, 97u8, 115u8, 101u8, 95u8, 117u8, 114u8, 108u8]
}

/// Owned bytes of `base_url`.
fn k_base_url_vec() -> (r: Vec<u8>)
    ensures
        r@ == k_base_url(),
{
    let a: [u8; 8] = [98, 97, 115, 101, 95, 117, 114, 108];
    let r = vstd::slice::slice_to_vec(a.as_slice());
    proof {
        assert(r@ =~= k_base_url());
    }
    r
}

/// Bytes of `model`.
pub open spec fn k_model() -> Seq<u8> {
    seq![109u8, 111u8, 100u8, 101u8, 108u8]
}

/// Owned bytes of `model`.
fn k_model_vec() -> (r: Vec<u8>)
    ensures
        r@ == k_model(),
{
    let a: [u8; 5] = [109, 111, 100, 101, 108];
    let r = vstd::slice::slice_to_vec(a.as_slice());
    proof {
        assert(r@ =~= k_model());
    }
    r
}

/// Bytes of `temperature`.
pub open spec fn k_temperature() -> Seq<u8> {
    seq![116u8, 101u8, 109u8, 112u8, 101u8, 114u8, 97u8, 116u8, 117u8, 114u8, 101u8]
}

/// Owned bytes of `temperature`.
fn k_temperature_vec() -> (r: Vec<u8>)
    ensures
        r@ == k_temperature(),
{
    let a: [u8; 11] = [116, 101, 109, 112, 101, 114, 97, 116, 117, 114, 101];
    let r = vstd::slice::slice_to_vec(a.as_slice());
    proof {
        assert(r@ =~= k_temperature());
    }
    r
}

/// Bytes of `max_tokens`.
pub open spec fn k_max_tokens() -> Seq<u8> {
    seq![109u8, 97u8, 120u8, 95u8, 116u8, 111u8, 107u8, 101u8, 110u8, 115u8]
}

/// Owned bytes of `max_tokens`.
fn k_max_tokens_vec() -> (r: Vec<u8>)
    ensures
        r@ == k_max_tokens(),
{
    let a: [u8; 10] = [109, 97, 120, 95, 116, 111, 107, 101, 110, 115];
    let r = vstd::slice::slice_to_vec(a.as_slice());
    proof {
        assert(r@ =~= k_max_tokens());
    }
    r
}

/// Bytes of `system_prompt`.
pub open spec fn k_system_prompt() -> Seq<u8> {
    seq![115u8, 121u8, 115u8, 116u8, 101u8, 109u8, 95u8, 112u8, 114u8, 111u8, 109u8, 112u8, 116u8]
}

/// Owned bytes of `system_prompt`.
fn k_system_prompt_vec() -> (r: Vec<u8>)
    ensures
        r@ == k_system_prompt(),
{
    let a: [u8; 13] = [115, 121, 115, 116, 101, 109, 95, 112, 114, 111, 109, 112, 116];
    let r = vstd::slice::slice_to_vec(a.as_slice());
    proof {
        assert(r@ =~= k_system_prompt());
    }
    r
}

/// Bytes of `main_window_x`.
pub open spec fn k_main_window_x() -> Seq<u8> {
    seq![109u8, 97u8, 105u8, 110u8, 95u8, 119u8, 105u8, 110u8, 100u8, 111u8, 119u8, 95u8, 120u8]
}

/// Owned bytes of `main_window_x`.
fn k_main_window_x_vec() -> (r: Vec<u8>)
    ensures
        r@ == k_main_window_x(),
{
    let a: [u8; 13] = [109, 97, 105, 110, 95, 119, 105, 110, 100, 111, 119, 95, 120];
    let r = vstd::slice::slice_to_vec(a.as_slice());
    proof {
        assert(r@ =~= k_main_window_x());
    }
    r
}

/// Bytes of `main_window_y`.
pub open spec fn k_main_window_y() -> Seq<u8> {
    seq![109u8, 97u8, 105u8, 110u8, 95u8, 119u8, 105u8, 110u8, 100u8, 111u8, 119u8, 95u8, 121u8]
}

/// Owned bytes of `main_window_y`.
fn k_main_window_y_vec() -> (r: Vec<u8>)
    ensures
        r@ == k_main_window_y(),
{
    let a: [u8; 13] = [109, 97, 105, 110, 95, 119, 105, 110, 100, 111, 119, 95, 121];
    let r = vstd::slice::slice_to_vec(a.as_slice());
    proof {
        assert(r@ =~= k_main_window_y());
    }
    r
}

/// Bytes of `settings_window_x`.
pub open spec fn k_settings_window_x() -> Seq<u8> {
    seq![115u8, 101u8, 116u8, 116u8, 105u8, 110u8, 103u8, 115u8, 95u8, 119u8, 105u8, 110u8, 100u8, 111u8, 119u8, 95u8, 120u8]
}

/// Owned bytes of `settings_window_x`.
fn k_settings_window_x_vec() -> (r: Vec<u8>)
    ensures
        r@ == k_settings_window_x(),
{
    let a: [u8; 17] = [115, 101, 116, 116, 105, 110, 103, 115, 95, 119, 105, 110, 100, 111, 119, 95, 120];
    let r = vstd::slice::slice_to_vec(a.as_slice());
    proof {
        assert(r@ =~= k_settings_window_x());
    }
    r
}

/// Bytes of `settings_window_y`.
pub open spec fn k_settings_window_y() -> Seq<u8> {
    seq![115u8, 101u8, 116u8, 116u8, 105u8, 110u8, 103u8, 115u8, 95u8, 119u8, 105u8, 110u8, 100u8, 111u8, 119u8, 95u8, 121u8]
}

/// Owned bytes of `settings_window_y`.
fn k_settings_window_y_vec() -> (r: Vec<u8>)
    ensures
        r@ == k_settings_window_y(),
{
    let a: [u8; 17] = [115, 101, 116, 116, 105, 110, 103, 115, 95, 119, 105, 110, 100, 111, 119, 95, 121];
    let r = vstd::slice::slice_to_vec(a.as_slice());
    proof {
        assert(r@ =~= k_settings_window_y());
    }
    r
}

/// Bytes of `settings_window_width`.
pub open spec fn k_settings_window_width() -> Seq<u8> {
    seq![115u8, 101u8, 116u8, 116u8, 105u8, 110u8, 103u8, 115u8, 95u8, 119u8, 105u8, 110u8, 100u8, 111u8, 119u8, 95u8, 119u8, 105u8, 100u8, 116u8, 104u8]
}

/// Owned bytes of `settings_window_width`.
fn k_settings_window_width_vec() -> (r: Vec<u8>)
    ensures
        r@ == k_settings_window_width(),
{
    let a: [u8; 21] = [115, 101, 116, 116, 105, 110, 103, 115, 95, 119, 105, 110, 100, 111, 119, 95, 119, 105, 100, 116, 104];
    let r = vstd::slice::slice_to_vec(a.as_slice());
    proof {
        assert(r@ =~= k_settings_window_width());
    }
    r
}

/// Bytes of `settings_window_height`.
pub open spec fn k_settings_window_height() -> Seq<u8> {
    seq![115u8, 101u8, 116u8, 116u8, 105u8, 110u8, 103u8, 115u8, 95u8, 119u8, 105u8, 110u8, 100u8, 111u8, 119u8, 95u8, 104u8, 101u8, 105u8, 103u8, 104u8, 116u8]
}

/// Owned bytes of `settings_window_height`.
fn k_settings_window_height_vec() -> (r: Vec<u8>)
    ensures
        r@ == k_settings_window_height(),
{
    let a: [u8; 22] = [115, 101, 116, 116, 105, 110, 103, 115, 95, 119, 105, 110, 100, 111, 119, 95, 104, 101, 105, 103, 104, 116];
    let r = vstd::slice::slice_to_vec(a.as_slice());
    proof {
        assert(r@ =~= k_settings_window_height());
    }
    r
}

/// A `key = value` line.
pub open spec fn spec_kv_line(key: Seq<u8>, val: Seq<u8>) -> Seq<u8> {
    key + seq![32u8, 61u8, 32u8] + val
}

/// A `[section]` header line.
pub open spec fn spec_header_line(name: Seq<u8>) -> Seq<u8> {
    seq![91u8] + name + seq![93u8]
}

/// Which section the parser is in: before any header, one of the known
/// sections, or an unknown section whose lines are ignored.
#[derive(Clone, Copy)]
pub enum Section {
    Start,
    InAppearance,
    InAi,
    InWindow,
    Other,
}

/// Lines of the appearance section, blank separator included.
pub open spec fn spec_appearance_lines(a: AppearanceV) -> Seq<Seq<u8>> {
    seq![
        spec_header_line(sec_appearance()),
        spec_kv_line(k_pet_size(), spec_render_int(a.pet_size)),
        spec_kv_line(k_pet_opacity(), spec_render_milli(a.pet_opacity_milli)),
        spec_kv_line(k_show_border(), spec_render_bool(a.show_border)),
        Seq::<u8>::empty(),
    ]
}

/// Zero or one `key = value` lines for an optional milli setting.
pub open spec fn spec_opt_milli_lines(key: Seq<u8>, ov: Option<int>) -> Seq<Seq<u8>> {
    match ov {
        Some(v) => seq![spec_kv_line(key, spec_render_milli(v))],
        None => Seq::empty(),
    }
}

/// Zero or one `key = value` lines for an optional string setting.
pub open spec fn spec_opt_string_lines(key: Seq<u8>, ov: Option<Seq<u8>>) -> Seq<Seq<u8>> {
    match ov {
        Some(s) => seq![spec_kv_line(key, spec_render_string(s))],
        None => Seq::empty(),
    }
}

/// Lines of the AI section, blank separator included.
pub open spec fn spec_ai_lines(ai: AiV) -> Seq<Seq<u8>> {
    seq![
        spec_header_line(sec_ai()),
        spec_kv_line(k_api_key(), spec_render_string(ai.api_key)),
        spec_kv_line(k_base_url(), spec_render_string(ai.base_url)),
        spec_kv_line(k_model(), spec_render_string(ai.model)),
        spec_kv_line(k_temperature(), spec_render_milli(ai.temperature_milli)),
        spec_kv_line(k_max_tokens(), spec_render_int(ai.max_tokens)),
    ] + spec_opt_string_lines(k_system_prompt(), ai.system_prompt) + seq![Seq::<u8>::empty()]
}

/// Lines of the window section.
pub open spec fn spec_window_lines(w: WindowV) -> Seq<Seq<u8>> {
    seq![
        spec_header_line(sec_window()),
        spec_kv_line(k_main_window_x(), spec_render_milli(w.main_window_x_milli)),
        spec_kv_line(k_main_window_y(), spec_render_milli(w.main_window_y_milli)),
    ] + spec_opt_milli_lines(k_settings_window_x(), w.settings_window_x_milli)
        + spec_opt_milli_lines(k_settings_window_y(), w.settings_window_y_milli)
        + spec_opt_milli_lines(k_settings_window_width(), w.settings_window_width_milli)
        + spec_opt_milli_lines(k_settings_window_height(), w.settings_window_height_milli)
}

/// All lines of the rendered document.
pub open spec fn spec_render_lines(d: DocV) -> Seq<Seq<u8>> {
    spec_appearance_lines(d.appearance) + spec_ai_lines(d.ai) + spec_window_lines(d.window)
}

/// Joins lines into a byte stream, one newline after every line.
pub open spec fn spec_join_lines(ls: Seq<Seq<u8>>) -> Seq<u8>
    decreases ls.len(),
{
    if ls.len() == 0 {
        Seq::empty()
    } else {
        ls[0] + seq![10u8] + spec_join_lines(ls.drop_first())
    }
}

/// The rendered document.
pub open spec fn spec_render_doc(d: DocV) -> Seq<u8> {
    spec_join_lines(spec_render_lines(d))
}

/// Splits a byte stream into lines at each newline; `cur` is the partial
/// line read so far.  The segment after the last newline is a line too.
pub open spec fn spec_split_from(s: Seq<u8>, cur: Seq<u8>) -> Seq<Seq<u8>>
    decreases s.len(),
{
    if s.len() == 0 {
        seq![cur]
    } else if s[0] == 10 {
        seq![cur] + spec_split_from(s.drop_first(), Seq::empty())
    } else {
        spec_split_from(s.drop_first(), cur.push(s[0]))
    }
}

/// One key/value pair applied to the document under the current section.
/// Unknown keys and anything outside the known sections are ignored; a bad
/// or out-of-range value rejects the document.
#[verifier::opaque]
pub open spec fn spec_apply_kv(sec: Section, d: DocV, key: Seq<u8>, val: Seq<u8>) -> Option<
    (Section, DocV),
> {
    match sec {
        Section::Start => Some((sec, d)),
        Section::Other => Some((sec, d)),
        Section::InAppearance => {
            if key == k_pet_size() {
                match spec_parse_int(val) {
                    Some(v) => if 1 <= v <= i32::MAX {
                        Some(
                            (
                                sec,
                                DocV {
                                    appearance: AppearanceV { pet_size: v, ..d.appearance },
                                    ..d
                                },
                            ),
                        )
                    } else {
                        None
                    },
                    None => None,
                }
            } else if key == k_pet_opacity() {
                match spec_parse_milli(val) {
                    Some(v) => if 0 <= v <= 1000 {
                        Some(
                            (
                                sec,
                                DocV {
                                    appearance: AppearanceV {
                                        pet_opacity_milli: v,
                                        ..d.appearance
                                    },
                                    ..d
                                },
                            ),
                        )
                    } else {
                        None
                    },
                    None => None,
                }
            } else if key == k_show_border() {
                match spec_parse_bool(val) {
                    Some(v) => Some(
                        (sec, DocV { appearance: AppearanceV { show_border: v, ..d.appearance }, ..d }),
                    ),
                    None => None,
                }
            } else {
                Some((sec, d))
            }
        },
        Section::InAi => {
            if key == k_api_key() {
                match spec_parse_string(val) {
                    Some(v) => Some((sec, DocV { ai: AiV { api_key: v, ..d.ai }, ..d })),
                    None => None,
                }
            } else if key == k_base_url() {
                match spec_parse_string(val) {
                    Some(v) => Some((sec, DocV { ai: AiV { base_url: v, ..d.ai }, ..d })),
                    None => None,
                }
            } else if key == k_model() {
                match spec_parse_string(val) {
                    Some(v) => Some((sec, DocV { ai: AiV { model: v, ..d.ai }, ..d })),
                    None => None,
                }
            } else if key == k_temperature() {
                match spec_parse_milli(val) {
                    Some(v) => if milli_in_range(v) {
                        Some((sec, DocV { ai: AiV { temperature_milli: v, ..d.ai }, ..d }))
                    } else {
                        None
                    },
                    None => None,
                }
            } else if key == k_max_tokens() {
                match spec_parse_int(val) {
                    Some(v) => if 1 <= v <= i32::MAX {
                        Some((sec, DocV { ai: AiV { max_tokens: v, ..d.ai }, ..d }))
                    } else {
                        None
                    },
                    None => None,
                }
            } else if key == k_system_prompt() {
                match spec_parse_string(val) {
                    Some(v) => Some((sec, DocV { ai: AiV { system_prompt: Some(v), ..d.ai }, ..d })),
                    None => None,
                }
            } else {
                Some((sec, d))
            }
        },
        Section::InWindow => {
            if key == k_main_window_x() {
                match spec_parse_milli(val) {
                    Some(v) => if milli_in_range(v) {
                        Some(
                            (sec, DocV { window: WindowV { main_window_x_milli: v, ..d.window }, ..d }),
                        )
                    } else {
                        None
                    },
                    None => None,
                }
            } else if key == k_main_window_y() {
                match spec_parse_milli(val) {
                    Some(v) => if milli_in_range(v) {
                        Some(
                            (sec, DocV { window: WindowV { main_window_y_milli: v, ..d.window }, ..d }),
                        )
                    } else {
                        None
                    },
                    None => None,
                }
            } else if key == k_settings_window_x() {
                match spec_parse_milli(val) {
                    Some(v) => if milli_in_range(v) {
                        Some(
                            (
                                sec,
                                DocV {
                                    window: WindowV {
                                        settings_window_x_milli: Some(v),
                                        ..d.window
                                    },
                                    ..d
                                },
                            ),
                        )
                    } else {
                        None
                    },
                    None => None,
                }
            } else if key == k_settings_window_y() {
                match spec_parse_milli(val) {
                    Some(v) => if milli_in_range(v) {
                        Some(
                            (
                                sec,
                                DocV {
                                    window: WindowV {
                                        settings_window_y_milli: Some(v),
                                        ..d.window
                                    },
                                    ..d
                                },
                            ),
                        )
                    } else {
                        None
                    },
                    None => None,
                }
            } else if key == k_settings_window_width() {
                match spec_parse_milli(val) {
                    Some(v) => if milli_in_range(v) {
                        Some(
                            (
                                sec,
                                DocV {
                                    window: WindowV {
                                        settings_window_width_milli: Some(v),
                                        ..d.window
                                    },
                                    ..d
                                },
                            ),
                        )
                    } else {
                        None
                    },
                    None => None,
                }
            } else if key == k_settings_window_height() {
                match spec_parse_milli(val) {
                    Some(v) => if milli_in_range(v) {
                        Some(
                            (
                                sec,
                                DocV {
                                    window: WindowV {
                                        settings_window_height_milli: Some(v),
                                        ..d.window
                                    },
                                    ..d
                                },
                            ),
                        )
                    } else {
                        None
                    },
                    None => None,
                }
            } else {
                Some((sec, d))
            }
        },
    }
}

/// One line applied to the parser state: blank lines are skipped, a header
/// switches the section, anything else must be a `key = value` line.
pub open spec fn spec_step_line(sec: Section, d: DocV, line: Seq<u8>) -> Option<(Section, DocV)> {
    if line.len() == 0 {
        Some((sec, d))
    } else if line[0] == 91 {
        if line.len() >= 2 && line.last() == 93 {
            let name = line.subrange(1, line.len() - 1);
            if name == sec_appearance() {
                Some((Section::InAppearance, d))
            } else if name == sec_ai() {
                Some((Section::InAi, d))
            } else if name == sec_window() {
                Some((Section::InWindow, d))
            } else {
                Some((Section::Other, d))
            }
        } else {
            None
        }
    } else {
        let k = spec_first_idx(line, 32) as int;
        if 1 <= k && k + 3 <= line.len() && line[k + 1] == 61 && line[k + 2] == 32 {
            spec_apply_kv(sec, d, line.take(k), line.skip(k + 3))
        } else {
            None
        }
    }
}

/// Folds the parser over a sequence of lines.
pub open spec fn spec_parse_lines(ls: Seq<Seq<u8>>, sec: Section, d: DocV) -> Option<
    (Section, DocV),
>
    decreases ls.len(),
{
    if ls.len() == 0 {
        Some((sec, d))
    } else {
        match spec_step_line(sec, d, ls[0]) {
            Some(st) => spec_parse_lines(ls.drop_first(), st.0, st.1),
            None => None,
        }
    }
}

/// The document the parser starts from: every plain setting at its
/// compiled-in default, every optional setting absent.  A key missing from
/// the file therefore keeps a plain setting's default, and a missing
/// optional key stays `None`.
pub open spec fn spec_parse_base_doc() -> DocV {
    DocV { ai: AiV { system_prompt: None, ..spec_default_ai() }, ..spec_default_doc() }
}

/// The parsed document: the fold over all lines, starting from the parse
/// base before any section header.
pub open spec fn spec_parse_doc(s: Seq<u8>) -> Option<DocV> {
    match spec_parse_lines(
        spec_split_from(s, Seq::empty()),
        Section::Start,
        spec_parse_base_doc(),
    ) {
        Some(st) => Some(st.1),
        None => None,
    }
}

/// No byte is a newline: the line never breaks in two when joined.
pub open spec fn no_newline(s: Seq<u8>) -> bool {
    forall|i: int| 0 <= i < s.len() ==> #[trigger] s[i] != 10
}

/// No byte is a space: a key ends exactly at the first space of its line.
pub open spec fn no_space(s: Seq<u8>) -> bool {
    forall|i: int| 0 <= i < s.len() ==> #[trigger] s[i] != 32
}

/// Every line of the sequence stays on one line.
pub open spec fn no_newline_all(ls: Seq<Seq<u8>>) -> bool {
    forall|i: int| 0 <= i < ls.len() ==> no_newline(#[trigger] ls[i])
}

pub proof fn lemma_no_newline_all_concat(a: Seq<Seq<u8>>, b: Seq<Seq<u8>>)
    requires
        no_newline_all(a),
        no_newline_all(b),
    ensures
        no_newline_all(a + b),
{
    assert forall|i: int| 0 <= i < (a + b).len() implies no_newline(#[trigger] (a + b)[i]) by {
        if i < a.len() {
            assert((a + b)[i] == a[i]);
        } else {
            assert((a + b)[i] == b[i - a.len()]);
        }
    }
}

pub proof fn lemma_no_newline_int(v: int)
    ensures
        no_newline(spec_render_int(v)),
{
    let s = spec_render_int(v);
    if v < 0 {
        lemma_digits_shape((-v) as nat);
        assert forall|i: int| 0 <= i < s.len() implies #[trigger] s[i] != 10 by {
            if i >= 1 {
                assert(s[i] == spec_digits((-v) as nat)[i - 1]);
                assert(48 <= spec_digits((-v) as nat)[i - 1] <= 57);
            }
        }
    } else {
        lemma_digits_shape(v as nat);
        assert forall|i: int| 0 <= i < s.len() implies #[trigger] s[i] != 10 by {
            assert(48 <= spec_digits(v as nat)[i] <= 57);
        }
    }
}

pub proof fn lemma_no_newline_milli(v: int)
    ensures
        no_newline(spec_render_milli(v)),
{
    let a = (if v < 0 {
        -v
    } else {
        v
    }) as nat;
    let sign: Seq<u8> = if v < 0 {
        seq![45u8]
    } else {
        Seq::empty()
    };
    let ip = spec_digits(a / 1000);
    let fp = crate::text::spec_frac3(a % 1000);
    let s = sign + ip + seq![46u8] + fp;
    lemma_digits_shape(a / 1000);
    assert(a % 1000 < 1000);
    assert forall|i: int| 0 <= i < s.len() implies #[trigger] s[i] != 10 by {
        let k = sign.len() as int;
        if i < k {
            assert(s[i] == 45);
        } else if i < k + ip.len() {
            assert(s[i] == ip[i - k]);
            assert(48 <= ip[i - k] <= 57);
        } else if i == k + ip.len() {
            assert(s[i] == 46);
        } else {
            assert(s[i] == fp[i - (k + ip.len() + 1)]);
        }
    }
}

pub proof fn lemma_no_newline_bool(b: bool)
    ensures
        no_newline(spec_render_bool(b)),
{
}

pub proof fn lemma_no_newline_string(str: Seq<u8>)
    ensures
        no_newline(spec_render_string(str)),
{
    let e = spec_escape(str);
    let s = spec_render_string(str);
    lemma_escape_no_newline(str);
    assert forall|i: int| 0 <= i < s.len() implies #[trigger] s[i] != 10 by {
        if i == 0 || i == s.len() - 1 {
            assert(s[i] == 34);
        } else {
            assert(s[i] == e[i - 1]);
        }
    }
}

pub proof fn lemma_no_newline_kv(key: Seq<u8>, val: Seq<u8>)
    requires
        no_newline(key),
        no_newline(val),
    ensures
        no_newline(spec_kv_line(key, val)),
{
    let s = spec_kv_line(key, val);
    assert forall|i: int| 0 <= i < s.len() implies #[trigger] s[i] != 10 by {
        let k = key.len() as int;
        if i < k {
            assert(s[i] == key[i]);
        } else if i < k + 3 {
            assert(s[i] == seq![32u8, 61u8, 32u8][i - k]);
        } else {
            assert(s[i] == val[i - k - 3]);
        }
    }
}

pub proof fn lemma_no_newline_header(name: Seq<u8>)
    requires
        no_newline(name),
    ensures
        no_newline(spec_header_line(name)),
{
    let s = spec_header_line(name);
    assert forall|i: int| 0 <= i < s.len() implies #[trigger] s[i] != 10 by {
        if i == 0 {
            assert(s[i] == 91);
        } else if i == s.len() - 1 {
            assert(s[i] == 93);
        } else {
            assert(s[i] == name[i - 1]);
        }
    }
}

/// Splitting after one full line hands that line out and goes on behind it.
pub proof fn lemma_split_one(line: Seq<u8>, rest: Seq<u8>, cur: Seq<u8>)
    requires
        no_newline(line),
    ensures
        spec_split_from(line + seq![10u8] + rest, cur) == seq![cur + line] + spec_split_from(
            rest,
            Seq::<u8>::empty(),
        ),
    decreases line.len(),
{
    let s = line + seq![10u8] + rest;
    if line.len() == 0 {
        assert(s[0] == 10);
        assert(s.drop_first() =~= rest);
        assert(cur + line =~= cur);
    } else {
        assert(s[0] == line[0]);
        assert(line[0] != 10);
        assert(s.drop_first() =~= line.drop_first() + seq![10u8] + rest);
        assert(no_newline(line.drop_first())) by {
            assert forall|i: int| 0 <= i < line.drop_first().len() implies #[trigger] line.drop_first()[i]
                != 10 by {
                assert(line.drop_first()[i] == line[i + 1]);
            }
        }
        lemma_split_one(line.drop_first(), rest, cur.push(line[0]));
        assert(cur.push(line[0]) + line.drop_first() =~= cur + line);
    }
}

/// Splitting a joined line sequence gives the lines back, plus the empty
/// segment after the final newline.
pub proof fn lemma_split_join(lines: Seq<Seq<u8>>)
    requires
        no_newline_all(lines),
    ensures
        spec_split_from(spec_join_lines(lines), Seq::<u8>::empty()) == lines + seq![
            Seq::<u8>::empty(),
        ],
    decreases lines.len(),
{
    if lines.len() == 0 {
        assert(spec_join_lines(lines) =~= Seq::<u8>::empty());
        assert(seq![Seq::<u8>::empty()] =~= lines + seq![Seq::<u8>::empty()]);
    } else {
        lemma_split_one(lines[0], spec_join_lines(lines.drop_first()), Seq::<u8>::empty());
        assert(no_newline_all(lines.drop_first())) by {
            assert forall|i: int| 0 <= i < lines.drop_first().len() implies no_newline(
                #[trigger] lines.drop_first()[i],
            ) by {
                assert(lines.drop_first()[i] == lines[i + 1]);
            }
        }
        lemma_split_join(lines.drop_first());
        assert(Seq::<u8>::empty() + lines[0] =~= lines[0]);
        assert(seq![lines[0]] + (lines.drop_first() + seq![Seq::<u8>::empty()]) =~= lines + seq![
            Seq::<u8>::empty(),
        ]);
    }
}

/// The fold over concatenated line sequences runs the first part, then the
/// second from where the first ended.
pub proof fn lemma_parse_lines_append(a: Seq<Seq<u8>>, b: Seq<Seq<u8>>, sec: Section, d: DocV)
    ensures
        spec_parse_lines(a + b, sec, d) == match spec_parse_lines(a, sec, d) {
            Some(st) => spec_parse_lines(b, st.0, st.1),
            None => None::<(Section, DocV)>,
        },
    decreases a.len(),
{
    if a.len() == 0 {
        assert(a + b =~= b);
    } else {
        assert((a + b)[0] == a[0]);
        assert((a + b).drop_first() =~= a.drop_first() + b);
        match spec_step_line(sec, d, a[0]) {
            Some(st) => {
                lemma_parse_lines_append(a.drop_first(), b, st.0, st.1);
            },
            None => {},
        }
    }
}

/// A `key = value` line steps the parser exactly as `spec_apply_kv` says,
/// whatever the value holds.
pub proof fn lemma_step_kv(sec: Section, d: DocV, key: Seq<u8>, val: Seq<u8>)
    requires
        key.len() >= 1,
        no_space(key),
        key[0] != 91,
    ensures
        spec_step_line(sec, d, spec_kv_line(key, val)) == spec_apply_kv(sec, d, key, val),
{
    let line = spec_kv_line(key, val);
    let k = key.len() as int;
    assert(line.len() == key.len() + 3 + val.len());
    assert(line[0] == key[0]);
    assert forall|j: int| 0 <= j < k implies line[j] != 32 by {
        assert(line[j] == key[j]);
    }
    assert(line[k] == 32);
    lemma_first_idx_is(line, 32, k);
    assert(line[k + 1] == 61);
    assert(line[k + 2] == 32);
    assert(line.take(k) =~= key);
    assert(line.skip(k + 3) =~= val);
}

/// The section a header line switches to.
pub open spec fn spec_section_of(name: Seq<u8>) -> Section {
    if name == sec_appearance() {
        Section::InAppearance
    } else if name == sec_ai() {
        Section::InAi
    } else if name == sec_window() {
        Section::InWindow
    } else {
        Section::Other
    }
}

/// A header line switches the section and touches nothing else.
pub proof fn lemma_step_header(sec: Section, d: DocV, name: Seq<u8>)
    ensures
        spec_step_line(sec, d, spec_header_line(name)) == Some((spec_section_of(name), d)),
{
    let line = spec_header_line(name);
    assert(line.len() == name.len() + 2);
    assert(line[0] == 91);
    assert(line.last() == 93);
    assert(line.subrange(1, line.len() - 1) =~= name);
}

/// How `pet_size` lands in the document.
pub proof fn lemma_apply_pet_size(d: DocV, val: Seq<u8>)
    ensures
        spec_apply_kv(Section::InAppearance, d, k_pet_size(), val) == match spec_parse_int(val) {
            Some(v) => if 1 <= v <= i32::MAX {
                Some((Section::InAppearance, DocV { appearance: AppearanceV { pet_size: v, ..d.appearance }, ..d }))
            } else {
                None
            },
            None => None,
        },
{
    reveal(spec_apply_kv);
}

/// How `pet_opacity` lands in the document.
pub proof fn lemma_apply_pet_opacity(d: DocV, val: Seq<u8>)
    ensures
        spec_apply_kv(Section::InAppearance, d, k_pet_opacity(), val) == match spec_parse_milli(val) {
            Some(v) => if 0 <= v <= 1000 {
                Some((Section::InAppearance, DocV { appearance: AppearanceV { pet_opacity_milli: v, ..d.appearance }, ..d }))
            } else {
                None
            },
            None => None,
        },
{
    reveal(spec_apply_kv);
}

/// How `show_border` lands in the document.
pub proof fn lemma_apply_show_border(d: DocV, val: Seq<u8>)
    ensures
        spec_apply_kv(Section::InAppearance, d, k_show_border(), val) == match spec_parse_bool(val) {
            Some(v) => Some((Section::InAppearance, DocV { appearance: AppearanceV { show_border: v, ..d.appearance }, ..d })),
            None => None,
        },
{
    reveal(spec_apply_kv);
    assert(k_show_border()[0] == 115 && k_pet_opacity()[0] == 112);
    assert(k_show_border() != k_pet_opacity());
}

/// How `api_key` lands in the document.
pub proof fn lemma_apply_api_key(d: DocV, val: Seq<u8>)
    ensures
        spec_apply_kv(Section::InAi, d, k_api_key(), val) == match spec_parse_string(val) {
            Some(v) => Some((Section::InAi, DocV { ai: AiV { api_key: v, ..d.ai }, ..d })),
            None => None,
        },
{
    reveal(spec_apply_kv);
}

/// How `base_url` lands in the document.
pub proof fn lemma_apply_base_url(d: DocV, val: Seq<u8>)
    ensures
        spec_apply_kv(Section::InAi, d, k_base_url(), val) == match spec_parse_string(val) {
            Some(v) => Some((Section::InAi, DocV { ai: AiV { base_url: v, ..d.ai }, ..d })),
            None => None,
        },
{
    reveal(spec_apply_kv);
}

/// How `model` lands in the document.
pub proof fn lemma_apply_model(d: DocV, val: Seq<u8>)
    ensures
        spec_apply_kv(Section::InAi, d, k_model(), val) == match spec_parse_string(val) {
            Some(v) => Some((Section::InAi, DocV { ai: AiV { model: v, ..d.ai }, ..d })),
            None => None,
        },
{
    reveal(spec_apply_kv);
}

/// How `temperature` lands in the document.
pub proof fn lemma_apply_temperature(d: DocV, val: Seq<u8>)
    ensures
        spec_apply_kv(Section::InAi, d, k_temperature(), val) == match spec_parse_milli(val) {
            Some(v) => if milli_in_range(v) {
                Some((Section::InAi, DocV { ai: AiV { temperature_milli: v, ..d.ai }, ..d }))
            } else {
                None
            },
            None => None,
        },
{
    reveal(spec_apply_kv);
}

/// How `max_tokens` lands in the document.
pub proof fn lemma_apply_max_tokens(d: DocV, val: Seq<u8>)
    ensures
        spec_apply_kv(Section::InAi, d, k_max_tokens(), val) == match spec_parse_int(val) {
            Some(v) => if 1 <= v <= i32::MAX {
                Some((Section::InAi, DocV { ai: AiV { max_tokens: v, ..d.ai }, ..d }))
            } else {
                None
            },
            None => None,
        },
{
    reveal(spec_apply_kv);
}

/// How `system_prompt` lands in the document.
pub proof fn lemma_apply_system_prompt(d: DocV, val: Seq<u8>)
    ensures
        spec_apply_kv(Section::InAi, d, k_system_prompt(), val) == match spec_parse_string(val) {
            Some(v) => Some((Section::InAi, DocV { ai: AiV { system_prompt: Some(v), ..d.ai }, ..d })),
            None => None,
        },
{
    reveal(spec_apply_kv);
}

/// How `main_window_x` lands in the document.
pub proof fn lemma_apply_main_window_x(d: DocV, val: Seq<u8>)
    ensures
        spec_apply_kv(Section::InWindow, d, k_main_window_x(), val) == match spec_parse_milli(val) {
            Some(v) => if milli_in_range(v) {
                Some((Section::InWindow, DocV { window: WindowV { main_window_x_milli: v, ..d.window }, ..d }))
            } else {
                None
            },
            None => None,
        },
{
    reveal(spec_apply_kv);
}

/// How `main_window_y` lands in the document.
pub proof fn lemma_apply_main_window_y(d: DocV, val: Seq<u8>)
    ensures
        spec_apply_kv(Section::InWindow, d, k_main_window_y(), val) == match spec_parse_milli(val) {
            Some(v) => if milli_in_range(v) {
                Some((Section::InWindow, DocV { window: WindowV { main_window_y_milli: v, ..d.window }, ..d }))
            } else {
                None
            },
            None => None,
        },
{
    reveal(spec_apply_kv);
    assert(k_main_window_y()[12] == 121 && k_main_window_x()[12] == 120);
    assert(k_main_window_y() != k_main_window_x());
}

/// How `settings_window_x` lands in the document.
pub proof fn lemma_apply_settings_window_x(d: DocV, val: Seq<u8>)
    ensures
        spec_apply_kv(Section::InWindow, d, k_settings_window_x(), val) == match spec_parse_milli(val) {
            Some(v) => if milli_in_range(v) {
                Some((Section::InWindow, DocV { window: WindowV { settings_window_x_milli: Some(v), ..d.window }, ..d }))
            } else {
                None
            },
            None => None,
        },
{
    reveal(spec_apply_kv);
}

/// How `settings_window_y` lands in the document.
pub proof fn lemma_apply_settings_window_y(d: DocV, val: Seq<u8>)
    ensures
        spec_apply_kv(Section::InWindow, d, k_settings_window_y(), val) == match spec_parse_milli(val) {
            Some(v) => if milli_in_range(v) {
                Some((Section::InWindow, DocV { window: WindowV { settings_window_y_milli: Some(v), ..d.window }, ..d }))
            } else {
                None
            },
            None => None,
        },
{
    reveal(spec_apply_kv);
    assert(k_settings_window_y()[16] == 121 && k_settings_window_x()[16] == 120);
    assert(k_settings_window_y() != k_settings_window_x());
}

/// How `settings_window_width` lands in the document.
pub proof fn lemma_apply_settings_window_width(d: DocV, val: Seq<u8>)
    ensures
        spec_apply_kv(Section::InWindow, d, k_settings_window_width(), val) == match spec_parse_milli(val) {
            Some(v) => if milli_in_range(v) {
                Some((Section::InWindow, DocV { window: WindowV { settings_window_width_milli: Some(v), ..d.window }, ..d }))
            } else {
                None
            },
            None => None,
        },
{
    reveal(spec_apply_kv);
}

/// How `settings_window_height` lands in the document.
pub proof fn lemma_apply_settings_window_height(d: DocV, val: Seq<u8>)
    ensures
        spec_apply_kv(Section::InWindow, d, k_settings_window_height(), val) == match spec_parse_milli(val) {
            Some(v) => if milli_in_range(v) {
                Some((Section::InWindow, DocV { window: WindowV { settings_window_height_milli: Some(v), ..d.window }, ..d }))
            } else {
                None
            },
            None => None,
        },
{
    reveal(spec_apply_kv);
}

/// Parsing the rendered appearance section, from any prior state, lands in
/// the appearance section with exactly those settings applied.
#[verifier::rlimit(60)]
pub proof fn lemma_parse_appearance(a: AppearanceV, sec: Section, d: DocV)
    requires
        appearance_wf(a),
    ensures
        spec_parse_lines(spec_appearance_lines(a), sec, d) == Some(
            (Section::InAppearance, DocV { appearance: a, ..d }),
        ),
{
    let ls = spec_appearance_lines(a);
    let l1 = spec_kv_line(k_pet_size(), spec_render_int(a.pet_size));
    let l2 = spec_kv_line(k_pet_opacity(), spec_render_milli(a.pet_opacity_milli));
    let l3 = spec_kv_line(k_show_border(), spec_render_bool(a.show_border));
    let le = Seq::<u8>::empty();
    let s1 = Section::InAppearance;
    lemma_pow10_16();

    lemma_step_header(sec, d, sec_appearance());
    assert(spec_section_of(sec_appearance()) == Section::InAppearance);

    assert(no_space(k_pet_size()));
    lemma_step_kv(s1, d, k_pet_size(), spec_render_int(a.pet_size));
    lemma_parse_int_roundtrip(a.pet_size);
    lemma_apply_pet_size(d, spec_render_int(a.pet_size));
    let d1 = DocV { appearance: AppearanceV { pet_size: a.pet_size, ..d.appearance }, ..d };
    assert(spec_apply_kv(s1, d, k_pet_size(), spec_render_int(a.pet_size)) == Some((s1, d1)));

    assert(no_space(k_pet_opacity()));
    lemma_step_kv(s1, d1, k_pet_opacity(), spec_render_milli(a.pet_opacity_milli));
    lemma_parse_milli_roundtrip(a.pet_opacity_milli);
    lemma_apply_pet_opacity(d1, spec_render_milli(a.pet_opacity_milli));
    let d2 = DocV {
        appearance: AppearanceV { pet_opacity_milli: a.pet_opacity_milli, ..d1.appearance },
        ..d1
    };
    assert(spec_apply_kv(s1, d1, k_pet_opacity(), spec_render_milli(a.pet_opacity_milli)) == Some(
        (s1, d2),
    ));

    assert(no_space(k_show_border()));
    lemma_step_kv(s1, d2, k_show_border(), spec_render_bool(a.show_border));
    lemma_parse_bool_roundtrip(a.show_border);
    lemma_apply_show_border(d2, spec_render_bool(a.show_border));
    let d3 = DocV {
        appearance: AppearanceV { show_border: a.show_border, ..d2.appearance },
        ..d2
    };
    assert(spec_apply_kv(s1, d2, k_show_border(), spec_render_bool(a.show_border)) == Some(
        (s1, d3),
    ));

    assert(ls.drop_first() =~= seq![l1, l2, l3, le]);
    assert(seq![l1, l2, l3, le].drop_first() =~= seq![l2, l3, le]);
    assert(seq![l2, l3, le].drop_first() =~= seq![l3, le]);
    assert(seq![l3, le].drop_first() =~= seq![le]);
    assert(seq![le].drop_first() =~= Seq::<Seq<u8>>::empty());
    assert(spec_step_line(s1, d3, le) == Some((s1, d3)));
    assert(spec_parse_lines(Seq::<Seq<u8>>::empty(), s1, d3) == Some((s1, d3)));
    assert(seq![le][0] == le && seq![l3, le][0] == l3 && seq![l2, l3, le][0] == l2 && seq![l1, l2,
        l3, le][0] == l1 && ls[0] == spec_header_line(sec_appearance()));
    assert(spec_parse_lines(seq![le], s1, d3) == Some((s1, d3)));
    assert(spec_parse_lines(seq![l3, le], s1, d2) == Some((s1, d3)));
    assert(spec_parse_lines(seq![l2, l3, le], s1, d1) == Some((s1, d3)));
    assert(spec_parse_lines(seq![l1, l2, l3, le], s1, d) == Some((s1, d3)));
    assert(spec_parse_lines(ls, sec, d) == Some((s1, d3)));
    assert(d3.appearance == a);
    assert(d3 == DocV { appearance: a, ..d });
}

/// Parsing the rendered AI section applies exactly those settings; the
/// system prompt keeps its prior value when none is rendered.
#[verifier::rlimit(100)]
pub proof fn lemma_parse_ai(ai: AiV, sec: Section, d: DocV)
    requires
        ai_wf(ai),
    ensures
        spec_parse_lines(spec_ai_lines(ai), sec, d) == Some(
            (
                Section::InAi,
                DocV {
                    ai: AiV {
                        system_prompt: if ai.system_prompt is Some {
                            ai.system_prompt
                        } else {
                            d.ai.system_prompt
                        },
                        ..ai
                    },
                    ..d
                },
            ),
        ),
{
    let s1 = Section::InAi;
    lemma_pow10_16();
    let h = spec_header_line(sec_ai());
    let l1 = spec_kv_line(k_api_key(), spec_render_string(ai.api_key));
    let l2 = spec_kv_line(k_base_url(), spec_render_string(ai.base_url));
    let l3 = spec_kv_line(k_model(), spec_render_string(ai.model));
    let l4 = spec_kv_line(k_temperature(), spec_render_milli(ai.temperature_milli));
    let l5 = spec_kv_line(k_max_tokens(), spec_render_int(ai.max_tokens));
    let base = seq![h, l1, l2, l3, l4, l5];
    let opt = spec_opt_string_lines(k_system_prompt(), ai.system_prompt);
    let le = Seq::<u8>::empty();
    assert(spec_ai_lines(ai) =~= base + (opt + seq![le]));
    lemma_parse_lines_append(base, opt + seq![le], sec, d);

    lemma_step_header(sec, d, sec_ai());
    assert(spec_section_of(sec_ai()) == Section::InAi);

    assert(no_space(k_api_key()));
    lemma_step_kv(s1, d, k_api_key(), spec_render_string(ai.api_key));
    lemma_parse_string_roundtrip(ai.api_key);
    lemma_apply_api_key(d, spec_render_string(ai.api_key));
    let d1 = DocV { ai: AiV { api_key: ai.api_key, ..d.ai }, ..d };
    assert(spec_apply_kv(s1, d, k_api_key(), spec_render_string(ai.api_key)) == Some((s1, d1)));

    assert(no_space(k_base_url()));
    lemma_step_kv(s1, d1, k_base_url(), spec_render_string(ai.base_url));
    lemma_parse_string_roundtrip(ai.base_url);
    lemma_apply_base_url(d1, spec_render_string(ai.base_url));
    let d2 = DocV { ai: AiV { base_url: ai.base_url, ..d1.ai }, ..d1 };
    assert(spec_apply_kv(s1, d1, k_base_url(), spec_render_string(ai.base_url)) == Some((s1, d2)));

    assert(no_space(k_model()));
    lemma_step_kv(s1, d2, k_model(), spec_render_string(ai.model));
    lemma_parse_string_roundtrip(ai.model);
    lemma_apply_model(d2, spec_render_string(ai.model));
    let d3 = DocV { ai: AiV { model: ai.model, ..d2.ai }, ..d2 };
    assert(spec_apply_kv(s1, d2, k_model(), spec_render_string(ai.model)) == Some((s1, d3)));

    assert(no_space(k_temperature()));
    lemma_step_kv(s1, d3, k_temperature(), spec_render_milli(ai.temperature_milli));
    lemma_parse_milli_roundtrip(ai.temperature_milli);
    lemma_apply_temperature(d3, spec_render_milli(ai.temperature_milli));
    let d4 = DocV { ai: AiV { temperature_milli: ai.temperature_milli, ..d3.ai }, ..d3 };
    assert(spec_apply_kv(s1, d3, k_temperature(), spec_render_milli(ai.temperature_milli)) == Some(
        (s1, d4),
    ));

    assert(no_space(k_max_tokens()));
    lemma_step_kv(s1, d4, k_max_tokens(), spec_render_int(ai.max_tokens));
    lemma_parse_int_roundtrip(ai.max_tokens);
    lemma_apply_max_tokens(d4, spec_render_int(ai.max_tokens));
    let d5 = DocV { ai: AiV { max_tokens: ai.max_tokens, ..d4.ai }, ..d4 };
    assert(spec_apply_kv(s1, d4, k_max_tokens(), spec_render_int(ai.max_tokens)) == Some(
        (s1, d5),
    ));

    assert(base[0] == h && seq![l1, l2, l3, l4, l5][0] == l1 && seq![l2, l3, l4, l5][0] == l2
        && seq![l3, l4, l5][0] == l3 && seq![l4, l5][0] == l4 && seq![l5][0] == l5);
    assert(base.drop_first() =~= seq![l1, l2, l3, l4, l5]);
    assert(seq![l1, l2, l3, l4, l5].drop_first() =~= seq![l2, l3, l4, l5]);
    assert(seq![l2, l3, l4, l5].drop_first() =~= seq![l3, l4, l5]);
    assert(seq![l3, l4, l5].drop_first() =~= seq![l4, l5]);
    assert(seq![l4, l5].drop_first() =~= seq![l5]);
    assert(seq![l5].drop_first() =~= Seq::<Seq<u8>>::empty());
    assert(spec_parse_lines(Seq::<Seq<u8>>::empty(), s1, d5) == Some((s1, d5)));
    assert(spec_parse_lines(seq![l5], s1, d4) == Some((s1, d5)));
    assert(spec_parse_lines(seq![l4, l5], s1, d3) == Some((s1, d5)));
    assert(spec_parse_lines(seq![l3, l4, l5], s1, d2) == Some((s1, d5)));
    assert(spec_parse_lines(seq![l2, l3, l4, l5], s1, d1) == Some((s1, d5)));
    assert(spec_parse_lines(seq![l1, l2, l3, l4, l5], s1, d) == Some((s1, d5)));
    assert(spec_parse_lines(base, sec, d) == Some((s1, d5)));

    match ai.system_prompt {
        None => {
            assert(opt + seq![le] =~= seq![le]);
            assert(spec_step_line(s1, d5, le) == Some((s1, d5)));
            assert(seq![le][0] == le);
            assert(seq![le].drop_first() =~= Seq::<Seq<u8>>::empty());
            assert(spec_parse_lines(Seq::<Seq<u8>>::empty(), s1, d5) == Some((s1, d5)));
            assert(spec_parse_lines(seq![le], s1, d5) == Some((s1, d5)));
            assert(d5.ai == AiV {
                system_prompt: d.ai.system_prompt,
                ..ai
            });
        },
        Some(p) => {
            let lp = spec_kv_line(k_system_prompt(), spec_render_string(p));
            assert(opt + seq![le] =~= seq![lp, le]);
            assert(no_space(k_system_prompt()));
            lemma_step_kv(s1, d5, k_system_prompt(), spec_render_string(p));
            lemma_parse_string_roundtrip(p);
            lemma_apply_system_prompt(d5, spec_render_string(p));
            let d6 = DocV { ai: AiV { system_prompt: Some(p), ..d5.ai }, ..d5 };
            assert(spec_apply_kv(s1, d5, k_system_prompt(), spec_render_string(p)) == Some(
                (s1, d6),
            ));
            assert(seq![lp, le][0] == lp && seq![le][0] == le);
            assert(seq![lp, le].drop_first() =~= seq![le]);
            assert(seq![le].drop_first() =~= Seq::<Seq<u8>>::empty());
            assert(spec_step_line(s1, d6, le) == Some((s1, d6)));
            assert(spec_parse_lines(Seq::<Seq<u8>>::empty(), s1, d6) == Some((s1, d6)));
            assert(spec_parse_lines(seq![le], s1, d6) == Some((s1, d6)));
            assert(spec_parse_lines(seq![lp, le], s1, d5) == Some((s1, d6)));
            assert(d6.ai == AiV { system_prompt: Some(p), ..ai });
        },
    }
}

/// Parsing the rendered window section applies exactly those settings; an
/// absent optional bound keeps its prior value.
#[verifier::rlimit(100)]
pub proof fn lemma_parse_window(w: WindowV, sec: Section, d: DocV)
    requires
        window_wf(w),
    ensures
        spec_parse_lines(spec_window_lines(w), sec, d) == Some(
            (
                Section::InWindow,
                DocV {
                    window: WindowV {
                        main_window_x_milli: w.main_window_x_milli,
                        main_window_y_milli: w.main_window_y_milli,
                        settings_window_x_milli: if w.settings_window_x_milli is Some {
                            w.settings_window_x_milli
                        } else {
                            d.window.settings_window_x_milli
                        },
                        settings_window_y_milli: if w.settings_window_y_milli is Some {
                            w.settings_window_y_milli
                        } else {
                            d.window.settings_window_y_milli
                        },
                        settings_window_width_milli: if w.settings_window_width_milli is Some {
                            w.settings_window_width_milli
                        } else {
                            d.window.settings_window_width_milli
                        },
                        settings_window_height_milli: if w.settings_window_height_milli is Some {
                            w.settings_window_height_milli
                        } else {
                            d.window.settings_window_height_milli
                        },
                    },
                    ..d
                },
            ),
        ),
{
    let s1 = Section::InWindow;
    lemma_pow10_16();
    let h = spec_header_line(sec_window());
    let lx = spec_kv_line(k_main_window_x(), spec_render_milli(w.main_window_x_milli));
    let ly = spec_kv_line(k_main_window_y(), spec_render_milli(w.main_window_y_milli));
    let base = seq![h, lx, ly];
    let o1 = spec_opt_milli_lines(k_settings_window_x(), w.settings_window_x_milli);
    let o2 = spec_opt_milli_lines(k_settings_window_y(), w.settings_window_y_milli);
    let o3 = spec_opt_milli_lines(k_settings_window_width(), w.settings_window_width_milli);
    let o4 = spec_opt_milli_lines(k_settings_window_height(), w.settings_window_height_milli);
    assert(spec_window_lines(w) =~= base + (o1 + (o2 + (o3 + o4))));

    lemma_step_header(sec, d, sec_window());
    assert(spec_section_of(sec_window()) == Section::InWindow);

    assert(no_space(k_main_window_x()));
    lemma_step_kv(s1, d, k_main_window_x(), spec_render_milli(w.main_window_x_milli));
    lemma_parse_milli_roundtrip(w.main_window_x_milli);
    lemma_apply_main_window_x(d, spec_render_milli(w.main_window_x_milli));
    let d1 = DocV { window: WindowV { main_window_x_milli: w.main_window_x_milli, ..d.window }, ..d };
    assert(spec_apply_kv(s1, d, k_main_window_x(), spec_render_milli(w.main_window_x_milli))
        == Some((s1, d1)));

    assert(no_space(k_main_window_y()));
    lemma_step_kv(s1, d1, k_main_window_y(), spec_render_milli(w.main_window_y_milli));
    lemma_parse_milli_roundtrip(w.main_window_y_milli);
    lemma_apply_main_window_y(d1, spec_render_milli(w.main_window_y_milli));
    let d2 = DocV {
        window: WindowV { main_window_y_milli: w.main_window_y_milli, ..d1.window },
        ..d1
    };
    assert(spec_apply_kv(s1, d1, k_main_window_y(), spec_render_milli(w.main_window_y_milli))
        == Some((s1, d2)));

    assert(base[0] == h && seq![lx, ly][0] == lx && seq![ly][0] == ly);
    assert(base.drop_first() =~= seq![lx, ly]);
    assert(seq![lx, ly].drop_first() =~= seq![ly]);
    assert(seq![ly].drop_first() =~= Seq::<Seq<u8>>::empty());
    assert(spec_parse_lines(Seq::<Seq<u8>>::empty(), s1, d2) == Some((s1, d2)));
    assert(spec_parse_lines(seq![ly], s1, d1) == Some((s1, d2)));
    assert(spec_parse_lines(seq![lx, ly], s1, d) == Some((s1, d2)));
    assert(spec_parse_lines(base, sec, d) == Some((s1, d2)));
    lemma_parse_lines_append(base, o1 + (o2 + (o3 + o4)), sec, d);

    let d3 = match w.settings_window_x_milli {
        Some(v) => DocV {
            window: WindowV { settings_window_x_milli: Some(v), ..d2.window },
            ..d2
        },
        None => d2,
    };
    match w.settings_window_x_milli {
        Some(v) => {
            let lv = spec_kv_line(k_settings_window_x(), spec_render_milli(v));
            assert(o1 =~= seq![lv]);
            assert(no_space(k_settings_window_x()));
            lemma_step_kv(s1, d2, k_settings_window_x(), spec_render_milli(v));
            lemma_parse_milli_roundtrip(v);
            lemma_apply_settings_window_x(d2, spec_render_milli(v));
            assert(spec_apply_kv(s1, d2, k_settings_window_x(), spec_render_milli(v)) == Some(
                (s1, d3),
            ));
            assert(seq![lv][0] == lv);
            assert(seq![lv].drop_first() =~= Seq::<Seq<u8>>::empty());
            assert(spec_parse_lines(Seq::<Seq<u8>>::empty(), s1, d3) == Some((s1, d3)));
            assert(spec_parse_lines(o1, s1, d2) == Some((s1, d3)));
        },
        None => {
            assert(o1 =~= Seq::<Seq<u8>>::empty());
            assert(spec_parse_lines(o1, s1, d2) == Some((s1, d3)));
        },
    }
    lemma_parse_lines_append(o1, o2 + (o3 + o4), s1, d2);

    let d4 = match w.settings_window_y_milli {
        Some(v) => DocV {
            window: WindowV { settings_window_y_milli: Some(v), ..d3.window },
            ..d3
        },
        None => d3,
    };
    match w.settings_window_y_milli {
        Some(v) => {
            let lv = spec_kv_line(k_settings_window_y(), spec_render_milli(v));
            assert(o2 =~= seq![lv]);
            assert(no_space(k_settings_window_y()));
            lemma_step_kv(s1, d3, k_settings_window_y(), spec_render_milli(v));
            lemma_parse_milli_roundtrip(v);
            lemma_apply_settings_window_y(d3, spec_render_milli(v));
            assert(spec_apply_kv(s1, d3, k_settings_window_y(), spec_render_milli(v)) == Some(
                (s1, d4),
            ));
            assert(seq![lv][0] == lv);
            assert(seq![lv].drop_first() =~= Seq::<Seq<u8>>::empty());
            assert(spec_parse_lines(Seq::<Seq<u8>>::empty(), s1, d4) == Some((s1, d4)));
            assert(spec_parse_lines(o2, s1, d3) == Some((s1, d4)));
        },
        None => {
            assert(o2 =~= Seq::<Seq<u8>>::empty());
            assert(spec_parse_lines(o2, s1, d3) == Some((s1, d4)));
        },
    }
    lemma_parse_lines_append(o2, o3 + o4, s1, d3);

    let d5 = match w.settings_window_width_milli {
        Some(v) => DocV {
            window: WindowV { settings_window_width_milli: Some(v), ..d4.window },
            ..d4
        },
        None => d4,
    };
    match w.settings_window_width_milli {
        Some(v) => {
            let lv = spec_kv_line(k_settings_window_width(), spec_render_milli(v));
            assert(o3 =~= seq![lv]);
            assert(no_space(k_settings_window_width()));
            lemma_step_kv(s1, d4, k_settings_window_width(), spec_render_milli(v));
            lemma_parse_milli_roundtrip(v);
            lemma_apply_settings_window_width(d4, spec_render_milli(v));
            assert(spec_apply_kv(s1, d4, k_settings_window_width(), spec_render_milli(v)) == Some(
                (s1, d5),
            ));
            assert(seq![lv][0] == lv);
            assert(seq![lv].drop_first() =~= Seq::<Seq<u8>>::empty());
            assert(spec_parse_lines(Seq::<Seq<u8>>::empty(), s1, d5) == Some((s1, d5)));
            assert(spec_parse_lines(o3, s1, d4) == Some((s1, d5)));
        },
        None => {
            assert(o3 =~= Seq::<Seq<u8>>::empty());
            assert(spec_parse_lines(o3, s1, d4) == Some((s1, d5)));
        },
    }
    lemma_parse_lines_append(o3, o4, s1, d4);

    let d6 = match w.settings_window_height_milli {
        Some(v) => DocV {
            window: WindowV { settings_window_height_milli: Some(v), ..d5.window },
            ..d5
        },
        None => d5,
    };
    match w.settings_window_height_milli {
        Some(v) => {
            let lv = spec_kv_line(k_settings_window_height(), spec_render_milli(v));
            assert(o4 =~= seq![lv]);
            assert(no_space(k_settings_window_height()));
            lemma_step_kv(s1, d5, k_settings_window_height(), spec_render_milli(v));
            lemma_parse_milli_roundtrip(v);
            lemma_apply_settings_window_height(d5, spec_render_milli(v));
            assert(spec_apply_kv(s1, d5, k_settings_window_height(), spec_render_milli(v)) == Some(
                (s1, d6),
            ));
            assert(seq![lv][0] == lv);
            assert(seq![lv].drop_first() =~= Seq::<Seq<u8>>::empty());
            assert(spec_parse_lines(Seq::<Seq<u8>>::empty(), s1, d6) == Some((s1, d6)));
            assert(spec_parse_lines(o4, s1, d5) == Some((s1, d6)));
        },
        None => {
            assert(o4 =~= Seq::<Seq<u8>>::empty());
            assert(spec_parse_lines(o4, s1, d5) == Some((s1, d6)));
        },
    }

    assert(spec_parse_lines(spec_window_lines(w), sec, d) == Some((s1, d6)));
    assert(d6.window == WindowV {
        main_window_x_milli: w.main_window_x_milli,
        main_window_y_milli: w.main_window_y_milli,
        settings_window_x_milli: if w.settings_window_x_milli is Some {
            w.settings_window_x_milli
        } else {
            d.window.settings_window_x_milli
        },
        settings_window_y_milli: if w.settings_window_y_milli is Some {
            w.settings_window_y_milli
        } else {
            d.window.settings_window_y_milli
        },
        settings_window_width_milli: if w.settings_window_width_milli is Some {
            w.settings_window_width_milli
        } else {
            d.window.settings_window_width_milli
        },
        settings_window_height_milli: if w.settings_window_height_milli is Some {
            w.settings_window_height_milli
        } else {
            d.window.settings_window_height_milli
        },
    });
}

pub proof fn lemma_appearance_lines_no_newline(a: AppearanceV)
    ensures
        no_newline_all(spec_appearance_lines(a)),
{
    let ls = spec_appearance_lines(a);
    lemma_no_newline_header(sec_appearance());
    lemma_no_newline_int(a.pet_size);
    lemma_no_newline_kv(k_pet_size(), spec_render_int(a.pet_size));
    lemma_no_newline_milli(a.pet_opacity_milli);
    lemma_no_newline_kv(k_pet_opacity(), spec_render_milli(a.pet_opacity_milli));
    lemma_no_newline_bool(a.show_border);
    lemma_no_newline_kv(k_show_border(), spec_render_bool(a.show_border));
    assert forall|i: int| 0 <= i < ls.len() implies no_newline(#[trigger] ls[i]) by {
        if i == 0 {
            assert(ls[i] == spec_header_line(sec_appearance()));
        } else if i == 1 {
            assert(ls[i] == spec_kv_line(k_pet_size(), spec_render_int(a.pet_size)));
        } else if i == 2 {
            assert(ls[i] == spec_kv_line(k_pet_opacity(), spec_render_milli(a.pet_opacity_milli)));
        } else if i == 3 {
            assert(ls[i] == spec_kv_line(k_show_border(), spec_render_bool(a.show_border)));
        } else {
            assert(ls[i] == Seq::<u8>::empty());
        }
    }
}

pub proof fn lemma_ai_lines_no_newline(ai: AiV)
    ensures
        no_newline_all(spec_ai_lines(ai)),
{
    let base = seq![
        spec_header_line(sec_ai()),
        spec_kv_line(k_api_key(), spec_render_string(ai.api_key)),
        spec_kv_line(k_base_url(), spec_render_string(ai.base_url)),
        spec_kv_line(k_model(), spec_render_string(ai.model)),
        spec_kv_line(k_temperature(), spec_render_milli(ai.temperature_milli)),
        spec_kv_line(k_max_tokens(), spec_render_int(ai.max_tokens)),
    ];
    let opt = spec_opt_string_lines(k_system_prompt(), ai.system_prompt);
    lemma_no_newline_header(sec_ai());
    lemma_no_newline_string(ai.api_key);
    lemma_no_newline_kv(k_api_key(), spec_render_string(ai.api_key));
    lemma_no_newline_string(ai.base_url);
    lemma_no_newline_kv(k_base_url(), spec_render_string(ai.base_url));
    lemma_no_newline_string(ai.model);
    lemma_no_newline_kv(k_model(), spec_render_string(ai.model));
    lemma_no_newline_milli(ai.temperature_milli);
    lemma_no_newline_kv(k_temperature(), spec_render_milli(ai.temperature_milli));
    lemma_no_newline_int(ai.max_tokens);
    lemma_no_newline_kv(k_max_tokens(), spec_render_int(ai.max_tokens));
    assert forall|i: int| 0 <= i < base.len() implies no_newline(#[trigger] base[i]) by {
        if i == 0 {
            assert(base[i] == spec_header_line(sec_ai()));
        } else if i == 1 {
            assert(base[i] == spec_kv_line(k_api_key(), spec_render_string(ai.api_key)));
        } else if i == 2 {
            assert(base[i] == spec_kv_line(k_base_url(), spec_render_string(ai.base_url)));
        } else if i == 3 {
            assert(base[i] == spec_kv_line(k_model(), spec_render_string(ai.model)));
        } else if i == 4 {
            assert(base[i] == spec_kv_line(k_temperature(), spec_render_milli(
                ai.temperature_milli,
            )));
        } else {
            assert(base[i] == spec_kv_line(k_max_tokens(), spec_render_int(ai.max_tokens)));
        }
    }
    assert(no_newline_all(opt)) by {
        match ai.system_prompt {
            Some(p) => {
                lemma_no_newline_string(p);
                lemma_no_newline_kv(k_system_prompt(), spec_render_string(p));
                assert(opt[0] == spec_kv_line(k_system_prompt(), spec_render_string(p)));
            },
            None => {},
        }
    }
    assert(no_newline_all(seq![Seq::<u8>::empty()])) by {
        assert(seq![Seq::<u8>::empty()][0] == Seq::<u8>::empty());
    }
    lemma_no_newline_all_concat(base, opt);
    lemma_no_newline_all_concat(base + opt, seq![Seq::<u8>::empty()]);
    assert(spec_ai_lines(ai) == (base + opt) + seq![Seq::<u8>::empty()]);
}

pub proof fn lemma_opt_milli_lines_no_newline(key: Seq<u8>, ov: Option<int>)
    requires
        no_newline(key),
    ensures
        no_newline_all(spec_opt_milli_lines(key, ov)),
{
    match ov {
        Some(v) => {
            lemma_no_newline_milli(v);
            lemma_no_newline_kv(key, spec_render_milli(v));
            assert(spec_opt_milli_lines(key, ov)[0] == spec_kv_line(key, spec_render_milli(v)));
        },
        None => {},
    }
}

pub proof fn lemma_window_lines_no_newline(w: WindowV)
    ensures
        no_newline_all(spec_window_lines(w)),
{
    let base = seq![
        spec_header_line(sec_window()),
        spec_kv_line(k_main_window_x(), spec_render_milli(w.main_window_x_milli)),
        spec_kv_line(k_main_window_y(), spec_render_milli(w.main_window_y_milli)),
    ];
    let o1 = spec_opt_milli_lines(k_settings_window_x(), w.settings_window_x_milli);
    let o2 = spec_opt_milli_lines(k_settings_window_y(), w.settings_window_y_milli);
    let o3 = spec_opt_milli_lines(k_settings_window_width(), w.settings_window_width_milli);
    let o4 = spec_opt_milli_lines(k_settings_window_height(), w.settings_window_height_milli);
    lemma_no_newline_header(sec_window());
    lemma_no_newline_milli(w.main_window_x_milli);
    lemma_no_newline_kv(k_main_window_x(), spec_render_milli(w.main_window_x_milli));
    lemma_no_newline_milli(w.main_window_y_milli);
    lemma_no_newline_kv(k_main_window_y(), spec_render_milli(w.main_window_y_milli));
    assert forall|i: int| 0 <= i < base.len() implies no_newline(#[trigger] base[i]) by {
        if i == 0 {
            assert(base[i] == spec_header_line(sec_window()));
        } else if i == 1 {
            assert(base[i] == spec_kv_line(k_main_window_x(), spec_render_milli(
                w.main_window_x_milli,
            )));
        } else {
            assert(base[i] == spec_kv_line(k_main_window_y(), spec_render_milli(
                w.main_window_y_milli,
            )));
        }
    }
    lemma_opt_milli_lines_no_newline(k_settings_window_x(), w.settings_window_x_milli);
    lemma_opt_milli_lines_no_newline(k_settings_window_y(), w.settings_window_y_milli);
    lemma_opt_milli_lines_no_newline(k_settings_window_width(), w.settings_window_width_milli);
    lemma_opt_milli_lines_no_newline(k_settings_window_height(), w.settings_window_height_milli);
    lemma_no_newline_all_concat(base, o1);
    lemma_no_newline_all_concat(base + o1, o2);
    lemma_no_newline_all_concat(base + o1 + o2, o3);
    lemma_no_newline_all_concat(base + o1 + o2 + o3, o4);
    assert(spec_window_lines(w) == base + o1 + o2 + o3 + o4);
}

pub proof fn lemma_render_lines_no_newline(d: DocV)
    ensures
        no_newline_all(spec_render_lines(d)),
{
    lemma_appearance_lines_no_newline(d.appearance);
    lemma_ai_lines_no_newline(d.ai);
    lemma_window_lines_no_newline(d.window);
    lemma_no_newline_all_concat(spec_appearance_lines(d.appearance), spec_ai_lines(d.ai));
    lemma_no_newline_all_concat(
        spec_appearance_lines(d.appearance) + spec_ai_lines(d.ai),
        spec_window_lines(d.window),
    );
}

/// Round trip of the whole document: parsing a rendered well-formed
/// document yields exactly that document.  Saving and then loading a
/// configuration therefore returns an equal configuration.
pub proof fn lemma_parse_render_roundtrip(d: DocV)
    requires
        doc_wf(d),
    ensures
        spec_parse_doc(spec_render_doc(d)) == Some(d),
{
    let lines = spec_render_lines(d);
    let dd = spec_parse_base_doc();
    let la = spec_appearance_lines(d.appearance);
    let li = spec_ai_lines(d.ai);
    let lw = spec_window_lines(d.window);
    let le = Seq::<u8>::empty();
    lemma_render_lines_no_newline(d);
    lemma_split_join(lines);
    assert(lines + seq![le] =~= la + (li + (lw + seq![le])));

    lemma_parse_lines_append(la, li + (lw + seq![le]), Section::Start, dd);
    lemma_parse_appearance(d.appearance, Section::Start, dd);
    let d1 = DocV { appearance: d.appearance, ..dd };

    lemma_parse_lines_append(li, lw + seq![le], Section::InAppearance, d1);
    lemma_parse_ai(d.ai, Section::InAppearance, d1);
    let d2 = DocV {
        ai: AiV {
            system_prompt: if d.ai.system_prompt is Some {
                d.ai.system_prompt
            } else {
                d1.ai.system_prompt
            },
            ..d.ai
        },
        ..d1
    };
    assert(d1.ai.system_prompt is None);
    assert(d2.ai =~= d.ai);

    lemma_parse_lines_append(lw, seq![le], Section::InAi, d2);
    lemma_parse_window(d.window, Section::InAi, d2);
    let d3 = DocV {
        window: WindowV {
            main_window_x_milli: d.window.main_window_x_milli,
            main_window_y_milli: d.window.main_window_y_milli,
            settings_window_x_milli: if d.window.settings_window_x_milli is Some {
                d.window.settings_window_x_milli
            } else {
                d2.window.settings_window_x_milli
            },
            settings_window_y_milli: if d.window.settings_window_y_milli is Some {
                d.window.settings_window_y_milli
            } else {
                d2.window.settings_window_y_milli
            },
            settings_window_width_milli: if d.window.settings_window_width_milli is Some {
                d.window.settings_window_width_milli
            } else {
                d2.window.settings_window_width_milli
            },
            settings_window_height_milli: if d.window.settings_window_height_milli is Some {
                d.window.settings_window_height_milli
            } else {
                d2.window.settings_window_height_milli
            },
        },
        ..d2
    };
    assert(d2.window.settings_window_x_milli is None);
    assert(d2.window.settings_window_y_milli is None);
    assert(d2.window.settings_window_width_milli is None);
    assert(d2.window.settings_window_height_milli is None);
    assert(d3.window =~= d.window);

    assert(seq![le][0] == le);
    assert(seq![le].drop_first() =~= Seq::<Seq<u8>>::empty());
    assert(spec_step_line(Section::InWindow, d3, le) == Some((Section::InWindow, d3)));
    assert(spec_parse_lines(Seq::<Seq<u8>>::empty(), Section::InWindow, d3) == Some(
        (Section::InWindow, d3),
    ));
    assert(spec_parse_lines(seq![le], Section::InWindow, d3) == Some((Section::InWindow, d3)));

    assert(spec_parse_lines(lines + seq![le], Section::Start, dd) == Some(
        (Section::InWindow, d3),
    ));
    assert(d3 =~~= d);
    assert(spec_parse_doc(spec_render_doc(d)) == Some(d3));
}

/// Joining one more line appends it plus a newline.
pub proof fn lemma_join_push(ls: Seq<Seq<u8>>, l: Seq<u8>)
    ensures
        spec_join_lines(ls.push(l)) == spec_join_lines(ls) + l + seq![10u8],
    decreases ls.len(),
{
    if ls.len() == 0 {
        assert(ls.push(l)[0] == l);
        assert(ls.push(l).drop_first() =~= Seq::<Seq<u8>>::empty());
        assert(spec_join_lines(Seq::<Seq<u8>>::empty()) == Seq::<u8>::empty());
        assert(l + seq![10u8] + Seq::<u8>::empty() =~= spec_join_lines(ls) + l + seq![10u8]);
    } else {
        assert(ls.push(l)[0] == ls[0]);
        assert(ls.push(l).drop_first() =~= ls.drop_first().push(l));
        lemma_join_push(ls.drop_first(), l);
        assert(ls[0] + seq![10u8] + (spec_join_lines(ls.drop_first()) + l + seq![10u8]) =~= (ls[0]
            + seq![10u8] + spec_join_lines(ls.drop_first())) + l + seq![10u8]);
    }
}

/// Appends a `[section]` header line with its newline.
fn push_header(out: &mut Vec<u8>, name: &Vec<u8>)
    ensures
        final(out)@ == old(out)@ + spec_header_line(name@) + seq![10u8],
{
    out.push(91);
    push_bytes(out, name.as_slice());
    out.push(93);
    out.push(10);
    proof {
        assert(old(out)@ + spec_header_line(name@) + seq![10u8] =~= (((old(out)@.push(91u8))
            + name@).push(93u8)).push(10u8));
    }
}

/// Appends `key = ` without a value.
fn push_kv_prefix(out: &mut Vec<u8>, key: &Vec<u8>)
    ensures
        final(out)@ == old(out)@ + key@ + seq![32u8, 61u8, 32u8],
{
    push_bytes(out, key.as_slice());
    out.push(32);
    out.push(61);
    out.push(32);
    proof {
        assert(old(out)@ + key@ + seq![32u8, 61u8, 32u8] =~= (((old(out)@ + key@).push(
            32u8,
        )).push(61u8)).push(32u8));
    }
}

/// Appends a full `key = <integer>` line with its newline.
fn push_kv_int_line(out: &mut Vec<u8>, key: &Vec<u8>, v: i64)
    requires
        v > i64::MIN,
    ensures
        final(out)@ == old(out)@ + spec_kv_line(key@, spec_render_int(v as int)) + seq![10u8],
{
    push_kv_prefix(out, key);
    push_int(out, v);
    out.push(10);
    proof {
        assert(old(out)@ + spec_kv_line(key@, spec_render_int(v as int)) + seq![10u8] =~= ((old(
            out,
        )@ + key@ + seq![32u8, 61u8, 32u8]) + spec_render_int(v as int)).push(10u8));
    }
}

/// Appends a full `key = <milli decimal>` line with its newline.
fn push_kv_milli_line(out: &mut Vec<u8>, key: &Vec<u8>, v: i64)
    requires
        -1000000000000000 <= v <= 1000000000000000,
    ensures
        final(out)@ == old(out)@ + spec_kv_line(key@, spec_render_milli(v as int)) + seq![10u8],
{
    push_kv_prefix(out, key);
    push_milli(out, v);
    out.push(10);
    proof {
        assert(old(out)@ + spec_kv_line(key@, spec_render_milli(v as int)) + seq![10u8] =~= ((old(
            out,
        )@ + key@ + seq![32u8, 61u8, 32u8]) + spec_render_milli(v as int)).push(10u8));
    }
}

/// Appends a full `key = true|false` line with its newline.
fn push_kv_bool_line(out: &mut Vec<u8>, key: &Vec<u8>, v: bool)
    ensures
        final(out)@ == old(out)@ + spec_kv_line(key@, spec_render_bool(v)) + seq![10u8],
{
    push_kv_prefix(out, key);
    push_bool(out, v);
    out.push(10);
    proof {
        assert(old(out)@ + spec_kv_line(key@, spec_render_bool(v)) + seq![10u8] =~= ((old(out)@
            + key@ + seq![32u8, 61u8, 32u8]) + spec_render_bool(v)).push(10u8));
    }
}

/// Appends a full `key = "..."` line with its newline.
fn push_kv_string_line(out: &mut Vec<u8>, key: &Vec<u8>, v: &Vec<u8>)
    ensures
        final(out)@ == old(out)@ + spec_kv_line(key@, spec_render_string(v@)) + seq![10u8],
{
    push_kv_prefix(out, key);
    push_string(out, v);
    out.push(10);
    proof {
        assert(old(out)@ + spec_kv_line(key@, spec_render_string(v@)) + seq![10u8] =~= ((old(out)@
            + key@ + seq![32u8, 61u8, 32u8]) + spec_render_string(v@)).push(10u8));
    }
}

/// Renders the whole document to its on-disk bytes.
#[verifier::rlimit(100)]
pub fn render_document(c: &AppConfig) -> (out: Vec<u8>)
    requires
        doc_wf(c@),
    ensures
        out@ == spec_render_doc(c@),
{
    let mut out: Vec<u8> = Vec::new();
    let ghost mut lines: Seq<Seq<u8>> = Seq::empty();
    proof {
        assert(out@ =~= spec_join_lines(lines));
    }

    let name = sec_appearance_vec();
    push_header(&mut out, &name);
    proof {
        lemma_join_push(lines, spec_header_line(sec_appearance()));
        lines = lines.push(spec_header_line(sec_appearance()));
        assert(out@ =~= spec_join_lines(lines));
    }
    let key = k_pet_size_vec();
    push_kv_int_line(&mut out, &key, c.appearance.pet_size as i64);
    proof {
        let l = spec_kv_line(k_pet_size(), spec_render_int(c@.appearance.pet_size));
        lemma_join_push(lines, l);
        lines = lines.push(l);
        assert(out@ =~= spec_join_lines(lines));
    }
    let key = k_pet_opacity_vec();
    push_kv_milli_line(&mut out, &key, c.appearance.pet_opacity_milli);
    proof {
        let l = spec_kv_line(k_pet_opacity(), spec_render_milli(c@.appearance.pet_opacity_milli));
        lemma_join_push(lines, l);
        lines = lines.push(l);
        assert(out@ =~= spec_join_lines(lines));
    }
    let key = k_show_border_vec();
    push_kv_bool_line(&mut out, &key, c.appearance.show_border);
    proof {
        let l = spec_kv_line(k_show_border(), spec_render_bool(c@.appearance.show_border));
        lemma_join_push(lines, l);
        lines = lines.push(l);
        assert(out@ =~= spec_join_lines(lines));
    }
    out.push(10);
    proof {
        lemma_join_push(lines, Seq::<u8>::empty());
        lines = lines.push(Seq::<u8>::empty());
        assert(out@ =~= spec_join_lines(lines));
        assert(lines =~= spec_appearance_lines(c@.appearance));
    }

    let name = sec_ai_vec();
    push_header(&mut out, &name);
    proof {
        lemma_join_push(lines, spec_header_line(sec_ai()));
        lines = lines.push(spec_header_line(sec_ai()));
        assert(out@ =~= spec_join_lines(lines));
    }
    let key = k_api_key_vec();
    push_kv_string_line(&mut out, &key, &c.ai.api_key);
    proof {
        let l = spec_kv_line(k_api_key(), spec_render_string(c@.ai.api_key));
        lemma_join_push(lines, l);
        lines = lines.push(l);
        assert(out@ =~= spec_join_lines(lines));
    }
    let key = k_base_url_vec();
    push_kv_string_line(&mut out, &key, &c.ai.base_url);
    proof {
        let l = spec_kv_line(k_base_url(), spec_render_string(c@.ai.base_url));
        lemma_join_push(lines, l);
        lines = lines.push(l);
        assert(out@ =~= spec_join_lines(lines));
    }
    let key = k_model_vec();
    push_kv_string_line(&mut out, &key, &c.ai.model);
    proof {
        let l = spec_kv_line(k_model(), spec_render_string(c@.ai.model));
        lemma_join_push(lines, l);
        lines = lines.push(l);
        assert(out@ =~= spec_join_lines(lines));
    }
    let key = k_temperature_vec();
    push_kv_milli_line(&mut out, &key, c.ai.temperature_milli);
    proof {
        let l = spec_kv_line(k_temperature(), spec_render_milli(c@.ai.temperature_milli));
        lemma_join_push(lines, l);
        lines = lines.push(l);
        assert(out@ =~= spec_join_lines(lines));
    }
    let key = k_max_tokens_vec();
    push_kv_int_line(&mut out, &key, c.ai.max_tokens as i64);
    proof {
        let l = spec_kv_line(k_max_tokens(), spec_render_int(c@.ai.max_tokens));
        lemma_join_push(lines, l);
        lines = lines.push(l);
        assert(out@ =~= spec_join_lines(lines));
    }
    match &c.ai.system_prompt {
        Some(p) => {
            let key = k_system_prompt_vec();
            push_kv_string_line(&mut out, &key, p);
            proof {
                let l = spec_kv_line(k_system_prompt(), spec_render_string(p@));
                lemma_join_push(lines, l);
                lines = lines.push(l);
                assert(out@ =~= spec_join_lines(lines));
            }
        },
        None => {},
    }
    out.push(10);
    proof {
        lemma_join_push(lines, Seq::<u8>::empty());
        lines = lines.push(Seq::<u8>::empty());
        assert(out@ =~= spec_join_lines(lines));
        assert(lines =~= spec_appearance_lines(c@.appearance) + spec_ai_lines(c@.ai));
    }

    let name = sec_window_vec();
    push_header(&mut out, &name);
    proof {
        lemma_join_push(lines, spec_header_line(sec_window()));
        lines = lines.push(spec_header_line(sec_window()));
        assert(out@ =~= spec_join_lines(lines));
    }
    let key = k_main_window_x_vec();
    push_kv_milli_line(&mut out, &key, c.window.main_window_x_milli);
    proof {
        let l = spec_kv_line(k_main_window_x(), spec_render_milli(c@.window.main_window_x_milli));
        lemma_join_push(lines, l);
        lines = lines.push(l);
        assert(out@ =~= spec_join_lines(lines));
    }
    let key = k_main_window_y_vec();
    push_kv_milli_line(&mut out, &key, c.window.main_window_y_milli);
    proof {
        let l = spec_kv_line(k_main_window_y(), spec_render_milli(c@.window.main_window_y_milli));
        lemma_join_push(lines, l);
        lines = lines.push(l);
        assert(out@ =~= spec_join_lines(lines));
    }
    match c.window.settings_window_x_milli {
        Some(v) => {
            let key = k_settings_window_x_vec();
            push_kv_milli_line(&mut out, &key, v);
            proof {
                let l = spec_kv_line(k_settings_window_x(), spec_render_milli(v as int));
                lemma_join_push(lines, l);
                lines = lines.push(l);
                assert(out@ =~= spec_join_lines(lines));
            }
        },
        None => {},
    }
    match c.window.settings_window_y_milli {
        Some(v) => {
            let key = k_settings_window_y_vec();
            push_kv_milli_line(&mut out, &key, v);
            proof {
                let l = spec_kv_line(k_settings_window_y(), spec_render_milli(v as int));
                lemma_join_push(lines, l);
                lines = lines.push(l);
                assert(out@ =~= spec_join_lines(lines));
            }
        },
        None => {},
    }
    match c.window.settings_window_width_milli {
        Some(v) => {
            let key = k_settings_window_width_vec();
            push_kv_milli_line(&mut out, &key, v);
            proof {
                let l = spec_kv_line(k_settings_window_width(), spec_render_milli(v as int));
                lemma_join_push(lines, l);
                lines = lines.push(l);
                assert(out@ =~= spec_join_lines(lines));
            }
        },
        None => {},
    }
    match c.window.settings_window_height_milli {
        Some(v) => {
            let key = k_settings_window_height_vec();
            push_kv_milli_line(&mut out, &key, v);
            proof {
                let l = spec_kv_line(k_settings_window_height(), spec_render_milli(v as int));
                lemma_join_push(lines, l);
                lines = lines.push(l);
                assert(out@ =~= spec_join_lines(lines));
            }
        },
        None => {},
    }
    proof {
        assert(lines =~= spec_appearance_lines(c@.appearance) + spec_ai_lines(c@.ai)
            + spec_window_lines(c@.window));
        assert(lines =~= spec_render_lines(c@));
    }
    out
}

/// One key/value pair applied to the document, mirroring `spec_apply_kv`;
/// a well-formed document stays well formed.
#[verifier::rlimit(100)]
fn apply_kv_exec(sec: Section, doc: AppConfig, key: &[u8], val: &[u8]) -> (r: Option<
    (Section, AppConfig),
>)
    ensures
        match r {
            Some(st) => spec_apply_kv(sec, doc@, key@, val@) == Some((st.0, st.1@)) && (doc_wf(
                doc@,
            ) ==> doc_wf(st.1@)),
            None => spec_apply_kv(sec, doc@, key@, val@) is None,
        },
{
    proof {
        reveal(spec_apply_kv);
    }
    match sec {
        Section::Start => Some((sec, doc)),
        Section::Other => Some((sec, doc)),
        Section::InAppearance => {
            let kc = k_pet_size_vec();
            if bytes_eq(key, kc.as_slice()) {
                match parse_int_exec(val) {
                    Some(v) => if 1 <= v && v <= i32::MAX as i64 {
                        Some(
                            (
                                sec,
                                AppConfig {
                                    appearance: AppearanceConfig {
                                        pet_size: v as i32,
                                        ..doc.appearance
                                    },
                                    ..doc
                                },
                            ),
                        )
                    } else {
                        None
                    },
                    None => None,
                }
            } else {
                let kc = k_pet_opacity_vec();
                if bytes_eq(key, kc.as_slice()) {
                    match parse_milli_exec(val) {
                        Some(v) => if 0 <= v && v <= 1000 {
                            Some(
                                (
                                    sec,
                                    AppConfig {
                                        appearance: AppearanceConfig {
                                            pet_opacity_milli: v,
                                            ..doc.appearance
                                        },
                                        ..doc
                                    },
                                ),
                            )
                        } else {
                            None
                        },
                        None => None,
                    }
                } else {
                    let kc = k_show_border_vec();
                    if bytes_eq(key, kc.as_slice()) {
                        match parse_bool_exec(val) {
                            Some(v) => Some(
                                (
                                    sec,
                                    AppConfig {
                                        appearance: AppearanceConfig {
                                            show_border: v,
                                            ..doc.appearance
                                        },
                                        ..doc
                                    },
                                ),
                            ),
                            None => None,
                        }
                    } else {
                        Some((sec, doc))
                    }
                }
            }
        },
        Section::InAi => {
            let kc = k_api_key_vec();
            if bytes_eq(key, kc.as_slice()) {
                match parse_string_exec(val) {
                    Some(v) => Some(
                        (sec, AppConfig { ai: AIConfig { api_key: v, ..doc.ai }, ..doc }),
                    ),
                    None => None,
                }
            } else {
                let kc = k_base_url_vec();
                if bytes_eq(key, kc.as_slice()) {
                    match parse_string_exec(val) {
                        Some(v) => Some(
                            (sec, AppConfig { ai: AIConfig { base_url: v, ..doc.ai }, ..doc }),
                        ),
                        None => None,
                    }
                } else {
                    let kc = k_model_vec();
                    if bytes_eq(key, kc.as_slice()) {
                        match parse_string_exec(val) {
                            Some(v) => Some(
                                (sec, AppConfig { ai: AIConfig { model: v, ..doc.ai }, ..doc }),
                            ),
                            None => None,
                        }
                    } else {
                        let kc = k_temperature_vec();
                        if bytes_eq(key, kc.as_slice()) {
                            match parse_milli_exec(val) {
                                Some(v) => if -MAX_ABS_MILLI <= v && v <= MAX_ABS_MILLI {
                                    Some(
                                        (
                                            sec,
                                            AppConfig {
                                                ai: AIConfig { temperature_milli: v, ..doc.ai },
                                                ..doc
                                            },
                                        ),
                                    )
                                } else {
                                    None
                                },
                                None => None,
                            }
                        } else {
                            let kc = k_max_tokens_vec();
                            if bytes_eq(key, kc.as_slice()) {
                                match parse_int_exec(val) {
                                    Some(v) => if 1 <= v && v <= i32::MAX as i64 {
                                        Some(
                                            (
                                                sec,
                                                AppConfig {
                                                    ai: AIConfig {
                                                        max_tokens: v as i32,
                                                        ..doc.ai
                                                    },
                                                    ..doc
                                                },
                                            ),
                                        )
                                    } else {
                                        None
                                    },
                                    None => None,
                                }
                            } else {
                                let kc = k_system_prompt_vec();
                                if bytes_eq(key, kc.as_slice()) {
                                    match parse_string_exec(val) {
                                        Some(v) => Some(
                                            (
                                                sec,
                                                AppConfig {
                                                    ai: AIConfig {
                                                        system_prompt: Some(v),
                                                        ..doc.ai
                                                    },
                                                    ..doc
                                                },
                                            ),
                                        ),
                                        None => None,
                                    }
                                } else {
                                    Some((sec, doc))
                                }
                            }
                        }
                    }
                }
            }
        },
        Section::InWindow => {
            let kc = k_main_window_x_vec();
            if bytes_eq(key, kc.as_slice()) {
                match parse_milli_exec(val) {
                    Some(v) => if -MAX_ABS_MILLI <= v && v <= MAX_ABS_MILLI {
                        Some(
                            (
                                sec,
                                AppConfig {
                                    window: WindowConfig {
                                        main_window_x_milli: v,
                                        ..doc.window
                                    },
                                    ..doc
                                },
                            ),
                        )
                    } else {
                        None
                    },
                    None => None,
                }
            } else {
                let kc = k_main_window_y_vec();
                if bytes_eq(key, kc.as_slice()) {
                    match parse_milli_exec(val) {
                        Some(v) => if -MAX_ABS_MILLI <= v && v <= MAX_ABS_MILLI {
                            Some(
                                (
                                    sec,
                                    AppConfig {
                                        window: WindowConfig {
                                            main_window_y_milli: v,
                                            ..doc.window
                                        },
                                        ..doc
                                    },
                                ),
                            )
                        } else {
                            None
                        },
                        None => None,
                    }
                } else {
                    let kc = k_settings_window_x_vec();
                    if bytes_eq(key, kc.as_slice()) {
                        match parse_milli_exec(val) {
                            Some(v) => if -MAX_ABS_MILLI <= v && v <= MAX_ABS_MILLI {
                                Some(
                                    (
                                        sec,
                                        AppConfig {
                                            window: WindowConfig {
                                                settings_window_x_milli: Some(v),
                                                ..doc.window
                                            },
                                            ..doc
                                        },
                                    ),
                                )
                            } else {
                                None
                            },
                            None => None,
                        }
                    } else {
                        let kc = k_settings_window_y_vec();
                        if bytes_eq(key, kc.as_slice()) {
                            match parse_milli_exec(val) {
                                Some(v) => if -MAX_ABS_MILLI <= v && v <= MAX_ABS_MILLI {
                                    Some(
                                        (
                                            sec,
                                            AppConfig {
                                                window: WindowConfig {
                                                    settings_window_y_milli: Some(v),
                                                    ..doc.window
                                                },
                                                ..doc
                                            },
                                        ),
                                    )
                                } else {
                                    None
                                },
                                None => None,
                            }
                        } else {
                            let kc = k_settings_window_width_vec();
                            if bytes_eq(key, kc.as_slice()) {
                                match parse_milli_exec(val) {
                                    Some(v) => if -MAX_ABS_MILLI <= v && v <= MAX_ABS_MILLI {
                                        Some(
                                            (
                                                sec,
                                                AppConfig {
                                                    window: WindowConfig {
                                                        settings_window_width_milli: Some(v),
                                                        ..doc.window
                                                    },
                                                    ..doc
                                                },
                                            ),
                                        )
                                    } else {
                                        None
                                    },
                                    None => None,
                                }
                            } else {
                                let kc = k_settings_window_height_vec();
                                if bytes_eq(key, kc.as_slice()) {
                                    match parse_milli_exec(val) {
                                        Some(v) => if -MAX_ABS_MILLI <= v && v <= MAX_ABS_MILLI {
                                            Some(
                                                (
                                                    sec,
                                                    AppConfig {
                                                        window: WindowConfig {
                                                            settings_window_height_milli: Some(v),
                                                            ..doc.window
                                                        },
                                                        ..doc
                                                    },
                                                ),
                                            )
                                        } else {
                                            None
                                        },
                                        None => None,
                                    }
                                } else {
                                    Some((sec, doc))
                                }
                            }
                        }
                    }
                }
            }
        },
    }
}

/// One input line applied to the parser state, mirroring `spec_step_line`.
fn step_line_exec(sec: Section, doc: AppConfig, line: &Vec<u8>) -> (r: Option<
    (Section, AppConfig),
>)
    ensures
        match r {
            Some(st) => spec_step_line(sec, doc@, line@) == Some((st.0, st.1@)) && (doc_wf(doc@)
                ==> doc_wf(st.1@)),
            None => spec_step_line(sec, doc@, line@) is None,
        },
{
    if line.len() == 0 {
        return Some((sec, doc));
    }
    if line[0] == 91 {
        if line.len() >= 2 && line[line.len() - 1] == 93 {
            let name = vstd::slice::slice_subrange(line.as_slice(), 1, line.len() - 1);
            proof {
                assert(name@ =~= line@.subrange(1, line@.len() - 1));
                assert(line@.last() == line@[line@.len() - 1]);
            }
            let a = sec_appearance_vec();
            if bytes_eq(name, a.as_slice()) {
                return Some((Section::InAppearance, doc));
            }
            let b = sec_ai_vec();
            if bytes_eq(name, b.as_slice()) {
                return Some((Section::InAi, doc));
            }
            let c = sec_window_vec();
            if bytes_eq(name, c.as_slice()) {
                return Some((Section::InWindow, doc));
            }
            Some((Section::Other, doc))
        } else {
            proof {
                if line@.len() >= 2 {
                    assert(line@.last() == line@[line@.len() - 1]);
                }
            }
            None
        }
    } else {
        let k = first_idx_exec(line.as_slice(), 32);
        proof {
            crate::text::lemma_first_idx_le_len(line@, 32);
        }
        if 1 <= k && line.len() - k >= 3 && line[k + 1] == 61 && line[k + 2] == 32 {
            let key = vstd::slice::slice_subrange(line.as_slice(), 0, k);
            let val = vstd::slice::slice_subrange(line.as_slice(), k + 3, line.len());
            proof {
                assert(key@ =~= line@.take(k as int));
                assert(val@ =~= line@.skip(k as int + 3));
            }
            apply_kv_exec(sec, doc, key, val)
        } else {
            None
        }
    }
}

/// Parses on-disk bytes into a document.  `None` when the bytes are not a
/// well-formed document; every parsed document is well formed.
pub fn parse_document(bytes: &Vec<u8>) -> (r: Option<AppConfig>)
    ensures
        match r {
            Some(c) => spec_parse_doc(bytes@) == Some(c@) && doc_wf(c@),
            None => spec_parse_doc(bytes@) is None,
        },
{
    let ghost full = spec_parse_lines(
        spec_split_from(bytes@, Seq::<u8>::empty()),
        Section::Start,
        spec_parse_base_doc(),
    );
    let mut sec = Section::Start;
    let mut doc = AppConfig::default();
    doc.ai.system_prompt = None;
    let mut buf: Vec<u8> = Vec::new();
    let mut i: usize = 0;
    proof {
        assert(bytes@.skip(0) =~= bytes@);
        lemma_default_doc_wf();
        assert(doc@ == spec_parse_base_doc());
    }
    while i < bytes.len()
        invariant
            0 <= i <= bytes@.len(),
            doc_wf(doc@),
            full == spec_parse_lines(
                spec_split_from(bytes@, Seq::<u8>::empty()),
                Section::Start,
                spec_parse_base_doc(),
            ),
            full == spec_parse_lines(spec_split_from(bytes@.skip(i as int), buf@), sec, doc@),
        decreases bytes@.len() - i,
    {
        let ghost rem = bytes@.skip(i as int);
        proof {
            assert(rem[0] == bytes@[i as int]);
            assert(rem.drop_first() =~= bytes@.skip(i as int + 1));
        }
        let b = bytes[i];
        if b == 10 {
            let ghost pieces = spec_split_from(bytes@.skip(i as int + 1), Seq::<u8>::empty());
            proof {
                assert(spec_split_from(rem, buf@) == seq![buf@] + pieces);
                assert((seq![buf@] + pieces)[0] == buf@);
                assert((seq![buf@] + pieces).drop_first() =~= pieces);
            }
            match step_line_exec(sec, doc, &buf) {
                Some(st) => {
                    sec = st.0;
                    doc = st.1;
                    buf = Vec::new();
                },
                None => {
                    return None;
                },
            }
        } else {
            let ghost pre = buf@;
            buf.push(b);
            proof {
                assert(spec_split_from(rem, pre) == spec_split_from(
                    bytes@.skip(i as int + 1),
                    buf@,
                ));
            }
        }
        i = i + 1;
    }
    proof {
        assert(bytes@.skip(bytes@.len() as int) =~= Seq::<u8>::empty());
        assert(spec_split_from(Seq::<u8>::empty(), buf@) == seq![buf@]);
        assert(seq![buf@][0] == buf@);
        assert(seq![buf@].drop_first() =~= Seq::<Seq<u8>>::empty());
    }
    match step_line_exec(sec, doc, &buf) {
        Some(st) => {
            proof {
                assert(spec_parse_lines(Seq::<Seq<u8>>::empty(), st.0, st.1@) == Some(
                    (st.0, st.1@),
                ));
            }
            Some(st.1)
        },
        None => None,
    }
}

} // verus!
