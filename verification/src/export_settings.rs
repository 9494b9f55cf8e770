use vstd::prelude::*;
use crate::abc123::{on_disable_exporter, spec_exporter_typed, spec_title_defaulted, update_exporter, MetadataField};
use crate::exporter::{
    opt_string_view, spec_framerate_position, spec_is_framerate, ExportSetting, Exporter, ExporterModel, MetadataModel,
    FRAMERATES,
};
use crate::index::{spec_step, Index};
use crate::input::{lemma_only_event, Input, InputEvent};
use crate::snapshot::{one_io_command, opt_snapshot_view, spec_snap_io, IOCommand, Snapshot, SnapshotModel};
use crate::speech::{
    add_phrase, ev1, ev2, silence, speech_view, spec_each, spec_text, spec_text1, spec_tip, spec_tip1, text, text1, tip,
    tip1, PhraseModel, Phrase, Utterance, Value, ValueModel,
};

verus! {

/// The metadata text field that a setting edits, if any.
pub open spec fn spec_metadata_field(s: ExportSetting) -> Option<MetadataField> {
    match s {
        ExportSetting::Title => Some(MetadataField::Title),
        ExportSetting::Artist => Some(MetadataField::Artist),
        ExportSetting::Album => Some(MetadataField::Album),
        ExportSetting::Genre => Some(MetadataField::Genre),
        ExportSetting::Comment => Some(MetadataField::Comment),
        _ => None,
    }
}

/// The metadata text field that a setting edits, if any.
pub fn metadata_field(s: ExportSetting) -> (r: Option<MetadataField>)
    ensures
        r == spec_metadata_field(s),
{
    match s {
        ExportSetting::Title => Some(MetadataField::Title),
        ExportSetting::Artist => Some(MetadataField::Artist),
        ExportSetting::Album => Some(MetadataField::Album),
        ExportSetting::Genre => Some(MetadataField::Genre),
        ExportSetting::Comment => Some(MetadataField::Comment),
        _ => None,
    }
}

/// The framerate after stepping to the previous or next framerate.
pub open spec fn spec_next_framerate(f: u64, up: bool) -> u64 {
    FRAMERATES[spec_step(spec_framerate_position(f), 3, up) as int]
}

/// The track number after stepping it up (an absent number becomes zero) or down (zero becomes
/// absent).
pub open spec fn spec_next_track_number(n: Option<u32>, up: bool) -> Option<u32> {
    if up {
        match n {
            Some(n) => Some((n + 1) as u32),
            None => Some(0),
        }
    } else {
        match n {
            Some(n) => if n > 0 {
                Some((n - 1) as u32)
            } else {
                None
            },
            None => None,
        }
    }
}

/// The index stepped by the previous or next value event, if one happened.
pub open spec fn spec_index_stepped(i: Index, e: Seq<InputEvent>) -> Index {
    if e.contains(InputEvent::PreviousExportSettingValue) {
        Index { index: spec_step(i.index, i.length, false), ..i }
    } else if e.contains(InputEvent::NextExportSettingValue) {
        Index { index: spec_step(i.index, i.length, true), ..i }
    } else {
        i
    }
}

/// What the value events do to the current setting.
pub open spec fn spec_setting_value(ex: ExporterModel, s: ExportSetting, e: Seq<InputEvent>) -> ExporterModel {
    let prev = e.contains(InputEvent::PreviousExportSettingValue);
    let next = e.contains(InputEvent::NextExportSettingValue);
    let toggle = e.contains(InputEvent::ToggleExportSettingBoolean);
    match s {
        ExportSetting::Framerate => if prev {
            ExporterModel { framerate: spec_next_framerate(ex.framerate, false), ..ex }
        } else if next {
            ExporterModel { framerate: spec_next_framerate(ex.framerate, true), ..ex }
        } else {
            ex
        },
        ExportSetting::Copyright => if toggle {
            ExporterModel { copyright: !ex.copyright, ..ex }
        } else {
            ex
        },
        ExportSetting::TrackNumber => if prev || next {
            ExporterModel {
                metadata: MetadataModel {
                    track_number: spec_next_track_number(ex.metadata.track_number, !prev),
                    ..ex.metadata
                },
                ..ex
            }
        } else {
            ex
        },
        ExportSetting::Mp3BitRate => ExporterModel { mp3_bit_rate: spec_index_stepped(ex.mp3_bit_rate, e), ..ex },
        ExportSetting::Mp3Quality => ExporterModel { mp3_quality: spec_index_stepped(ex.mp3_quality, e), ..ex },
        ExportSetting::OggQuality => ExporterModel { ogg_quality: spec_index_stepped(ex.ogg_quality, e), ..ex },
        ExportSetting::MultiFile => if toggle {
            ExporterModel { multi_file: !ex.multi_file, ..ex }
        } else {
            ex
        },
        ExportSetting::MultiFileSuffix => ExporterModel {
            multi_file_suffix: spec_index_stepped(ex.multi_file_suffix, e),
            ..ex
        },
        _ => ex,
    }
}

/// The current settings list with its position stepped.
pub open spec fn spec_setting_stepped(ex: ExporterModel, up: bool) -> ExporterModel {
    let s = ex.current_settings();
    ex.with_current_settings(
        crate::exporter::SettingsModel {
            index: Index { index: spec_step(s.index.index, s.index.length, up), ..s.index },
            ..s
        },
    )
}

/// A spoken value of a text field: its text, or the text of "NONE".
pub open spec fn spec_field_value(v: Option<Seq<char>>) -> ValueModel {
    match v {
        Some(s) => ValueModel::Str(s),
        None => ValueModel::Key("NONE"@),
    }
}

/// The status of a text field: while typing, the text of the first key; else the tooltip of
/// the second key, which says how to start typing.
pub open spec fn spec_abc123_status(if_true: Seq<char>, if_false: Seq<char>, v: Option<Seq<char>>, abc: bool) -> PhraseModel {
    if abc {
        spec_text1(if_true, spec_field_value(v))
    } else {
        spec_tip1(if_false, seq![InputEvent::ToggleAlphanumericInput], spec_field_value(v))
    }
}

/// The status of a boolean field: the tooltip of the key for its value.
pub open spec fn spec_bool_status(if_true: Seq<char>, if_false: Seq<char>, v: bool) -> PhraseModel {
    spec_tip(if v { if_true } else { if_false }, seq![InputEvent::ToggleExportSettingBoolean])
}

/// The tooltip of moving to the previous or next setting.
pub open spec fn spec_scroll_tip() -> PhraseModel {
    spec_tip(
        "EXPORT_SETTINGS_PANEL_INPUT_TTS_SCROLL"@,
        seq![InputEvent::PreviousExportSetting, InputEvent::NextExportSetting],
    )
}

/// The input of a text field: while typing, how to stop; else how to start, and how to move to
/// another setting.
pub open spec fn spec_abc123_input(if_true: Seq<char>, if_false: Seq<char>, abc: bool) -> Seq<PhraseModel> {
    if abc {
        seq![spec_tip(if_true, seq![InputEvent::ToggleAlphanumericInput])]
    } else {
        seq![spec_tip(if_false, seq![InputEvent::ToggleAlphanumericInput]), spec_scroll_tip()]
    }
}

/// The input of a field whose value steps: how to step it, and how to move to another setting.
pub open spec fn spec_lr_input(key: Seq<char>) -> Seq<PhraseModel> {
    seq![
        spec_tip(key, seq![InputEvent::PreviousExportSettingValue, InputEvent::NextExportSettingValue]),
        spec_scroll_tip(),
    ]
}

/// The input of a boolean field: how to toggle it, and how to move to another setting.
pub open spec fn spec_bool_input(key: Seq<char>) -> Seq<PhraseModel> {
    seq![spec_tip(key, seq![InputEvent::ToggleExportSettingBoolean]), spec_scroll_tip()]
}

/// The status of the current setting.
pub open spec fn spec_setting_status(ex: ExporterModel, abc: bool) -> PhraseModel {
    let m = ex.metadata;
    match ex.current_settings().current() {
        ExportSetting::Framerate => spec_text("EXPORT_SETTINGS_PANEL_STATUS_TTS_FRAMERATE"@),
        ExportSetting::Title => spec_abc123_status(
            "EXPORT_SETTINGS_PANEL_STATUS_TTS_TITLE_ABC123"@,
            "EXPORT_SETTINGS_PANEL_STATUS_TTS_TITLE_NO_ABC123"@,
            Some(m.title),
            abc,
        ),
        ExportSetting::Artist => spec_abc123_status(
            "EXPORT_SETTINGS_PANEL_STATUS_TTS_ARTIST"@,
            "EXPORT_SETTINGS_PANEL_STATUS_TTS_ARTIST_NO_ABC123"@,
            m.artist,
            abc,
        ),
        ExportSetting::Copyright => spec_bool_status(
            "EXPORT_SETTINGS_PANEL_STATUS_TTS_COPYRIGHT_ENABLED"@,
            "EXPORT_SETTINGS_PANEL_STATUS_TTS_COPYRIGHT_DISABLED"@,
            ex.copyright,
        ),
        ExportSetting::Album => spec_abc123_status(
            "EXPORT_SETTINGS_PANEL_STATUS_TTS_ALBUM_ABC123"@,
            "EXPORT_SETTINGS_PANEL_STATUS_TTS_ALBUM_NO_ABC123"@,
            m.album,
            abc,
        ),
        ExportSetting::Genre => spec_abc123_status(
            "EXPORT_SETTINGS_PANEL_STATUS_TTS_GENRE_ABC123"@,
            "EXPORT_SETTINGS_PANEL_STATUS_TTS_GENRE_NO_ABC123"@,
            m.genre,
            abc,
        ),
        ExportSetting::Comment => spec_abc123_status(
            "EXPORT_SETTINGS_PANEL_STATUS_TTS_COMMENT_ABC123"@,
            "EXPORT_SETTINGS_PANEL_STATUS_TTS_COMMENT_NO_ABC123"@,
            m.comment,
            abc,
        ),
        ExportSetting::Mp3BitRate => spec_text1(
            "EXPORT_SETTINGS_PANEL_STATUS_TTS_BIT_RATE"@,
            ValueModel::Mp3BitRate(ex.mp3_bit_rate.index),
        ),
        ExportSetting::Mp3Quality => spec_text1(
            "EXPORT_SETTINGS_PANEL_STATUS_TTS_QUALITY"@,
            ValueModel::Int(ex.mp3_quality.index as u64),
        ),
        ExportSetting::OggQuality => spec_text1(
            "EXPORT_SETTINGS_PANEL_STATUS_TTS_QUALITY"@,
            ValueModel::Int(ex.ogg_quality.index as u64),
        ),
        ExportSetting::TrackNumber => spec_text1(
            "EXPORT_SETTINGS_PANEL_STATUS_TTS_TRACK_NUMBER"@,
            match m.track_number {
                Some(n) => ValueModel::Int(n as u64),
                None => ValueModel::Key("NONE"@),
            },
        ),
        ExportSetting::MultiFile => spec_bool_status(
            "EXPORT_SETTINGS_PANEL_STATUS_TTS_MULTI_FILE_ENABLED"@,
            "EXPORT_SETTINGS_PANEL_STATUS_TTS_MULTI_FILE_DISABLED"@,
            ex.multi_file,
        ),
        ExportSetting::MultiFileSuffix => spec_text(
            if ex.multi_file_suffix.index == 0 {
                "EXPORT_SETTINGS_PANEL_STATUS_TTS_MULTI_FILE_PRESET"@
            } else if ex.multi_file_suffix.index == 1 {
                "EXPORT_SETTINGS_PANEL_STATUS_TTS_MULTI_FILE_CHANNEL"@
            } else {
                "EXPORT_SETTINGS_PANEL_STATUS_TTS_MULTI_FILE_CHANNEL_AND_PRESET"@
            },
        ),
    }
}

/// The input that the current setting takes.
pub open spec fn spec_setting_input(ex: ExporterModel, abc: bool) -> Seq<PhraseModel> {
    match ex.current_settings().current() {
        ExportSetting::Framerate => spec_lr_input("EXPORT_SETTINGS_PANEL_INPUT_TTS_FRAMERATE"@),
        ExportSetting::Title => spec_abc123_input(
            "EXPORT_SETTINGS_PANEL_INPUT_TTS_TITLE_ABC123"@,
            "EXPORT_SETTINGS_PANEL_INPUT_TTS_TITLE_NO_ABC123"@,
            abc,
        ),
        ExportSetting::Artist => spec_abc123_input(
            "EXPORT_SETTINGS_PANEL_INPUT_TTS_ARTIST_ABC123"@,
            "EXPORT_SETTINGS_PANEL_INPUT_TTS_ARTIST_NO_ABC123"@,
            abc,
        ),
        ExportSetting::Copyright => spec_bool_input("EXPORT_SETTINGS_PANEL_INPUT_TTS_COPYRIGHT"@),
        ExportSetting::Album => spec_abc123_input(
            "EXPORT_SETTINGS_PANEL_INPUT_TTS_ALBUM_ABC123"@,
            "EXPORT_SETTINGS_PANEL_INPUT_TTS_ALBUM_NO_ABC123"@,
            abc,
        ),
        ExportSetting::Genre => spec_abc123_input(
            "EXPORT_SETTINGS_PANEL_INPUT_TTS_GENRE_ABC123"@,
            "EXPORT_SETTINGS_PANEL_INPUT_TTS_GENRE_NO_ABC123"@,
            abc,
        ),
        ExportSetting::Comment => spec_abc123_input(
            "EXPORT_SETTINGS_PANEL_INPUT_TTS_COMMENT_ABC123"@,
            "EXPORT_SETTINGS_PANEL_INPUT_TTS_COMMENT_NO_ABC123"@,
            abc,
        ),
        ExportSetting::TrackNumber => spec_lr_input("EXPORT_SETTINGS_PANEL_INPUT_TTS_TRACK_NUMBER"@),
        ExportSetting::Mp3BitRate => spec_lr_input("EXPORT_SETTINGS_PANEL_INPUT_TTS_MP3_BIT_RATE"@),
        ExportSetting::Mp3Quality => spec_lr_input("EXPORT_SETTINGS_PANEL_INPUT_TTS_QUALITY"@),
        ExportSetting::OggQuality => spec_lr_input("EXPORT_SETTINGS_PANEL_INPUT_TTS_QUALITY"@),
        ExportSetting::MultiFile => spec_bool_input("EXPORT_SETTINGS_PANEL_INPUT_TTS_MULTI_FILE"@),
        ExportSetting::MultiFileSuffix => spec_lr_input("EXPORT_SETTINGS_PANEL_INPUT_TTS_MULTI_FILE_SUFFIX"@),
    }
}

/// What the export settings panel says: unless it closes, the status of the current setting of
/// the current export type, or the input that it takes, each tooltip on its own.
pub open spec fn spec_export_settings_speech(ex: ExporterModel, abc: bool, e: Seq<InputEvent>) -> Seq<Seq<PhraseModel>> {
    if e.contains(InputEvent::CloseOpenFile) {
        seq![]
    } else if e.contains(InputEvent::StatusTTS) {
        seq![seq![spec_setting_status(ex, abc)]]
    } else if e.contains(InputEvent::InputTTS) {
        spec_each(spec_setting_input(ex, abc))
    } else {
        seq![]
    }
}

/// What a frame of input does to the settings of the current export type: the status or input
/// speech changes nothing; otherwise move to the previous or next setting, or change the value
/// of the current one.
pub open spec fn spec_update_settings(ex: ExporterModel, e: Seq<InputEvent>) -> ExporterModel {
    if e.contains(InputEvent::StatusTTS) || e.contains(InputEvent::InputTTS) {
        ex
    } else if e.contains(InputEvent::PreviousExportSetting) {
        spec_setting_stepped(ex, false)
    } else if e.contains(InputEvent::NextExportSetting) {
        spec_setting_stepped(ex, true)
    } else {
        spec_setting_value(ex, ex.current_settings().current(), e)
    }
}

/// What the export settings panel does with a frame of input: the new export settings, and the
/// snapshot made, if any. What it says is given by `spec_export_settings_speech`.
pub open spec fn spec_export_settings_update(ex: ExporterModel, e: Seq<InputEvent>) -> (ExporterModel, Option<SnapshotModel>) {
    if e.contains(InputEvent::CloseOpenFile) {
        (ex, Some(spec_snap_io(seq![IOCommand::CloseOpenFile])))
    } else {
        (spec_update_settings(ex, e), None)
    }
}

/// What a frame of input to the settings needs so that no arithmetic leaves its range: the
/// track number steps up only from below the largest number.
pub open spec fn spec_settings_fits(ex: ExporterModel, e: Seq<InputEvent>) -> bool {
    &&& !e.contains(InputEvent::StatusTTS) && !e.contains(InputEvent::InputTTS)
        && !e.contains(InputEvent::PreviousExportSetting) && !e.contains(InputEvent::NextExportSetting)
        && ex.current_settings().current() == ExportSetting::TrackNumber
        && !e.contains(InputEvent::PreviousExportSettingValue) && e.contains(InputEvent::NextExportSettingValue)
        ==> ex.metadata.track_number != Some(u32::MAX)
}

/// What the export settings panel needs so that no arithmetic leaves its range.
pub open spec fn spec_export_settings_fits(ex: ExporterModel, e: Seq<InputEvent>) -> bool {
    !e.contains(InputEvent::CloseOpenFile) ==> spec_settings_fits(ex, e)
}

/// The export settings panel keeps the export settings valid: the framerate stays one of the
/// framerates, and the position of each list of settings stays inside it.
pub proof fn lemma_export_settings_keep_wf(ex: ExporterModel, e: Seq<InputEvent>)
    requires
        ex.wf(),
    ensures
        spec_export_settings_update(ex, e).0.wf(),
{
    let s = ex.current_settings();
    crate::index::lemma_step_stays_in_range(s.index.index, s.index.length, true);
    crate::index::lemma_step_stays_in_range(s.index.index, s.index.length, false);
    crate::index::lemma_step_stays_in_range(spec_framerate_position(ex.framerate), 3, true);
    crate::index::lemma_step_stays_in_range(spec_framerate_position(ex.framerate), 3, false);
}

/// A spoken value of a text field.
fn field_value(v: &Option<String>) -> (r: Value)
    ensures
        r@ == spec_field_value(opt_string_view(*v)),
{
    match v {
        Some(s) => Value::Str(s.clone()),
        None => Value::Key(String::from_str("NONE")),
    }
}

/// The status of a text field.
fn abc123_status(if_true: &str, if_false: &str, v: &Option<String>, abc: bool) -> (p: Phrase)
    ensures
        p@ == spec_abc123_status(if_true@, if_false@, opt_string_view(*v), abc),
{
    let value = field_value(v);
    if abc {
        text1(if_true, value)
    } else {
        tip1(if_false, ev1(InputEvent::ToggleAlphanumericInput), value)
    }
}

/// The status of a boolean field.
fn bool_status(if_true: &str, if_false: &str, v: bool) -> (p: Phrase)
    ensures
        p@ == spec_bool_status(if_true@, if_false@, v),
{
    if v {
        tip(if_true, ev1(InputEvent::ToggleExportSettingBoolean))
    } else {
        tip(if_false, ev1(InputEvent::ToggleExportSettingBoolean))
    }
}

/// Add the tooltip of moving to another setting.
fn add_scroll(r: &mut Vec<Utterance>)
    ensures
        speech_view(final(r)@) == speech_view(old(r)@).push(seq![spec_scroll_tip()]),
{
    add_phrase(
        r,
        tip(
            "EXPORT_SETTINGS_PANEL_INPUT_TTS_SCROLL",
            ev2(InputEvent::PreviousExportSetting, InputEvent::NextExportSetting),
        ),
    );
}

/// Add the input of a text field.
fn add_abc123_input(r: &mut Vec<Utterance>, if_true: &str, if_false: &str, abc: bool)
    ensures
        speech_view(final(r)@) == speech_view(old(r)@) + spec_each(spec_abc123_input(if_true@, if_false@, abc)),
{
    let ghost r0 = speech_view(r@);
    if abc {
        add_phrase(r, tip(if_true, ev1(InputEvent::ToggleAlphanumericInput)));
    } else {
        add_phrase(r, tip(if_false, ev1(InputEvent::ToggleAlphanumericInput)));
        add_scroll(r);
    }
    proof {
        assert(speech_view(r@) =~= r0 + spec_each(spec_abc123_input(if_true@, if_false@, abc)));
    }
}

/// Add the input of a field whose value steps.
fn add_lr_input(r: &mut Vec<Utterance>, key: &str)
    ensures
        speech_view(final(r)@) == speech_view(old(r)@) + spec_each(spec_lr_input(key@)),
{
    let ghost r0 = speech_view(r@);
    add_phrase(r, tip(key, ev2(InputEvent::PreviousExportSettingValue, InputEvent::NextExportSettingValue)));
    add_scroll(r);
    proof {
        assert(speech_view(r@) =~= r0 + spec_each(spec_lr_input(key@)));
    }
}

/// Add the input of a boolean field.
fn add_bool_input(r: &mut Vec<Utterance>, key: &str)
    ensures
        speech_view(final(r)@) == speech_view(old(r)@) + spec_each(spec_bool_input(key@)),
{
    let ghost r0 = speech_view(r@);
    add_phrase(r, tip(key, ev1(InputEvent::ToggleExportSettingBoolean)));
    add_scroll(r);
    proof {
        assert(speech_view(r@) =~= r0 + spec_each(spec_bool_input(key@)));
    }
}

/// Set the values of export settings.
#[derive(Clone, Copy, Debug)]
pub struct ExportSettingsPanel {}

impl ExportSettingsPanel {
    pub fn new() -> (r: ExportSettingsPanel) {
        ExportSettingsPanel {  }
    }

    /// Step the framerate to the previous or next framerate.
    fn set_framerate(exporter: &mut Exporter, up: bool)
        requires
            spec_is_framerate(old(exporter).framerate),
        ensures
            final(exporter)@ == (ExporterModel {
                framerate: spec_next_framerate(old(exporter).framerate, up),
                ..old(exporter)@
            }),
    {
        let mut i: usize = 0;
        while FRAMERATES[i] != exporter.framerate
            invariant
                i <= spec_framerate_position(exporter.framerate),
                spec_is_framerate(exporter.framerate),
            decreases 3 - i,
        {
            i = i + 1;
        }
        let mut index = Index::new(i, 3);
        index.increment(up);
        exporter.framerate = FRAMERATES[index.get()];
    }

    /// Step the track number up or down.
    fn set_track_number(exporter: &mut Exporter, up: bool)
        requires
            up ==> old(exporter).metadata.track_number != Some(u32::MAX),
        ensures
            final(exporter)@ == (ExporterModel {
                metadata: MetadataModel {
                    track_number: spec_next_track_number(old(exporter).metadata.track_number, up),
                    ..old(exporter)@.metadata
                },
                ..old(exporter)@
            }),
    {
        exporter.metadata.track_number = if up {
            match exporter.metadata.track_number {
                Some(n) => Some(n + 1),
                None => Some(0),
            }
        } else {
            match exporter.metadata.track_number {
                Some(n) => n.checked_sub(1),
                None => None,
            }
        };
    }

    /// Step an index by the previous or next value event, if one happened.
    fn set_index(index: &mut Index, input: &Input)
        ensures
            *final(index) == spec_index_stepped(*old(index), input.events@),
    {
        if input.happened(InputEvent::PreviousExportSettingValue) {
            index.increment(false);
        } else if input.happened(InputEvent::NextExportSettingValue) {
            index.increment(true);
        }
    }

    /// Apply the value events to the current setting.
    fn update_value(exporter: &mut Exporter, input: &Input)
        requires
            old(exporter)@.wf(),
            old(exporter)@.current_settings().current() == ExportSetting::TrackNumber
                && !input.events@.contains(InputEvent::PreviousExportSettingValue)
                && input.events@.contains(InputEvent::NextExportSettingValue)
                ==> old(exporter).metadata.track_number != Some(u32::MAX),
        ensures
            final(exporter)@ == spec_setting_value(
                old(exporter)@,
                old(exporter)@.current_settings().current(),
                input.events@,
            ),
    {
        let ghost e0 = exporter@;
        match exporter.current_setting() {
            ExportSetting::Framerate => {
                if input.happened(InputEvent::PreviousExportSettingValue) {
                    ExportSettingsPanel::set_framerate(exporter, false);
                } else if input.happened(InputEvent::NextExportSettingValue) {
                    ExportSettingsPanel::set_framerate(exporter, true);
                }
            },
            ExportSetting::Copyright => {
                if input.happened(InputEvent::ToggleExportSettingBoolean) {
                    exporter.copyright = !exporter.copyright;
                }
            },
            ExportSetting::TrackNumber => {
                if input.happened(InputEvent::PreviousExportSettingValue) {
                    ExportSettingsPanel::set_track_number(exporter, false);
                } else if input.happened(InputEvent::NextExportSettingValue) {
                    ExportSettingsPanel::set_track_number(exporter, true);
                }
            },
            ExportSetting::Mp3BitRate => ExportSettingsPanel::set_index(&mut exporter.mp3_bit_rate, input),
            ExportSetting::Mp3Quality => ExportSettingsPanel::set_index(&mut exporter.mp3_quality, input),
            ExportSetting::OggQuality => ExportSettingsPanel::set_index(&mut exporter.ogg_quality, input),
            ExportSetting::MultiFile => {
                if input.happened(InputEvent::ToggleExportSettingBoolean) {
                    exporter.multi_file = !exporter.multi_file;
                }
            },
            ExportSetting::MultiFileSuffix => ExportSettingsPanel::set_index(
                &mut exporter.multi_file_suffix,
                input,
            ),
            _ => {},
        }
        proof {
            assert(exporter@ =~= spec_setting_value(e0, e0.current_settings().current(), input.events@));
        }
    }

    /// The status of the current setting.
    fn setting_status(exporter: &Exporter, abc: bool) -> (p: Phrase)
        requires
            exporter@.wf(),
        ensures
            p@ == spec_setting_status(exporter@, abc),
    {
        let m = &exporter.metadata;
        match exporter.current_setting() {
            ExportSetting::Framerate => text("EXPORT_SETTINGS_PANEL_STATUS_TTS_FRAMERATE"),
            ExportSetting::Title => {
                let title = Some(m.title.clone());
                abc123_status(
                    "EXPORT_SETTINGS_PANEL_STATUS_TTS_TITLE_ABC123",
                    "EXPORT_SETTINGS_PANEL_STATUS_TTS_TITLE_NO_ABC123",
                    &title,
                    abc,
                )
            },
            ExportSetting::Artist => abc123_status(
                "EXPORT_SETTINGS_PANEL_STATUS_TTS_ARTIST",
                "EXPORT_SETTINGS_PANEL_STATUS_TTS_ARTIST_NO_ABC123",
                &m.artist,
                abc,
            ),
            ExportSetting::Copyright => bool_status(
                "EXPORT_SETTINGS_PANEL_STATUS_TTS_COPYRIGHT_ENABLED",
                "EXPORT_SETTINGS_PANEL_STATUS_TTS_COPYRIGHT_DISABLED",
                exporter.copyright,
            ),
            ExportSetting::Album => abc123_status(
                "EXPORT_SETTINGS_PANEL_STATUS_TTS_ALBUM_ABC123",
                "EXPORT_SETTINGS_PANEL_STATUS_TTS_ALBUM_NO_ABC123",
                &m.album,
                abc,
            ),
            ExportSetting::Genre => abc123_status(
                "EXPORT_SETTINGS_PANEL_STATUS_TTS_GENRE_ABC123",
                "EXPORT_SETTINGS_PANEL_STATUS_TTS_GENRE_NO_ABC123",
                &m.genre,
                abc,
            ),
            ExportSetting::Comment => abc123_status(
                "EXPORT_SETTINGS_PANEL_STATUS_TTS_COMMENT_ABC123",
                "EXPORT_SETTINGS_PANEL_STATUS_TTS_COMMENT_NO_ABC123",
                &m.comment,
                abc,
            ),
            ExportSetting::Mp3BitRate => text1(
                "EXPORT_SETTINGS_PANEL_STATUS_TTS_BIT_RATE",
                Value::Mp3BitRate(exporter.mp3_bit_rate.get()),
            ),
            ExportSetting::Mp3Quality => text1(
                "EXPORT_SETTINGS_PANEL_STATUS_TTS_QUALITY",
                Value::Int(exporter.mp3_quality.get() as u64),
            ),
            ExportSetting::OggQuality => text1(
                "EXPORT_SETTINGS_PANEL_STATUS_TTS_QUALITY",
                Value::Int(exporter.ogg_quality.get() as u64),
            ),
            ExportSetting::TrackNumber => {
                let v = match m.track_number {
                    Some(n) => Value::Int(n as u64),
                    None => Value::Key(String::from_str("NONE")),
                };
                text1("EXPORT_SETTINGS_PANEL_STATUS_TTS_TRACK_NUMBER", v)
            },
            ExportSetting::MultiFile => bool_status(
                "EXPORT_SETTINGS_PANEL_STATUS_TTS_MULTI_FILE_ENABLED",
                "EXPORT_SETTINGS_PANEL_STATUS_TTS_MULTI_FILE_DISABLED",
                exporter.multi_file,
            ),
            ExportSetting::MultiFileSuffix => {
                let i = exporter.multi_file_suffix.get();
                if i == 0 {
                    text("EXPORT_SETTINGS_PANEL_STATUS_TTS_MULTI_FILE_PRESET")
                } else if i == 1 {
                    text("EXPORT_SETTINGS_PANEL_STATUS_TTS_MULTI_FILE_CHANNEL")
                } else {
                    text("EXPORT_SETTINGS_PANEL_STATUS_TTS_MULTI_FILE_CHANNEL_AND_PRESET")
                }
            },
        }
    }

    /// What the export settings panel says in a frame of input. `abc` says whether the user is
    /// typing.
    pub fn speech(&self, exporter: &Exporter, abc: bool, input: &Input) -> (r: Vec<Utterance>)
        requires
            exporter@.wf(),
        ensures
            speech_view(r@) == spec_export_settings_speech(exporter@, abc, input.events@),
    {
        let mut r = silence();
        if input.happened(InputEvent::CloseOpenFile) {
            return r;
        }
        if input.happened(InputEvent::StatusTTS) {
            add_phrase(&mut r, ExportSettingsPanel::setting_status(exporter, abc));
            proof {
                assert(speech_view(r@) =~= spec_export_settings_speech(exporter@, abc, input.events@));
            }
            return r;
        }
        if !input.happened(InputEvent::InputTTS) {
            return r;
        }
        let ghost r0 = speech_view(r@);
        match exporter.current_setting() {
            ExportSetting::Framerate => add_lr_input(&mut r, "EXPORT_SETTINGS_PANEL_INPUT_TTS_FRAMERATE"),
            ExportSetting::Title => add_abc123_input(
                &mut r,
                "EXPORT_SETTINGS_PANEL_INPUT_TTS_TITLE_ABC123",
                "EXPORT_SETTINGS_PANEL_INPUT_TTS_TITLE_NO_ABC123",
                abc,
            ),
            ExportSetting::Artist => add_abc123_input(
                &mut r,
                "EXPORT_SETTINGS_PANEL_INPUT_TTS_ARTIST_ABC123",
                "EXPORT_SETTINGS_PANEL_INPUT_TTS_ARTIST_NO_ABC123",
                abc,
            ),
            ExportSetting::Copyright => add_bool_input(&mut r, "EXPORT_SETTINGS_PANEL_INPUT_TTS_COPYRIGHT"),
            ExportSetting::Album => add_abc123_input(
                &mut r,
                "EXPORT_SETTINGS_PANEL_INPUT_TTS_ALBUM_ABC123",
                "EXPORT_SETTINGS_PANEL_INPUT_TTS_ALBUM_NO_ABC123",
                abc,
            ),
            ExportSetting::Genre => add_abc123_input(
                &mut r,
                "EXPORT_SETTINGS_PANEL_INPUT_TTS_GENRE_ABC123",
                "EXPORT_SETTINGS_PANEL_INPUT_TTS_GENRE_NO_ABC123",
                abc,
            ),
            ExportSetting::Comment => add_abc123_input(
                &mut r,
                "EXPORT_SETTINGS_PANEL_INPUT_TTS_COMMENT_ABC123",
                "EXPORT_SETTINGS_PANEL_INPUT_TTS_COMMENT_NO_ABC123",
                abc,
            ),
            ExportSetting::TrackNumber => add_lr_input(&mut r, "EXPORT_SETTINGS_PANEL_INPUT_TTS_TRACK_NUMBER"),
            ExportSetting::Mp3BitRate => add_lr_input(&mut r, "EXPORT_SETTINGS_PANEL_INPUT_TTS_MP3_BIT_RATE"),
            ExportSetting::Mp3Quality => add_lr_input(&mut r, "EXPORT_SETTINGS_PANEL_INPUT_TTS_QUALITY"),
            ExportSetting::OggQuality => add_lr_input(&mut r, "EXPORT_SETTINGS_PANEL_INPUT_TTS_QUALITY"),
            ExportSetting::MultiFile => add_bool_input(&mut r, "EXPORT_SETTINGS_PANEL_INPUT_TTS_MULTI_FILE"),
            ExportSetting::MultiFileSuffix => add_lr_input(&mut r, "EXPORT_SETTINGS_PANEL_INPUT_TTS_MULTI_FILE_SUFFIX"),
        }
        proof {
            assert(r0 + spec_each(spec_setting_input(exporter@, abc)) =~= spec_each(spec_setting_input(exporter@, abc)));
        }
        r
    }

    /// Apply a frame of input: close the panel, move to the previous or next setting, or change
    /// the value of the current setting of the current export type. What the panel says comes
    /// from `speech`.
    pub fn update(&self, exporter: &mut Exporter, input: &Input) -> (r: Option<Snapshot>)
        requires
            old(exporter)@.wf(),
            spec_export_settings_fits(old(exporter)@, input.events@),
        ensures
            (final(exporter)@, opt_snapshot_view(r)) == spec_export_settings_update(old(exporter)@, input.events@),
    {
        if input.happened(InputEvent::CloseOpenFile) {
            return Some(Snapshot::from_io_commands(one_io_command(IOCommand::CloseOpenFile)));
        }
        ExportSettingsPanel::update_settings(exporter, input);
        None
    }

    /// Apply a frame of input to the settings of the current export type: nothing for the
    /// status or input speech; else move to the previous or next setting, or change the value of
    /// the current one.
    fn update_settings(exporter: &mut Exporter, input: &Input)
        requires
            old(exporter)@.wf(),
            spec_settings_fits(old(exporter)@, input.events@),
        ensures
            final(exporter)@ == spec_update_settings(old(exporter)@, input.events@),
    {
        if input.happened(InputEvent::StatusTTS) || input.happened(InputEvent::InputTTS) {
            return;
        }
        if input.happened(InputEvent::PreviousExportSetting) {
            exporter.step_setting(false);
        } else if input.happened(InputEvent::NextExportSetting) {
            exporter.step_setting(true);
        } else {
            ExportSettingsPanel::update_value(exporter, input);
        }
    }

    /// Apply a frame of typing to the current setting, if it is a text field. Returns true if it
    /// changed.
    pub fn update_abc123(&self, exporter: &mut Exporter, input: &Input) -> (changed: bool)
        requires
            old(exporter)@.wf(),
        ensures
            (final(exporter)@, changed) == match spec_metadata_field(old(exporter)@.current_settings().current()) {
                Some(f) => spec_exporter_typed(f, old(exporter)@, input.typed@, input.backspace),
                None => (old(exporter)@, false),
            },
    {
        match metadata_field(exporter.current_setting()) {
            Some(f) => update_exporter(f, input, exporter),
            None => false,
        }
    }

    /// When typing ends: an empty title is replaced by the default title.
    pub fn on_disable_abc123(&self, exporter: &mut Exporter)
        requires
            old(exporter)@.wf(),
        ensures
            final(exporter)@ == (if old(exporter)@.current_settings().current() == ExportSetting::Title {
                spec_title_defaulted(old(exporter)@)
            } else {
                old(exporter)@
            }),
    {
        if let Some(f) = metadata_field(exporter.current_setting()) {
            on_disable_exporter(f, exporter);
        }
    }

    /// Typing is allowed when the current setting is a text field.
    pub fn allow_alphanumeric_input(&self, exporter: &Exporter) -> (r: bool)
        requires
            exporter@.wf(),
        ensures
            r == spec_metadata_field(exporter@.current_settings().current()) is Some,
    {
        metadata_field(exporter.current_setting()).is_some()
    }
}

/// The settings of a MIDI export, in order.
pub open spec fn spec_mid_field(i: usize) -> ExportSetting {
    if i == 0 {
        ExportSetting::Title
    } else if i == 1 {
        ExportSetting::Artist
    } else {
        ExportSetting::Copyright
    }
}

/// The number of settings of a MIDI export.
pub const NUM_MID_FIELDS: usize = 3;

/// What the MIDI export settings do with a frame of input: the new position, the new export
/// settings, and whether they changed.
pub open spec fn spec_mid_update(field: Index, ex: Exporter, new_ex: Exporter, new_field: Index, changed: bool, input: Input) -> bool {
    let e = input.events@;
    let f = spec_mid_field(field.index);
    if e.contains(InputEvent::StatusTTS) || e.contains(InputEvent::InputTTS) {
        new_field == field && new_ex@ == ex@ && !changed
    } else if e.contains(InputEvent::PreviousExportSetting) {
        new_field == (Index { index: spec_step(field.index, field.length, false), ..field }) && new_ex@ == ex@ && !changed
    } else if e.contains(InputEvent::NextExportSetting) {
        new_field == (Index { index: spec_step(field.index, field.length, true), ..field }) && new_ex@ == ex@ && !changed
    } else if e.contains(InputEvent::ToggleExportSettingBoolean) && f == ExportSetting::Copyright {
        new_field == field && new_ex@ == (ExporterModel { copyright: !ex.copyright, ..ex@ }) && changed
    } else if f == ExportSetting::Title {
        new_field == field && (new_ex@, changed) == spec_exporter_typed(MetadataField::Title, ex@, input.typed@, input.backspace)
    } else if f == ExportSetting::Artist {
        new_field == field && (new_ex@, changed) == spec_exporter_typed(MetadataField::Artist, ex@, input.typed@, input.backspace)
    } else {
        new_field == field && new_ex@ == ex@ && !changed
    }
}

/// The settings of a MIDI export: the title, the artist, and the copyright.
#[derive(Clone, Copy, Debug)]
pub struct Mid {
    /// The position of the current field.
    pub field: Index,
}

impl Default for Mid {
    fn default() -> (r: Mid)
        ensures
            r.field == (Index { index: 0, length: NUM_MID_FIELDS }),
    {
        Mid { field: Index::new(0, NUM_MID_FIELDS) }
    }
}

impl Mid {
    /// Apply a frame of input: move to the previous or next field, toggle the copyright, or type
    /// into the title or the artist. Speech is left to the caller. Returns true if the export
    /// settings changed.
    pub fn update(&mut self, exporter: &mut Exporter, input: &Input) -> (changed: bool)
        ensures
            spec_mid_update(old(self).field, *old(exporter), *final(exporter), final(self).field, changed, *input),
    {
        if input.happened(InputEvent::StatusTTS) || input.happened(InputEvent::InputTTS) {
            return false;
        }
        if input.happened(InputEvent::PreviousExportSetting) {
            self.field.increment(false);
            return false;
        }
        if input.happened(InputEvent::NextExportSetting) {
            self.field.increment(true);
            return false;
        }
        let i = self.field.get();
        if input.happened(InputEvent::ToggleExportSettingBoolean) && i >= 2 {
            exporter.copyright = !exporter.copyright;
            true
        } else if i == 0 {
            update_exporter(MetadataField::Title, input, exporter)
        } else if i == 1 {
            update_exporter(MetadataField::Artist, input, exporter)
        } else {
            false
        }
    }
}


/// Stepping the track number up and then down gives it back: an absent number becomes zero and
/// then absent again, and a number below the largest one becomes the next and then itself.
pub proof fn lemma_track_number_round_trip(n: Option<u32>)
    requires
        n != Some(u32::MAX),
    ensures
        spec_next_track_number(spec_next_track_number(n, true), false) == n,
{
}

/// An index stepped up or down, as a position in its list: the next or the previous one, cycling.
pub open spec fn spec_cycled(i: Index, up: bool) -> Index {
    Index {
        index: (if up { (i.index + 1) % (i.length as int) } else { (i.index + i.length - 1) % (i.length as int) }) as usize,
        ..i
    }
}

/// What a value event does to the current setting, for a frame whose only event is that value
/// event: only the current setting's value changes.
/// - The framerate cycles through 22050, 44100 and 48000 (forward for the next value, backward for
///   the previous one).
/// - The track number rises by one (an absent number becomes zero) or falls by one (zero becomes
///   absent, and an absent number stays absent).
/// - The copyright and multiple-file switches toggle.
/// - The MP3 bit rate and quality, the Ogg quality and the multiple-file suffix move to the next or
///   previous choice, cycling.
pub proof fn lemma_setting_values(ex: ExporterModel, x: InputEvent)
    requires
        ex.wf(),
        x == InputEvent::PreviousExportSettingValue || x == InputEvent::NextExportSettingValue
            || x == InputEvent::ToggleExportSettingBoolean,
        ex.current_settings().current() == ExportSetting::TrackNumber && x == InputEvent::NextExportSettingValue
            ==> ex.metadata.track_number != Some(u32::MAX),
    ensures
        ({
            let ex1 = spec_update_settings(ex, seq![x]);
            let next = x == InputEvent::NextExportSettingValue;
            let prev = x == InputEvent::PreviousExportSettingValue;
            let toggle = x == InputEvent::ToggleExportSettingBoolean;
            let f = ex.framerate;
            let n = ex.metadata.track_number;
            match ex.current_settings().current() {
                ExportSetting::Framerate => ex1 == ExporterModel {
                    framerate: if next {
                        if f == 22050 { 44100 } else if f == 44100 { 48000 } else { 22050 }
                    } else if prev {
                        if f == 22050 { 48000 } else if f == 44100 { 22050 } else { 44100 }
                    } else {
                        f
                    },
                    ..ex
                },
                ExportSetting::TrackNumber => ex1 == ExporterModel {
                    metadata: MetadataModel {
                        track_number: if next {
                            match n {
                                Some(k) => Some((k + 1) as u32),
                                None => Some(0u32),
                            }
                        } else if prev {
                            match n {
                                Some(k) => if k == 0 { None } else { Some((k - 1) as u32) },
                                None => None,
                            }
                        } else {
                            n
                        },
                        ..ex.metadata
                    },
                    ..ex
                },
                ExportSetting::Copyright => ex1 == ExporterModel {
                    copyright: if toggle { !ex.copyright } else { ex.copyright },
                    ..ex
                },
                ExportSetting::MultiFile => ex1 == ExporterModel {
                    multi_file: if toggle { !ex.multi_file } else { ex.multi_file },
                    ..ex
                },
                ExportSetting::Mp3BitRate => ex.mp3_bit_rate.index < ex.mp3_bit_rate.length ==> ex1 == ExporterModel {
                    mp3_bit_rate: if toggle { ex.mp3_bit_rate } else { spec_cycled(ex.mp3_bit_rate, next) },
                    ..ex
                },
                ExportSetting::Mp3Quality => ex.mp3_quality.index < ex.mp3_quality.length ==> ex1 == ExporterModel {
                    mp3_quality: if toggle { ex.mp3_quality } else { spec_cycled(ex.mp3_quality, next) },
                    ..ex
                },
                ExportSetting::OggQuality => ex.ogg_quality.index < ex.ogg_quality.length ==> ex1 == ExporterModel {
                    ogg_quality: if toggle { ex.ogg_quality } else { spec_cycled(ex.ogg_quality, next) },
                    ..ex
                },
                ExportSetting::MultiFileSuffix => ex.multi_file_suffix.index < ex.multi_file_suffix.length ==> ex1
                    == ExporterModel {
                    multi_file_suffix: if toggle {
                        ex.multi_file_suffix
                    } else {
                        spec_cycled(ex.multi_file_suffix, next)
                    },
                    ..ex
                },
                _ => ex1 == ex,
            }
        }),
{
    lemma_only_event(x);
    if ex.mp3_bit_rate.index < ex.mp3_bit_rate.length {
        crate::index::lemma_step_cycles(ex.mp3_bit_rate.index, ex.mp3_bit_rate.length);
    }
    if ex.mp3_quality.index < ex.mp3_quality.length {
        crate::index::lemma_step_cycles(ex.mp3_quality.index, ex.mp3_quality.length);
    }
    if ex.ogg_quality.index < ex.ogg_quality.length {
        crate::index::lemma_step_cycles(ex.ogg_quality.index, ex.ogg_quality.length);
    }
    if ex.multi_file_suffix.index < ex.multi_file_suffix.length {
        crate::index::lemma_step_cycles(ex.multi_file_suffix.index, ex.multi_file_suffix.length);
    }
}

/// Moving to the previous or next setting changes nothing but the position of the current
/// setting of the current export type, which steps (cycling) through its list; the export type
/// and every other setting's value stay. The export settings panel records no change for it.
pub proof fn lemma_setting_step_changes_only_index(ex: ExporterModel, e: Seq<InputEvent>)
    requires
        ex.wf(),
        !e.contains(InputEvent::StatusTTS),
        !e.contains(InputEvent::InputTTS),
        e.contains(InputEvent::PreviousExportSetting) || e.contains(InputEvent::NextExportSetting),
    ensures
        ({
            let ex1 = spec_update_settings(ex, e);
            let up = !e.contains(InputEvent::PreviousExportSetting);
            let s = ex.current_settings();
            &&& ex1.current_type() == ex.current_type()
            &&& ex1.current_settings().values == s.values
            &&& ex1.current_settings().index.length == s.index.length
            &&& ex1.current_settings().index.index == spec_step(s.index.index, s.index.length, up)
            &&& ex1 == ex.with_current_settings(ex1.current_settings())
        }),
        !e.contains(InputEvent::CloseOpenFile) ==> spec_export_settings_update(ex, e) == (
        spec_update_settings(ex, e),
        None::<SnapshotModel>,
        ),
{
}

} // verus!
