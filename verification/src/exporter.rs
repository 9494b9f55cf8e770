use vstd::prelude::*;
use crate::index::Index;

verus! {

/// The file types that music can be exported to.
#[derive(Clone, Copy, Debug, PartialEq, Eq, Structural)]
pub enum ExportType {
    Wav,
    Mid,
    MP3,
    Ogg,
    Flac,
}

/// The number of export types.
pub const NUM_EXPORT_TYPES: usize = 5;

/// The export type at a position of the cycle of export types.
pub open spec fn spec_export_type(i: usize) -> ExportType {
    if i == 0 {
        ExportType::Wav
    } else if i == 1 {
        ExportType::Mid
    } else if i == 2 {
        ExportType::MP3
    } else if i == 3 {
        ExportType::Ogg
    } else {
        ExportType::Flac
    }
}

/// The export type at a position of the cycle of export types.
pub fn export_type_at(i: usize) -> (r: ExportType)
    ensures
        r == spec_export_type(i),
{
    if i == 0 {
        ExportType::Wav
    } else if i == 1 {
        ExportType::Mid
    } else if i == 2 {
        ExportType::MP3
    } else if i == 3 {
        ExportType::Ogg
    } else {
        ExportType::Flac
    }
}

/// An export setting that the export settings panel can show.
#[derive(Clone, Copy, Debug, PartialEq, Eq, Structural)]
pub enum ExportSetting {
    Framerate,
    Title,
    Artist,
    Copyright,
    Album,
    Genre,
    Comment,
    TrackNumber,
    Mp3BitRate,
    Mp3Quality,
    OggQuality,
    MultiFile,
    MultiFileSuffix,
}

/// The audio framerates that can be exported.
pub const FRAMERATES: [u64; 3] = [22050, 44100, 48000];

/// Is this framerate one of the framerates that can be exported?
pub open spec fn spec_is_framerate(f: u64) -> bool {
    f == 22050 || f == 44100 || f == 48000
}

/// The position of a framerate in the list of framerates.
pub open spec fn spec_framerate_position(f: u64) -> usize {
    if f == 22050 {
        0
    } else if f == 44100 {
        1
    } else {
        2
    }
}

/// The settings of an export type, and the position of the current one.
#[derive(Debug)]
pub struct SettingsList {
    pub values: Vec<ExportSetting>,
    pub index: Index,
}

/// The mathematical value of a list of settings.
#[verifier::ext_equal]
pub struct SettingsModel {
    pub values: Seq<ExportSetting>,
    pub index: Index,
}

impl View for SettingsList {
    type V = SettingsModel;

    open spec fn view(&self) -> SettingsModel {
        SettingsModel { values: self.values@, index: self.index }
    }
}

impl SettingsModel {
    /// The list is not empty and its index points into it.
    pub open spec fn wf(self) -> bool {
        &&& self.values.len() > 0
        &&& self.index.length == self.values.len()
        &&& self.index.index < self.index.length
    }

    /// The current setting.
    pub open spec fn current(self) -> ExportSetting {
        self.values[self.index.index as int]
    }
}

impl SettingsList {
    /// A list of settings that starts at its first setting.
    pub fn new(values: Vec<ExportSetting>) -> (r: SettingsList)
        ensures
            r.values@ == values@,
            r.index == (Index { index: 0, length: values@.len() as usize }),
    {
        let n = values.len();
        SettingsList { values, index: Index::new(0, n) }
    }

    /// The current setting.
    pub fn get(&self) -> (r: ExportSetting)
        requires
            self@.wf(),
        ensures
            r == self@.current(),
    {
        self.values[self.index.get()]
    }

    pub fn duplicate(&self) -> (r: SettingsList)
        ensures
            r@ == self@,
    {
        let values = self.values.clone();
        proof {
            assert(values@ =~= self.values@);
        }
        SettingsList { values, index: self.index }
    }
}

/// Metadata of exported music.
#[derive(Debug)]
pub struct Metadata {
    pub title: String,
    pub artist: Option<String>,
    pub album: Option<String>,
    pub genre: Option<String>,
    pub comment: Option<String>,
    pub track_number: Option<u32>,
}

/// The view of an optional string.
pub open spec fn opt_string_view(s: Option<String>) -> Option<Seq<char>> {
    match s {
        Some(s) => Some(s@),
        None => None,
    }
}

/// The mathematical value of the metadata.
pub struct MetadataModel {
    pub title: Seq<char>,
    pub artist: Option<Seq<char>>,
    pub album: Option<Seq<char>>,
    pub genre: Option<Seq<char>>,
    pub comment: Option<Seq<char>>,
    pub track_number: Option<u32>,
}

impl View for Metadata {
    type V = MetadataModel;

    open spec fn view(&self) -> MetadataModel {
        MetadataModel {
            title: self.title@,
            artist: opt_string_view(self.artist),
            album: opt_string_view(self.album),
            genre: opt_string_view(self.genre),
            comment: opt_string_view(self.comment),
            track_number: self.track_number,
        }
    }
}

/// A copy of an optional string.
pub fn duplicate_opt_string(s: &Option<String>) -> (r: Option<String>)
    ensures
        opt_string_view(r) == opt_string_view(*s),
{
    match s {
        Some(s) => Some(s.clone()),
        None => None,
    }
}

impl Metadata {
    pub fn duplicate(&self) -> (r: Metadata)
        ensures
            r@ == self@,
    {
        Metadata {
            title: self.title.clone(),
            artist: duplicate_opt_string(&self.artist),
            album: duplicate_opt_string(&self.album),
            genre: duplicate_opt_string(&self.genre),
            comment: duplicate_opt_string(&self.comment),
            track_number: self.track_number,
        }
    }
}

/// The export settings.
#[derive(Debug)]
pub struct Exporter {
    /// The framerate of exported audio.
    pub framerate: u64,
    /// Whether the metadata holds a copyright notice.
    pub copyright: bool,
    /// Whether each track is exported to a file of its own.
    pub multi_file: bool,
    pub metadata: Metadata,
    /// The position of the export type.
    pub export_type: Index,
    pub mp3_bit_rate: Index,
    pub mp3_quality: Index,
    pub ogg_quality: Index,
    /// The position of the suffix of the files of a multi-file export.
    pub multi_file_suffix: Index,
    pub mid_settings: SettingsList,
    pub mp3_settings: SettingsList,
    pub ogg_settings: SettingsList,
    pub flac_settings: SettingsList,
    pub wav_settings: SettingsList,
}

/// The mathematical value of the export settings.
#[verifier::ext_equal]
pub struct ExporterModel {
    pub framerate: u64,
    pub copyright: bool,
    pub multi_file: bool,
    pub metadata: MetadataModel,
    pub export_type: Index,
    pub mp3_bit_rate: Index,
    pub mp3_quality: Index,
    pub ogg_quality: Index,
    pub multi_file_suffix: Index,
    pub mid_settings: SettingsModel,
    pub mp3_settings: SettingsModel,
    pub ogg_settings: SettingsModel,
    pub flac_settings: SettingsModel,
    pub wav_settings: SettingsModel,
}

impl View for Exporter {
    type V = ExporterModel;

    open spec fn view(&self) -> ExporterModel {
        ExporterModel {
            framerate: self.framerate,
            copyright: self.copyright,
            multi_file: self.multi_file,
            metadata: self.metadata@,
            export_type: self.export_type,
            mp3_bit_rate: self.mp3_bit_rate,
            mp3_quality: self.mp3_quality,
            ogg_quality: self.ogg_quality,
            multi_file_suffix: self.multi_file_suffix,
            mid_settings: self.mid_settings@,
            mp3_settings: self.mp3_settings@,
            ogg_settings: self.ogg_settings@,
            flac_settings: self.flac_settings@,
            wav_settings: self.wav_settings@,
        }
    }
}

impl ExporterModel {
    /// The invariant of the export settings: the framerate is one of the framerates, the export
    /// type is one of the types, and each list of settings is well formed.
    pub open spec fn wf(self) -> bool {
        &&& spec_is_framerate(self.framerate)
        &&& self.export_type.length == NUM_EXPORT_TYPES
        &&& self.export_type.index < NUM_EXPORT_TYPES
        &&& self.mid_settings.wf()
        &&& self.mp3_settings.wf()
        &&& self.ogg_settings.wf()
        &&& self.flac_settings.wf()
        &&& self.wav_settings.wf()
    }

    /// The current export type.
    pub open spec fn current_type(self) -> ExportType {
        spec_export_type(self.export_type.index)
    }

    /// The settings of the current export type.
    pub open spec fn current_settings(self) -> SettingsModel {
        match self.current_type() {
            ExportType::Mid => self.mid_settings,
            ExportType::MP3 => self.mp3_settings,
            ExportType::Ogg => self.ogg_settings,
            ExportType::Flac => self.flac_settings,
            ExportType::Wav => self.wav_settings,
        }
    }

    /// The export settings with the settings of the current export type replaced.
    pub open spec fn with_current_settings(self, s: SettingsModel) -> ExporterModel {
        match self.current_type() {
            ExportType::Mid => ExporterModel { mid_settings: s, ..self },
            ExportType::MP3 => ExporterModel { mp3_settings: s, ..self },
            ExportType::Ogg => ExporterModel { ogg_settings: s, ..self },
            ExportType::Flac => ExporterModel { flac_settings: s, ..self },
            ExportType::Wav => ExporterModel { wav_settings: s, ..self },
        }
    }
}

impl Exporter {
    /// The current export type.
    pub fn get_export_type(&self) -> (r: ExportType)
        ensures
            r == self@.current_type(),
    {
        export_type_at(self.export_type.get())
    }

    /// The current setting of the current export type.
    pub fn current_setting(&self) -> (r: ExportSetting)
        requires
            self@.wf(),
        ensures
            r == self@.current_settings().current(),
    {
        match self.get_export_type() {
            ExportType::Mid => self.mid_settings.get(),
            ExportType::MP3 => self.mp3_settings.get(),
            ExportType::Ogg => self.ogg_settings.get(),
            ExportType::Flac => self.flac_settings.get(),
            ExportType::Wav => self.wav_settings.get(),
        }
    }

    /// Step the position of the current setting of the current export type.
    pub fn step_setting(&mut self, up: bool)
        ensures
            final(self)@ == old(self)@.with_current_settings(
                SettingsModel {
                    index: crate::index::Index {
                        index: crate::index::spec_step(
                            old(self)@.current_settings().index.index,
                            old(self)@.current_settings().index.length,
                            up,
                        ),
                        ..old(self)@.current_settings().index
                    },
                    ..old(self)@.current_settings()
                },
            ),
    {
        let ghost e0 = self@;
        match self.get_export_type() {
            ExportType::Mid => {
                self.mid_settings.index.increment(up);
            },
            ExportType::MP3 => {
                self.mp3_settings.index.increment(up);
            },
            ExportType::Ogg => {
                self.ogg_settings.index.increment(up);
            },
            ExportType::Flac => {
                self.flac_settings.index.increment(up);
            },
            ExportType::Wav => {
                self.wav_settings.index.increment(up);
            },
        }
        proof {
            assert(self@ =~= e0.with_current_settings(
                SettingsModel {
                    index: crate::index::Index {
                        index: crate::index::spec_step(
                            e0.current_settings().index.index,
                            e0.current_settings().index.length,
                            up,
                        ),
                        ..e0.current_settings().index
                    },
                    ..e0.current_settings()
                },
            ));
        }
    }
}

} // verus!
