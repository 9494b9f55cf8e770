use vstd::prelude::*;
use crate::exporter::opt_string_view;
use crate::snapshot::{commands_view, Command, CommandModel};
use crate::synth::Program;

verus! {

/// What compiling a regular expression and replacing its first match in a text gives, with the
/// capture groups of the replacement expanded: `None` if the pattern does not compile.
pub uninterp spec fn regex_replace_first(pattern: Seq<char>, text: Seq<char>, replacement: Seq<char>) -> Option<Seq<char>>;

/// `regex::Regex::new` and then `regex::Regex::replace`: compiles the pattern, and replaces the
/// first match in the text with the replacement (whose capture groups are expanded). Returns
/// `None` if the pattern does not compile. The contract names the result; it does not state
/// what a regular expression matches.
#[verifier::external_body]
fn replace_first(pattern: &str, text: &str, replacement: &str) -> (r: Option<String>)
    ensures
        opt_string_view(r) == regex_replace_first(pattern@, text@, replacement@),
{
    match regex::Regex::new(pattern) {
        Ok(re) => Some(re.replace(text, replacement).into_owned()),
        Err(_) => None,
    }
}

/// The export types of a save file written before FLAC could be exported.
pub open spec fn spec_no_flac_pattern() -> Seq<char> {
    "((\"export_type\":\\{\"values\":\\[\"Wav\",\"Mid\",\"MP3\",\"Ogg\"\\],\"index\":\\{\"index\":)([0-9]),\"length\":4\\}\\})"@
}

/// The export types with FLAC, with the first one selected.
pub open spec fn spec_with_flac() -> Seq<char> {
    "\"export_type\":{\"values\":[\"Wav\",\"Mid\",\"MP3\",\"Ogg\",\"Flac\"],\"index\":{\"index\":0,\"length\":5}}"@
}

/// Repair a save file written before FLAC could be exported: its list of export types gets
/// FLAC, and the first type is selected. A text without such a list is returned as it is.
pub fn fix_no_flac(string: &str) -> (r: String)
    ensures
        r@ == match regex_replace_first(spec_no_flac_pattern(), string@, spec_with_flac()) {
            Some(s) => s,
            None => string@,
        },
{
    let pattern = "((\"export_type\":\\{\"values\":\\[\"Wav\",\"Mid\",\"MP3\",\"Ogg\"\\],\"index\":\\{\"index\":)([0-9]),\"length\":4\\}\\})";
    let replacement = "\"export_type\":{\"values\":[\"Wav\",\"Mid\",\"MP3\",\"Ogg\",\"Flac\"],\"index\":{\"index\":0,\"length\":5}}";
    match replace_first(pattern, string, replacement) {
        Some(s) => s,
        None => String::from_str(string),
    }
}

/// The version of a save file that does not say which version it is.
pub fn default_version() -> (r: String)
    ensures
        r@ == "0.1.2"@,
{
    String::from_str("0.1.2")
}

/// A saved program: its channel, the program, and whether its SoundFont file exists.
pub type SavedProgram = (u8, Program, bool);

/// The commands that load SoundFonts, one for each saved program whose file exists, in order.
pub open spec fn spec_load_soundfonts(ps: Seq<SavedProgram>) -> Seq<CommandModel>
    decreases ps.len(),
{
    if ps.len() == 0 {
        seq![]
    } else {
        let r = spec_load_soundfonts(ps.drop_last());
        let (c, p, exists) = ps.last();
        if exists {
            r.push(CommandModel::LoadSoundFont { channel: c, path: p.path@ })
        } else {
            r
        }
    }
}

/// The commands that set programs, one for each saved program whose file exists, in order.
pub open spec fn spec_set_programs(ps: Seq<SavedProgram>) -> Seq<CommandModel>
    decreases ps.len(),
{
    if ps.len() == 0 {
        seq![]
    } else {
        let r = spec_set_programs(ps.drop_last());
        let (c, p, exists) = ps.last();
        if exists {
            r.push(
                CommandModel::SetProgram {
                    channel: c,
                    path: p.path@,
                    bank_index: p.bank_index,
                    preset_index: p.preset_index,
                },
            )
        } else {
            r
        }
    }
}

/// The commands that set the synthesizer to a saved state: the gain, then a SoundFont for each
/// saved program whose file exists, then the bank and preset of each of them. The programs are
/// given in the order in which the saved state is walked.
pub fn load_commands(gain: u8, programs: &Vec<SavedProgram>) -> (r: Vec<Command>)
    ensures
        commands_view(r@) == seq![CommandModel::SetGain { gain }] + spec_load_soundfonts(programs@)
            + spec_set_programs(programs@),
{
    let mut r: Vec<Command> = Vec::new();
    r.push(Command::SetGain { gain });
    let n = programs.len();
    for i in 0..n
        invariant
            n == programs@.len(),
            commands_view(r@) == seq![CommandModel::SetGain { gain }] + spec_load_soundfonts(
                programs@.take(i as int),
            ),
    {
        proof {
            assert(programs@.take(i + 1).drop_last() =~= programs@.take(i as int));
        }
        let (c, p, exists) = &programs[i];
        if *exists {
            let ghost r0 = commands_view(r@);
            r.push(Command::LoadSoundFont { channel: *c, path: p.path.clone() });
            proof {
                assert(commands_view(r@) =~= r0.push(CommandModel::LoadSoundFont { channel: *c, path: p.path@ }));
            }
        }
        proof {
            assert(commands_view(r@) =~= seq![CommandModel::SetGain { gain }] + spec_load_soundfonts(
                programs@.take(i + 1),
            ));
        }
    }
    let ghost loaded = commands_view(r@);
    proof {
        assert(programs@.take(n as int) =~= programs@);
    }
    for i in 0..n
        invariant
            n == programs@.len(),
            loaded == seq![CommandModel::SetGain { gain }] + spec_load_soundfonts(programs@),
            commands_view(r@) == loaded + spec_set_programs(programs@.take(i as int)),
    {
        proof {
            assert(programs@.take(i + 1).drop_last() =~= programs@.take(i as int));
        }
        let (c, p, exists) = &programs[i];
        if *exists {
            let ghost r0 = commands_view(r@);
            r.push(Command::SetProgram {
                channel: *c,
                path: p.path.clone(),
                bank_index: p.bank_index,
                preset_index: p.preset_index,
            });
            proof {
                assert(commands_view(r@) =~= r0.push(
                    CommandModel::SetProgram {
                        channel: *c,
                        path: p.path@,
                        bank_index: p.bank_index,
                        preset_index: p.preset_index,
                    },
                ));
            }
        }
        proof {
            assert(commands_view(r@) =~= loaded + spec_set_programs(programs@.take(i + 1)));
        }
    }
    proof {
        assert(programs@.take(n as int) =~= programs@);
    }
    r
}

} // verus!
