//! Background music for a meditation session: the wording of the request that
//! is sent to the music generator, and the address a generated file is served
//! under.

use crate::utils::text::{decimal, decimal_digits, join2, str_eq};
use vstd::prelude::*;
use vstd::string::StringExecFns;

verus! {

/// What a user asks of a piece of generated music.
#[derive(Debug, Clone, PartialEq, Eq)]
pub struct GenerateMusicRequest {
    /// Length in minutes.
    pub duration: u32,
    /// Kind of meditation (mindfulness, breath, body scan, ...).
    pub meditation_type: String,
    /// Musical style (nature, ambient, piano, binaural, bowls, minimal).
    pub music_atmosphere: String,
    /// What the session is for (anxiety, sleep, focus, gratitude, ...).
    pub focus_area: String,
    /// Background setting (forest, beach, mountain, garden, space).
    pub background: String,
}

/// Where the generated music can be fetched.
#[derive(Debug, Clone, PartialEq, Eq)]
pub struct GenerateMusicResponse {
    pub music_url: String,
}

/// What the music endpoints share: the key for the music generator and the
/// directory that generated files are kept in.
#[derive(Debug, Clone, PartialEq, Eq)]
pub struct AppState {
    pub hf_token: String,
    pub music_dir: String,
}

/// The description of the sound for a musical style; an unknown style gets a
/// general one.
pub open spec fn base_prompt(atmosphere: Seq<char>) -> Seq<char> {
    if atmosphere == "nature"@ {
        "peaceful nature sounds with gentle flowing water, soft bird calls, and light forest ambience"@
    } else if atmosphere == "ambient"@ {
        "ambient ethereal soundscape with subtle drones and gentle atmospheric textures"@
    } else if atmosphere == "piano"@ {
        "soft minimalist piano with gentle reverb and occasional gentle string accompaniment"@
    } else if atmosphere == "binaural"@ {
        "binaural beats at alpha frequency range with soft ambient pads and gentle oscillations"@
    } else if atmosphere == "bowls"@ {
        "tibetan singing bowls and bells with long sustains and harmonically rich tones"@
    } else if atmosphere == "minimal"@ {
        "minimal ambient soundscape with occasional soft tones and comfortable silence"@
    } else {
        "calm meditation music with soft ambient elements"@
    }
}

/// The mood that suits what the session is for.
pub open spec fn mood(focus_area: Seq<char>) -> Seq<char> {
    if focus_area == "anxiety"@ {
        "calming, soothing, stress-reducing"@
    } else if focus_area == "sleep"@ {
        "extremely gentle, hypnotic, sleep-inducing"@
    } else if focus_area == "focus"@ {
        "subtly focusing, clear, present"@
    } else if focus_area == "gratitude"@ {
        "warm, uplifting, gentle positivity"@
    } else if focus_area == "compassion"@ {
        "heartwarming, loving, kind"@
    } else if focus_area == "pain"@ {
        "healing, pain-relieving, distracting"@
    } else if focus_area == "energy"@ {
        "subtly energizing, refreshing, revitalizing"@
    } else {
        "peaceful, calming, centered"@
    }
}

/// The sounds that belong to a background setting.
pub open spec fn elements(background: Seq<char>) -> Seq<char> {
    if background == "forest"@ {
        "with subtle woodland elements and gentle breeze sounds"@
    } else if background == "beach"@ {
        "with distant soft waves and occasional ocean elements"@
    } else if background == "mountain"@ {
        "with subtle high-altitude wind and open space feeling"@
    } else if background == "garden"@ {
        "with gentle garden ambience and subtle natural elements"@
    } else if background == "space"@ {
        "with cosmic overtones and vast spacious feeling"@
    } else {
        "with gentle natural elements"@
    }
}

impl GenerateMusicRequest {
    /// The request to the music generator, in words.
    pub open spec fn prompt(self) -> Seq<char> {
        base_prompt(self.music_atmosphere@) + " - "@ + mood(self.focus_area@) + ", perfect for "@
            + self.meditation_type@ + " meditation, "@ + elements(self.background@)
            + ". The music should last at least "@ + decimal_digits(self.duration as nat)
            + " minutes."@
    }
}

fn base_prompt_for(atmosphere: &str) -> (text: &'static str)
    ensures
        text@ == base_prompt(atmosphere@),
{
    if str_eq(atmosphere, "nature") {
        "peaceful nature sounds with gentle flowing water, soft bird calls, and light forest ambience"
    } else if str_eq(atmosphere, "ambient") {
        "ambient ethereal soundscape with subtle drones and gentle atmospheric textures"
    } else if str_eq(atmosphere, "piano") {
        "soft minimalist piano with gentle reverb and occasional gentle string accompaniment"
    } else if str_eq(atmosphere, "binaural") {
        "binaural beats at alpha frequency range with soft ambient pads and gentle oscillations"
    } else if str_eq(atmosphere, "bowls") {
        "tibetan singing bowls and bells with long sustains and harmonically rich tones"
    } else if str_eq(atmosphere, "minimal") {
        "minimal ambient soundscape with occasional soft tones and comfortable silence"
    } else {
        "calm meditation music with soft ambient elements"
    }
}

fn mood_for(focus_area: &str) -> (text: &'static str)
    ensures
        text@ == mood(focus_area@),
{
    if str_eq(focus_area, "anxiety") {
        "calming, soothing, stress-reducing"
    } else if str_eq(focus_area, "sleep") {
        "extremely gentle, hypnotic, sleep-inducing"
    } else if str_eq(focus_area, "focus") {
        "subtly focusing, clear, present"
    } else if str_eq(focus_area, "gratitude") {
        "warm, uplifting, gentle positivity"
    } else if str_eq(focus_area, "compassion") {
        "heartwarming, loving, kind"
    } else if str_eq(focus_area, "pain") {
        "healing, pain-relieving, distracting"
    } else if str_eq(focus_area, "energy") {
        "subtly energizing, refreshing, revitalizing"
    } else {
        "peaceful, calming, centered"
    }
}

fn elements_for(background: &str) -> (text: &'static str)
    ensures
        text@ == elements(background@),
{
    if str_eq(background, "forest") {
        "with subtle woodland elements and gentle breeze sounds"
    } else if str_eq(background, "beach") {
        "with distant soft waves and occasional ocean elements"
    } else if str_eq(background, "mountain") {
        "with subtle high-altitude wind and open space feeling"
    } else if str_eq(background, "garden") {
        "with gentle garden ambience and subtle natural elements"
    } else if str_eq(background, "space") {
        "with cosmic overtones and vast spacious feeling"
    } else {
        "with gentle natural elements"
    }
}

/// Words the request to the music generator from the user's preferences.
pub fn generate_music_prompt(preferences: &GenerateMusicRequest) -> (prompt: String)
    ensures
        prompt@ == preferences.prompt(),
{
    let mut prompt = base_prompt_for(preferences.music_atmosphere.as_str()).to_owned();
    prompt.append(" - ");
    prompt.append(mood_for(preferences.focus_area.as_str()));
    prompt.append(", perfect for ");
    prompt.append(preferences.meditation_type.as_str());
    prompt.append(" meditation, ");
    prompt.append(elements_for(preferences.background.as_str()));
    prompt.append(". The music should last at least ");
    let minutes = decimal(preferences.duration as u64);
    prompt.append(minutes.as_str());
    prompt.append(" minutes.");
    prompt
}

/// The name a generated piece is stored under: its identifier with the
/// extension of the audio format.
pub fn music_file_name(id: &str) -> (name: String)
    ensures
        name@ == id@ + ".mp3"@,
{
    join2(id, ".mp3")
}

/// The address a stored piece is served under.
pub fn music_url(file_name: &str) -> (url: String)
    ensures
        url@ == "/v1/meditation/music/"@ + file_name@,
{
    join2("/v1/meditation/music/", file_name)
}

} // verus!
