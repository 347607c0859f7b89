//! Application settings: the value, its defaults, validation, and
//! the normalization applied when settings are loaded or saved.

use vstd::prelude::*;

use crate::bytes::{eq_lower, lower_bytes};
use crate::error::AppError;
use crate::models::WorkSegment;
use crate::quotes::{trim_str, trimmed};
use vstd::string::StringSliceAdditionalSpecFns;

verus! {

use crate::models::{FloatingPosition, Language, ReminderMode, Theme};

/// Application settings. Times are UTC timestamps in whole seconds;
/// durations are minutes.
#[derive(Debug, Clone)]
pub struct Settings {
    pub work_duration: u32,
    pub break_duration: u32,
    pub enable_force_break: bool,
    pub flow_mode_enabled: bool,
    pub reminder_mode: ReminderMode,
    pub floating_position: FloatingPosition,
    pub opacity: u8,
    pub play_sound: bool,
    pub rest_music_enabled: bool,
    pub rest_music_directory: String,
    pub theme: Theme,
    pub autostart: bool,
    pub silent_autostart: bool,
    pub minimize_to_tray: bool,
    pub close_to_tray: bool,
    pub language: Language,
    pub segmented_work_enabled: bool,
    pub work_segments: Vec<WorkSegment>,
    pub version: String,
    pub updated_at: i64,
}

/// Relies on dirs::home_dir for the user's home directory; the result
/// is the two components joined below it, in the platform's path
/// syntax. Absent when no home directory is known.
#[verifier::external_body]
fn home_joined(first: &str, second: &str) -> (r: Option<String>) {
    dirs::home_dir().map(|p| p.join(first).join(second).to_string_lossy().into_owned())
}

/// The default directory for rest music: `RESTY/rest-music` under the
/// user's home directory, or under the working directory when no
/// home directory is known.
pub fn rest_music_directory_default() -> (r: String)
    ensures
        r@.len() > 0,
{
    match home_joined("RESTY", "rest-music") {
        Some(p) => {
            if p.as_str().is_empty() {
                fallback_rest_music_directory()
            } else {
                p
            }
        },
        None => fallback_rest_music_directory(),
    }
}

fn fallback_rest_music_directory() -> (r: String)
    ensures
        r@ == "./RESTY/rest-music"@,
        r@.len() > 0,
{
    proof {
        reveal_strlit("./RESTY/rest-music");
    }
    "./RESTY/rest-music".to_owned()
}

/// Default for the rest-music toggle: off.
pub fn default_rest_music_enabled() -> (r: bool)
    ensures
        !r,
{
    false
}

/// Default rest-music directory, as `rest_music_directory_default`.
pub fn default_rest_music_directory() -> (r: String)
    ensures
        r@.len() > 0,
{
    rest_music_directory_default()
}

/// Default for flow mode: off.
pub fn default_flow_mode() -> (r: bool)
    ensures
        !r,
{
    false
}

/// The segment plan offered when none is configured: one classic
/// 25-minute work / 5-minute break cycle.
pub fn default_work_segments() -> (r: Vec<WorkSegment>)
    ensures
        r@.len() == 1,
        r@[0] == (WorkSegment { work_minutes: 25, break_minutes: 5, repeat: 1 }),
{
    let mut v: Vec<WorkSegment> = Vec::new();
    v.push(WorkSegment { work_minutes: 25, break_minutes: 5, repeat: 1 });
    v
}

impl Default for Settings {
    /// The out-of-the-box settings. The rest-music directory is the
    /// machine-dependent default; `updated_at` is left at zero for
    /// the caller to stamp with the current time.
    fn default() -> (r: Self)
        ensures
            r.work_duration == 25,
            r.break_duration == 5,
            !r.enable_force_break,
            !r.flow_mode_enabled,
            r.reminder_mode is Fullscreen,
            r.floating_position is TopRight,
            r.opacity == 95,
            r.play_sound,
            !r.rest_music_enabled,
            r.theme is Auto,
            !r.autostart,
            !r.silent_autostart,
            r.minimize_to_tray,
            r.close_to_tray,
            r.language is EnglishUnitedStates,
            !r.segmented_work_enabled,
            r.work_segments@.len() == 1,
            r.version@ == "1.0.0"@,
            r.updated_at == 0,
    {
        Settings {
            work_duration: 25,
            break_duration: 5,
            enable_force_break: false,
            flow_mode_enabled: default_flow_mode(),
            reminder_mode: ReminderMode::Fullscreen,
            floating_position: FloatingPosition::TopRight,
            opacity: 95,
            play_sound: true,
            rest_music_enabled: default_rest_music_enabled(),
            rest_music_directory: default_rest_music_directory(),
            theme: Theme::Auto,
            autostart: false,
            silent_autostart: false,
            minimize_to_tray: true,
            close_to_tray: true,
            language: Language::EnglishUnitedStates,
            segmented_work_enabled: false,
            work_segments: default_work_segments(),
            version: "1.0.0".to_owned(),
            updated_at: 0,
        }
    }
}

/// The first violation among the segments from index `i` on: minutes
/// out of [1, 120] are an invalid duration, a repeat out of [1, 12]
/// invalid work segments.
pub open spec fn spec_validate_segments(ss: Seq<WorkSegment>, i: int) -> Result<(), AppError>
    decreases ss.len() - i,
{
    if i < 0 || i >= ss.len() {
        Ok(())
    } else if ss[i].work_minutes == 0 || ss[i].work_minutes > 120 {
        Err(AppError::InvalidDuration)
    } else if ss[i].break_minutes == 0 || ss[i].break_minutes > 120 {
        Err(AppError::InvalidDuration)
    } else if ss[i].repeat == 0 || ss[i].repeat > 12 {
        Err(AppError::InvalidWorkSegments)
    } else {
        spec_validate_segments(ss, i + 1)
    }
}

/// Validation verdict for a settings value: base durations in range
/// first, then — with segmentation enabled — a non-empty plan whose
/// segments are all in range, then the opacity.
pub open spec fn spec_validate_settings(s: Settings) -> Result<(), AppError> {
    if s.work_duration == 0 || s.work_duration > 120 {
        Err(AppError::InvalidDuration)
    } else if s.break_duration == 0 || s.break_duration > 120 {
        Err(AppError::InvalidDuration)
    } else if s.segmented_work_enabled && s.work_segments@.len() == 0 {
        Err(AppError::InvalidWorkSegments)
    } else if s.segmented_work_enabled && spec_validate_segments(s.work_segments@, 0) is Err {
        spec_validate_segments(s.work_segments@, 0)
    } else if s.opacity > 100 {
        Err(AppError::InvalidOpacity)
    } else {
        Ok(())
    }
}

/// Check a settings value against the documented ranges before it is
/// applied or persisted. Success exactly when every duration,
/// segment, and the opacity are in range; the error names the first
/// violation found, in field order.
pub fn validate_settings(settings: &Settings) -> (r: Result<(), AppError>)
    ensures
        r is Ok <==> spec_validate_settings(*settings) is Ok,
        r is Err ==> r == spec_validate_settings(*settings),
{
    if settings.work_duration == 0 || settings.work_duration > 120 {
        return Err(AppError::InvalidDuration);
    }
    if settings.break_duration == 0 || settings.break_duration > 120 {
        return Err(AppError::InvalidDuration);
    }
    if settings.segmented_work_enabled {
        if settings.work_segments.len() == 0 {
            return Err(AppError::InvalidWorkSegments);
        }
        let mut i: usize = 0;
        while i < settings.work_segments.len()
            invariant
                0 <= i <= settings.work_segments@.len(),
                1 <= settings.work_duration <= 120,
                1 <= settings.break_duration <= 120,
                settings.segmented_work_enabled,
                settings.work_segments@.len() > 0,
                spec_validate_segments(settings.work_segments@, 0) == spec_validate_segments(
                    settings.work_segments@,
                    i as int,
                ),
            decreases settings.work_segments@.len() - i,
        {
            let segment = settings.work_segments[i];
            if segment.work_minutes == 0 || segment.work_minutes > 120 {
                return Err(AppError::InvalidDuration);
            }
            if segment.break_minutes == 0 || segment.break_minutes > 120 {
                return Err(AppError::InvalidDuration);
            }
            if segment.repeat == 0 || segment.repeat > 12 {
                return Err(AppError::InvalidWorkSegments);
            }
            i = i + 1;
        }
    }
    if settings.opacity > 100 {
        return Err(AppError::InvalidOpacity);
    }
    Ok(())
}

/// The audio file extensions offered in the rest-music picker.
pub open spec fn spec_supported_audio_extension(ext: Seq<u8>) -> bool {
    ||| lower_bytes(ext) == ("mp3").spec_bytes()
    ||| lower_bytes(ext) == ("wav").spec_bytes()
    ||| lower_bytes(ext) == ("flac").spec_bytes()
    ||| lower_bytes(ext) == ("ogg").spec_bytes()
}

/// Whether a file extension names a supported rest-music audio
/// format, compared case-insensitively in the ASCII range.
pub fn is_supported_audio_extension(ext: &str) -> (r: bool)
    ensures
        r == spec_supported_audio_extension(ext.spec_bytes()),
{
    let b = ext.as_bytes();
    eq_lower(b, "mp3".as_bytes()) || eq_lower(b, "wav".as_bytes()) || eq_lower(
        b,
        "flac".as_bytes(),
    ) || eq_lower(b, "ogg".as_bytes())
}

/// The adjustments applied to a settings value before it is saved:
/// tray behavior forced on, and silent autostart only together with
/// autostart.
pub fn normalize_settings_for_save(s: Settings) -> (r: Settings)
    ensures
        r == (Settings {
            minimize_to_tray: true,
            close_to_tray: true,
            silent_autostart: s.autostart && s.silent_autostart,
            ..s
        }),
{
    let mut normalized = s;
    normalized.minimize_to_tray = true;
    normalized.close_to_tray = true;
    if !normalized.autostart && normalized.silent_autostart {
        normalized.silent_autostart = false;
    }
    normalized
}

/// The repairs applied to a loaded settings value, with the fallbacks
/// to use: tray behavior forced on, an all-whitespace rest-music
/// directory replaced by the fallback directory, silent autostart
/// only together with autostart, and an empty segment plan replaced
/// by the fallback plan with segmentation switched off. The second
/// result says whether anything changed and the repaired value needs
/// to be persisted.
pub fn normalize_settings_on_load(
    s: Settings,
    fallback_dir: String,
    fallback_segments: Vec<WorkSegment>,
) -> (r: (Settings, bool))
    ensures
        ({
            let dir_empty = trimmed(s.rest_music_directory@).len() == 0;
            let silent_bad = s.silent_autostart && !s.autostart;
            let segments_empty = s.work_segments@.len() == 0;
            &&& r.0.minimize_to_tray
            &&& r.0.close_to_tray
            &&& r.0.rest_music_directory@ == (if dir_empty {
                fallback_dir@
            } else {
                s.rest_music_directory@
            })
            &&& r.0.silent_autostart == (s.silent_autostart && s.autostart)
            &&& r.0.work_segments@ == (if segments_empty {
                fallback_segments@
            } else {
                s.work_segments@
            })
            &&& r.0.segmented_work_enabled == (if segments_empty {
                false
            } else {
                s.segmented_work_enabled
            })
            &&& r.1 == (!s.minimize_to_tray || !s.close_to_tray || dir_empty || silent_bad
                || segments_empty)
            &&& r.0.work_duration == s.work_duration
            &&& r.0.break_duration == s.break_duration
            &&& r.0.enable_force_break == s.enable_force_break
            &&& r.0.flow_mode_enabled == s.flow_mode_enabled
            &&& r.0.reminder_mode == s.reminder_mode
            &&& r.0.floating_position == s.floating_position
            &&& r.0.opacity == s.opacity
            &&& r.0.play_sound == s.play_sound
            &&& r.0.rest_music_enabled == s.rest_music_enabled
            &&& r.0.theme == s.theme
            &&& r.0.autostart == s.autostart
            &&& r.0.language == s.language
            &&& r.0.version == s.version
            &&& r.0.updated_at == s.updated_at
        }),
{
    let mut settings = s;
    let mut changed = false;
    if !settings.minimize_to_tray {
        settings.minimize_to_tray = true;
        changed = true;
    }
    if !settings.close_to_tray {
        settings.close_to_tray = true;
        changed = true;
    }
    let trimmed_dir = trim_str(settings.rest_music_directory.as_str());
    if trimmed_dir.as_str().is_empty() {
        settings.rest_music_directory = fallback_dir;
        changed = true;
    }
    if settings.silent_autostart && !settings.autostart {
        settings.silent_autostart = false;
        changed = true;
    }
    if settings.work_segments.len() == 0 {
        settings.work_segments = fallback_segments;
        settings.segmented_work_enabled = false;
        changed = true;
    }
    (settings, changed)
}

} // verus!
